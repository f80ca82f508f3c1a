//! The SML meter families and their OBIS layouts.
use vstd::prelude::*;
use crate::text::{lit, str_eq};
use crate::table::StrTable;
use crate::sml::{MeterDefinition, MeterType};

verus! {

/// Views of a list of strings.
pub open spec fn strs(v: Seq<String>) -> Seq<Seq<char>> {
    v.map_values(|s: String| s@)
}

fn str_vec(items: &[&str]) -> (r: Vec<String>)
    ensures
        strs(r@) == items@.map_values(|s: &str| s@),
{
    let mut r: Vec<String> = Vec::new();
    let mut i: usize = 0;
    while i < items.len()
        invariant
            i <= items@.len(),
            strs(r@) == items@.subrange(0, i as int).map_values(|s: &str| s@),
        decreases items.len() - i,
    {
        let ghost before = strs(r@);
        let item = lit(items[i]);
        let ghost iv = item@;
        r.push(item);
        assert(strs(r@) =~= before.push(iv));
        assert(items@.subrange(0, i + 1).map_values(|s: &str| s@)
            =~= items@.subrange(0, i as int).map_values(|s: &str| s@).push(iv));
        i = i + 1;
    }
    assert(items@.subrange(0, items@.len() as int) =~= items@);
    r
}

fn get_emh_obis_mapping() -> (r: StrTable)
    ensures
        r@ == crate::obis_tables::sml_emh_names(),
{
    crate::obis_tables::build_sml_emh_names()
}

fn get_iskraemeco_obis_mapping() -> (r: StrTable)
    ensures
        r@ == crate::obis_tables::sml_iskraemeco_names(),
{
    crate::obis_tables::build_sml_iskraemeco_names()
}

fn get_itron_obis_mapping() -> (r: StrTable)
    ensures
        r@ == crate::obis_tables::sml_itron_names(),
{
    crate::obis_tables::build_sml_itron_names()
}

fn get_easymeter_obis_mapping() -> (r: StrTable)
    ensures
        r@ == crate::obis_tables::sml_easymeter_names(),
{
    crate::obis_tables::build_sml_easymeter_names()
}

fn get_generic_obis_mapping() -> (r: StrTable)
    ensures
        r@ == crate::obis_tables::sml_generic_names(),
{
    crate::obis_tables::build_sml_generic_names()
}

/// The definitions of the SML meter families, by name.
pub struct MeterTable {
    pub entries: Vec<(String, MeterDefinition)>,
}

/// Whether the table's entry `i` has the given name, family, codes, OBIS codes and layout.
pub open spec fn meter_entry(t: MeterTable, i: int, name: Seq<char>, mt: MeterType, codes: Seq<Seq<char>>,
    obis: Seq<Seq<char>>, layout: crate::table::TableView) -> bool {
    &&& t.entries@[i].0@ == name
    &&& t.entries@[i].1.meter_type == mt
    &&& strs(t.entries@[i].1.manufacturer_codes@) == codes
    &&& strs(t.entries@[i].1.supported_obis_codes@) == obis
    &&& t.entries@[i].1.obis_mapping@ == layout
}

impl MeterTable {
    /// Whether a family of that name is listed.
    pub fn contains_key(&self, name: &str) -> (r: bool)
        ensures
            r == exists|i: int| 0 <= i < self.entries@.len() && #[trigger] self.entries@[i].0@ == name@,
    {
        let mut i: usize = 0;
        while i < self.entries.len()
            invariant
                i <= self.entries@.len(),
                forall|j: int| 0 <= j < i ==> self.entries@[j].0@ != name@,
            decreases self.entries.len() - i,
        {
            if str_eq(self.entries[i].0.as_str(), name) {
                return true;
            }
            i = i + 1;
        }
        false
    }

    /// The definition of the family of that name.
    pub fn get(&self, name: &str) -> (r: Option<&MeterDefinition>)
        ensures
            match r {
                Some(d) => exists|i: int| 0 <= i < self.entries@.len() && #[trigger] self.entries@[i].0@ == name@
                    && self.entries@[i].1 == *d,
                None => forall|i: int| 0 <= i < self.entries@.len() ==> self.entries@[i].0@ != name@,
            },
    {
        let mut i: usize = 0;
        while i < self.entries.len()
            invariant
                i <= self.entries@.len(),
                forall|j: int| 0 <= j < i ==> self.entries@[j].0@ != name@,
            decreases self.entries.len() - i,
        {
            if str_eq(self.entries[i].0.as_str(), name) {
                return Some(&self.entries[i].1);
            }
            i = i + 1;
        }
        None
    }

    pub fn len(&self) -> (r: usize)
        ensures
            r == self.entries@.len(),
    {
        self.entries.len()
    }

    pub fn is_empty(&self) -> (r: bool)
        ensures
            r == (self.entries@.len() == 0),
    {
        self.entries.len() == 0
    }
}

/// The supported SML meter families.
pub fn get_supported_meters() -> (r: MeterTable)
    ensures
        r.entries@.len() == 5,
        meter_entry(r, 0, "EMH"@, MeterType::EMH, seq!["EMH"@, "1E"@],
            seq!["1-0:1.8.0"@, "1-0:2.8.0"@, "1-0:16.7.0"@, "1-0:32.7.0"@, "1-0:52.7.0"@, "1-0:72.7.0"@, "1-0:31.7.0"@, "1-0:51.7.0"@, "1-0:71.7.0"@, "1-0:14.7.0"@, "129-129:199.130.3"@, "1-0:0.0.0"@, "1-0:0.0.9"@],
            crate::obis_tables::sml_emh_names()),
        meter_entry(r, 1, "Iskraemeco"@, MeterType::Iskraemeco, seq!["ISK"@, "1I"@],
            seq!["1-0:1.8.0"@, "1-0:1.8.1"@, "1-0:1.8.2"@, "1-0:2.8.0"@, "1-0:2.8.1"@, "1-0:2.8.2"@, "1-0:16.7.0"@, "1-0:36.7.0"@, "1-0:32.7.0"@, "1-0:52.7.0"@, "1-0:72.7.0"@, "1-0:31.7.0"@, "1-0:51.7.0"@, "1-0:71.7.0"@, "1-0:13.7.0"@, "1-0:14.7.0"@, "1-0:0.0.0"@, "1-0:0.0.9"@],
            crate::obis_tables::sml_iskraemeco_names()),
        meter_entry(r, 2, "Itron"@, MeterType::Itron, seq!["ITR"@, "ITO"@],
            seq!["1-0:1.8.0"@, "1-0:2.8.0"@, "1-0:3.8.0"@, "1-0:4.8.0"@, "1-0:9.8.0"@, "1-0:10.8.0"@, "1-0:16.7.0"@, "1-0:36.7.0"@, "1-0:21.7.0"@, "1-0:41.7.0"@, "1-0:61.7.0"@, "1-0:32.7.0"@, "1-0:52.7.0"@, "1-0:72.7.0"@, "1-0:31.7.0"@, "1-0:51.7.0"@, "1-0:71.7.0"@, "1-0:14.7.0"@, "1-0:0.0.0"@],
            crate::obis_tables::sml_itron_names()),
        meter_entry(r, 3, "EasyMeter"@, MeterType::EasyMeter, seq!["EAS"@, "ESY"@],
            seq!["1-0:1.8.0"@, "1-0:2.8.0"@, "1-0:16.7.0"@, "1-0:32.7.0"@, "1-0:52.7.0"@, "1-0:72.7.0"@, "1-0:31.7.0"@, "1-0:51.7.0"@, "1-0:71.7.0"@, "1-0:14.7.0"@, "1-0:0.0.0"@, "1-0:0.0.9"@],
            crate::obis_tables::sml_easymeter_names()),
        meter_entry(r, 4, "Generic"@, MeterType::Generic, seq!["UNK"@, "GEN"@],
            seq!["1-0:1.8.0"@, "1-0:2.8.0"@, "1-0:16.7.0"@, "1-0:0.0.0"@],
            crate::obis_tables::sml_generic_names()),
{
    let mut entries: Vec<(String, MeterDefinition)> = Vec::new();
    let codes: [&str; 2] = ["EMH", "1E"];
    let obis: [&str; 13] = ["1-0:1.8.0", "1-0:2.8.0", "1-0:16.7.0", "1-0:32.7.0", "1-0:52.7.0", "1-0:72.7.0", "1-0:31.7.0", "1-0:51.7.0", "1-0:71.7.0", "1-0:14.7.0", "129-129:199.130.3", "1-0:0.0.0", "1-0:0.0.9"];
    entries.push((lit("EMH"), MeterDefinition {
        meter_type: MeterType::EMH,
        manufacturer_codes: str_vec(&codes),
        supported_obis_codes: str_vec(&obis),
        obis_mapping: get_emh_obis_mapping(),
        description: lit("EMH ED300L Smart Meter"),
    }));
    assert(codes@.map_values(|s: &str| s@) =~= seq!["EMH"@, "1E"@]);
    assert(obis@.map_values(|s: &str| s@) =~= seq!["1-0:1.8.0"@, "1-0:2.8.0"@, "1-0:16.7.0"@, "1-0:32.7.0"@, "1-0:52.7.0"@, "1-0:72.7.0"@, "1-0:31.7.0"@, "1-0:51.7.0"@, "1-0:71.7.0"@, "1-0:14.7.0"@, "129-129:199.130.3"@, "1-0:0.0.0"@, "1-0:0.0.9"@]);
    let codes: [&str; 2] = ["ISK", "1I"];
    let obis: [&str; 18] = ["1-0:1.8.0", "1-0:1.8.1", "1-0:1.8.2", "1-0:2.8.0", "1-0:2.8.1", "1-0:2.8.2", "1-0:16.7.0", "1-0:36.7.0", "1-0:32.7.0", "1-0:52.7.0", "1-0:72.7.0", "1-0:31.7.0", "1-0:51.7.0", "1-0:71.7.0", "1-0:13.7.0", "1-0:14.7.0", "1-0:0.0.0", "1-0:0.0.9"];
    entries.push((lit("Iskraemeco"), MeterDefinition {
        meter_type: MeterType::Iskraemeco,
        manufacturer_codes: str_vec(&codes),
        supported_obis_codes: str_vec(&obis),
        obis_mapping: get_iskraemeco_obis_mapping(),
        description: lit("Iskraemeco MT175/MT631 Smart Meter"),
    }));
    assert(codes@.map_values(|s: &str| s@) =~= seq!["ISK"@, "1I"@]);
    assert(obis@.map_values(|s: &str| s@) =~= seq!["1-0:1.8.0"@, "1-0:1.8.1"@, "1-0:1.8.2"@, "1-0:2.8.0"@, "1-0:2.8.1"@, "1-0:2.8.2"@, "1-0:16.7.0"@, "1-0:36.7.0"@, "1-0:32.7.0"@, "1-0:52.7.0"@, "1-0:72.7.0"@, "1-0:31.7.0"@, "1-0:51.7.0"@, "1-0:71.7.0"@, "1-0:13.7.0"@, "1-0:14.7.0"@, "1-0:0.0.0"@, "1-0:0.0.9"@]);
    let codes: [&str; 2] = ["ITR", "ITO"];
    let obis: [&str; 19] = ["1-0:1.8.0", "1-0:2.8.0", "1-0:3.8.0", "1-0:4.8.0", "1-0:9.8.0", "1-0:10.8.0", "1-0:16.7.0", "1-0:36.7.0", "1-0:21.7.0", "1-0:41.7.0", "1-0:61.7.0", "1-0:32.7.0", "1-0:52.7.0", "1-0:72.7.0", "1-0:31.7.0", "1-0:51.7.0", "1-0:71.7.0", "1-0:14.7.0", "1-0:0.0.0"];
    entries.push((lit("Itron"), MeterDefinition {
        meter_type: MeterType::Itron,
        manufacturer_codes: str_vec(&codes),
        supported_obis_codes: str_vec(&obis),
        obis_mapping: get_itron_obis_mapping(),
        description: lit("Itron OpenWay 3.HZ Smart Meter"),
    }));
    assert(codes@.map_values(|s: &str| s@) =~= seq!["ITR"@, "ITO"@]);
    assert(obis@.map_values(|s: &str| s@) =~= seq!["1-0:1.8.0"@, "1-0:2.8.0"@, "1-0:3.8.0"@, "1-0:4.8.0"@, "1-0:9.8.0"@, "1-0:10.8.0"@, "1-0:16.7.0"@, "1-0:36.7.0"@, "1-0:21.7.0"@, "1-0:41.7.0"@, "1-0:61.7.0"@, "1-0:32.7.0"@, "1-0:52.7.0"@, "1-0:72.7.0"@, "1-0:31.7.0"@, "1-0:51.7.0"@, "1-0:71.7.0"@, "1-0:14.7.0"@, "1-0:0.0.0"@]);
    let codes: [&str; 2] = ["EAS", "ESY"];
    let obis: [&str; 12] = ["1-0:1.8.0", "1-0:2.8.0", "1-0:16.7.0", "1-0:32.7.0", "1-0:52.7.0", "1-0:72.7.0", "1-0:31.7.0", "1-0:51.7.0", "1-0:71.7.0", "1-0:14.7.0", "1-0:0.0.0", "1-0:0.0.9"];
    entries.push((lit("EasyMeter"), MeterDefinition {
        meter_type: MeterType::EasyMeter,
        manufacturer_codes: str_vec(&codes),
        supported_obis_codes: str_vec(&obis),
        obis_mapping: get_easymeter_obis_mapping(),
        description: lit("EasyMeter Smart Meter (SML variant)"),
    }));
    assert(codes@.map_values(|s: &str| s@) =~= seq!["EAS"@, "ESY"@]);
    assert(obis@.map_values(|s: &str| s@) =~= seq!["1-0:1.8.0"@, "1-0:2.8.0"@, "1-0:16.7.0"@, "1-0:32.7.0"@, "1-0:52.7.0"@, "1-0:72.7.0"@, "1-0:31.7.0"@, "1-0:51.7.0"@, "1-0:71.7.0"@, "1-0:14.7.0"@, "1-0:0.0.0"@, "1-0:0.0.9"@]);
    let codes: [&str; 2] = ["UNK", "GEN"];
    let obis: [&str; 4] = ["1-0:1.8.0", "1-0:2.8.0", "1-0:16.7.0", "1-0:0.0.0"];
    entries.push((lit("Generic"), MeterDefinition {
        meter_type: MeterType::Generic,
        manufacturer_codes: str_vec(&codes),
        supported_obis_codes: str_vec(&obis),
        obis_mapping: get_generic_obis_mapping(),
        description: lit("Generic SML Smart Meter"),
    }));
    assert(codes@.map_values(|s: &str| s@) =~= seq!["UNK"@, "GEN"@]);
    assert(obis@.map_values(|s: &str| s@) =~= seq!["1-0:1.8.0"@, "1-0:2.8.0"@, "1-0:16.7.0"@, "1-0:0.0.0"@]);
    MeterTable { entries }
}

/// The family whose manufacturer codes contain `c`.
pub open spec fn family_of_code(c: Seq<char>) -> Option<MeterType> {
    if c == "EMH"@ || c == "1E"@ {
        Some(MeterType::EMH)
    } else if c == "ISK"@ || c == "1I"@ {
        Some(MeterType::Iskraemeco)
    } else if c == "ITR"@ || c == "ITO"@ {
        Some(MeterType::Itron)
    } else if c == "EAS"@ || c == "ESY"@ {
        Some(MeterType::EasyMeter)
    } else if c == "UNK"@ || c == "GEN"@ {
        Some(MeterType::Generic)
    } else {
        None
    }
}

/// The definition of the family that lists `manufacturer_code` among its codes.
pub fn get_meter_by_manufacturer(manufacturer_code: &str) -> (r: Option<MeterDefinition>)
    ensures
        match family_of_code(manufacturer_code@) {
            Some(t) => r matches Some(d) && d.meter_type == t,
            None => r is None,
        },
{
    let c = manufacturer_code;
    let idx: Option<usize> = if str_eq(c, "EMH") || str_eq(c, "1E") {
        Some(0)
    } else if str_eq(c, "ISK") || str_eq(c, "1I") {
        Some(1)
    } else if str_eq(c, "ITR") || str_eq(c, "ITO") {
        Some(2)
    } else if str_eq(c, "EAS") || str_eq(c, "ESY") {
        Some(3)
    } else if str_eq(c, "UNK") || str_eq(c, "GEN") {
        Some(4)
    } else {
        None
    };
    match idx {
        Some(i) => {
            let mut meters = get_supported_meters();
            let (_, def) = meters.entries.remove(i);
            Some(def)
        },
        None => None,
    }
}

/// The OBIS codes of the families `0..i`, in order.
pub open spec fn listed_codes(t: MeterTable, i: int) -> Seq<Seq<char>>
    decreases i,
{
    if i <= 0 {
        Seq::empty()
    } else {
        listed_codes(t, i - 1) + strs(t.entries@[i - 1].1.supported_obis_codes@)
    }
}

/// Whether no string occurs twice.
pub open spec fn distinct(s: Seq<Seq<char>>) -> bool {
    forall|a: int, b: int| 0 <= a < b < s.len() ==> s[a] != s[b]
}

/// The OBIS codes listed by the families, family by family.
pub open spec fn family_obis_codes() -> Seq<Seq<char>> {
    seq!["1-0:1.8.0"@, "1-0:2.8.0"@, "1-0:16.7.0"@, "1-0:32.7.0"@, "1-0:52.7.0"@, "1-0:72.7.0"@, "1-0:31.7.0"@, "1-0:51.7.0"@, "1-0:71.7.0"@, "1-0:14.7.0"@, "129-129:199.130.3"@, "1-0:0.0.0"@, "1-0:0.0.9"@]
        + seq!["1-0:1.8.0"@, "1-0:1.8.1"@, "1-0:1.8.2"@, "1-0:2.8.0"@, "1-0:2.8.1"@, "1-0:2.8.2"@, "1-0:16.7.0"@, "1-0:36.7.0"@, "1-0:32.7.0"@, "1-0:52.7.0"@, "1-0:72.7.0"@, "1-0:31.7.0"@, "1-0:51.7.0"@, "1-0:71.7.0"@, "1-0:13.7.0"@, "1-0:14.7.0"@, "1-0:0.0.0"@, "1-0:0.0.9"@]
        + seq!["1-0:1.8.0"@, "1-0:2.8.0"@, "1-0:3.8.0"@, "1-0:4.8.0"@, "1-0:9.8.0"@, "1-0:10.8.0"@, "1-0:16.7.0"@, "1-0:36.7.0"@, "1-0:21.7.0"@, "1-0:41.7.0"@, "1-0:61.7.0"@, "1-0:32.7.0"@, "1-0:52.7.0"@, "1-0:72.7.0"@, "1-0:31.7.0"@, "1-0:51.7.0"@, "1-0:71.7.0"@, "1-0:14.7.0"@, "1-0:0.0.0"@]
        + seq!["1-0:1.8.0"@, "1-0:2.8.0"@, "1-0:16.7.0"@, "1-0:32.7.0"@, "1-0:52.7.0"@, "1-0:72.7.0"@, "1-0:31.7.0"@, "1-0:51.7.0"@, "1-0:71.7.0"@, "1-0:14.7.0"@, "1-0:0.0.0"@, "1-0:0.0.9"@]
        + seq!["1-0:1.8.0"@, "1-0:2.8.0"@, "1-0:16.7.0"@, "1-0:0.0.0"@]
}

fn find_str(v: &Vec<String>, s: &String) -> (r: Option<usize>)
    ensures
        match r {
            Some(k) => k < v@.len() && v@[k as int]@ == s@,
            None => forall|m: int| 0 <= m < v@.len() ==> v@[m]@ != s@,
        },
{
    let mut k: usize = 0;
    while k < v.len()
        invariant
            k <= v@.len(),
            forall|m: int| 0 <= m < k ==> v@[m]@ != s@,
        decreases v.len() - k,
    {
        if str_eq(v[k].as_str(), s.as_str()) {
            return Some(k);
        }
        k = k + 1;
    }
    None
}

/// All OBIS codes that some family supports, each once, in order of first mention.
pub fn get_all_supported_obis_codes() -> (r: Vec<String>)
    ensures
        distinct(strs(r@)),
        strs(r@).to_set() == family_obis_codes().to_set(),
{
    let meters = get_supported_meters();
    let ghost t = meters;
    let mut out: Vec<String> = Vec::new();
    let mut i: usize = 0;
    while i < meters.entries.len()
        invariant
            meters == t,
            i <= meters.entries@.len(),
            distinct(strs(out@)),
            strs(out@).to_set() == listed_codes(t, i as int).to_set(),
        decreases meters.entries.len() - i,
    {
        let codes = &meters.entries[i].1.supported_obis_codes;
        let ghost base = listed_codes(t, i as int);
        let mut j: usize = 0;
        while j < codes.len()
            invariant
                meters == t,
                i < meters.entries@.len(),
                codes == &t.entries@[i as int].1.supported_obis_codes,
                j <= codes@.len(),
                distinct(strs(out@)),
                strs(out@).to_set() == (base + strs(codes@).subrange(0, j as int)).to_set(),
            decreases codes.len() - j,
        {
            let code = &codes[j];
            let pos = find_str(&out, code);
            let ghost prev = strs(out@);
            let ghost ext = base + strs(codes@).subrange(0, j + 1);
            assert(ext =~= (base + strs(codes@).subrange(0, j as int)).push(code@));
            proof {
                (base + strs(codes@).subrange(0, j as int)).lemma_push_to_set_commute(code@);
                prev.lemma_push_to_set_commute(code@);
            }
            match pos {
                Some(k) => {
                    assert(prev[k as int] == code@);
                    assert(ext.to_set() =~= prev.to_set());
                },
                None => {
                    let c = code.clone();
                    out.push(c);
                    assert(strs(out@) =~= prev.push(code@));
                    assert(strs(out@).to_set() =~= ext.to_set());
                },
            }
            j = j + 1;
        }
        assert(strs(codes@).subrange(0, codes@.len() as int) =~= strs(codes@));
        i = i + 1;
    }
    proof {
        reveal_with_fuel(listed_codes, 6);
        assert(listed_codes(t, 5) =~= family_obis_codes());
    }
    out
}

} // verus!

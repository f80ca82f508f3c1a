//! IEC 62056-21 telegrams: identification line, OBIS data lines, checksum
//! and meter definitions.
use vstd::prelude::*;
use vstd::string::*;
use crate::text::{chars_of, string_of, string_of_range, find_char, rfind_char, first_pos, last_pos,
    lit, str_eq, hex_str_fixed, opt_view, upper_of, to_upper, push_hex_fixed, append_chars};
use crate::obis::{ObisData, trim, trim_bounds, split, split_chars, pieces, lemma_split_nonempty,
    value_unit, is_whitespace_char};
use crate::table::StrTable;
use crate::value::{ValueMap, MapView, ValueView, ScalarView, FieldMap, Scalar, Value, map_insert,
    keys_unique, text_view, put_text, insert_text};
use crate::models::{MeteringData, DeviceProtocol};

verus! {

/// Reasons for rejecting a telegram or one of its lines.
#[derive(Debug, Clone, Copy, PartialEq, Eq, Structural)]
pub enum Iec62056ParseError {
    InvalidFormat,
    UnsupportedMode,
    InvalidObisCode,
    ChecksumFailed,
    DeviceNotConfigured,
    MissingIdentification,
    InvalidDataLine,
}

/// Transmission modes of the standard.
#[derive(Debug, Clone, Copy, PartialEq, Eq, Structural)]
pub enum ProtocolMode {
    ModeA,
    ModeB,
    ModeC,
    ModeD,
}

/// A configured IEC 62056-21 meter.
pub struct Iec62056Config {
    pub id: String,
    pub name: String,
    pub manufacturer: String,
    pub model: String,
    pub mode: ProtocolMode,
    pub baud_rate: u32,
}

/// What the identification line tells about the sending meter.
pub struct DeviceIdentification {
    pub manufacturer: String,
    pub identification: String,
    pub mode: String,
    pub full_id: String,
}

/// A telegram split into identification, data objects and checksum.
pub struct Iec62056Telegram {
    pub identification: DeviceIdentification,
    pub data_objects: Vec<ObisData>,
    pub checksum: Option<String>,
}

/// Meter families with a known OBIS layout.
#[derive(Debug, Clone, Copy, PartialEq, Eq, Structural)]
pub enum MeterType {
    EasyMeter,
    EBZ,
    Generic,
}

/// Properties of a meter family.
pub struct MeterDefinition {
    pub meter_type: MeterType,
    pub manufacturer_code: String,
    pub supported_modes: Vec<ProtocolMode>,
    pub default_baud_rate: u32,
    pub obis_mapping: StrTable,
}

/// Whether `c` occurs in `s`.
pub open spec fn has_char(s: Seq<char>, c: char) -> bool {
    exists|i: int| 0 <= i < s.len() && s[i] == c
}

fn contains_char(v: &Vec<char>, c: char) -> (r: bool)
    ensures
        r == has_char(v@, c),
{
    match find_char(v, c) {
        Some(i) => true,
        None => false,
    }
}

/// The mode letter inferred from an identification string.
pub open spec fn mode_letter(id: Seq<char>) -> Seq<char> {
    if has_char(id, '@') {
        "C"@
    } else if id.len() > 10 {
        "D"@
    } else {
        "A"@
    }
}

fn determine_protocol_mode(identification: &Vec<char>) -> (r: String)
    ensures
        r@ == mode_letter(identification@),
{
    if contains_char(identification, '@') {
        lit("C")
    } else if identification.len() > 10 {
        lit("D")
    } else {
        lit("A")
    }
}

/// Whether `s` starts with `c`.
pub open spec fn starts_with_char(s: Seq<char>, c: char) -> bool {
    s.len() > 0 && s[0] == c
}

/// Splits the identification line (`/`, three letters of manufacturer, model text) into manufacturer, identification and mode.
pub fn parse_identification_line(line: &str) -> (r: Result<DeviceIdentification, Iec62056ParseError>)
    ensures
        !starts_with_char(line@, '/') ==> r == Err::<DeviceIdentification, _>(Iec62056ParseError::MissingIdentification),
        starts_with_char(line@, '/') && line@.len() < 4 ==> r == Err::<DeviceIdentification, _>(Iec62056ParseError::InvalidFormat),
        starts_with_char(line@, '/') && line@.len() >= 4 ==> r is Ok,
        r matches Ok(d) ==> {
            &&& d.manufacturer@ == line@.subrange(1, 4)
            &&& d.identification@ == line@.drop_first()
            &&& d.mode@ == mode_letter(line@.drop_first())
            &&& d.full_id@ == d.manufacturer@ + d.identification@
        },
{
    let v = chars_of(line);
    if !(v.len() > 0 && v[0] == '/') {
        return Err(Iec62056ParseError::MissingIdentification);
    }
    if v.len() < 4 {
        return Err(Iec62056ParseError::InvalidFormat);
    }
    let content = string_of_range(&v, 1, v.len());
    let cv = chars_of(content.as_str());
    assert(cv@ =~= line@.drop_first());
    let manufacturer = string_of_range(&v, 1, 4);
    let mode = determine_protocol_mode(&cv);
    let mut full: Vec<char> = chars_of(manufacturer.as_str());
    append_chars(&mut full, content.as_str());
    let full_id = string_of(&full);
    Ok(DeviceIdentification { manufacturer, identification: content, mode, full_id })
}

/// XOR of the bytes of `b`.
pub open spec fn byte_xor(b: Seq<u8>) -> u8
    decreases b.len(),
{
    if b.len() == 0 {
        0
    } else {
        byte_xor(b.drop_last()) ^ b.last()
    }
}

/// The checksum text of a byte sequence: its block check character (the XOR
/// of all bytes) as two upper-case hex digits.
pub open spec fn checksum_text(b: Seq<u8>) -> Seq<char> {
    hex_str_fixed(byte_xor(b) as nat, 2, true)
}

/// Block check character of `data` (the text from after `/` through `!`), as
/// two upper-case hexadecimal digits.
pub fn calculate_checksum(data: &str) -> (r: String)
    ensures
        r@ == checksum_text(data.spec_bytes()),
{
    let bytes = data.as_bytes();
    let mut x: u8 = 0;
    let mut i: usize = 0;
    while i < bytes.len()
        invariant
            bytes@ == data.spec_bytes(),
            i <= bytes@.len(),
            x == byte_xor(bytes@.subrange(0, i as int)),
        decreases bytes.len() - i,
    {
        assert(bytes@.subrange(0, i + 1).drop_last() =~= bytes@.subrange(0, i as int));
        x = x ^ bytes[i];
        i = i + 1;
    }
    assert(bytes@.subrange(0, bytes@.len() as int) =~= bytes@);
    let mut out: Vec<char> = Vec::new();
    push_hex_fixed(&mut out, x as u64, 2, true);
    string_of(&out)
}

/// Whether `provided_checksum` is the checksum of `telegram`.
pub fn verify_checksum(telegram: &str, provided_checksum: &str) -> (r: bool)
    ensures
        r == (checksum_text(telegram.spec_bytes()) == provided_checksum@),
{
    let calculated = calculate_checksum(telegram);
    str_eq(calculated.as_str(), provided_checksum)
}

/// The meter family of a manufacturer code (already in upper case).
pub open spec fn meter_type_of_code(u: Seq<char>) -> MeterType {
    if u == "ESY"@ || u == "EAS"@ {
        MeterType::EasyMeter
    } else if u == "EBZ"@ {
        MeterType::EBZ
    } else {
        MeterType::Generic
    }
}

fn meter_type_of_upper(u: &str) -> (r: MeterType)
    ensures
        r == meter_type_of_code(u@),
{
    if str_eq(u, "ESY") || str_eq(u, "EAS") {
        MeterType::EasyMeter
    } else if str_eq(u, "EBZ") {
        MeterType::EBZ
    } else {
        MeterType::Generic
    }
}

/// The meter family of a manufacturer code, compared without regard to case.
pub fn get_meter_type_from_manufacturer(manufacturer: &str) -> (r: MeterType)
    ensures
        r == meter_type_of_code(upper_of(manufacturer@)),
{
    let u = to_upper(manufacturer);
    meter_type_of_upper(u.as_str())
}

/// The unit symbol of a value text such as `123.456*kWh`.
pub fn extract_unit(value_str: &str) -> (r: Option<String>)
    ensures
        match r {
            Some(u) => value_unit(value_str@) == Some(u@),
            None => value_unit(value_str@) is None,
        },
{
    crate::obis::extract_unit(value_str)
}

/// `s` without any space character.
pub open spec fn without_spaces(s: Seq<char>) -> Seq<char>
    decreases s.len(),
{
    if s.len() == 0 {
        Seq::empty()
    } else if s.last() == ' ' {
        without_spaces(s.drop_last())
    } else {
        without_spaces(s.drop_last()).push(s.last())
    }
}

/// An OBIS code trimmed and without inner spaces.
pub fn normalize_obis_code(code: &str) -> (r: String)
    ensures
        r@ == without_spaces(trim(code@)),
{
    let v = chars_of(code);
    let (lo, hi) = trim_bounds(&v);
    let mut out: Vec<char> = Vec::new();
    let mut i: usize = lo;
    assert(v@.subrange(lo as int, lo as int) =~= Seq::<char>::empty());
    while i < hi
        invariant
            lo <= i <= hi <= v@.len(),
            out@ == without_spaces(v@.subrange(lo as int, i as int)),
        decreases hi - i,
    {
        assert(v@.subrange(lo as int, i + 1).drop_last() =~= v@.subrange(lo as int, i as int));
        if v[i] != ' ' {
            out.push(v[i]);
        }
        i = i + 1;
    }
    string_of(&out)
}

/// The three parts of a data line `OBIS(VALUE[*UNIT])`, if it has that shape.
pub open spec fn obis_line(line: Seq<char>) -> Option<(Seq<char>, Seq<char>, Option<Seq<char>>)> {
    let l = trim(line);
    match (first_pos(l, '('), last_pos(l, ')')) {
        (Some(ps), Some(pe)) => if ps < pe {
            let value = l.subrange(ps + 1, pe);
            Some((trim(l.subrange(0, ps)), value, value_unit(value)))
        } else {
            None
        },
        _ => None,
    }
}

/// Parses a data line `OBIS(VALUE[*UNIT])`.
pub fn parse_obis_line(line: &str) -> (r: Result<ObisData, Iec62056ParseError>)
    ensures
        match r {
            Ok(d) => obis_line(line@) == Some((d.code@, d.value@, opt_view(d.unit))),
            Err(e) => obis_line(line@) is None && e == Iec62056ParseError::InvalidDataLine,
        },
{
    let v0 = chars_of(line);
    let (lo, hi) = trim_bounds(&v0);
    let ls = string_of_range(&v0, lo, hi);
    let v = chars_of(ls.as_str());
    let ps = match find_char(&v, '(') {
        Some(p) => p,
        None => { return Err(Iec62056ParseError::InvalidDataLine); },
    };
    let pe = match rfind_char(&v, ')') {
        Some(p) => p,
        None => { return Err(Iec62056ParseError::InvalidDataLine); },
    };
    if ps >= pe {
        return Err(Iec62056ParseError::InvalidDataLine);
    }
    let head = string_of_range(&v, 0, ps);
    let code = crate::obis::normalize_obis_code(head.as_str());
    let value = string_of_range(&v, ps + 1, pe);
    let unit = crate::obis::extract_unit(value.as_str());
    Ok(ObisData { code, value, unit })
}

/// Description of a standard OBIS code.
pub fn get_obis_description(obis_code: &str) -> (r: Option<String>)
    ensures
        match r {
            Some(d) => crate::table::table_get(crate::obis_tables::standard_descriptions(), obis_code@) == Some(d@),
            None => crate::table::table_get(crate::obis_tables::standard_descriptions(), obis_code@) is None,
        },
{
    crate::obis::get_obis_description(obis_code)
}

/// Field names of the EasyMeter Q3D OBIS codes.
pub fn get_easymeter_obis_mapping() -> (r: StrTable)
    ensures
        r@ == crate::obis_tables::easymeter_names(),
{
    crate::obis::get_easymeter_obis_mapping()
}

/// Field names of the EBZ DD3 OBIS codes.
pub fn get_ebz_obis_mapping() -> (r: StrTable)
    ensures
        r@ == crate::obis_tables::ebz_names(),
{
    crate::obis::get_ebz_obis_mapping()
}

/// Whether `code` is a well-formed OBIS code.
pub fn validate_obis_code(code: &str) -> (r: bool)
    ensures
        r == crate::obis::valid_obis(code@),
{
    crate::obis::validate_obis_code(code)
}

/// The lines of a text: split at `\n`, a `\r` before the `\n` dropped, no
/// final empty line (like `str::lines`).
pub open spec fn text_lines(s: Seq<char>) -> Seq<Seq<char>> {
    let p = split(s, '\n');
    let body = Seq::new((p.len() - 1) as nat, |i: int| strip_cr(p[i]));
    if p.last().len() == 0 { body } else { body.push(p.last()) }
}

/// `l` without a final carriage return.
pub open spec fn strip_cr(l: Seq<char>) -> Seq<char> {
    if l.len() > 0 && l.last() == '\r' { l.drop_last() } else { l }
}

fn strip_cr_vec(l: &Vec<char>) -> (r: Vec<char>)
    ensures
        r@ == strip_cr(l@),
{
    let mut r = l.clone();
    if r.len() > 0 && r[r.len() - 1] == '\r' {
        r.pop();
    }
    assert(r@ =~= strip_cr(l@));
    r
}

/// The lines of `v`.
pub fn lines_of(v: &Vec<char>) -> (r: Vec<Vec<char>>)
    ensures
        pieces(r@) == text_lines(v@),
{
    let p = split_chars(v, '\n');
    proof { lemma_split_nonempty(v@, '\n'); }
    let ghost ps = split(v@, '\n');
    let n = p.len();
    let mut out: Vec<Vec<char>> = Vec::new();
    let mut i: usize = 0;
    while i + 1 < n
        invariant
            n == p@.len(),
            n >= 1,
            pieces(p@) == ps,
            i <= n - 1,
            pieces(out@) == Seq::new(i as nat, |k: int| strip_cr(ps[k])),
        decreases n - i,
    {
        let l = strip_cr_vec(&p[i]);
        assert(ps[i as int] == p@[i as int]@);
        let ghost before = pieces(out@);
        let ghost lv = l@;
        out.push(l);
        assert(pieces(out@) =~= before.push(lv));
        assert(pieces(out@) =~= Seq::new((i + 1) as nat, |k: int| strip_cr(ps[k])));
        i = i + 1;
    }
    assert(pieces(out@) =~= Seq::new((ps.len() - 1) as nat, |i: int| strip_cr(ps[i])));
    if p[n - 1].len() > 0 {
        let ghost before = pieces(out@);
        let last = p[n - 1].clone();
        out.push(last);
        assert(pieces(out@) =~= before.push(ps.last()));
    }
    out
}

/// Inserts one decoded data line: the value under its code, and its unit under `<code>_unit`.
pub open spec fn insert_obis(m: MapView, code: Seq<char>, value: Seq<char>, unit: Option<Seq<char>>) -> MapView {
    let m1 = map_insert(m, code, text_view(value));
    match unit {
        Some(u) => map_insert(m1, code + "_unit"@, text_view(u)),
        None => m1,
    }
}

/// The fields that the data lines `ls` add to `m`: blank lines are skipped,
/// a line starting with `!` ends the telegram, lines of another shape are skipped.
pub open spec fn data_lines_into(m: MapView, ls: Seq<Seq<char>>) -> MapView
    decreases ls.len(),
{
    if ls.len() == 0 {
        m
    } else {
        let l = ls[0];
        if trim(l).len() == 0 {
            data_lines_into(m, ls.drop_first())
        } else if starts_with_char(l, '!') {
            m
        } else {
            match obis_line(l) {
                Some((code, value, unit)) => data_lines_into(insert_obis(m, code, value, unit), ls.drop_first()),
                None => data_lines_into(m, ls.drop_first()),
            }
        }
    }
}

/// The protocol sub-object of a telegram record.
pub open spec fn iec_proto(manufacturer: Seq<char>, identification: Seq<char>, mode: Seq<char>) -> Seq<(Seq<char>, ScalarView)> {
    let p0 = Seq::<(Seq<char>, ScalarView)>::empty();
    let p1 = map_insert(p0, "type"@, ScalarView::Text("iec62056"@));
    let p2 = map_insert(p1, "manufacturer"@, ScalarView::Text(manufacturer));
    let p3 = map_insert(p2, "identification"@, ScalarView::Text(identification));
    map_insert(p3, "mode"@, ScalarView::Text(mode))
}

proof fn lemma_data_lines_step(m: MapView, ls: Seq<Seq<char>>, i: int)
    requires
        0 <= i < ls.len(),
    ensures
        data_lines_into(m, ls.subrange(i, ls.len() as int)) == if trim(ls[i]).len() == 0 {
            data_lines_into(m, ls.subrange(i + 1, ls.len() as int))
        } else if starts_with_char(ls[i], '!') {
            m
        } else {
            match obis_line(ls[i]) {
                Some((code, value, unit)) => data_lines_into(insert_obis(m, code, value, unit), ls.subrange(i + 1, ls.len() as int)),
                None => data_lines_into(m, ls.subrange(i + 1, ls.len() as int)),
            }
        },
{
    let t = ls.subrange(i, ls.len() as int);
    assert(t[0] == ls[i]);
    assert(t.drop_first() =~= ls.subrange(i + 1, ls.len() as int));
}

/// Stores a decoded data line: its value under its code, its unit under `<code>_unit`.
fn insert_obis_fields(m: &mut ValueMap, obis_data: ObisData)
    requires
        keys_unique(old(m)@),
    ensures
        keys_unique(final(m)@),
        final(m)@ == insert_obis(old(m)@, obis_data.code@, obis_data.value@, opt_view(obis_data.unit)),
{
    let mut key: Vec<char> = chars_of(obis_data.code.as_str());
    append_chars(&mut key, "_unit");
    m.insert(obis_data.code, Value::Scalar(Scalar::Text(obis_data.value)));
    match obis_data.unit {
        Some(u) => {
            m.insert(string_of(&key), Value::Scalar(Scalar::Text(u)));
        },
        None => {},
    }
}

/// Adds the fields of one data line to `m`; tells whether the line ends the telegram.
fn apply_data_line(m: &mut ValueMap, lv: &Vec<char>) -> (stop: bool)
    requires
        keys_unique(old(m)@),
    ensures
        keys_unique(final(m)@),
        stop == (trim(lv@).len() != 0 && starts_with_char(lv@, '!')),
        trim(lv@).len() == 0 ==> final(m)@ == old(m)@,
        stop ==> final(m)@ == old(m)@,
        trim(lv@).len() != 0 && !stop ==> final(m)@ == match obis_line(lv@) {
            Some((code, value, unit)) => insert_obis(old(m)@, code, value, unit),
            None => old(m)@,
        },
{
    let (lo, hi) = trim_bounds(lv);
    if lo == hi {
        return false;
    }
    if lv.len() > 0 && lv[0] == '!' {
        return true;
    }
    let ltext = string_of(lv);
    match parse_obis_line(ltext.as_str()) {
        Ok(obis_data) => insert_obis_fields(m, obis_data),
        Err(e) => {},
    }
    false
}

/// Whether the end line `!` of a telegram starts at position `p`.
pub open spec fn end_mark_at(t: Seq<char>, p: int) -> bool {
    1 <= p < t.len() && t[p - 1] == '\n' && t[p] == '!'
}

/// The position of the first end mark.
pub open spec fn first_end_mark(t: Seq<char>) -> Option<int> {
    if exists|p: int| #[trigger] end_mark_at(t, p) {
        Some(choose|p: int| #[trigger] end_mark_at(t, p) && forall|q: int| 0 <= q < p ==> !end_mark_at(t, q))
    } else {
        None
    }
}

/// The low byte of a character's code.
pub open spec fn char_byte(c: char) -> u8 {
    ((c as u32) % 256) as u8
}

/// XOR of the (low) bytes of the characters `s`.
pub open spec fn xor_chars(s: Seq<char>) -> u8
    decreases s.len(),
{
    if s.len() == 0 { 0 } else { xor_chars(s.drop_last()) ^ char_byte(s.last()) }
}

/// Whether a block check character follows the end mark and differs from the
/// XOR of everything from the character after `/` through `!`.
pub open spec fn bcc_mismatch(t: Seq<char>) -> bool {
    match first_end_mark(t) {
        Some(p) => p + 1 < t.len() && t[p + 1] != '\r' && t[p + 1] != '\n'
            && xor_chars(t.subrange(1, p + 1)) != char_byte(t[p + 1]),
        None => false,
    }
}

fn byte_of(c: char) -> (r: u8)
    ensures
        r == char_byte(c),
{
    ((c as u32) % 256) as u8
}

/// Checks the block check character of a telegram, when one is present.
pub fn bcc_matches(v: &Vec<char>) -> (r: bool)
    ensures
        r == !bcc_mismatch(v@),
{
    let n = v.len();
    let mut p: usize = 1;
    while p < n && !(v[p - 1] == '\n' && v[p] == '!')
        invariant
            n == v@.len(),
            1 <= p,
            forall|q: int| 0 <= q < p ==> !end_mark_at(v@, q),
        decreases n - p,
    {
        p = p + 1;
    }
    if p >= n {
        proof {
            assert forall|q: int| !end_mark_at(v@, q) by {
                if end_mark_at(v@, q) { assert(q < p); }
            }
        }
        return true;
    }
    proof {
        assert(end_mark_at(v@, p as int));
        let k = choose|k: int| #[trigger] end_mark_at(v@, k) && forall|q: int| 0 <= q < k ==> !end_mark_at(v@, q);
        assert(k == p as int) by {
            if k < p { assert(!end_mark_at(v@, k)); }
            if k > p { assert(!end_mark_at(v@, p as int)); }
        }
    }
    if p + 1 >= n || v[p + 1] == '\r' || v[p + 1] == '\n' {
        return true;
    }
    let mut x: u8 = 0;
    let mut i: usize = 1;
    assert(v@.subrange(1, 1) =~= Seq::<char>::empty());
    while i <= p
        invariant
            n == v@.len(),
            1 <= i <= p + 1,
            p < n,
            x == xor_chars(v@.subrange(1, i as int)),
        decreases p + 1 - i,
    {
        assert(v@.subrange(1, i + 1).drop_last() =~= v@.subrange(1, i as int));
        x = x ^ byte_of(v[i]);
        i = i + 1;
    }
    x == byte_of(v[p + 1])
}

/// Decodes a whole telegram into a record of protocol IEC 62056-21.
pub fn parse_iec62056_telegram(telegram: &str) -> (r: Result<MeteringData, Iec62056ParseError>)
    ensures
        text_lines(telegram@).len() == 0 ==> r == Err::<MeteringData, _>(Iec62056ParseError::InvalidFormat),
        text_lines(telegram@).len() > 0 && !starts_with_char(text_lines(telegram@)[0], '/')
            ==> r == Err::<MeteringData, _>(Iec62056ParseError::MissingIdentification),
        text_lines(telegram@).len() > 0 && starts_with_char(text_lines(telegram@)[0], '/')
            && text_lines(telegram@)[0].len() < 4 ==> r == Err::<MeteringData, _>(Iec62056ParseError::InvalidFormat),
        text_lines(telegram@).len() > 0 && starts_with_char(text_lines(telegram@)[0], '/')
            && text_lines(telegram@)[0].len() >= 4 && bcc_mismatch(telegram@)
            ==> r == Err::<MeteringData, _>(Iec62056ParseError::ChecksumFailed),
        text_lines(telegram@).len() > 0 && starts_with_char(text_lines(telegram@)[0], '/')
            && text_lines(telegram@)[0].len() >= 4 && !bcc_mismatch(telegram@) ==> r is Ok,
        r matches Ok(d) ==> {
            let first = text_lines(telegram@)[0];
            let ident = first.drop_first();
            let manufacturer = first.subrange(1, 4);
            &&& d.wf()
            &&& d.protocol == DeviceProtocol::IEC62056
            &&& d.meter_name@ == manufacturer + ident
            &&& d.metered_values@ == map_insert(
                data_lines_into(Seq::empty(), text_lines(telegram@).drop_first()),
                "proto"@,
                ValueView::Object(iec_proto(manufacturer, ident, mode_letter(ident))),
            )
        },
{
    let v = chars_of(telegram);
    let lines = lines_of(&v);
    let ghost ls = pieces(lines@);
    if lines.len() == 0 {
        return Err(Iec62056ParseError::InvalidFormat);
    }
    let first = string_of(&lines[0]);
    assert(ls[0] == lines@[0]@);
    if !(lines[0].len() > 0 && lines[0][0] == '/') {
        return Err(Iec62056ParseError::MissingIdentification);
    }
    let device_info = match parse_identification_line(first.as_str()) {
        Ok(d) => d,
        Err(e) => { return Err(e); },
    };
    if !bcc_matches(&v) {
        return Err(Iec62056ParseError::ChecksumFailed);
    }
    let mut mr = MeteringData::new();
    mr.protocol = DeviceProtocol::IEC62056;

    let mut proto: FieldMap<Scalar> = FieldMap::new();
    put_text(&mut proto, "type", "iec62056");
    put_text(&mut proto, "manufacturer", device_info.manufacturer.as_str());
    put_text(&mut proto, "identification", device_info.identification.as_str());
    put_text(&mut proto, "mode", device_info.mode.as_str());

    let ghost rest = ls.drop_first();
    let mut i: usize = 1;
    let mut done = false;
    proof {
        assert(ls.subrange(1, ls.len() as int) =~= rest);
        assert(mr.metered_values@ =~= Seq::<(Seq<char>, ValueView)>::empty());
    }
    while i < lines.len() && !done
        invariant
            1 <= i <= lines@.len(),
            ls == pieces(lines@),
            rest == ls.drop_first(),
            keys_unique(mr.metered_values@),
            mr.metered_time <= mr.transmission_time,
            mr.protocol == DeviceProtocol::IEC62056,
            done ==> mr.metered_values@ == data_lines_into(Seq::empty(), rest),
            !done ==> data_lines_into(mr.metered_values@, ls.subrange(i as int, ls.len() as int))
                == data_lines_into(Seq::empty(), rest),
        decreases lines.len() - i + (if done { 0int } else { 1int }),
    {
        let ghost m0 = mr.metered_values@;
        proof { lemma_data_lines_step(m0, ls, i as int); }
        assert(lines@[i as int]@ == ls[i as int]);
        let stop = apply_data_line(&mut mr.metered_values, &lines[i]);
        if stop {
            done = true;
        } else {
            i = i + 1;
        }
    }
    proof {
        if !done {
            assert(ls.subrange(i as int, ls.len() as int) =~= Seq::<Seq<char>>::empty());
        }
    }
    let ghost pv = proto@;
    let ghost first_line = text_lines(telegram@)[0];
    assert(first@ == first_line);
    assert(pv == iec_proto(first_line.subrange(1, 4), first_line.drop_first(), mode_letter(first_line.drop_first())));
    assert(mr.metered_values@ == data_lines_into(Seq::empty(), text_lines(telegram@).drop_first()));
    mr.meter_name = device_info.full_id;
    let ghost mbefore = mr.metered_values@;
    mr.metered_values.insert(lit("proto"), Value::Object(proto));
    assert(mr.metered_values@ == map_insert(mbefore, "proto"@, ValueView::Object(pv)));
    assert(mr.meter_name@ == first_line.subrange(1, 4) + first_line.drop_first());
    assert(mr.wf());
    Ok(mr)
}

/// The meter definition of EasyMeter Q3D meters.
pub fn get_easymeter_definition() -> (r: MeterDefinition)
    ensures
        r.meter_type == MeterType::EasyMeter,
        r.manufacturer_code@ == "ESY"@,
        r.supported_modes@ == seq![ProtocolMode::ModeC, ProtocolMode::ModeD],
        r.default_baud_rate == 9600,
        r.obis_mapping@ == crate::obis_tables::iec_easymeter_names(),
{
    MeterDefinition {
        meter_type: MeterType::EasyMeter,
        manufacturer_code: lit("ESY"),
        supported_modes: vec![ProtocolMode::ModeC, ProtocolMode::ModeD],
        default_baud_rate: 9600,
        obis_mapping: crate::obis_tables::build_iec_easymeter_names(),
    }
}

/// The meter definition of EBZ DD3 meters.
pub fn get_ebz_definition() -> (r: MeterDefinition)
    ensures
        r.meter_type == MeterType::EBZ,
        r.manufacturer_code@ == "EBZ"@,
        r.supported_modes@ == seq![ProtocolMode::ModeC, ProtocolMode::ModeD],
        r.default_baud_rate == 9600,
        r.obis_mapping@ == crate::obis_tables::iec_ebz_names(),
{
    MeterDefinition {
        meter_type: MeterType::EBZ,
        manufacturer_code: lit("EBZ"),
        supported_modes: vec![ProtocolMode::ModeC, ProtocolMode::ModeD],
        default_baud_rate: 9600,
        obis_mapping: crate::obis_tables::build_iec_ebz_names(),
    }
}

/// The definition of the meter family of a manufacturer code, compared without regard to case.
pub fn get_meter_definition_by_manufacturer(manufacturer: &str) -> (r: Option<MeterDefinition>)
    ensures
        match meter_type_of_code(upper_of(manufacturer@)) {
            MeterType::Generic => r is None,
            t => r matches Some(d) && d.meter_type == t,
        },
{
    match get_meter_type_from_manufacturer(manufacturer) {
        MeterType::EasyMeter => Some(get_easymeter_definition()),
        MeterType::EBZ => Some(get_ebz_definition()),
        MeterType::Generic => None,
    }
}

/// Sample EasyMeter Q3D telegram.
pub open spec fn easymeter_example() -> Seq<char> {
    "/ESY5Q3D\\@V5.3\n0-0:1.0.0(210101120000W)\n1-0:1.8.0(000123.456*kWh)\n1-0:2.8.0(000012.345*kWh)\n1-0:15.7.0(001.234*kW)\n1-0:32.7.0(230.5*V)\n1-0:52.7.0(231.2*V)\n1-0:72.7.0(229.8*V)\n1-0:31.7.0(05.34*A)\n1-0:51.7.0(04.89*A)\n1-0:71.7.0(05.12*A)\n1-0:14.7.0(50.0*Hz)\n!"@
}

/// Sample EBZ DD3 telegram.
pub open spec fn ebz_example() -> Seq<char> {
    "/EBZ5DD3BL10-112\n0-0:1.0.0(210101120000W)\n1-0:1.8.1(000234.567*kWh)\n1-0:1.8.2(000123.456*kWh)\n1-0:2.8.1(000012.345*kWh)\n1-0:2.8.2(000001.234*kWh)\n1-0:16.7.0(001.500*kW)\n1-0:36.7.0(000.250*kvar)\n1-0:21.7.0(000.500*kW)\n1-0:41.7.0(000.480*kW)\n1-0:61.7.0(000.520*kW)\n1-0:32.7.0(230.1*V)\n1-0:52.7.0(231.5*V)\n1-0:72.7.0(229.3*V)\n1-0:31.7.0(02.17*A)\n1-0:51.7.0(02.09*A)\n1-0:71.7.0(02.24*A)\n1-0:13.7.0(0.95)\n1-0:14.7.0(50.0*Hz)\n!"@
}

/// Sample telegrams of the supported meter families, by name.
pub fn create_example_telegrams() -> (r: StrTable)
    ensures
        r@ == seq![("EasyMeter_Q3D"@, easymeter_example()), ("EBZ_DD3"@, ebz_example())],
{
    let mut examples = StrTable::new();
    examples.entry("EasyMeter_Q3D", "/ESY5Q3D\\@V5.3\n0-0:1.0.0(210101120000W)\n1-0:1.8.0(000123.456*kWh)\n1-0:2.8.0(000012.345*kWh)\n1-0:15.7.0(001.234*kW)\n1-0:32.7.0(230.5*V)\n1-0:52.7.0(231.2*V)\n1-0:72.7.0(229.8*V)\n1-0:31.7.0(05.34*A)\n1-0:51.7.0(04.89*A)\n1-0:71.7.0(05.12*A)\n1-0:14.7.0(50.0*Hz)\n!");
    examples.entry("EBZ_DD3", "/EBZ5DD3BL10-112\n0-0:1.0.0(210101120000W)\n1-0:1.8.1(000234.567*kWh)\n1-0:1.8.2(000123.456*kWh)\n1-0:2.8.1(000012.345*kWh)\n1-0:2.8.2(000001.234*kWh)\n1-0:16.7.0(001.500*kW)\n1-0:36.7.0(000.250*kvar)\n1-0:21.7.0(000.500*kW)\n1-0:41.7.0(000.480*kW)\n1-0:61.7.0(000.520*kW)\n1-0:32.7.0(230.1*V)\n1-0:52.7.0(231.5*V)\n1-0:72.7.0(229.3*V)\n1-0:31.7.0(02.17*A)\n1-0:51.7.0(02.09*A)\n1-0:71.7.0(02.24*A)\n1-0:13.7.0(0.95)\n1-0:14.7.0(50.0*Hz)\n!");
    assert(examples@ =~= seq![("EasyMeter_Q3D"@, easymeter_example()), ("EBZ_DD3"@, ebz_example())]);
    examples
}

} // verus!

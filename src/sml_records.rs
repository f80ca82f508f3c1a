//! Turning a decoded SML `GetListResponse` into a uniform record: meter
//! family, field names and scaled values with units.
use vstd::prelude::*;
use crate::text::{lit, chars_of, string_of, append_chars, contains_chars, contains_seq, starts_with_chars,
    starts_with_seq};
use crate::table::table_get;
use crate::sml::{MeterType, SmlGetListResponse, SmlListEntry, SmlValue, sml_unit, obis_text};
use crate::sml_meters::MeterTable;
use crate::sml_utils::{format_obis_code, hex_lower, parse_sml_value, value_text, apply_scaler_and_unit,
    scaled_value_text, hex_encode};
use crate::models::{MeteringData, DeviceProtocol, TranmissionValueType};
use crate::value::{ValueMap, MapView, Value, Scalar, map_insert, keys_unique, text_view};

verus! {

/// The text of an OBIS code as carried in SML: `A-B:C.D.E.F` for six bytes, hexadecimal otherwise.
pub open spec fn obis_code_text(b: Seq<u8>) -> Seq<char> {
    if b.len() == 6 { obis_text(b[0], b[1], b[2], b[3], b[4], b[5]) } else { hex_lower(b) }
}

/// The family whose name first occurs in the server id, in table order.
pub open spec fn family_named_in(t: Seq<(String, crate::sml::MeterDefinition)>, id: Seq<char>) -> Option<MeterType>
    decreases t.len(),
{
    if t.len() == 0 {
        None
    } else if contains_seq(id, t[0].0@) {
        Some(t[0].1.meter_type)
    } else {
        family_named_in(t.drop_first(), id)
    }
}

/// Whether some entry's OBIS code text starts with `prefix`.
pub open spec fn some_obis_starts(entries: Seq<SmlListEntry>, prefix: Seq<char>) -> bool {
    exists|i: int| 0 <= i < entries.len() && #[trigger] entries[i].obis_code is Some
        && starts_with_seq(obis_code_text(entries[i].obis_code.unwrap()@), prefix)
}

/// The meter family of a server: named in its id, else recognised by its OBIS codes.
pub open spec fn meter_family(t: Seq<(String, crate::sml::MeterDefinition)>, id: Seq<char>, entries: Seq<SmlListEntry>) -> MeterType {
    match family_named_in(t, id) {
        Some(m) => m,
        None => if some_obis_starts(entries, "129-129:"@) {
            MeterType::EMH
        } else if some_obis_starts(entries, "1-0:0.0.0"@) {
            MeterType::Iskraemeco
        } else {
            MeterType::Generic
        },
    }
}

fn obis_starts(entries: &Vec<SmlListEntry>, prefix: &str) -> (r: bool)
    ensures
        r == some_obis_starts(entries@, prefix@),
{
    let p = chars_of(prefix);
    let mut i: usize = 0;
    while i < entries.len()
        invariant
            i <= entries@.len(),
            p@ == prefix@,
            forall|k: int| 0 <= k < i ==> !(#[trigger] entries@[k].obis_code is Some
                && starts_with_seq(obis_code_text(entries@[k].obis_code.unwrap()@), prefix@)),
        decreases entries.len() - i,
    {
        match &entries[i].obis_code {
            Some(b) => {
                let t = format_obis_code(b.as_slice());
                let tv = chars_of(t.as_str());
                if starts_with_chars(&tv, &p) {
                    return true;
                }
            },
            None => {},
        }
        i = i + 1;
    }
    false
}

/// The meter family of a server id and its entries.
pub fn identify_meter_type(definitions: &MeterTable, server_id: &str, val_list: &Vec<SmlListEntry>) -> (r: MeterType)
    ensures
        r == meter_family(definitions.entries@, server_id@, val_list@),
{
    let id = chars_of(server_id);
    let mut i: usize = 0;
    assert(definitions.entries@.subrange(0, definitions.entries@.len() as int) =~= definitions.entries@);
    while i < definitions.entries.len()
        invariant
            i <= definitions.entries@.len(),
            id@ == server_id@,
            family_named_in(definitions.entries@, server_id@)
                == family_named_in(definitions.entries@.subrange(i as int, definitions.entries@.len() as int), server_id@),
        decreases definitions.entries.len() - i,
    {
        let ghost rest = definitions.entries@.subrange(i as int, definitions.entries@.len() as int);
        assert(rest[0] == definitions.entries@[i as int]);
        assert(rest.drop_first() =~= definitions.entries@.subrange(i + 1, definitions.entries@.len() as int));
        let name = chars_of(definitions.entries[i].0.as_str());
        if contains_chars(&id, &name) {
            return definitions.entries[i].1.meter_type;
        }
        i = i + 1;
    }
    if obis_starts(val_list, "129-129:") {
        MeterType::EMH
    } else if obis_starts(val_list, "1-0:0.0.0") {
        MeterType::Iskraemeco
    } else {
        MeterType::Generic
    }
}

/// Field names used when no family layout names a code.
pub open spec fn fallback_field(obis: Seq<char>) -> Option<Seq<char>> {
    if obis == "1-0:1.8.0"@ { Some("total_energy_consumed"@) }
    else if obis == "1-0:2.8.0"@ { Some("total_energy_delivered"@) }
    else if obis == "1-0:16.7.0"@ { Some("current_power"@) }
    else if obis == "1-0:32.7.0"@ { Some("voltage_l1"@) }
    else if obis == "1-0:52.7.0"@ { Some("voltage_l2"@) }
    else if obis == "1-0:72.7.0"@ { Some("voltage_l3"@) }
    else if obis == "1-0:31.7.0"@ { Some("current_l1"@) }
    else if obis == "1-0:51.7.0"@ { Some("current_l2"@) }
    else if obis == "1-0:71.7.0"@ { Some("current_l3"@) }
    else { None }
}

fn fallback(o: &str) -> (r: Option<String>)
    ensures
        crate::text::opt_view(r) == fallback_field(o@),
{
    if crate::text::str_eq(o, "1-0:1.8.0") { Some(lit("total_energy_consumed")) }
    else if crate::text::str_eq(o, "1-0:2.8.0") { Some(lit("total_energy_delivered")) }
    else if crate::text::str_eq(o, "1-0:16.7.0") { Some(lit("current_power")) }
    else if crate::text::str_eq(o, "1-0:32.7.0") { Some(lit("voltage_l1")) }
    else if crate::text::str_eq(o, "1-0:52.7.0") { Some(lit("voltage_l2")) }
    else if crate::text::str_eq(o, "1-0:72.7.0") { Some(lit("voltage_l3")) }
    else if crate::text::str_eq(o, "1-0:31.7.0") { Some(lit("current_l1")) }
    else if crate::text::str_eq(o, "1-0:51.7.0") { Some(lit("current_l2")) }
    else if crate::text::str_eq(o, "1-0:71.7.0") { Some(lit("current_l3")) }
    else { None }
}

/// The field name of an OBIS code: from the first family of that type whose
/// layout names it, else from the fallback names.
pub open spec fn field_name(t: Seq<(String, crate::sml::MeterDefinition)>, mt: MeterType, obis: Seq<char>) -> Option<Seq<char>>
    decreases t.len(),
{
    if t.len() == 0 {
        fallback_field(obis)
    } else if t[0].1.meter_type == mt && table_get(t[0].1.obis_mapping@, obis) is Some {
        table_get(t[0].1.obis_mapping@, obis)
    } else {
        field_name(t.drop_first(), mt, obis)
    }
}

/// The field name of an OBIS code for a meter family.
pub fn get_field_mapping(definitions: &MeterTable, meter_type: MeterType, obis_code: &str) -> (r: Option<String>)
    ensures
        crate::text::opt_view(r) == field_name(definitions.entries@, meter_type, obis_code@),
{
    let mut i: usize = 0;
    assert(definitions.entries@.subrange(0, definitions.entries@.len() as int) =~= definitions.entries@);
    while i < definitions.entries.len()
        invariant
            i <= definitions.entries@.len(),
            field_name(definitions.entries@, meter_type, obis_code@)
                == field_name(definitions.entries@.subrange(i as int, definitions.entries@.len() as int), meter_type, obis_code@),
        decreases definitions.entries.len() - i,
    {
        let ghost rest = definitions.entries@.subrange(i as int, definitions.entries@.len() as int);
        assert(rest[0] == definitions.entries@[i as int]);
        assert(rest.drop_first() =~= definitions.entries@.subrange(i + 1, definitions.entries@.len() as int));
        let d = &definitions.entries[i].1;
        if d.meter_type == meter_type {
            match d.obis_mapping.get(obis_code) {
                Some(f) => { return Some(f); },
                None => {},
            }
        }
        i = i + 1;
    }
    assert(definitions.entries@.subrange(i as int, definitions.entries@.len() as int)
        =~= Seq::<(String, crate::sml::MeterDefinition)>::empty());
    fallback(obis_code)
}

/// The published text of an entry's value: scaled and with its unit symbol
/// when the entry has a scaler or a unit.
pub open spec fn entry_text(e: SmlListEntry) -> Seq<char> {
    let base = value_text(e.value.unwrap());
    if e.scaler is Some || e.unit is Some {
        let scaled = scaled_value_text(base, e.scaler);
        match e.unit {
            Some(u) => match sml_unit(u) {
                Some(sym) => scaled + " "@ + sym,
                None => scaled,
            },
            None => scaled,
        }
    } else {
        base
    }
}

/// The fields that the entries of a list contribute: entries with an OBIS
/// code and a value, under their field name (or the code's text).
pub open spec fn list_fields(t: Seq<(String, crate::sml::MeterDefinition)>, mt: MeterType, entries: Seq<SmlListEntry>) -> MapView
    decreases entries.len(),
{
    if entries.len() == 0 {
        Seq::empty()
    } else {
        let prev = list_fields(t, mt, entries.drop_last());
        let e = entries.last();
        if e.obis_code is Some && e.value is Some {
            let code = obis_code_text(e.obis_code.unwrap()@);
            let name = match field_name(t, mt, code) { Some(f) => f, None => code };
            map_insert(prev, name, text_view(entry_text(e)))
        } else {
            prev
        }
    }
}

fn entry_value_text(e: &SmlListEntry) -> (r: String)
    requires
        e.value is Some,
    ensures
        r@ == entry_text(*e),
{
    let v = match &e.value {
        Some(v) => v,
        None => { return String::new(); },
    };
    let (value_str, _unit) = parse_sml_value(v);
    if e.scaler.is_some() || e.unit.is_some() {
        let (scaled, final_unit) = apply_scaler_and_unit(value_str.as_str(), e.scaler, e.unit);
        match final_unit {
            Some(u) => {
                let mut out = chars_of(scaled.as_str());
                append_chars(&mut out, " ");
                append_chars(&mut out, u.as_str());
                string_of(&out)
            },
            None => scaled,
        }
    } else {
        value_str
    }
}

/// The name under which a server is published: its id in hexadecimal, or `unknown`.
pub open spec fn server_text(server_id: Option<Vec<u8>>) -> Seq<char> {
    match server_id {
        Some(b) => hex_lower(b@),
        None => "unknown"@,
    }
}

/// Builds the record of a `GetListResponse` received at time `now`.
pub fn process_get_list_response(definitions: &MeterTable, response: &SmlGetListResponse, now: u64) -> (r: MeteringData)
    ensures
        r.wf(),
        r.protocol == DeviceProtocol::SML,
        r.id@ == "sml-"@ + server_text(response.server_id),
        r.meter_name@ == "SML-"@ + server_text(response.server_id),
        r.tenant@ == "default"@,
        r.transmission_time == now,
        r.metered_time == now,
        r.metered_values@ == list_fields(definitions.entries@,
            meter_family(definitions.entries@, server_text(response.server_id), response.val_list@), response.val_list@),
{
    let server = match &response.server_id {
        Some(b) => hex_encode(b.as_slice()),
        None => lit("unknown"),
    };
    let meter_type = identify_meter_type(definitions, server.as_str(), &response.val_list);
    let mut values: ValueMap = ValueMap::new();
    let entries = &response.val_list;
    let mut i: usize = 0;
    assert(entries@.subrange(0, 0) =~= Seq::<SmlListEntry>::empty());
    assert(values@ =~= Seq::<(Seq<char>, crate::value::ValueView)>::empty());
    while i < entries.len()
        invariant
            i <= entries@.len(),
            keys_unique(values@),
            values@ == list_fields(definitions.entries@, meter_type, entries@.subrange(0, i as int)),
        decreases entries.len() - i,
    {
        let e = &entries[i];
        assert(entries@.subrange(0, i + 1).drop_last() =~= entries@.subrange(0, i as int));
        assert(entries@.subrange(0, i + 1).last() == *e);
        match (&e.obis_code, &e.value) {
            (Some(code), Some(_)) => {
                let code_text = format_obis_code(code.as_slice());
                let name = match get_field_mapping(definitions, meter_type, code_text.as_str()) {
                    Some(f) => f,
                    None => code_text,
                };
                let text = entry_value_text(e);
                values.insert(name, Value::Scalar(Scalar::Text(text)));
            },
            _ => {},
        }
        i = i + 1;
    }
    assert(entries@.subrange(0, entries@.len() as int) =~= entries@);
    let mut id: Vec<char> = chars_of("sml-");
    append_chars(&mut id, server.as_str());
    let mut name: Vec<char> = chars_of("SML-");
    append_chars(&mut name, server.as_str());
    MeteringData {
        id: string_of(&id),
        meter_name: string_of(&name),
        tenant: lit("default"),
        protocol: DeviceProtocol::SML,
        transmission_time: now,
        transmission_type: TranmissionValueType::Now,
        metered_time: now,
        metered_values: values,
    }
}

/// What the record of a `GetListResponse` holds: its name and its fields.
pub open spec fn list_record(definitions: MeterTable, list: SmlGetListResponse) -> (Seq<char>, MapView) {
    ("SML-"@ + server_text(list.server_id), list_fields(definitions.entries@,
        meter_family(definitions.entries@, server_text(list.server_id), list.val_list@), list.val_list@))
}

/// The records of the `GetListResponse` messages among `msgs`, in order.
pub open spec fn message_records(definitions: MeterTable, msgs: Seq<crate::sml::SmlMessage>) -> Seq<(Seq<char>, MapView)>
    decreases msgs.len(),
{
    if msgs.len() == 0 {
        Seq::empty()
    } else {
        let prev = message_records(definitions, msgs.drop_last());
        match msgs.last().message_body.get_list_response {
            Some(l) => prev.push(list_record(definitions, l)),
            None => prev,
        }
    }
}

/// The name and fields of a record.
pub open spec fn record_view(r: MeteringData) -> (Seq<char>, MapView) {
    (r.meter_name@, r.metered_values@)
}

/// Decodes an SML frame and builds one record per `GetListResponse` message, in order.
pub fn handle_sml_message(definitions: &MeterTable, payload: &[u8], now: u64) -> (r: Result<Vec<MeteringData>, crate::sml::SmlError>)
    ensures
        crate::sml::frame_bounds(payload@) is None ==> r is Err,
        crate::sml::frame_bounds(payload@) matches Some((s, e)) && s + 8 <= e
            && crate::sml_parser::file_messages(payload@.subrange(s + 8, e), 0).len() > 0 ==> r is Ok,
        r matches Ok(records) ==> crate::sml::frame_bounds(payload@) matches Some((s, e)) && s + 8 <= e
            && exists|msgs: Seq<crate::sml::SmlMessage>|
                msgs.map_values(|m: crate::sml::SmlMessage| crate::sml_parser::message_view(m))
                    == crate::sml_parser::file_messages(payload@.subrange(s + 8, e), 0)
                && #[trigger] message_records(*definitions, msgs) == records@.map_values(|x: MeteringData| record_view(x)),
        r matches Ok(records) ==> forall|i: int| 0 <= i < records@.len() ==> {
            &&& (#[trigger] records@[i]).protocol == DeviceProtocol::SML
            &&& records@[i].wf()
            &&& records@[i].transmission_time == now
        },
{
    match crate::sml::parse_sml_message(payload) {
        Ok(file) => {
            let out = records_of_messages(definitions, &file.messages, now);
            proof {
                let msgs = file.messages@;
                assert(message_records(*definitions, msgs) == out@.map_values(|x: MeteringData| record_view(x)));
            }
            Ok(out)
        },
        Err(e) => Err(e),
    }
}

/// The records of the `GetListResponse` messages, in order.
fn records_of_messages(definitions: &MeterTable, messages: &Vec<crate::sml::SmlMessage>, now: u64) -> (out: Vec<MeteringData>)
    ensures
        message_records(*definitions, messages@) == out@.map_values(|x: MeteringData| record_view(x)),
        forall|k: int| 0 <= k < out@.len() ==> {
            &&& (#[trigger] out@[k]).protocol == DeviceProtocol::SML
            &&& out@[k].wf()
            &&& out@[k].transmission_time == now
        },
{
    let mut out: Vec<MeteringData> = Vec::new();
    let mut i: usize = 0;
    assert(messages@.subrange(0, 0) =~= Seq::<crate::sml::SmlMessage>::empty());
    assert(out@.map_values(|x: MeteringData| record_view(x)) =~= Seq::<(Seq<char>, MapView)>::empty());
    while i < messages.len()
        invariant
            i <= messages@.len(),
            message_records(*definitions, messages@.subrange(0, i as int))
                == out@.map_values(|x: MeteringData| record_view(x)),
            forall|k: int| 0 <= k < out@.len() ==> {
                &&& (#[trigger] out@[k]).protocol == DeviceProtocol::SML
                &&& out@[k].wf()
                &&& out@[k].transmission_time == now
            },
        decreases messages.len() - i,
    {
        let ghost before = out@.map_values(|x: MeteringData| record_view(x));
        assert(messages@.subrange(0, i + 1).drop_last() =~= messages@.subrange(0, i as int));
        assert(messages@.subrange(0, i + 1).last() == messages@[i as int]);
        match &messages[i].message_body.get_list_response {
            Some(list) => {
                let record = process_get_list_response(definitions, list, now);
                let ghost rv = record_view(record);
                out.push(record);
                assert(out@.map_values(|x: MeteringData| record_view(x)) =~= before.push(rv));
            },
            None => {},
        }
        i = i + 1;
    }
    assert(messages@.subrange(0, messages@.len() as int) =~= messages@);
    out
}

/// Decodes an SML frame received as hexadecimal text; none when the text is
/// not hexadecimal.
pub fn decode_sml_hex(text: &str, definitions: &MeterTable, now: u64) -> (r: Option<Result<Vec<MeteringData>, crate::sml::SmlError>>)
    ensures
        crate::oms::hex_bytes(text@) is None ==> r is None,
        crate::oms::hex_bytes(text@) matches Some(b) ==> r matches Some(res) && {
            &&& crate::sml::frame_bounds(b) is None ==> res is Err
            &&& (crate::sml::frame_bounds(b) matches Some((s, e)) && s + 8 <= e
                && crate::sml_parser::file_messages(b.subrange(s + 8, e), 0).len() > 0 ==> res is Ok)
        },
{
    match crate::oms::hex_decode(text) {
        Some(bytes) => Some(handle_sml_message(definitions, bytes.as_slice(), now)),
        None => None,
    }
}

} // verus!

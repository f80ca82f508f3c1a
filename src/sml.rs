//! SML data structures, OBIS rendering, unit codes and frame boundaries.
use vstd::prelude::*;
use crate::text::{lit, push_dec, dec_str};
use crate::table::StrTable;

verus! {

/// Reasons for rejecting an SML frame.
#[derive(Debug)]
pub enum SmlError {
    InvalidMessage,
    ParseError(String),
}

/// Meter families with SML support.
#[derive(Debug, Clone, Copy, PartialEq, Eq, Structural)]
pub enum MeterType {
    EMH,
    Iskraemeco,
    EasyMeter,
    Itron,
    Generic,
}

/// Properties of an SML meter family.
pub struct MeterDefinition {
    pub meter_type: MeterType,
    pub manufacturer_codes: Vec<String>,
    pub supported_obis_codes: Vec<String>,
    pub obis_mapping: StrTable,
    pub description: String,
}

/// A decoded SML file: its messages in order.
pub struct SmlFile {
    pub messages: Vec<SmlMessage>,
}

pub struct SmlMessage {
    pub transaction_id: Vec<u8>,
    pub group_no: u8,
    pub abort_on_error: u8,
    pub message_body: SmlMessageBody,
    pub crc: Option<u16>,
    pub end_of_message: u8,
    pub client_id: Option<Vec<u8>>,
}

pub struct SmlMessageBody {
    pub msg_type: u16,
    pub get_list_response: Option<SmlGetListResponse>,
    pub get_proc_parameter_response: Option<SmlGetProcParameterResponse>,
    pub attention_response: Option<SmlAttentionMessage>,
}

pub struct SmlGetListResponse {
    pub client_id: Option<Vec<u8>>,
    pub server_id: Option<Vec<u8>>,
    pub list_name: Option<Vec<u8>>,
    pub act_sensor_time: Option<u32>,
    pub val_list: Vec<SmlListEntry>,
    pub list_signature: Option<Vec<u8>>,
    pub act_gateway_time: Option<u32>,
}

pub struct SmlListEntry {
    pub obis_code: Option<Vec<u8>>,
    pub status: Option<u64>,
    pub val_time: Option<u32>,
    pub unit: Option<u8>,
    pub scaler: Option<i8>,
    pub value: Option<SmlValue>,
    pub value_signature: Option<Vec<u8>>,
}

pub enum SmlValue {
    Bool(bool),
    Int8(i8),
    Int16(i16),
    Int32(i32),
    Int64(i64),
    UInt8(u8),
    UInt16(u16),
    UInt32(u32),
    UInt64(u64),
    OctetString(Vec<u8>),
    List(Vec<SmlValue>),
}

pub struct SmlGetProcParameterResponse {
    pub server_id: Option<Vec<u8>>,
    pub parameter_tree_path: Vec<u8>,
    pub parameter_tree: Option<SmlTree>,
}

pub struct SmlTree {
    pub parameter_name: Option<Vec<u8>>,
    pub parameter_value: Option<SmlValue>,
    pub child_list: Option<Vec<SmlTree>>,
}

pub struct SmlAttentionMessage {
    pub server_id: Option<Vec<u8>>,
    pub attention_no: Vec<u8>,
    pub attention_msg: Option<Vec<u8>>,
    pub attention_details: Option<SmlTree>,
}

/// The six bytes of an OBIS code as carried in SML.
#[derive(Debug, Clone, Copy, PartialEq, Eq, Structural)]
pub struct SmlObisCode {
    pub medium: u8,
    pub channel: u8,
    pub indicator: u8,
    pub mode: u8,
    pub tariff: u8,
    pub previous: u8,
}

/// The rendering `A-B:C.D.E.F` of six OBIS bytes.
pub open spec fn obis_text(a: u8, b: u8, c: u8, d: u8, e: u8, f: u8) -> Seq<char> {
    dec_str(a as nat) + "-"@ + dec_str(b as nat) + ":"@ + dec_str(c as nat) + "."@ + dec_str(d as nat)
        + "."@ + dec_str(e as nat) + "."@ + dec_str(f as nat)
}

impl SmlObisCode {
    /// The code held by six bytes; none for another length.
    pub fn from_bytes(bytes: &[u8]) -> (r: Option<SmlObisCode>)
        ensures
            bytes@.len() == 6 <==> r is Some,
            r matches Some(o) ==> o.medium == bytes@[0] && o.channel == bytes@[1] && o.indicator == bytes@[2]
                && o.mode == bytes@[3] && o.tariff == bytes@[4] && o.previous == bytes@[5],
    {
        if bytes.len() == 6 {
            Some(SmlObisCode {
                medium: bytes[0],
                channel: bytes[1],
                indicator: bytes[2],
                mode: bytes[3],
                tariff: bytes[4],
                previous: bytes[5],
            })
        } else {
            None
        }
    }

    /// The rendering `A-B:C.D.E.F`, each field in decimal.
    pub fn to_string(&self) -> (r: String)
        ensures
            r@ == obis_text(self.medium, self.channel, self.indicator, self.mode, self.tariff, self.previous),
    {
        let mut v: Vec<char> = Vec::new();
        push_dec(&mut v, self.medium as u64);
        v.push('-');
        push_dec(&mut v, self.channel as u64);
        v.push(':');
        push_dec(&mut v, self.indicator as u64);
        v.push('.');
        push_dec(&mut v, self.mode as u64);
        v.push('.');
        push_dec(&mut v, self.tariff as u64);
        v.push('.');
        push_dec(&mut v, self.previous as u64);
        proof {
            reveal_strlit("-");
            reveal_strlit(":");
            reveal_strlit(".");
        }
        assert(v@ =~= obis_text(self.medium, self.channel, self.indicator, self.mode, self.tariff, self.previous));
        crate::text::string_of(&v)
    }
}

/// The symbol of an SML unit code.
pub open spec fn sml_unit(code: u8) -> Option<Seq<char>> {
    if code == 1 {
        Some("a"@)
    } else if code == 2 {
        Some("mo"@)
    } else if code == 3 {
        Some("wk"@)
    } else if code == 4 {
        Some("d"@)
    } else if code == 5 {
        Some("h"@)
    } else if code == 6 {
        Some("min"@)
    } else if code == 7 {
        Some("s"@)
    } else if code == 8 {
        Some("°"@)
    } else if code == 9 {
        Some("°C"@)
    } else if code == 10 {
        Some("K"@)
    } else if code == 11 {
        Some("m"@)
    } else if code == 12 {
        Some("dm"@)
    } else if code == 13 {
        Some("cm"@)
    } else if code == 14 {
        Some("mm"@)
    } else if code == 15 {
        Some("km"@)
    } else if code == 16 {
        Some("m²"@)
    } else if code == 17 {
        Some("m³"@)
    } else if code == 18 {
        Some("l"@)
    } else if code == 19 {
        Some("kg"@)
    } else if code == 20 {
        Some("g"@)
    } else if code == 21 {
        Some("t"@)
    } else if code == 22 {
        Some("N"@)
    } else if code == 23 {
        Some("Pa"@)
    } else if code == 24 {
        Some("bar"@)
    } else if code == 25 {
        Some("J"@)
    } else if code == 26 {
        Some("kJ"@)
    } else if code == 27 {
        Some("Wh"@)
    } else if code == 28 {
        Some("kWh"@)
    } else if code == 29 {
        Some("MWh"@)
    } else if code == 30 {
        Some("W"@)
    } else if code == 31 {
        Some("kW"@)
    } else if code == 32 {
        Some("MW"@)
    } else if code == 33 {
        Some("var"@)
    } else if code == 34 {
        Some("kvar"@)
    } else if code == 35 {
        Some("VA"@)
    } else if code == 36 {
        Some("kVA"@)
    } else if code == 37 {
        Some("V"@)
    } else if code == 38 {
        Some("mV"@)
    } else if code == 39 {
        Some("kV"@)
    } else if code == 40 {
        Some("A"@)
    } else if code == 41 {
        Some("mA"@)
    } else if code == 42 {
        Some("kA"@)
    } else if code == 43 {
        Some("Ω"@)
    } else if code == 44 {
        Some("mΩ"@)
    } else if code == 45 {
        Some("kΩ"@)
    } else if code == 46 {
        Some("F"@)
    } else if code == 47 {
        Some("C"@)
    } else if code == 48 {
        Some("Hz"@)
    } else if code == 49 {
        Some("kHz"@)
    } else if code == 50 {
        Some("MHz"@)
    } else if code == 51 {
        Some("1/h"@)
    } else if code == 52 {
        Some("1/d"@)
    } else if code == 53 {
        Some("1/wk"@)
    } else if code == 54 {
        Some("1/mo"@)
    } else if code == 55 {
        Some("1/a"@)
    } else {
        None
    }
}

/// The symbol of an SML unit code, if the code is known.
pub fn get_sml_unit_name(unit_code: u8) -> (r: Option<String>)
    ensures
        match r {
            Some(s) => sml_unit(unit_code) == Some(s@),
            None => sml_unit(unit_code) is None,
        },
{
    if unit_code == 1 {
        Some(lit("a"))
    } else if unit_code == 2 {
        Some(lit("mo"))
    } else if unit_code == 3 {
        Some(lit("wk"))
    } else if unit_code == 4 {
        Some(lit("d"))
    } else if unit_code == 5 {
        Some(lit("h"))
    } else if unit_code == 6 {
        Some(lit("min"))
    } else if unit_code == 7 {
        Some(lit("s"))
    } else if unit_code == 8 {
        Some(lit("°"))
    } else if unit_code == 9 {
        Some(lit("°C"))
    } else if unit_code == 10 {
        Some(lit("K"))
    } else if unit_code == 11 {
        Some(lit("m"))
    } else if unit_code == 12 {
        Some(lit("dm"))
    } else if unit_code == 13 {
        Some(lit("cm"))
    } else if unit_code == 14 {
        Some(lit("mm"))
    } else if unit_code == 15 {
        Some(lit("km"))
    } else if unit_code == 16 {
        Some(lit("m²"))
    } else if unit_code == 17 {
        Some(lit("m³"))
    } else if unit_code == 18 {
        Some(lit("l"))
    } else if unit_code == 19 {
        Some(lit("kg"))
    } else if unit_code == 20 {
        Some(lit("g"))
    } else if unit_code == 21 {
        Some(lit("t"))
    } else if unit_code == 22 {
        Some(lit("N"))
    } else if unit_code == 23 {
        Some(lit("Pa"))
    } else if unit_code == 24 {
        Some(lit("bar"))
    } else if unit_code == 25 {
        Some(lit("J"))
    } else if unit_code == 26 {
        Some(lit("kJ"))
    } else if unit_code == 27 {
        Some(lit("Wh"))
    } else if unit_code == 28 {
        Some(lit("kWh"))
    } else if unit_code == 29 {
        Some(lit("MWh"))
    } else if unit_code == 30 {
        Some(lit("W"))
    } else if unit_code == 31 {
        Some(lit("kW"))
    } else if unit_code == 32 {
        Some(lit("MW"))
    } else if unit_code == 33 {
        Some(lit("var"))
    } else if unit_code == 34 {
        Some(lit("kvar"))
    } else if unit_code == 35 {
        Some(lit("VA"))
    } else if unit_code == 36 {
        Some(lit("kVA"))
    } else if unit_code == 37 {
        Some(lit("V"))
    } else if unit_code == 38 {
        Some(lit("mV"))
    } else if unit_code == 39 {
        Some(lit("kV"))
    } else if unit_code == 40 {
        Some(lit("A"))
    } else if unit_code == 41 {
        Some(lit("mA"))
    } else if unit_code == 42 {
        Some(lit("kA"))
    } else if unit_code == 43 {
        Some(lit("Ω"))
    } else if unit_code == 44 {
        Some(lit("mΩ"))
    } else if unit_code == 45 {
        Some(lit("kΩ"))
    } else if unit_code == 46 {
        Some(lit("F"))
    } else if unit_code == 47 {
        Some(lit("C"))
    } else if unit_code == 48 {
        Some(lit("Hz"))
    } else if unit_code == 49 {
        Some(lit("kHz"))
    } else if unit_code == 50 {
        Some(lit("MHz"))
    } else if unit_code == 51 {
        Some(lit("1/h"))
    } else if unit_code == 52 {
        Some(lit("1/d"))
    } else if unit_code == 53 {
        Some(lit("1/wk"))
    } else if unit_code == 54 {
        Some(lit("1/mo"))
    } else if unit_code == 55 {
        Some(lit("1/a"))
    } else {
        None
    }
}

/// Whether the start sequence (four 0x1B bytes, then 0x01) begins at `i`.
pub open spec fn start_seq_at(d: Seq<u8>, i: int) -> bool {
    0 <= i && i + 5 <= d.len() && d[i] == 0x1B && d[i + 1] == 0x1B && d[i + 2] == 0x1B && d[i + 3] == 0x1B
        && d[i + 4] == 0x01
}

/// Whether the end sequence (three 0x1B bytes, then 0x1A) begins at `i`.
pub open spec fn end_seq_at(d: Seq<u8>, i: int) -> bool {
    0 <= i && i + 4 <= d.len() && d[i] == 0x1B && d[i + 1] == 0x1B && d[i + 2] == 0x1B && d[i + 3] == 0x1A
}

/// Position of the first start sequence.
pub fn find_sml_start(data: &[u8]) -> (r: Result<usize, SmlError>)
    ensures
        match r {
            Ok(i) => start_seq_at(data@, i as int) && forall|j: int| 0 <= j < i ==> !start_seq_at(data@, j),
            Err(e) => e is InvalidMessage && forall|j: int| 0 <= j < data@.len() ==> !start_seq_at(data@, j),
        },
{
    let n = data.len();
    let mut i: usize = 0;
    while n >= 5 && i <= n - 5
        invariant
            n == data@.len(),
            forall|j: int| 0 <= j < i ==> !start_seq_at(data@, j),
        decreases n - i,
    {
        if data[i] == 0x1B && data[i + 1] == 0x1B && data[i + 2] == 0x1B && data[i + 3] == 0x1B && data[i + 4] == 0x01 {
            return Ok(i);
        }
        i = i + 1;
    }
    Err(SmlError::InvalidMessage)
}

/// Position of the first end sequence that begins at least four bytes after `start_pos`.
pub fn find_sml_end(data: &[u8], start_pos: usize) -> (r: Result<usize, SmlError>)
    ensures
        match r {
            Ok(i) => i >= start_pos + 4 && end_seq_at(data@, i as int)
                && forall|j: int| start_pos + 4 <= j < i ==> !end_seq_at(data@, j),
            Err(e) => e is InvalidMessage && forall|j: int| start_pos + 4 <= j < data@.len() ==> !end_seq_at(data@, j),
        },
{
    let n = data.len();
    if start_pos > n {
        return Err(SmlError::InvalidMessage);
    }
    let mut i: usize = start_pos;
    if n - start_pos < 4 {
        return Err(SmlError::InvalidMessage);
    }
    i = start_pos + 4;
    while n >= 4 && i <= n - 4
        invariant
            n == data@.len(),
            start_pos + 4 <= i,
            forall|j: int| start_pos + 4 <= j < i ==> !end_seq_at(data@, j),
        decreases n - i,
    {
        if data[i] == 0x1B && data[i + 1] == 0x1B && data[i + 2] == 0x1B && data[i + 3] == 0x1A {
            return Ok(i);
        }
        i = i + 1;
    }
    Err(SmlError::InvalidMessage)
}

/// The first frame of `d`: start position and end position, the end sought
/// from four bytes after the start.
pub open spec fn frame_bounds(d: Seq<u8>) -> Option<(int, int)> {
    if exists|i: int| start_seq_at(d, i) {
        let s = choose|i: int| start_seq_at(d, i) && forall|j: int| 0 <= j < i ==> !start_seq_at(d, j);
        if exists|k: int| s + 4 <= k && end_seq_at(d, k) {
            let e = choose|k: int| s + 4 <= k && end_seq_at(d, k) && forall|j: int| s + 4 <= j < k ==> !end_seq_at(d, j);
            Some((s, e))
        } else {
            None
        }
    } else {
        None
    }
}

proof fn lemma_frame_none(d: Seq<u8>, p: int)
    requires
        start_seq_at(d, p),
        forall|j: int| 0 <= j < p ==> !start_seq_at(d, j),
        forall|j: int| p + 4 <= j < d.len() ==> !end_seq_at(d, j),
    ensures
        frame_bounds(d) is None,
{
    let s = choose|i: int| start_seq_at(d, i) && forall|j: int| 0 <= j < i ==> !start_seq_at(d, j);
    assert(s == p) by {
        if s < p { assert(!start_seq_at(d, s)); }
        if s > p { assert(!start_seq_at(d, p)); }
    }
}

proof fn lemma_frame_some(d: Seq<u8>, p: int, q: int)
    requires
        start_seq_at(d, p),
        forall|j: int| 0 <= j < p ==> !start_seq_at(d, j),
        q >= p + 4,
        end_seq_at(d, q),
        forall|j: int| p + 4 <= j < q ==> !end_seq_at(d, j),
    ensures
        frame_bounds(d) == Some((p, q)),
{
    let s = choose|i: int| start_seq_at(d, i) && forall|j: int| 0 <= j < i ==> !start_seq_at(d, j);
    assert(s == p) by {
        if s < p { assert(!start_seq_at(d, s)); }
        if s > p { assert(!start_seq_at(d, p)); }
    }
    let e = choose|k: int| s + 4 <= k && end_seq_at(d, k) && forall|j: int| s + 4 <= j < k ==> !end_seq_at(d, j);
    assert(e == q) by {
        if e < q { assert(!end_seq_at(d, e)); }
        if e > q { assert(!end_seq_at(d, q)); }
    }
}

fn copy_range(data: &[u8], lo: usize, hi: usize) -> (r: Vec<u8>)
    requires
        lo <= hi <= data@.len(),
    ensures
        r@ == data@.subrange(lo as int, hi as int),
{
    let mut r: Vec<u8> = Vec::new();
    let mut i: usize = lo;
    while i < hi
        invariant
            lo <= i <= hi <= data@.len(),
            r@ == data@.subrange(lo as int, i as int),
        decreases hi - i,
    {
        r.push(data[i]);
        i = i + 1;
        assert(r@ =~= data@.subrange(lo as int, i as int));
    }
    r
}

/// Decodes the first SML frame in `data`: the bytes between the eight-byte
/// start (escape and version) and the end sequence, as a file of messages.
pub fn parse_sml_message(data: &[u8]) -> (r: Result<SmlFile, SmlError>)
    ensures
        frame_bounds(data@) is None ==> r matches Err(SmlError::InvalidMessage),
        frame_bounds(data@) matches Some((s, e)) && e < s + 8 ==> r matches Err(SmlError::InvalidMessage),
        r matches Ok(f) ==> frame_bounds(data@) matches Some((s, e)) && s + 8 <= e && {
            &&& f.messages@.map_values(|m: SmlMessage| crate::sml_parser::message_view(m))
                == crate::sml_parser::file_messages(data@.subrange(s + 8, e), 0)
        },
        frame_bounds(data@) matches Some((s, e)) && s + 8 <= e
            && crate::sml_parser::file_messages(data@.subrange(s + 8, e), 0).len() > 0 ==> r is Ok,
{
    let start_pos = match find_sml_start(data) {
        Ok(p) => p,
        Err(e) => {
            return Err(e);
        },
    };
    let end_pos = match find_sml_end(data, start_pos) {
        Ok(p) => p,
        Err(e) => {
            proof { lemma_frame_none(data@, start_pos as int); }
            return Err(e);
        },
    };
    proof { lemma_frame_some(data@, start_pos as int, end_pos as int); }
    if end_pos - start_pos < 8 {
        return Err(SmlError::InvalidMessage);
    }
    let content = copy_range(data, start_pos + 8, end_pos);
    let mut parser = crate::sml_parser::SmlParser::new(content.as_slice());
    parser.parse_sml_file()
}

} // verus!

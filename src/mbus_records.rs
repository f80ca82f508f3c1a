//! Decoding of M-Bus data records (DIF, VIF, data) into named, scaled fields.
use vstd::prelude::*;
use crate::text::{lit, string_of, push_dec, push_dec_padded, push_hex, dec_str, dec_str_padded, hex_str,
    append_chars};
use crate::value::{ValueMap, MapView, ValueView, ScalarView, Scalar, Value, map_insert, map_get, keys_unique,
    text_view, lemma_map_insert_get};
use crate::mbus_vif::{VifFunc, VifEntry, VifRow, vif_primary, vif_fb, vif_fd, vif_primary_lookup,
    vif_fb_lookup, vif_fd_lookup};
use crate::sml_parser::{pow256, lemma_pow256_values, lemma_pow256_mono};

verus! {

/// What a DIF announces: nothing to read, a little-endian integer of some
/// bytes, a BCD number of some bytes, or a 32-bit real.
#[derive(Debug, Clone, Copy, PartialEq, Eq, Structural)]
pub enum DifKind {
    NoData,
    Int(u8),
    Bcd(u8),
    Real,
}

/// The kind of a DIF byte; unknown ones carry no data.
pub open spec fn dif_kind(d: u8) -> DifKind {
    if d == 0x01 { DifKind::Int(1) }
    else if d == 0x02 { DifKind::Int(2) }
    else if d == 0x03 { DifKind::Int(3) }
    else if d == 0x04 { DifKind::Int(4) }
    else if d == 0x05 { DifKind::Real }
    else if d == 0x06 { DifKind::Int(6) }
    else if d == 0x07 { DifKind::Int(8) }
    else if d == 0x0C { DifKind::Bcd(4) }
    else if d == 0xF0 { DifKind::Bcd(4) }
    else { DifKind::NoData }
}

fn get_dif_function(d: u8) -> (r: DifKind)
    ensures
        r == dif_kind(d),
{
    if d == 0x01 { DifKind::Int(1) }
    else if d == 0x02 { DifKind::Int(2) }
    else if d == 0x03 { DifKind::Int(3) }
    else if d == 0x04 { DifKind::Int(4) }
    else if d == 0x05 { DifKind::Real }
    else if d == 0x06 { DifKind::Int(6) }
    else if d == 0x07 { DifKind::Int(8) }
    else if d == 0x0C { DifKind::Bcd(4) }
    else if d == 0xF0 { DifKind::Bcd(4) }
    else { DifKind::NoData }
}

/// Number of data bytes of a DIF kind.
pub open spec fn kind_size(k: DifKind) -> nat {
    match k {
        DifKind::NoData => 0,
        DifKind::Int(n) => n as nat,
        DifKind::Bcd(n) => n as nat,
        DifKind::Real => 4,
    }
}

/// Little-endian unsigned value of `s`.
pub open spec fn le_uint(s: Seq<u8>) -> nat
    decreases s.len(),
{
    if s.len() == 0 { 0 } else { s[0] as nat + 256 * le_uint(s.drop_first()) }
}

/// Decimal value of BCD digits, high nibble first in each byte, the last byte most significant.
pub open spec fn bcd_value(s: Seq<u8>) -> nat
    decreases s.len(),
{
    if s.len() == 0 { 0 } else { bcd_value(s.drop_first()) * 100 + ((s[0] >> 4u8) * 10 + (s[0] & 0x0Fu8)) as nat }
}

/// A raw data value: a number, or a real that is not decoded.
pub enum Raw {
    Num(u64),
    Real,
}

/// Abstract raw value.
pub enum RawView {
    Num(nat),
    Real,
}

/// The raw value of data bytes of the given kind.
pub open spec fn raw_of(k: DifKind, s: Seq<u8>) -> RawView {
    match k {
        DifKind::Bcd(_) => RawView::Num(bcd_value(s)),
        DifKind::Real => RawView::Real,
        _ => RawView::Num(le_uint(s)),
    }
}

proof fn lemma_le_uint_bound(s: Seq<u8>)
    ensures
        le_uint(s) < pow256(s.len()),
    decreases s.len(),
{
    if s.len() > 0 {
        lemma_le_uint_bound(s.drop_first());
        let v = le_uint(s.drop_first());
        let p = pow256(s.drop_first().len());
        let b = s[0] as nat;
        assert(b + 256 * v < 256 * p) by (nonlinear_arith)
            requires
                v < p,
                b < 256,
        {
        }
    }
}

/// `200^n`, a bound for BCD values of `n` bytes.
pub open spec fn pow200(n: nat) -> nat
    decreases n,
{
    if n == 0 { 1 } else { 200 * pow200((n - 1) as nat) }
}

proof fn lemma_bcd_bound(s: Seq<u8>)
    ensures
        bcd_value(s) < pow200(s.len()),
    decreases s.len(),
{
    if s.len() > 0 {
        lemma_bcd_bound(s.drop_first());
        let v = bcd_value(s.drop_first());
        let p = pow200(s.drop_first().len());
        let b = ((s[0] >> 4u8) * 10 + (s[0] & 0x0Fu8)) as nat;
        lemma_nibbles(s[0]);
        assert(v * 100 + b < 200 * p) by (nonlinear_arith)
            requires
                v < p,
                b <= 165,
        {
        }
    }
}

/// Reads `size` little-endian bytes at `q`.
fn read_le(p: &Vec<u8>, q: usize, size: usize) -> (r: u64)
    requires
        size <= 8,
        q + size <= p@.len(),
    ensures
        r as nat == le_uint(p@.subrange(q as int, q + size)),
{
    let mut v: u64 = 0;
    let mut i: usize = size;
    assert(p@.subrange(q + size, q + size) =~= Seq::<u8>::empty());
    while i > 0
        invariant
            i <= size <= 8,
            q + size <= p.len(),
            v as nat == le_uint(p@.subrange(q + i, q + size)),
        decreases i,
    {
        let ghost s = p@.subrange(q + i - 1, q + size);
        proof {
            assert(s.drop_first() =~= p@.subrange(q + i, q + size));
            lemma_le_uint_bound(p@.subrange(q + i, q + size));
            lemma_pow256_mono((size - i) as nat, 7);
            lemma_pow256_values();
        }
        v = p[q + i - 1] as u64 + 256 * v;
        i = i - 1;
    }
    v
}

/// Reads `size` BCD bytes at `q`.
fn read_bcd(p: &Vec<u8>, q: usize, size: usize) -> (r: u64)
    requires
        size <= 4,
        q + size <= p@.len(),
    ensures
        r as nat == bcd_value(p@.subrange(q as int, q + size)),
{
    let mut v: u64 = 0;
    let mut i: usize = size;
    assert(p@.subrange(q + size, q + size) =~= Seq::<u8>::empty());
    while i > 0
        invariant
            i <= size <= 4,
            q + size <= p.len(),
            v as nat == bcd_value(p@.subrange(q + i, q + size)),
        decreases i,
    {
        let ghost s = p@.subrange(q + i - 1, q + size);
        let byte = p[q + i - 1];
        proof {
            assert(s.drop_first() =~= p@.subrange(q + i, q + size));
            lemma_bcd_bound(p@.subrange(q + i, q + size));
            lemma_pow200_mono((size - i) as nat, 3);
            assert(pow200(3) == 8000000) by { reveal_with_fuel(pow200, 4); }
            lemma_nibbles(byte);
        }
        let hi = (byte >> 4u8) as u64;
        let lo = (byte & 0x0Fu8) as u64;
        v = v * 100 + (hi * 10 + lo);
        i = i - 1;
    }
    v
}

proof fn lemma_nibbles(b: u8)
    ensures
        (b >> 4u8) <= 15,
        (b & 0x0Fu8) <= 15,
{
    assert((b >> 4u8) <= 15) by (bit_vector);
    assert((b & 0x0Fu8) <= 15) by (bit_vector);
}

proof fn lemma_pow200_mono(a: nat, b: nat)
    requires
        a <= b,
    ensures
        pow200(a) <= pow200(b),
    decreases b,
{
    if a < b {
        lemma_pow200_mono(a, (b - 1) as nat);
    }
}

/// Seconds per unit of a duration whose unit the low two VIF bits select.
pub open spec fn duration_factor(vif: u8) -> nat {
    let u = vif & 0x03u8;
    if u == 0 { 1 } else if u == 1 { 60 } else if u == 2 { 3600 } else { 86400 }
}

/// Calendar year from its low bits `year` and century code `hy` (a code of 0
/// with a year up to 80 counts as the 2000s).
pub open spec fn full_year(year: nat, hy: nat) -> nat {
    let h = if hy == 0 && year <= 80 { 1 } else { hy };
    1900 + 100 * h + year
}

/// `DD.MM.YYYY hh:mm` of a type-F date and time, `DD.MM.YYYY` of a type-G date.
pub open spec fn time_point_text(vif: u8, t: u32) -> Seq<char> {
    if vif & 1u8 == 1 {
        let min = t & 0x3F;
        let hour = (t >> 8u32) & 0x1F;
        let day = (t >> 16u32) & 0x1F;
        let month = (t >> 24u32) & 0x0F;
        let year = (((t >> 16u32) & 0xE0) >> 5u32) | (((t >> 24u32) & 0xF0) >> 1u32);
        let hy = (t & 0x60) >> 5u32;
        dec_str_padded(day as nat, 2) + "."@ + dec_str_padded(month as nat, 2) + "."@
            + dec_str_padded(full_year(year as nat, hy as nat), 4) + " "@ + dec_str_padded(hour as nat, 2) + ":"@
            + dec_str_padded(min as nat, 2)
    } else {
        let day = t & 0x1F;
        let month = (t >> 8u32) & 0x0F;
        let year = ((t & 0xE0) >> 5u32) | (((t >> 8u32) & 0xF0) >> 1u32);
        dec_str_padded(day as nat, 2) + "."@ + dec_str_padded(month as nat, 2) + "."@
            + dec_str_padded(full_year(year as nat, 0), 4)
    }
}

fn parse_time_point(vif: u8, t: u32) -> (r: String)
    ensures
        r@ == time_point_text(vif, t),
{
    let mut v: Vec<char> = Vec::new();
    proof {
        reveal_strlit(".");
        reveal_strlit(" ");
        reveal_strlit(":");
    }
    if vif & 1u8 == 1 {
        let min = t & 0x3F;
        let hour = (t >> 8u32) & 0x1F;
        let day = (t >> 16u32) & 0x1F;
        let month = (t >> 24u32) & 0x0F;
        let year = (((t >> 16u32) & 0xE0) >> 5u32) | (((t >> 24u32) & 0xF0) >> 1u32);
        let hy = (t & 0x60) >> 5u32;
        assert(year <= 127) by (bit_vector)
            requires year == (((t >> 16u32) & 0xE0) >> 5u32) | (((t >> 24u32) & 0xF0) >> 1u32);
        assert(hy <= 3) by (bit_vector)
            requires hy == (t & 0x60) >> 5u32;
        let h: u32 = if hy == 0 && year <= 80 { 1 } else { hy };
        let full: u32 = 1900 + 100 * h + year;
        push_dec_padded(&mut v, day as u64, 2);
        v.push('.');
        push_dec_padded(&mut v, month as u64, 2);
        v.push('.');
        push_dec_padded(&mut v, full as u64, 4);
        v.push(' ');
        push_dec_padded(&mut v, hour as u64, 2);
        v.push(':');
        push_dec_padded(&mut v, min as u64, 2);
    } else {
        let day = t & 0x1F;
        let month = (t >> 8u32) & 0x0F;
        let year = ((t & 0xE0) >> 5u32) | (((t >> 8u32) & 0xF0) >> 1u32);
        assert(year <= 127) by (bit_vector)
            requires year == ((t & 0xE0) >> 5u32) | (((t >> 8u32) & 0xF0) >> 1u32);
        let h: u32 = if year <= 80 { 1 } else { 0 };
        let full: u32 = 1900 + 100 * h + year;
        push_dec_padded(&mut v, day as u64, 2);
        v.push('.');
        push_dec_padded(&mut v, month as u64, 2);
        v.push('.');
        push_dec_padded(&mut v, full as u64, 4);
    }
    assert(v@ =~= time_point_text(vif, t));
    string_of(&v)
}

/// The largest value that the post-processing functions accept (that of `i64`).
pub open spec fn fits_i64(n: nat) -> bool {
    n <= 0x7FFF_FFFF_FFFF_FFFF
}

/// The published value of a raw value under a VIF's post-processing and exponent.
pub open spec fn converted(raw: RawView, func: VifFunc, exponent: int, vif: u8) -> ScalarView {
    match func {
        VifFunc::Plain => match raw {
            RawView::Num(n) => if exponent == 0 { ScalarView::Int(n as int) } else { ScalarView::Scaled(n as int, exponent) },
            RawView::Real => ScalarView::Int(0),
        },
        VifFunc::Duration => match raw {
            RawView::Num(n) => if fits_i64(n) { ScalarView::Int((n * duration_factor(vif)) as int) } else { ScalarView::Text("unparseable"@) },
            RawView::Real => ScalarView::Text("unparseable"@),
        },
        VifFunc::TimePoint => match raw {
            RawView::Num(n) => if fits_i64(n) { ScalarView::Text(time_point_text(vif, (n % 0x1_0000_0000) as u32)) } else { ScalarView::Text("unparseable not i64"@) },
            RawView::Real => ScalarView::Text("unparseable not i64"@),
        },
        VifFunc::Binary => match raw {
            RawView::Num(n) => if fits_i64(n) { ScalarView::Text(hex_str(n, true)) } else { ScalarView::Text("unparseable"@) },
            RawView::Real => ScalarView::Text("unparseable"@),
        },
    }
}

fn convert(raw: &Raw, func: VifFunc, exponent: i32, vif: u8) -> (r: Scalar)
    ensures
        r@ == converted(match raw { Raw::Num(n) => RawView::Num(*n as nat), Raw::Real => RawView::Real }, func, exponent as int, vif),
{
    match func {
        VifFunc::Plain => match raw {
            Raw::Num(n) => if exponent == 0 { Scalar::Int(*n as i128) } else { Scalar::Scaled(*n as i128, exponent) },
            Raw::Real => Scalar::Int(0),
        },
        VifFunc::Duration => match raw {
            Raw::Num(n) => if *n <= 0x7FFF_FFFF_FFFF_FFFF {
                let u = vif & 0x03u8;
                let f: i128 = if u == 0 { 1 } else if u == 1 { 60 } else if u == 2 { 3600 } else { 86400 };
                Scalar::Int(*n as i128 * f)
            } else {
                Scalar::Text(lit("unparseable"))
            },
            Raw::Real => Scalar::Text(lit("unparseable")),
        },
        VifFunc::TimePoint => match raw {
            Raw::Num(n) => if *n <= 0x7FFF_FFFF_FFFF_FFFF {
                Scalar::Text(parse_time_point(vif, (*n % 0x1_0000_0000) as u32))
            } else {
                Scalar::Text(lit("unparseable not i64"))
            },
            Raw::Real => Scalar::Text(lit("unparseable not i64")),
        },
        VifFunc::Binary => match raw {
            Raw::Num(n) => if *n <= 0x7FFF_FFFF_FFFF_FFFF {
                let mut v: Vec<char> = Vec::new();
                push_hex(&mut v, *n, true);
                Scalar::Text(string_of(&v))
            } else {
                Scalar::Text(lit("unparseable"))
            },
            Raw::Real => Scalar::Text(lit("unparseable")),
        },
    }
}

/// Name of a field whose primary VIF `vif` at `pos` is unknown.
pub open spec fn unknown_primary_name(pos: nat, vif: u8) -> Seq<char> {
    "unknown_at_"@ + dec_str(pos) + "_"@ + hex_str(vif as nat, false)
}

/// Name of a field whose extension VIF at `pos` is unknown.
pub open spec fn unknown_ext_name(pos: nat) -> Seq<char> {
    "unknown_at_"@ + dec_str(pos)
}

/// The VIF row of the record whose VIF starts at `q`, the number of VIF
/// bytes, and the byte its post-processing reads.
pub open spec fn vif_at(p: Seq<u8>, q: int) -> Option<(VifRow, nat, u8)> {
    if q < 0 || q >= p.len() {
        None
    } else {
        let v = p[q];
        if v == 0xFB || v == 0xFD {
            if q + 1 >= p.len() {
                None
            } else {
                let e = p[q + 1];
                match if v == 0xFB { vif_fb(e) } else { vif_fd(e) } {
                    Some(row) => Some((row, 2, e)),
                    None => Some(((unknown_ext_name(q as nat), 0, Seq::<char>::empty(), VifFunc::Plain),
                        if v == 0xFB { 1nat } else { 2nat }, e)),
                }
            }
        } else {
            match vif_primary(v) {
                Some(row) => Some((row, 1, v)),
                None => Some(((unknown_primary_name(q as nat, v), 0, "unknown"@, VifFunc::Plain), 1, v)),
            }
        }
    }
}

/// A decoded VIF: its row, its length, and the byte its post-processing reads.
pub struct VifData {
    pub entry: VifEntry,
    pub skip: usize,
    pub vif: u8,
}

fn unknown_name(pos: usize, vif: Option<u8>) -> (r: String)
    ensures
        match vif {
            Some(v) => r@ == unknown_primary_name(pos as nat, v),
            None => r@ == unknown_ext_name(pos as nat),
        },
{
    let mut v: Vec<char> = Vec::new();
    append_chars(&mut v, "unknown_at_");
    push_dec(&mut v, pos as u64);
    match vif {
        Some(b) => {
            append_chars(&mut v, "_");
            push_hex(&mut v, b as u64, false);
        },
        None => {},
    }
    string_of(&v)
}

fn get_vif_function(p: &Vec<u8>, q: usize) -> (r: Option<VifData>)
    ensures
        match vif_at(p@, q as int) {
            Some((row, skip, vb)) => r matches Some(d) && d.entry.row() == row && d.skip == skip && d.vif == vb,
            None => r is None,
        },
{
    if q >= p.len() {
        return None;
    }
    let v = p[q];
    if v == 0xFB || v == 0xFD {
        if q + 1 >= p.len() {
            return None;
        }
        let e = p[q + 1];
        let found = if v == 0xFB { vif_fb_lookup(e) } else { vif_fd_lookup(e) };
        match found {
            Some(entry) => Some(VifData { entry, skip: 2, vif: e }),
            None => {
                let name = unknown_name(q, None);
                Some(VifData {
                    entry: VifEntry { name, exponent: 0, unit: String::new(), func: VifFunc::Plain },
                    skip: if v == 0xFB { 1 } else { 2 },
                    vif: e,
                })
            },
        }
    } else {
        match vif_primary_lookup(v) {
            Some(entry) => Some(VifData { entry, skip: 1, vif: v }),
            None => {
                let name = unknown_name(q, Some(v));
                Some(VifData {
                    entry: VifEntry { name, exponent: 0, unit: lit("unknown"), func: VifFunc::Plain },
                    skip: 1,
                    vif: v,
                })
            },
        }
    }
}

/// Inserts a field and its unit.
pub open spec fn insert_field(m: MapView, name: Seq<char>, value: ScalarView, unit: Seq<char>) -> MapView {
    map_insert(map_insert(m, name, ValueView::Scalar(value)), name + "_unit"@, text_view(unit))
}

/// The fields decoded from the records of `p` starting at `pos`, added to `m`.
/// A record whose VIF or data runs past the end ends the decoding; a 32-bit
/// real record is passed over without a field.
pub open spec fn records_from(p: Seq<u8>, pos: int, m: MapView) -> MapView
    decreases p.len() - pos,
{
    if pos < 0 || pos >= p.len() {
        m
    } else {
        let k = dif_kind(p[pos]);
        if k == DifKind::NoData {
            records_from(p, pos + 1, m)
        } else {
            match vif_at(p, pos + 1) {
                None => m,
                Some((row, skip, vb)) => {
                    let q = pos + 1 + skip;
                    let size = kind_size(k);
                    if q + size > p.len() {
                        m
                    } else if k == DifKind::Real {
                        records_from(p, q + size, m)
                    } else {
                        let raw = raw_of(k, p.subrange(q, q + size));
                        records_from(p, q + size, insert_field(m, row.0, converted(raw, row.3, row.1, vb), row.2))
                    }
                }
            }
        }
    }
}

/// Decodes all data records of an M-Bus payload into named fields with units.
pub fn parse_payload(payload: &Vec<u8>) -> (r: ValueMap)
    ensures
        r@ == records_from(payload@, 0, Seq::empty()),
        keys_unique(r@),
{
    let mut ret: ValueMap = ValueMap::new();
    let n = payload.len();
    let mut pos: usize = 0;
    assert(keys_unique(ret@));
    while pos < n
        invariant
            n == payload@.len(),
            keys_unique(ret@),
            records_from(payload@, pos as int, ret@) == records_from(payload@, 0, Seq::empty()),
        decreases n - pos,
    {
        let k = get_dif_function(payload[pos]);
        if k == DifKind::NoData {
            pos = pos + 1;
        } else {
            let vd = match get_vif_function(payload, pos + 1) {
                Some(d) => d,
                None => { return ret; },
            };
            let q = pos + 1 + vd.skip;
            let size: usize = match k {
                DifKind::Int(b) => b as usize,
                DifKind::Bcd(b) => b as usize,
                _ => 4,
            };
            if q > n || size > n - q {
                return ret;
            }
            if k == DifKind::Real {
                pos = q + size;
                continue;
            }
            let raw = match k {
                DifKind::Bcd(_) => Raw::Num(read_bcd(payload, q, size)),
                DifKind::Real => Raw::Real,
                _ => Raw::Num(read_le(payload, q, size)),
            };
            let value = convert(&raw, vd.entry.func, vd.entry.exponent, vd.vif);
            let name = vd.entry.name;
            let mut unit_key: Vec<char> = crate::text::chars_of(name.as_str());
            append_chars(&mut unit_key, "_unit");
            let ghost m0 = ret@;
            let ghost nm = name@;
            let ghost vv = value@;
            ret.insert(name, Value::Scalar(value));
            ret.insert(string_of(&unit_key), Value::Scalar(Scalar::Text(vd.entry.unit)));
            pos = q + size;
        }
    }
    ret
}

/// For every DIF of an integer or BCD number, a record made of that DIF, a
/// plain primary VIF and data of the matching size decodes, under the VIF's
/// field name, to the little-endian (for BCD: the BCD) value of the data,
/// scaled by the VIF's power of ten.
pub proof fn lemma_dif_coverage(d: u8, vif: u8, data: Seq<u8>)
    requires
        d == 0x01 || d == 0x02 || d == 0x03 || d == 0x04 || d == 0x06 || d == 0x07 || d == 0x0C || d == 0xF0,
        vif != 0xFB && vif != 0xFD,
        vif_primary(vif) matches Some(row) && row.3 == VifFunc::Plain,
        data.len() == kind_size(dif_kind(d)),
    ensures
        ({
            let row = vif_primary(vif).unwrap();
            let n = if d == 0x0C || d == 0xF0 { bcd_value(data) } else { le_uint(data) };
            let value = if row.1 == 0 { ScalarView::Int(n as int) } else { ScalarView::Scaled(n as int, row.1) };
            &&& map_get(records_from(seq![d, vif] + data, 0, Seq::empty()), row.0) == Some(ValueView::Scalar(value))
            &&& records_from(seq![d, vif] + data, 0, Seq::empty())
                == insert_field(Seq::empty(), row.0, value, row.2)
        }),
{
    let p = seq![d, vif] + data;
    let row = vif_primary(vif).unwrap();
    let k = dif_kind(d);
    assert(p[0] == d && p[1] == vif);
    assert(vif_at(p, 1) == Some((row, 1nat, vif)));
    assert(p.subrange(2, 2 + data.len() as int) =~= data);
    let raw = raw_of(k, data);
    let val = converted(raw, row.3, row.1, vif);
    let m = insert_field(Seq::empty(), row.0, val, row.2);
    assert(records_from(p, 2 + data.len() as int, m) == m);
    assert(records_from(p, 0, Seq::empty()) == m);
    let m1 = map_insert(Seq::<(Seq<char>, ValueView)>::empty(), row.0, ValueView::Scalar(val));
    lemma_map_insert_get(Seq::<(Seq<char>, ValueView)>::empty(), row.0, ValueView::Scalar(val), row.0);
    assert((row.0 + "_unit"@).len() != row.0.len()) by {
        reveal_strlit("_unit");
    }
    lemma_map_insert_get(m1, row.0 + "_unit"@, text_view(row.2), row.0);
}

} // verus!

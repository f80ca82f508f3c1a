//! Rendering of SML values: OBIS codes, numbers with scaler and unit,
//! server identifiers, checksums and time stamps.
use vstd::prelude::*;
use crate::text::{chars_of, string_of, lit, str_eq, push_dec, push_dec_padded, dec_str, dec_str_padded,
    hex_str_fixed, contains_chars, contains_seq, starts_with_chars, starts_with_seq, upper_of, to_upper};
use crate::obis::{is_ws, is_whitespace_char, is_digit, digits_value, all_digits};
use crate::sml::{SmlObisCode, SmlValue, obis_text, sml_unit, get_sml_unit_name};

verus! {

/// Lower-case hexadecimal rendering, two digits per byte.
pub open spec fn hex_lower(b: Seq<u8>) -> Seq<char>
    decreases b.len(),
{
    if b.len() == 0 {
        Seq::empty()
    } else {
        hex_lower(b.drop_last()) + hex_str_fixed(b.last() as nat, 2, false)
    }
}

/// Relies on `hex::encode`: two lower-case hexadecimal digits per byte, in order.
#[verifier::external_body]
pub(crate) fn hex_encode(b: &[u8]) -> (r: String)
    ensures
        r@ == hex_lower(b@),
{
    hex::encode(b)
}

/// An OBIS code of six bytes as `A-B:C.D.E.F`; other byte strings in hexadecimal.
pub fn format_obis_code(obis_bytes: &[u8]) -> (r: String)
    ensures
        obis_bytes@.len() == 6 ==> r@ == obis_text(obis_bytes@[0], obis_bytes@[1], obis_bytes@[2],
            obis_bytes@[3], obis_bytes@[4], obis_bytes@[5]),
        obis_bytes@.len() != 6 ==> r@ == hex_lower(obis_bytes@),
{
    if obis_bytes.len() == 6 {
        match SmlObisCode::from_bytes(obis_bytes) {
            Some(obis) => { return obis.to_string(); },
            None => {},
        }
    }
    hex_encode(obis_bytes)
}

/// What `String::from_utf8` yields for the bytes `b`: their characters when
/// they are valid UTF-8.
pub uninterp spec fn utf8_chars(b: Seq<u8>) -> Option<Seq<char>>;

/// Relies on `String::from_utf8`: decodes valid UTF-8, rejects anything else.
#[verifier::external_body]
fn utf8_text(b: &Vec<u8>) -> (r: Option<String>)
    ensures
        match r {
            Some(s) => utf8_chars(b@) == Some(s@),
            None => utf8_chars(b@) is None,
        },
{
    match String::from_utf8(b.clone()) {
        Ok(s) => Some(s),
        Err(_) => None,
    }
}

/// Whether `c` is a printable ASCII character other than space.
pub open spec fn ascii_graphic(c: char) -> bool {
    '!' <= c && c <= '~'
}

/// Whether every character of `s` is printable or white space.
pub open spec fn printable(s: Seq<char>) -> bool {
    forall|i: int| 0 <= i < s.len() ==> ascii_graphic(#[trigger] s[i]) || is_ws(s[i])
}

fn all_printable(v: &Vec<char>) -> (r: bool)
    ensures
        r == printable(v@),
{
    let mut i: usize = 0;
    while i < v.len()
        invariant
            i <= v.len(),
            forall|k: int| 0 <= k < i ==> ascii_graphic(#[trigger] v@[k]) || is_ws(v@[k]),
        decreases v.len() - i,
    {
        let c = v[i];
        if !(('!' <= c && c <= '~') || is_whitespace_char(c)) {
            return false;
        }
        i = i + 1;
    }
    true
}

/// Decimal rendering of an integer, with a minus sign when negative.
pub open spec fn int_text(v: int) -> Seq<char> {
    if v < 0 { "-"@ + dec_str((-v) as nat) } else { dec_str(v as nat) }
}

fn push_int(out: &mut Vec<char>, v: i128)
    requires
        v > i128::MIN,
    ensures
        final(out)@ == old(out)@ + int_text(v as int),
{
    proof { reveal_strlit("-"); }
    if v < 0 {
        out.push('-');
        let m = -v;
        push_dec_u128(out, m as u128);
        assert(final(out)@ =~= old(out)@ + int_text(v as int));
    } else {
        push_dec_u128(out, v as u128);
    }
}

/// Appends the decimal rendering of a 128-bit number.
pub fn push_dec_u128(v: &mut Vec<char>, n: u128)
    ensures
        final(v)@ == old(v)@ + dec_str(n as nat),
    decreases n,
{
    if n < 10 {
        push_dec(v, n as u64);
    } else {
        push_dec_u128(v, n / 10);
        let d = (n % 10) as u64;
        let ghost mid = v@;
        push_dec(v, d);
        assert(dec_str(d as nat) == seq![crate::text::digit_char(d as nat)]);
        assert(final(v)@ =~= old(v)@ + dec_str(n as nat));
    }
}

/// The text of a decoded value, as it is published.
pub open spec fn sml_value_text(v: crate::sml_parser::SmlValueView) -> Seq<char> {
    match v {
        crate::sml_parser::SmlValueView::Bool(b) => if b { "true"@ } else { "false"@ },
        crate::sml_parser::SmlValueView::Signed(i, w) => int_text(i),
        crate::sml_parser::SmlValueView::Unsigned(u, w) => dec_str(u),
        crate::sml_parser::SmlValueView::Octets(b) => match utf8_chars(b) {
            Some(s) => if printable(s) { s } else { hex_lower(b) },
            None => hex_lower(b),
        },
        crate::sml_parser::SmlValueView::List(n) => "[..]"@,
    }
}

/// The text of an element of a value list: a nested list shows as `[..]`.
pub open spec fn element_text(v: SmlValue) -> Seq<char> {
    match v {
        SmlValue::List(_) => "[..]"@,
        _ => sml_value_text(v@),
    }
}

/// The texts of list elements joined by `, `.
pub open spec fn joined_texts(items: Seq<SmlValue>) -> Seq<char>
    decreases items.len(),
{
    if items.len() == 0 {
        Seq::empty()
    } else if items.len() == 1 {
        element_text(items[0])
    } else {
        joined_texts(items.drop_last()) + ", "@ + element_text(items.last())
    }
}

/// The published text of a decoded value.
pub open spec fn value_text(v: SmlValue) -> Seq<char> {
    match v {
        SmlValue::List(items) => "["@ + joined_texts(items@) + "]"@,
        _ => sml_value_text(v@),
    }
}

/// The text of a value and its unit (values carry no unit of their own).
pub fn parse_sml_value(value: &SmlValue) -> (r: (String, Option<String>))
    ensures
        r.1 is None,
        r.0@ == value_text(*value),
{
    proof {
        reveal_strlit("[");
        reveal_strlit("]");
        reveal_strlit(", ");
        reveal_strlit("[..]");
    }
    match value {
        SmlValue::List(values) => {
            let mut out: Vec<char> = Vec::new();
            out.push('[');
            let mut i: usize = 0;
            while i < values.len()
                invariant
                    i <= values@.len(),
                    out@ == "["@ + joined_texts(values@.subrange(0, i as int)),
                decreases values.len() - i,
            {
                let ghost before = out@;
                let ghost pre = values@.subrange(0, i as int);
                let ghost cur = values@.subrange(0, i + 1);
                assert(cur.drop_last() =~= pre);
                if i > 0 {
                    out.push(',');
                    out.push(' ');
                }
                let item = scalar_text(&values[i]);
                let mut iv = chars_of(item.as_str());
                out.append(&mut iv);
                proof {
                    assert(cur.last() == values@[i as int]);
                    if i == 0 {
                        assert(cur.len() == 1 && cur[0] == values@[0]);
                        reveal_strlit("[");
                        assert(joined_texts(pre) =~= Seq::<char>::empty());
                        assert(joined_texts(cur) == element_text(values@[0]));
                        assert(out@ =~= "["@ + joined_texts(cur));
                    } else {
                        assert(joined_texts(cur) == joined_texts(pre) + ", "@ + element_text(values@[i as int]));
                        reveal_strlit(", ");
                        reveal_strlit("[");
                        assert(", "@ =~= seq![',', ' ']);
                        assert(out@ =~= "["@ + joined_texts(cur));
                    }
                }
                i = i + 1;
            }
            out.push(']');
            assert(values@.subrange(0, values@.len() as int) =~= values@);
            assert(out@ =~= value_text(*value));
            (string_of(&out), None)
        },
        _ => (scalar_text(value), None),
    }
}

/// The text of a scalar element of a value list; a nested list is shown as `[..]`.
fn scalar_text(value: &SmlValue) -> (r: String)
    ensures
        r@ == element_text(*value),
{
    match value {
        SmlValue::List(_) => lit("[..]"),
        _ => {
            let mut out: Vec<char> = Vec::new();
            match value {
                SmlValue::Bool(b) => { return if *b { lit("true") } else { lit("false") }; },
                SmlValue::Int8(i) => push_int(&mut out, *i as i128),
                SmlValue::Int16(i) => push_int(&mut out, *i as i128),
                SmlValue::Int32(i) => push_int(&mut out, *i as i128),
                SmlValue::Int64(i) => push_int(&mut out, *i as i128),
                SmlValue::UInt8(u) => push_dec(&mut out, *u as u64),
                SmlValue::UInt16(u) => push_dec(&mut out, *u as u64),
                SmlValue::UInt32(u) => push_dec(&mut out, *u as u64),
                SmlValue::UInt64(u) => push_dec(&mut out, *u),
                SmlValue::OctetString(bytes) => {
                    match utf8_text(bytes) {
                        Some(s) => {
                            let cv = chars_of(s.as_str());
                            if all_printable(&cv) {
                                return s;
                            }
                        },
                        None => {},
                    }
                    return hex_encode(bytes.as_slice());
                },
                SmlValue::List(_) => {},
            }
            string_of(&out)
        },
    }
}

/// `10^n`.
pub open spec fn pow10(n: nat) -> nat
    decreases n,
{
    if n == 0 { 1 } else { 10 * pow10((n - 1) as nat) }
}

fn pow10_u128(n: u32) -> (r: u128)
    requires
        n <= 38,
    ensures
        r as nat == pow10(n as nat),
{
    proof { lemma_pow10_38(); }
    let mut r: u128 = 1;
    let mut i: u32 = 0;
    while i < n
        invariant
            i <= n <= 38,
            r as nat == pow10(i as nat),
            pow10(38) == 100000000000000000000000000000000000000,
        decreases n - i,
    {
        proof { lemma_pow10_mono((i + 1) as nat, 38); }
        r = r * 10;
        i = i + 1;
    }
    r
}

proof fn lemma_pow10_38()
    ensures
        pow10(38) == 100000000000000000000000000000000000000,
{
    reveal_with_fuel(pow10, 39);
}

/// The characters of `s` without trailing zeros.
pub open spec fn trim_zeros(s: Seq<char>) -> Seq<char>
    decreases s.len(),
{
    if s.len() > 0 && s.last() == '0' { trim_zeros(s.drop_last()) } else { s }
}

/// Sign and digits of an integer text such as `-123` (at most 38 digits).
pub open spec fn int_parts(s: Seq<char>) -> Option<(bool, Seq<char>)> {
    let neg = s.len() > 0 && s[0] == '-';
    let d = if s.len() > 0 && (s[0] == '-' || s[0] == '+') { s.drop_first() } else { s };
    if 0 < d.len() <= 38 && all_digits(d) { Some((neg, d)) } else { None }
}

/// The decimal text of `(-1)^neg * mag * 10^e`, with at most six fractional
/// digits (rounded half up), no trailing fractional zeros and no sign for zero.
pub open spec fn scaled_text(neg: bool, mag: nat, e: int) -> Seq<char> {
    if e >= 0 {
        (if neg && mag != 0 { "-"@ } else { Seq::empty() })
            + (if mag == 0 { "0"@ } else { dec_str(mag) + Seq::new(e as nat, |i: int| '0') })
    } else {
        let k = (-e) as nat;
        let m = if k <= 6 { mag } else if k - 6 > 38 { 0 } else { (mag + 5 * pow10((k - 7) as nat)) / pow10((k - 6) as nat) };
        let k6 = if k <= 6 { k } else { 6 };
        let frac = trim_zeros(dec_str_padded(m % pow10(k6), k6));
        (if neg && m != 0 { "-"@ } else { Seq::empty() }) + dec_str(m / pow10(k6))
            + (if frac.len() > 0 { "."@ + frac } else { Seq::empty() })
    }
}

/// The published text of a value text with an optional power-of-ten scaler.
pub open spec fn scaled_value_text(value: Seq<char>, scaler: Option<i8>) -> Seq<char> {
    match int_parts(value) {
        Some((neg, d)) => scaled_text(neg, digits_value(d), match scaler { Some(s) => s as int, None => 0 }),
        None => value,
    }
}

/// Reads an integer text into sign and magnitude.
fn read_int(v: &Vec<char>) -> (r: Option<(bool, u128)>)
    ensures
        match int_parts(v@) {
            Some((neg, d)) => r == Some((neg, digits_value(d) as u128)) && digits_value(d) < pow10(38),
            None => r is None,
        },
{
    let neg = v.len() > 0 && v[0] == '-';
    let start: usize = if v.len() > 0 && (v[0] == '-' || v[0] == '+') { 1 } else { 0 };
    let ghost d = v@.subrange(start as int, v@.len() as int);
    assert(d =~= if v@.len() > 0 && (v@[0] == '-' || v@[0] == '+') { v@.drop_first() } else { v@ });
    if v.len() - start == 0 || v.len() - start > 38 {
        return None;
    }
    let mut val: u128 = 0;
    let mut i: usize = start;
    while i < v.len()
        invariant
            start <= i <= v.len(),
            v.len() - start <= 38,
            d == v@.subrange(start as int, v@.len() as int),
            d == if v@.len() > 0 && (v@[0] == '-' || v@[0] == '+') { v@.drop_first() } else { v@ },
            forall|k: int| start <= k < i ==> crate::obis::is_digit(#[trigger] v@[k]),
            val as nat == digits_value(v@.subrange(start as int, i as int)),
            digits_value(v@.subrange(start as int, i as int)) < pow10((i - start) as nat),
        decreases v.len() - i,
    {
        let c = v[i];
        if !('0' <= c && c <= '9') {
            assert(d[i - start] == c);
            assert(!all_digits(d));
            return None;
        }
        let ghost pre = v@.subrange(start as int, i as int);
        assert(v@.subrange(start as int, i + 1).drop_last() =~= pre);
        proof {
            let x = digits_value(pre);
            let p = pow10((i - start) as nat);
            let dg = crate::obis::digit_value(c);
            assert(x * 10 + dg < p * 10) by (nonlinear_arith)
                requires
                    x < p,
                    dg < 10,
            {
            }
            lemma_pow10_mono((i - start + 1) as nat, 38);
            lemma_pow10_38();
        }
        val = val * 10 + ((c as u32) - ('0' as u32)) as u128;
        i = i + 1;
    }
    assert(all_digits(d)) by {
        assert forall|k: int| 0 <= k < d.len() implies crate::obis::is_digit(#[trigger] d[k]) by {
            assert(d[k] == v@[start + k]);
        }
    }
    proof { lemma_pow10_mono((v.len() - start) as nat, 38); }
    Some((neg, val))
}

proof fn lemma_pow10_pos(n: nat)
    ensures
        pow10(n) >= 1,
    decreases n,
{
    if n > 0 {
        lemma_pow10_pos((n - 1) as nat);
    }
}

pub proof fn lemma_pow10_mono(a: nat, b: nat)
    requires
        a <= b,
    ensures
        pow10(a) <= pow10(b),
    decreases b,
{
    if a < b {
        lemma_pow10_mono(a, (b - 1) as nat);
    }
}

fn render_scaled(neg: bool, mag: u128, e: i32) -> (r: Vec<char>)
    requires
        mag < pow10(38),
        -128 <= e <= 127,
    ensures
        r@ == scaled_text(neg, mag as nat, e as int),
{
    proof {
        reveal_strlit("-");
        reveal_strlit("0");
        reveal_strlit(".");
        lemma_pow10_38();
    }
    let mut out: Vec<char> = Vec::new();
    if e >= 0 {
        if neg && mag != 0 {
            out.push('-');
        }
        if mag == 0 {
            out.push('0');
        } else {
            push_dec_u128(&mut out, mag);
            let ghost base = out@;
            let mut i: i32 = 0;
            while i < e
                invariant
                    0 <= i <= e,
                    out@ == base + Seq::new(i as nat, |k: int| '0'),
                decreases e - i,
            {
                out.push('0');
                i = i + 1;
                assert(out@ =~= base + Seq::new(i as nat, |k: int| '0'));
            }
        }
        assert(out@ =~= scaled_text(neg, mag as nat, e as int));
        return out;
    }
    let k: u32 = (-e) as u32;
    let m: u128 = if k <= 6 {
        mag
    } else if k - 6 > 38 {
        0
    } else {
        proof {
            lemma_pow10_mono((k - 7) as nat, 37);
            lemma_pow10_pos((k - 6) as nat);
            assert(pow10(38) == 10 * pow10(37));
        }
        (mag + 5 * pow10_u128(k - 7)) / pow10_u128(k - 6)
    };
    let k6: u32 = if k <= 6 { k } else { 6 };
    let p6 = pow10_u128(k6);
    proof {
        lemma_pow10_pos(k6 as nat);
        lemma_pow10_mono(k6 as nat, 6);
        assert(pow10(6) == 1000000) by { reveal_with_fuel(pow10, 7); }
    }
    let ip = m / p6;
    let fp = (m % p6) as u64;
    let mut frac: Vec<char> = Vec::new();
    push_dec_padded(&mut frac, fp, k6 as usize);
    let ghost full = frac@;
    assert(frac@ =~= dec_str_padded((m % p6) as nat, k6 as nat));
    while frac.len() > 0 && frac[frac.len() - 1] == '0'
        invariant
            trim_zeros(frac@) == trim_zeros(full),
        decreases frac.len(),
    {
        let ghost before = frac@;
        frac.pop();
        assert(frac@ =~= before.drop_last());
    }
    if neg && m != 0 {
        out.push('-');
    }
    push_dec_u128(&mut out, ip);
    if frac.len() > 0 {
        out.push('.');
        out.append(&mut frac);
    }
    assert(out@ =~= scaled_text(neg, mag as nat, e as int));
    out
}

/// A value text scaled by a power of ten, and the symbol of its unit code.
pub fn apply_scaler_and_unit(value_str: &str, scaler: Option<i8>, unit: Option<u8>) -> (r: (String, Option<String>))
    ensures
        r.0@ == scaled_value_text(value_str@, scaler),
        crate::text::opt_view(r.1) == match unit {
            Some(u) => sml_unit(u),
            None => None,
        },
{
    let unit_name = match unit {
        Some(u) => get_sml_unit_name(u),
        None => None,
    };
    let v = chars_of(value_str);
    match read_int(&v) {
        Some((neg, mag)) => {
            proof {
                lemma_pow10_38();
                let (n0, d) = int_parts(value_str@).unwrap();
                assert(mag as nat == digits_value(d));
            }
            let e: i32 = match scaler { Some(s) => s as i32, None => 0 };
            let out = render_scaled(neg, mag, e);
            (string_of(&out), unit_name)
        },
        None => (lit(value_str), unit_name),
    }
}

/// The manufacturer that a server id (as upper-case text `u` of `id`) points to.
pub open spec fn server_id_manufacturer(id: Seq<char>, u: Seq<char>) -> Seq<char> {
    if contains_seq(u, "EMH"@) {
        "EMH"@
    } else if contains_seq(u, "ISK"@) {
        "Iskraemeco"@
    } else if contains_seq(u, "EAS"@) {
        "EasyMeter"@
    } else if contains_seq(u, "ITR"@) {
        "Itron"@
    } else if id.len() >= 10 && starts_with_seq(u, "1E"@) {
        "EMH"@
    } else if id.len() >= 10 && starts_with_seq(u, "1I"@) {
        "Iskraemeco"@
    } else if id.len() >= 10 && starts_with_seq(u, "1S"@) {
        "Siemens"@
    } else if id.len() >= 10 && starts_with_seq(u, "1L"@) {
        "Landis+Gyr"@
    } else {
        "Unknown"@
    }
}

/// The manufacturer that a server id points to, by known patterns.
pub fn identify_manufacturer_from_server_id(server_id: &str) -> (r: String)
    ensures
        r@ == server_id_manufacturer(server_id@, upper_of(server_id@)),
{
    let u = to_upper(server_id);
    let uv = chars_of(u.as_str());
    let n = chars_of(server_id).len();
    if contains_chars(&uv, &chars_of("EMH")) {
        lit("EMH")
    } else if contains_chars(&uv, &chars_of("ISK")) {
        lit("Iskraemeco")
    } else if contains_chars(&uv, &chars_of("EAS")) {
        lit("EasyMeter")
    } else if contains_chars(&uv, &chars_of("ITR")) {
        lit("Itron")
    } else if n >= 10 && starts_with_chars(&uv, &chars_of("1E")) {
        lit("EMH")
    } else if n >= 10 && starts_with_chars(&uv, &chars_of("1I")) {
        lit("Iskraemeco")
    } else if n >= 10 && starts_with_chars(&uv, &chars_of("1S")) {
        lit("Siemens")
    } else if n >= 10 && starts_with_chars(&uv, &chars_of("1L")) {
        lit("Landis+Gyr")
    } else {
        lit("Unknown")
    }
}

/// A server id in hexadecimal, the manufacturer it points to, and its bytes.
pub struct ServerIdInfo {
    pub hex_id: String,
    pub manufacturer: String,
    pub raw_bytes: Vec<u8>,
}

/// Describes a server id.
pub fn extract_server_id_info(server_id: &[u8]) -> (r: ServerIdInfo)
    ensures
        r.hex_id@ == hex_lower(server_id@),
        r.manufacturer@ == server_id_manufacturer(hex_lower(server_id@), upper_of(hex_lower(server_id@))),
        r.raw_bytes@ == server_id@,
{
    let hex_id = hex_encode(server_id);
    let manufacturer = identify_manufacturer_from_server_id(hex_id.as_str());
    let mut raw: Vec<u8> = Vec::new();
    let mut i: usize = 0;
    while i < server_id.len()
        invariant
            i <= server_id@.len(),
            raw@ == server_id@.subrange(0, i as int),
        decreases server_id.len() - i,
    {
        raw.push(server_id[i]);
        i = i + 1;
        assert(raw@ =~= server_id@.subrange(0, i as int));
    }
    assert(raw@ =~= server_id@);
    ServerIdInfo { hex_id, manufacturer, raw_bytes: raw }
}

/// One bit step of the CRC-16/CCITT register (polynomial 0x1021).
pub open spec fn crc_step(c: u16) -> u16 {
    if c & 0x8000u16 != 0 { ((c << 1u16) ^ 0x1021u16) as u16 } else { (c << 1u16) as u16 }
}

/// `k` bit steps of the register.
pub open spec fn crc_steps(c: u16, k: nat) -> u16
    decreases k,
{
    if k == 0 { c } else { crc_steps(crc_step(c), (k - 1) as nat) }
}

/// The register after one more byte.
pub open spec fn crc_byte(c: u16, b: u8) -> u16 {
    crc_steps(c ^ ((b as u16) << 8u16), 8)
}

/// CRC-16/CCITT of `s` with initial value 0xFFFF.
pub open spec fn crc16_ccitt(s: Seq<u8>) -> u16
    decreases s.len(),
{
    if s.len() == 0 { 0xFFFFu16 } else { crc_byte(crc16_ccitt(s.drop_last()), s.last()) }
}

/// CRC-16/CCITT (polynomial 0x1021, initial value 0xFFFF) of `data`.
pub fn calculate_crc16(data: &[u8]) -> (r: u16)
    ensures
        r == crc16_ccitt(data@),
{
    let mut crc: u16 = 0xFFFF;
    let mut i: usize = 0;
    while i < data.len()
        invariant
            i <= data@.len(),
            crc == crc16_ccitt(data@.subrange(0, i as int)),
        decreases data.len() - i,
    {
        let byte = data[i];
        let ghost start = crc ^ ((byte as u16) << 8u16);
        crc = crc ^ ((byte as u16) << 8u16);
        let mut j: u32 = 0;
        while j < 8
            invariant
                j <= 8,
                crc_steps(crc, (8 - j) as nat) == crc_steps(start, 8),
            decreases 8 - j,
        {
            if crc & 0x8000u16 != 0 {
                crc = (crc << 1u16) ^ 0x1021u16;
            } else {
                crc = crc << 1u16;
            }
            j = j + 1;
        }
        assert(data@.subrange(0, i + 1).drop_last() =~= data@.subrange(0, i as int));
        i = i + 1;
    }
    assert(data@.subrange(0, data@.len() as int) =~= data@);
    crc
}

/// Whether a frame ends with the CRC of its leading bytes: the two bytes
/// before the last four hold, big-endian, the CRC of everything before them.
pub open spec fn sml_checksum_ok(d: Seq<u8>) -> bool {
    d.len() >= 6 && {
        let cp = d.len() - 6;
        crc16_ccitt(d.subrange(0, cp)) as nat == d[cp] as nat * 256 + d[cp + 1] as nat
    }
}

/// Checks the CRC that precedes the last four bytes of a frame.
pub fn validate_sml_checksum(data: &[u8]) -> (r: bool)
    ensures
        r == sml_checksum_ok(data@),
{
    if data.len() < 4 {
        return false;
    }
    let end_pos = data.len() - 4;
    if end_pos < 2 {
        return false;
    }
    let checksum_pos = end_pos - 2;
    let expected: u16 = (data[checksum_pos] as u16) * 256 + data[checksum_pos + 1] as u16;
    let head = slice_prefix(data, checksum_pos);
    calculate_crc16(head.as_slice()) == expected
}

fn slice_prefix(data: &[u8], n: usize) -> (r: Vec<u8>)
    requires
        n <= data@.len(),
    ensures
        r@ == data@.subrange(0, n as int),
{
    let mut r: Vec<u8> = Vec::new();
    let mut i: usize = 0;
    while i < n
        invariant
            i <= n <= data@.len(),
            r@ == data@.subrange(0, i as int),
        decreases n - i,
    {
        r.push(data[i]);
        i = i + 1;
        assert(r@ =~= data@.subrange(0, i as int));
    }
    r
}

/// What `chrono` renders for a Unix time in seconds, as `%Y-%m-%d %H:%M:%S UTC`.
pub uninterp spec fn utc_time_text(ts: nat) -> Seq<char>;

/// Relies on `chrono::DateTime::from_timestamp` and `format`: the UTC calendar
/// time of the given second, which depends on the number alone.
#[verifier::external_body]
fn utc_text(ts: u32) -> (r: String)
    ensures
        r@ == utc_time_text(ts as nat),
{
    match chrono::DateTime::from_timestamp(ts as i64, 0) {
        Some(dt) => dt.format("%Y-%m-%d %H:%M:%S UTC").to_string(),
        None => format!("Invalid timestamp: {}", ts),
    }
}

/// The UTC rendering of an optional time stamp.
pub fn format_timestamp(timestamp: Option<u32>) -> (r: Option<String>)
    ensures
        match timestamp {
            Some(ts) => r matches Some(s) && s@ == utc_time_text(ts as nat),
            None => r is None,
        },
{
    match timestamp {
        Some(ts) => Some(utc_text(ts)),
        None => None,
    }
}

/// Field names of the OBIS codes commonly found in SML.
pub fn get_common_sml_obis_mappings() -> (r: crate::table::StrTable)
    ensures
        r@ == crate::obis_tables::sml_common_names(),
{
    crate::obis_tables::build_sml_common_names()
}

} // verus!

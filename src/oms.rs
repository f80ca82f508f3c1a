//! OMS / wireless M-Bus frames: CRC blocks, link-layer header fields,
//! mode-5 decryption and filler removal.
use vstd::prelude::*;
use crate::text::{lit, str_eq, push_hex_fixed, hex_str_fixed, hex_str, push_hex, string_of, chars_of,
    append_chars};
use crate::config::OmsConfig;
use crate::models::{MeteringData, DeviceProtocol};
use crate::value::{ValueMap, MapView, ValueView, ScalarView, FieldMap, Scalar, Value, map_insert, keys_unique,
    text_view, put, put_text};
use crate::mbus_records::{parse_payload, records_from};
use aes::cipher::{BlockDecryptMut, KeyIvInit};
use aes::cipher::block_padding::NoPadding;

verus! {

/// Reasons for rejecting an OMS telegram.
#[derive(Debug, Clone, Copy, PartialEq, Eq, Structural)]
pub enum OmsParseError {
    TelegramTooShort,
    TelegramTooLong,
    UnsupportedTelegramType,
    CRCMissMatch,
    WiredProtocolNotSupported,
    SecurityModeNotSupported,
    DecryptionFailed,
    SecurityCiTypeNotSupported,
    SensorNotConfigured,
}

/// What `crc16::State::<EN_13757>::calculate` returns for the bytes `b`.
pub uninterp spec fn en13757_crc(b: Seq<u8>) -> u16;

/// Relies on `crc16::State::<EN_13757>::calculate`: the CRC-16/EN-13757 of the bytes.
#[verifier::external_body]
fn crc_en13757(b: &[u8]) -> (r: u16)
    ensures
        r == en13757_crc(b@),
{
    crc16::State::<crc16::EN_13757>::calculate(b)
}

/// Body length of a block: 10 bytes for the first (which must be whole), 16
/// for the others, fewer for a final short block.
pub open spec fn block_len(first: bool, remaining: nat) -> nat {
    let full: nat = if first { 10 } else { 16 };
    if remaining >= full + 2 { full } else { (remaining - 2) as nat }
}

/// The two CRC bytes of a block body, most significant first.
pub open spec fn crc_bytes(body: Seq<u8>) -> Seq<u8> {
    seq![(en13757_crc(body) / 256) as u8, (en13757_crc(body) % 256) as u8]
}

/// The block bodies of a CRC-framed telegram from `p` on, if every block's CRC matches.
pub open spec fn strip_blocks(t: Seq<u8>, p: int, first: bool) -> Option<Seq<u8>>
    decreases t.len() - p,
{
    if p < 0 || p + 3 > t.len() || (first && p + 12 > t.len()) {
        None
    } else {
        let len = block_len(first, (t.len() - p) as nat);
        let body = t.subrange(p, p + len);
        if t.subrange(p + len, p + len + 2) != crc_bytes(body) {
            None
        } else if p + len + 2 == t.len() {
            Some(body)
        } else {
            match strip_blocks(t, p + len + 2, false) {
                Some(rest) => Some(body + rest),
                None => None,
            }
        }
    }
}

/// `b` cut into blocks (10 bytes, then 16), each followed by its CRC.
pub open spec fn frame_blocks(b: Seq<u8>, first: bool) -> Seq<u8>
    decreases b.len(),
{
    if b.len() == 0 {
        Seq::empty()
    } else {
        let full: nat = if first { 10 } else { 16 };
        let len = if b.len() >= full { full } else { b.len() };
        let body = b.subrange(0, len as int);
        body + crc_bytes(body) + frame_blocks(b.subrange(len as int, b.len() as int), false)
    }
}

/// Stripping the CRCs of a telegram whose CRCs all match, then appending
/// correct CRCs again, gives back the telegram.
pub proof fn lemma_crc_strip_then_frame(t: Seq<u8>)
    requires
        strip_blocks(t, 0, true) is Some,
    ensures
        frame_blocks(strip_blocks(t, 0, true).unwrap(), true) == t,
{
    lemma_strip_frame_from(t, 0, true);
    assert(t.subrange(0, t.len() as int) =~= t);
}

proof fn lemma_strip_frame_from(t: Seq<u8>, p: int, first: bool)
    requires
        strip_blocks(t, p, first) is Some,
    ensures
        0 <= p <= t.len(),
        frame_blocks(strip_blocks(t, p, first).unwrap(), first) == t.subrange(p, t.len() as int),
    decreases t.len() - p,
{
    let len = block_len(first, (t.len() - p) as nat);
    let body = t.subrange(p, p + len);
    let b = strip_blocks(t, p, first).unwrap();
    let full: nat = if first { 10 } else { 16 };
    if p + len + 2 == t.len() {
        assert(b == body);
        let l2 = if b.len() >= full { full } else { b.len() };
        assert(l2 == len);
        assert(b.subrange(0, l2 as int) =~= body);
        assert(b.subrange(l2 as int, b.len() as int) =~= Seq::<u8>::empty());
        assert(frame_blocks(Seq::<u8>::empty(), false) == Seq::<u8>::empty());
        assert(t.subrange(p + len, p + len + 2) == crc_bytes(body));
        assert(frame_blocks(b, first) =~= t.subrange(p, t.len() as int));
    } else {
        let q = p + len + 2;
        lemma_strip_frame_from(t, q, false);
        let rest = strip_blocks(t, q, false).unwrap();
        assert(b == body + rest);
        assert(len == full);
        assert(b.len() >= full);
        assert(b.subrange(0, full as int) =~= body);
        assert(b.subrange(full as int, b.len() as int) =~= rest);
        assert(t.subrange(p + len, p + len + 2) == crc_bytes(body));
        assert(frame_blocks(b, first) == body + crc_bytes(body) + frame_blocks(rest, false));
        assert(frame_blocks(b, first) =~= t.subrange(p, t.len() as int));
    }
}

fn copy_range(data: &Vec<u8>, lo: usize, hi: usize) -> (r: Vec<u8>)
    requires
        lo <= hi <= data@.len(),
    ensures
        r@ == data@.subrange(lo as int, hi as int),
{
    let mut r: Vec<u8> = Vec::new();
    let mut i: usize = lo;
    while i < hi
        invariant
            lo <= i <= hi <= data@.len(),
            r@ == data@.subrange(lo as int, i as int),
        decreases hi - i,
    {
        r.push(data[i]);
        i = i + 1;
        assert(r@ =~= data@.subrange(lo as int, i as int));
    }
    r
}

/// Checks every block's CRC and returns the block bodies joined.
pub fn verifiy_crc(telegram: &Vec<u8>) -> (r: Result<Vec<u8>, OmsParseError>)
    ensures
        match strip_blocks(telegram@, 0, true) {
            Some(b) => r matches Ok(v) && v@ == b,
            None => r == Err::<Vec<u8>, OmsParseError>(OmsParseError::CRCMissMatch),
        },
{
    let n = telegram.len();
    let mut result: Vec<u8> = Vec::new();
    let mut start: usize = 0;
    let mut first = true;
    proof {
        if strip_blocks(telegram@, 0, true) is Some {
            assert(result@ + strip_blocks(telegram@, 0, true).unwrap() =~= strip_blocks(telegram@, 0, true).unwrap());
        }
    }
    loop
        invariant
            n == telegram@.len(),
            start <= n,
            strip_blocks(telegram@, start as int, first) is Some ==> strip_blocks(telegram@, 0, true)
                == Some(result@ + strip_blocks(telegram@, start as int, first).unwrap()),
            strip_blocks(telegram@, start as int, first) is None ==> strip_blocks(telegram@, 0, true) is None,
        decreases n - start,
    {
        if n - start < 3 || (first && n - start < 12) {
            assert(strip_blocks(telegram@, start as int, first) is None);
            assert(strip_blocks(telegram@, 0, true) is None);
            return Err(OmsParseError::CRCMissMatch);
        }
        let ghost p = start as int;
        let ghost fst = first;
        let full: usize = if first { 10 } else { 16 };
        let len: usize = if n - start >= full + 2 { full } else { n - start - 2 };
        assert(len as nat == block_len(first, (n - start) as nat));
        let body = copy_range(telegram, start, start + len);
        let crc = crc_en13757(body.as_slice());
        let end = start + len;
        proof {
            assert(crc_bytes(body@) == seq![(crc / 256) as u8, (crc % 256) as u8]);
        }
        if ((crc / 256) as u8) != telegram[end] || ((crc % 256) as u8) != telegram[end + 1] {
            proof {
                let c = telegram@.subrange(end as int, end + 2);
                assert(c[0] == telegram@[end as int] && c[1] == telegram@[end + 1]);
                assert(c != crc_bytes(body@));
                assert(strip_blocks(telegram@, p, fst) is None);
            }
            return Err(OmsParseError::CRCMissMatch);
        }
        proof {
            assert(telegram@.subrange(end as int, end + 2) =~= crc_bytes(body@));
        }
        let ghost before = result@;
        let mut b = body;
        result.append(&mut b);
        start = end + 2;
        first = false;
        if start == n {
            proof {
                assert(strip_blocks(telegram@, p, fst) == Some(body@));
                assert(before + telegram@.subrange((end - len) as int, end as int) =~= result@);
            }
            return Ok(result);
        }
        proof {
            let rest0 = strip_blocks(telegram@, start as int, false);
            assert(strip_blocks(telegram@, p, fst) == match rest0 {
                Some(rest) => Some(body@ + rest),
                None => None::<Seq<u8>>,
            });
            match rest0 {
                Some(rest) => {
                    assert(before + (telegram@.subrange((end - len) as int, end as int) + rest) =~= result@ + rest);
                },
                None => {},
            }
        }
    }
}

/// Appends a correct CRC after each block of `body`: the inverse of [`verifiy_crc`].
pub fn add_crc(body: &Vec<u8>) -> (r: Vec<u8>)
    ensures
        r@ == frame_blocks(body@, true),
{
    let n = body.len();
    let mut out: Vec<u8> = Vec::new();
    let mut start: usize = 0;
    let mut first = true;
    assert(body@.subrange(0, n as int) =~= body@);
    assert(Seq::<u8>::empty() + frame_blocks(body@, true) =~= frame_blocks(body@, true));
    while start < n
        invariant
            n == body@.len(),
            start <= n,
            out@ + frame_blocks(body@.subrange(start as int, n as int), first) == frame_blocks(body@, true),
        decreases n - start,
    {
        let full: usize = if first { 10 } else { 16 };
        let len: usize = if n - start >= full { full } else { n - start };
        let blk = copy_range(body, start, start + len);
        let crc = crc_en13757(blk.as_slice());
        let ghost rem = body@.subrange(start as int, n as int);
        proof {
            assert(rem.subrange(0, len as int) =~= blk@);
            assert(rem.subrange(len as int, rem.len() as int) =~= body@.subrange(start + len, n as int));
        }
        let ghost before = out@;
        let mut b = blk;
        out.append(&mut b);
        out.push((crc / 256) as u8);
        out.push((crc % 256) as u8);
        assert(out@ =~= before + rem.subrange(0, len as int) + crc_bytes(rem.subrange(0, len as int)));
        start = start + len;
        first = false;
    }
    assert(body@.subrange(n as int, n as int) =~= Seq::<u8>::empty());
    assert(out@ + Seq::<u8>::empty() =~= out@);
    out
}

/// The three letters of a packed manufacturer code `m` (5 bits each, `A` = 1).
pub open spec fn manufacturer_letters(m: u16) -> Seq<char> {
    seq![((((m >> 10u16) & 0x1Fu16) + 64) as u8) as char, ((((m >> 5u16) & 0x1Fu16) + 64) as u8) as char,
        (((m & 0x1Fu16) + 64) as u8) as char]
}

/// The packed manufacturer field of a telegram (bytes 2 and 3, little-endian).
pub open spec fn manufacturer_field(t: Seq<u8>) -> u16 {
    ((t[3] as u16) * 256 + t[2] as u16) as u16
}

fn letter(n: u16) -> (c: char)
    requires
        n < 32,
    ensures
        c == ((n + 64) as u8) as char,
{
    ((n + 64) as u8) as char
}

/// The manufacturer code of a telegram, as three upper-case letters.
pub fn get_manufacturer(telegram: &Vec<u8>) -> (r: String)
    requires
        telegram@.len() >= 4,
    ensures
        r@ == manufacturer_letters(manufacturer_field(telegram@)),
{
    let m: u16 = (telegram[3] as u16) * 256 + telegram[2] as u16;
    let mut v: Vec<char> = Vec::new();
    assert((m >> 10u16) & 0x1Fu16 < 32) by (bit_vector);
    assert((m >> 5u16) & 0x1Fu16 < 32) by (bit_vector);
    assert(m & 0x1Fu16 < 32) by (bit_vector);
    v.push(letter((m >> 10u16) & 0x1F));
    v.push(letter((m >> 5u16) & 0x1F));
    v.push(letter(m & 0x1F));
    assert(v@ =~= manufacturer_letters(m));
    string_of(&v)
}

/// The serial number of a telegram: bytes 7 down to 4 as eight lower-case hex digits.
pub open spec fn ident_text(t: Seq<u8>) -> Seq<char> {
    hex_str_fixed(t[7] as nat, 2, false) + hex_str_fixed(t[6] as nat, 2, false)
        + hex_str_fixed(t[5] as nat, 2, false) + hex_str_fixed(t[4] as nat, 2, false)
}

/// The serial number of a telegram in hexadecimal.
pub fn get_ident_no(telegram: &Vec<u8>) -> (r: String)
    requires
        telegram@.len() >= 8,
    ensures
        r@ == ident_text(telegram@),
{
    let mut v: Vec<char> = Vec::new();
    push_hex_fixed(&mut v, telegram[7] as u64, 2, false);
    push_hex_fixed(&mut v, telegram[6] as u64, 2, false);
    push_hex_fixed(&mut v, telegram[5] as u64, 2, false);
    push_hex_fixed(&mut v, telegram[4] as u64, 2, false);
    assert(v@ =~= ident_text(telegram@));
    string_of(&v)
}

/// Number of `0x2F` filler bytes at the end of `s`.
pub open spec fn trailing_filler(s: Seq<u8>) -> nat
    decreases s.len(),
{
    if s.len() > 0 && s.last() == 0x2F { 1 + trailing_filler(s.drop_last()) } else { 0 }
}

proof fn lemma_trailing_filler_bound(s: Seq<u8>)
    ensures
        trailing_filler(s) <= s.len(),
    decreases s.len(),
{
    if s.len() > 0 {
        lemma_trailing_filler_bound(s.drop_last());
    }
}

/// `s` without its first two bytes and without trailing `0x2F` filler.
pub open spec fn without_filler(s: Seq<u8>) -> Seq<u8> {
    let body = s.subrange(2, s.len() as int);
    body.subrange(0, body.len() - trailing_filler(body))
}

/// Removes the two leading check bytes and the trailing `0x2F` filler of a decrypted payload.
pub fn remove_oms_filler(original: &Vec<u8>) -> (r: Vec<u8>)
    requires
        original@.len() >= 2,
    ensures
        r@ == without_filler(original@),
{
    let n = original.len();
    let body = copy_range(original, 2, n);
    let mut k: usize = body.len();
    proof { lemma_trailing_filler_bound(body@); }
    assert(body@.subrange(0, k as int) =~= body@);
    while k > 0 && body[k - 1] == 0x2F
        invariant
            k <= body@.len(),
            trailing_filler(body@) == (body@.len() - k) + trailing_filler(body@.subrange(0, k as int)),
        decreases k,
    {
        assert(body@.subrange(0, k as int).drop_last() =~= body@.subrange(0, k - 1));
        k = k - 1;
    }
    copy_range(&body, 0, k)
}

/// Value of a hexadecimal digit.
pub open spec fn hex_digit_value(c: char) -> Option<nat> {
    if '0' <= c && c <= '9' {
        Some(((c as u32) - ('0' as u32)) as nat)
    } else if 'a' <= c && c <= 'f' {
        Some(((c as u32) - ('a' as u32) + 10) as nat)
    } else if 'A' <= c && c <= 'F' {
        Some(((c as u32) - ('A' as u32) + 10) as nat)
    } else {
        None
    }
}

/// The bytes that a hexadecimal text denotes, two digits per byte; none for
/// an odd number of characters or a character that is not a hex digit.
pub open spec fn hex_bytes(s: Seq<char>) -> Option<Seq<u8>>
    decreases s.len(),
{
    if s.len() == 0 {
        Some(Seq::empty())
    } else if s.len() == 1 {
        None
    } else {
        match (hex_digit_value(s[0]), hex_digit_value(s[1]), hex_bytes(s.subrange(2, s.len() as int))) {
            (Some(h), Some(l), Some(rest)) => Some(seq![(h * 16 + l) as u8] + rest),
            _ => None,
        }
    }
}

/// Relies on `hex::decode`: pairs of hexadecimal digits (either case) to bytes;
/// an error for an odd length or any other character.
#[verifier::external_body]
pub(crate) fn hex_decode(s: &str) -> (r: Option<Vec<u8>>)
    ensures
        match hex_bytes(s@) {
            Some(b) => r matches Some(v) && v@ == b,
            None => r is None,
        },
{
    match hex::decode(s) {
        Ok(v) => Some(v),
        Err(_) => None,
    }
}

/// What AES-128 in CBC mode, without padding, decrypts `data` to under `key` and `iv`.
pub uninterp spec fn aes128_cbc_plain(key: Seq<u8>, iv: Seq<u8>, data: Seq<u8>) -> Seq<u8>;

/// Relies on `cbc::Decryptor::<aes::Aes128>` with `decrypt_padded_vec_mut::<NoPadding>`:
/// whole 16-byte blocks decrypt to as many bytes; other lengths are rejected (empty result).
#[verifier::external_body]
fn aes_cbc_decrypt(key: &Vec<u8>, iv: &Vec<u8>, data: &Vec<u8>) -> (r: Vec<u8>)
    requires
        key@.len() == 16,
        iv@.len() == 16,
    ensures
        data@.len() % 16 == 0 ==> r@ == aes128_cbc_plain(key@, iv@, data@) && r@.len() == data@.len(),
        data@.len() % 16 != 0 ==> r@.len() == 0,
{
    match cbc::Decryptor::<aes::Aes128>::new_from_slices(key, iv) {
        Ok(d) => d.decrypt_padded_vec_mut::<NoPadding>(data).unwrap_or_default(),
        Err(_) => Vec::new(),
    }
}

/// The mode-5 initialisation vector: M-field and A-field (bytes 2 to 9), then
/// the access number eight times.
pub open spec fn mode5_iv(t: Seq<u8>, access_no: u8) -> Seq<u8> {
    t.subrange(2, 10) + Seq::new(8, |i: int| access_no)
}

/// The mode-5 plaintext of the bytes from `start` on.
pub open spec fn mode5_plain(t: Seq<u8>, access_no: u8, start: int, key: Seq<u8>) -> Seq<u8> {
    let data = t.subrange(start, t.len() as int);
    if data.len() % 16 == 0 { aes128_cbc_plain(key, mode5_iv(t, access_no), data) } else { Seq::empty() }
}

/// Decrypts a mode-5 telegram from `start_encryption` on.
pub fn decrypt_mode5(telegram: &Vec<u8>, access_no: u8, start_encryption: usize, key: &Vec<u8>) -> (r: Vec<u8>)
    requires
        telegram@.len() >= 10,
        start_encryption <= telegram@.len(),
        key@.len() == 16,
    ensures
        r@ == mode5_plain(telegram@, access_no, start_encryption as int, key@),
        (telegram@.len() - start_encryption) % 16 == 0 ==> r@.len() == telegram@.len() - start_encryption,
        (telegram@.len() - start_encryption) % 16 != 0 ==> r@.len() == 0,
{
    let mut iv = copy_range(telegram, 2, 10);
    let mut i: usize = 0;
    while i < 8
        invariant
            i <= 8,
            iv@ == telegram@.subrange(2, 10) + Seq::new(i as nat, |k: int| access_no),
        decreases 8 - i,
    {
        iv.push(access_no);
        i = i + 1;
        assert(iv@ =~= telegram@.subrange(2, 10) + Seq::new(i as nat, |k: int| access_no));
    }
    let data = copy_range(telegram, start_encryption, telegram.len());
    aes_cbc_decrypt(key, &iv, &data)
}

/// The medium named by the hexadecimal device-type text.
pub open spec fn medium_name(t: Seq<char>) -> Seq<char> {
    if t == "2"@ { "Electricity"@ }
    else if t == "3"@ { "Gas"@ }
    else if t == "4"@ { "Heat"@ }
    else if t == "6"@ { "Water (hot)"@ }
    else if t == "7"@ { "Water (cold)"@ }
    else if t == "8"@ { "Heat Cost Allocator"@ }
    else if t == "A"@ || t == "B"@ { "Cooling"@ }
    else if t == "C"@ { "Heat"@ }
    else if t == "D"@ { "Heat / Cooling Combined"@ }
    else if t == "15"@ { "Water (hot)"@ }
    else if t == "16"@ { "Water (cold)"@ }
    else if t == "20"@ || t == "21"@ { "Breaker / Valve"@ }
    else { "unknown"@ }
}

/// The medium of a device-type text.
pub fn get_device_medium(device_type: &String) -> (r: String)
    ensures
        r@ == medium_name(device_type@),
{
    let t = device_type.as_str();
    if str_eq(t, "2") { lit("Electricity") }
    else if str_eq(t, "3") { lit("Gas") }
    else if str_eq(t, "4") { lit("Heat") }
    else if str_eq(t, "6") { lit("Water (hot)") }
    else if str_eq(t, "7") { lit("Water (cold)") }
    else if str_eq(t, "8") { lit("Heat Cost Allocator") }
    else if str_eq(t, "A") || str_eq(t, "B") { lit("Cooling") }
    else if str_eq(t, "C") { lit("Heat") }
    else if str_eq(t, "D") { lit("Heat / Cooling Combined") }
    else if str_eq(t, "15") { lit("Water (hot)") }
    else if str_eq(t, "16") { lit("Water (cold)") }
    else if str_eq(t, "20") || str_eq(t, "21") { lit("Breaker / Valve") }
    else { lit("unknown") }
}

/// The configured meter of a DIN address: the first one with that id.
pub fn get_meter_config<'a>(din_addr: &String, sensors: &'a Vec<OmsConfig>) -> (r: Option<&'a OmsConfig>)
    ensures
        match r {
            Some(c) => exists|i: int| 0 <= i < sensors@.len() && sensors@[i] == *c && c.id@ == din_addr@
                && forall|j: int| 0 <= j < i ==> sensors@[j].id@ != din_addr@,
            None => forall|j: int| 0 <= j < sensors@.len() ==> sensors@[j].id@ != din_addr@,
        },
{
    let mut i: usize = 0;
    while i < sensors.len()
        invariant
            i <= sensors@.len(),
            forall|j: int| 0 <= j < i ==> sensors@[j].id@ != din_addr@,
        decreases sensors.len() - i,
    {
        if str_eq(sensors[i].id.as_str(), din_addr.as_str()) {
            return Some(&sensors[i]);
        }
        i = i + 1;
    }
    None
}

/// Short-header CI fields.
pub open spec fn short_header_ci(ci: u8) -> bool {
    ci == 0x67 || ci == 0x6E || ci == 0x74 || ci == 0x7A || ci == 0x7D || ci == 0x7F || ci == 0x88 || ci == 0x9E
        || ci == 0xC1 || ci == 0xC4
}

/// CI fields of wired M-Bus.
pub open spec fn wired_ci(ci: u8) -> bool {
    ci == 0x66 || ci == 0x70 || ci == 0x71
}

/// The DIN address of a telegram: medium, manufacturer, version, serial number.
pub open spec fn din_text(s: Seq<u8>) -> Seq<char> {
    hex_str(s[9] as nat, false) + manufacturer_letters(manufacturer_field(s)) + hex_str_fixed(s[8] as nat, 2, false)
        + ident_text(s)
}

/// Index of the first configured meter with DIN address `din`.
pub open spec fn sensor_index(sensors: Seq<OmsConfig>, din: Seq<char>) -> Option<int> {
    if exists|i: int| 0 <= i < sensors.len() && sensors[i].id@ == din {
        Some(choose|i: int| 0 <= i < sensors.len() && sensors[i].id@ == din
            && forall|j: int| 0 <= j < i ==> sensors[j].id@ != din)
    } else {
        None
    }
}

/// The configuration field of a short transport header (bytes 13 and 14, little-endian).
pub open spec fn config_field(s: Seq<u8>) -> u16 {
    ((s[14] as u16) * 256 + s[13] as u16) as u16
}

/// The security mode of a configuration field (bits 8 to 12).
pub open spec fn security_mode(cfg: u16) -> u16 {
    (cfg >> 8u16) & 0x1Fu16
}

/// The telegram after CRC removal, when requested.
pub open spec fn oms_body(t: Seq<u8>, with_crc: bool) -> Option<Seq<u8>> {
    if with_crc { strip_blocks(t, 0, true) } else { Some(t) }
}

/// The decrypted plaintext of a mode-5 telegram body with the configured key.
pub open spec fn oms_plain(s: Seq<u8>, key_text: Seq<char>) -> Option<Seq<u8>> {
    match hex_bytes(key_text) {
        Some(key) => if key.len() == 16 { Some(mode5_plain(s, s[11], 15, key)) } else { None },
        None => None,
    }
}

/// Why a telegram is rejected, if it is.
pub open spec fn oms_error(t: Seq<u8>, with_crc: bool, sensors: Seq<OmsConfig>) -> Option<OmsParseError> {
    match oms_body(t, with_crc) {
        None => Some(OmsParseError::CRCMissMatch),
        Some(s) => if s.len() < 10 {
            Some(OmsParseError::TelegramTooShort)
        } else if s.len() > 255 {
            Some(OmsParseError::TelegramTooLong)
        } else if s[0] as nat > s.len() {
            Some(OmsParseError::TelegramTooShort)
        } else if s[1] != 0x44 {
            Some(OmsParseError::UnsupportedTelegramType)
        } else if sensor_index(sensors, din_text(s)) is None {
            Some(OmsParseError::SensorNotConfigured)
        } else if s.len() < 11 {
            Some(OmsParseError::TelegramTooShort)
        } else if wired_ci(s[10]) {
            Some(OmsParseError::WiredProtocolNotSupported)
        } else if !short_header_ci(s[10]) {
            Some(OmsParseError::SecurityCiTypeNotSupported)
        } else if s.len() < 15 {
            Some(OmsParseError::TelegramTooShort)
        } else if security_mode(config_field(s)) != 5 {
            Some(OmsParseError::SecurityModeNotSupported)
        } else {
            match oms_plain(s, sensors[sensor_index(sensors, din_text(s)).unwrap()].key@) {
                None => Some(OmsParseError::DecryptionFailed),
                Some(d) => if d.len() < 2 || d[0] != 0x2F || d[1] != 0x2F {
                    Some(OmsParseError::DecryptionFailed)
                } else {
                    None
                },
            }
        },
    }
}

/// Upper-case hexadecimal rendering, two digits per byte.
pub open spec fn hex_upper(b: Seq<u8>) -> Seq<char>
    decreases b.len(),
{
    if b.len() == 0 { Seq::empty() } else { hex_upper(b.drop_last()) + hex_str_fixed(b.last() as nat, 2, true) }
}

/// The text of a link-layer status.
pub open spec fn status_text(status: u8) -> Seq<char> {
    let st = status & 0x03u8;
    if st == 0 { "ok"@ } else if st == 1 { "application busy"@ } else if st == 2 { "application error"@ } else { "alarm"@ }
}

/// The protocol sub-object of a decoded telegram body `s`.
pub open spec fn oms_proto(s: Seq<u8>, with_crc: bool) -> Seq<(Seq<char>, ScalarView)> {
    let din = din_text(s);
    let p0 = Seq::<(Seq<char>, ScalarView)>::empty();
    let p1 = map_insert(p0, "type"@, ScalarView::Text("oms"@));
    let p2 = map_insert(p1, "crc_verified"@, ScalarView::Bool(with_crc));
    let p3 = map_insert(p2, "c_field"@, ScalarView::Text("SND_NR"@));
    let p4 = map_insert(p3, "manufacturer"@, ScalarView::Text(manufacturer_letters(manufacturer_field(s))));
    let p5 = map_insert(p4, "device_number"@, ScalarView::Text(ident_text(s)));
    let p6 = map_insert(p5, "version_number"@, ScalarView::Text(hex_str_fixed(s[8] as nat, 2, false)));
    let p7 = map_insert(p6, "device_medium"@, ScalarView::Text(medium_name(hex_str(s[9] as nat, false))));
    let p8 = map_insert(p7, "din_addr_sender"@, ScalarView::Text(din));
    let p9 = map_insert(p8, "din_addr_meter"@, ScalarView::Text(din));
    let p10 = map_insert(p9, "ci_field"@, ScalarView::Text("short"@));
    let p11 = map_insert(p10, "status"@, ScalarView::Text(status_text(s[12])));
    let p12 = map_insert(p11, "transmission_counter"@, ScalarView::Int(s[11] as int));
    map_insert(p12, "security_mode"@, ScalarView::Int(5))
}

/// Adds every entry of `other`, in order, to `m`.
pub open spec fn merge_into(m: MapView, other: MapView) -> MapView
    decreases other.len(),
{
    if other.len() == 0 { m } else { merge_into(map_insert(m, other[0].0, other[0].1), other.drop_first()) }
}

/// The fields of a decoded telegram: its payload in hexadecimal, the decoded
/// records, and the protocol sub-object.
pub open spec fn oms_values(s: Seq<u8>, with_crc: bool, plain: Seq<u8>) -> MapView {
    let m1 = map_insert(Seq::empty(), "payload"@, text_view(hex_upper(plain)));
    let m2 = merge_into(m1, records_from(plain, 0, Seq::empty()));
    map_insert(m2, "proto"@, ValueView::Object(oms_proto(s, with_crc)))
}

fn hex_upper_text(b: &Vec<u8>) -> (r: String)
    ensures
        r@ == hex_upper(b@),
{
    let mut v: Vec<char> = Vec::new();
    let mut i: usize = 0;
    while i < b.len()
        invariant
            i <= b@.len(),
            v@ == hex_upper(b@.subrange(0, i as int)),
        decreases b.len() - i,
    {
        assert(b@.subrange(0, i + 1).drop_last() =~= b@.subrange(0, i as int));
        push_hex_fixed(&mut v, b[i] as u64, 2, true);
        i = i + 1;
    }
    assert(b@.subrange(0, b@.len() as int) =~= b@);
    string_of(&v)
}

fn din_address(s: &Vec<u8>) -> (r: String)
    requires
        s@.len() >= 10,
    ensures
        r@ == din_text(s@),
{
    let mut v: Vec<char> = Vec::new();
    push_hex(&mut v, s[9] as u64, false);
    let m = get_manufacturer(s);
    append_chars(&mut v, m.as_str());
    push_hex_fixed(&mut v, s[8] as u64, 2, false);
    let id = get_ident_no(s);
    append_chars(&mut v, id.as_str());
    assert(v@ =~= din_text(s@));
    string_of(&v)
}

fn build_proto(s: &Vec<u8>, with_crc: bool) -> (r: FieldMap<Scalar>)
    requires
        s@.len() >= 15,
    ensures
        r@ == oms_proto(s@, with_crc),
        keys_unique(r@),
{
    let din = din_address(s);
    let mut p: FieldMap<Scalar> = FieldMap::new();
    put_text(&mut p, "type", "oms");
    put(&mut p, "crc_verified", Scalar::Bool(with_crc));
    put_text(&mut p, "c_field", "SND_NR");
    let m = get_manufacturer(s);
    put_text(&mut p, "manufacturer", m.as_str());
    let id = get_ident_no(s);
    put_text(&mut p, "device_number", id.as_str());
    let mut ver: Vec<char> = Vec::new();
    push_hex_fixed(&mut ver, s[8] as u64, 2, false);
    put_text(&mut p, "version_number", string_of(&ver).as_str());
    let mut dt: Vec<char> = Vec::new();
    push_hex(&mut dt, s[9] as u64, false);
    let medium = get_device_medium(&string_of(&dt));
    put_text(&mut p, "device_medium", medium.as_str());
    put_text(&mut p, "din_addr_sender", din.as_str());
    put_text(&mut p, "din_addr_meter", din.as_str());
    put_text(&mut p, "ci_field", "short");
    let st = s[12] & 0x03u8;
    let status = if st == 0 { "ok" } else if st == 1 { "application busy" } else if st == 2 { "application error" } else { "alarm" };
    put_text(&mut p, "status", status);
    put(&mut p, "transmission_counter", Scalar::Int(s[11] as i128));
    put(&mut p, "security_mode", Scalar::Int(5));
    p
}

/// Decodes a secured OMS telegram of a configured meter into a record.
pub fn parse_oms_telegram(telegram: &Vec<u8>, with_crc: bool, sensors: &Vec<OmsConfig>) -> (r: Result<MeteringData, OmsParseError>)
    ensures
        match oms_error(telegram@, with_crc, sensors@) {
            Some(e) => r == Err::<MeteringData, OmsParseError>(e),
            None => r is Ok,
        },
        r matches Ok(d) ==> {
            let s = oms_body(telegram@, with_crc).unwrap();
            let c = sensors@[sensor_index(sensors@, din_text(s)).unwrap()];
            &&& d.wf()
            &&& d.protocol == DeviceProtocol::OMS
            &&& d.meter_name@ == c.name@
            &&& d.metered_values@ == oms_values(s, with_crc, without_filler(oms_plain(s, c.key@).unwrap()))
        },
{
    let s = if with_crc {
        match verifiy_crc(telegram) {
            Ok(v) => v,
            Err(e) => { return Err(e); },
        }
    } else {
        copy_range(telegram, 0, telegram.len())
    };
    assert(telegram@.subrange(0, telegram@.len() as int) =~= telegram@);
    let n = s.len();
    if n < 10 {
        return Err(OmsParseError::TelegramTooShort);
    }
    if n > 255 {
        return Err(OmsParseError::TelegramTooLong);
    }
    if s[0] as usize > n {
        return Err(OmsParseError::TelegramTooShort);
    }
    if s[1] != 0x44 {
        return Err(OmsParseError::UnsupportedTelegramType);
    }
    let din = din_address(&s);
    let config = match get_meter_config(&din, sensors) {
        Some(c) => c,
        None => { return Err(OmsParseError::SensorNotConfigured); },
    };
    proof {
        let si = sensor_index(sensors@, din@);
        let i = choose|i: int| 0 <= i < sensors@.len() && sensors@[i] == *config && config.id@ == din@
            && forall|j: int| 0 <= j < i ==> sensors@[j].id@ != din@;
        let k = choose|k: int| 0 <= k < sensors@.len() && sensors@[k].id@ == din@
            && forall|j: int| 0 <= j < k ==> sensors@[j].id@ != din@;
        assert(k == i) by {
            if k < i { assert(sensors@[k].id@ != din@); }
            if k > i { assert(sensors@[i].id@ != din@); }
        }
        assert(si == Some(i));
    }
    if n < 11 {
        return Err(OmsParseError::TelegramTooShort);
    }
    let ci = s[10];
    if ci == 0x66 || ci == 0x70 || ci == 0x71 {
        return Err(OmsParseError::WiredProtocolNotSupported);
    }
    if !(ci == 0x67 || ci == 0x6E || ci == 0x74 || ci == 0x7A || ci == 0x7D || ci == 0x7F || ci == 0x88 || ci == 0x9E
        || ci == 0xC1 || ci == 0xC4) {
        return Err(OmsParseError::SecurityCiTypeNotSupported);
    }
    if n < 15 {
        return Err(OmsParseError::TelegramTooShort);
    }
    let access_no = s[11];
    let cfg: u16 = (s[14] as u16) * 256 + s[13] as u16;
    if (cfg >> 8u16) & 0x1Fu16 != 5 {
        return Err(OmsParseError::SecurityModeNotSupported);
    }
    let key = match hex_decode(config.key.as_str()) {
        Some(k) => k,
        None => { return Err(OmsParseError::DecryptionFailed); },
    };
    if key.len() != 16 {
        return Err(OmsParseError::DecryptionFailed);
    }
    let dec = decrypt_mode5(&s, access_no, 15, &key);
    if dec.len() < 2 || dec[0] != 0x2F || dec[1] != 0x2F {
        return Err(OmsParseError::DecryptionFailed);
    }
    let plain = remove_oms_filler(&dec);
    let mut mr = MeteringData::new();
    assert(mr.metered_values@ =~= Seq::<(Seq<char>, ValueView)>::empty());
    mr.protocol = DeviceProtocol::OMS;
    mr.meter_name = config.name.clone();
    assert(mr.meter_name@ == config.name@);
    assert(oms_plain(s@, config.key@) == Some(dec@));
    let payload_text = hex_upper_text(&plain);
    mr.metered_values.insert(lit("payload"), Value::Scalar(Scalar::Text(payload_text)));
    let parsed = parse_payload(&plain);
    merge_values(&mut mr.metered_values, parsed);
    let proto = build_proto(&s, with_crc);
    mr.metered_values.insert(lit("proto"), Value::Object(proto));
    Ok(mr)
}

/// Adds every entry of `other`, in order, to `m`.
fn merge_values(m: &mut ValueMap, other: ValueMap)
    requires
        keys_unique(old(m)@),
    ensures
        keys_unique(final(m)@),
        final(m)@ == merge_into(old(m)@, other@),
{
    let ghost start = m@;
    let ghost ov = other@;
    let mut entries = other.entries;
    while entries.len() > 0
        invariant
            keys_unique(m@),
            merge_into(m@, entries@.map_values(|e: (String, Value)| (e.0@, e.1@))) == merge_into(start, ov),
        decreases entries.len(),
    {
        let ghost before = entries@.map_values(|e: (String, Value)| (e.0@, e.1@));
        let e = entries.remove(0);
        assert(before.drop_first() =~= entries@.map_values(|e: (String, Value)| (e.0@, e.1@)));
        m.insert(e.0, e.1);
    }
    assert(entries@.map_values(|e: (String, Value)| (e.0@, e.1@)) =~= Seq::<(Seq<char>, ValueView)>::empty());
}

/// Decodes a telegram received as hexadecimal text (with CRC blocks); none
/// when the text is not hexadecimal.
pub fn decode_oms_message(message: &str, sensors: &Vec<OmsConfig>) -> (r: Option<Result<MeteringData, OmsParseError>>)
    ensures
        match hex_bytes(message@) {
            None => r is None,
            Some(t) => r matches Some(res) && match oms_error(t, true, sensors@) {
                Some(e) => res == Err::<MeteringData, OmsParseError>(e),
                None => res is Ok,
            },
        },
{
    match hex_decode(message) {
        Some(t) => Some(parse_oms_telegram(&t, true, sensors)),
        None => None,
    }
}

} // verus!

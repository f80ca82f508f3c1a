//! The SML type-length-value parser and the grammar it follows, stated as
//! specification functions from a byte sequence and a position.
use vstd::prelude::*;
use crate::text::lit;
use crate::sml::{SmlError, SmlFile, SmlMessage, SmlMessageBody, SmlGetListResponse, SmlListEntry,
    SmlValue, SmlGetProcParameterResponse, SmlTree, SmlAttentionMessage};

verus! {

/// `256^n`.
pub open spec fn pow256(n: nat) -> nat
    decreases n,
{
    if n == 0 { 1 } else { 256 * pow256((n - 1) as nat) }
}

/// The big-endian unsigned value of `s`.
pub open spec fn be_uint(s: Seq<u8>) -> nat
    decreases s.len(),
{
    if s.len() == 0 { 0 } else { be_uint(s.drop_last()) * 256 + s.last() as nat }
}

/// The two's-complement value of the `n`-byte unsigned number `u`.
pub open spec fn signed_of(u: nat, n: nat) -> int {
    if u >= pow256(n) / 2 { u - pow256(n) } else { u as int }
}

pub proof fn lemma_be_uint_bound(s: Seq<u8>)
    ensures
        be_uint(s) < pow256(s.len()),
    decreases s.len(),
{
    if s.len() > 0 {
        lemma_be_uint_bound(s.drop_last());
        let v = be_uint(s.drop_last());
        let p = pow256(s.drop_last().len());
        let b = s.last() as nat;
        assert(v * 256 + b < p * 256) by (nonlinear_arith)
            requires
                v < p,
                b < 256,
        {
        }
    }
}

/// The type nibble, the length field and the position after the type-length
/// bytes at `p`; the length includes these bytes, and a length nibble of `0xF`
/// takes the length from the next byte.
pub open spec fn tl_at(d: Seq<u8>, p: int) -> Option<(u8, nat, int)> {
    if p < 0 || p >= d.len() {
        None
    } else {
        let b = d[p];
        let t = (b >> 4u8) & 0x07u8;
        let l = b & 0x0Fu8;
        if l == 0x0F {
            if p + 1 >= d.len() { None } else { Some((t, d[p + 1] as nat, p + 2)) }
        } else {
            Some((t, l as nat, p + 1))
        }
    }
}

/// The number of data bytes of an element whose length field is `n` and
/// whose type-length bytes span `p` to `q`.
pub open spec fn data_len(n: nat, p: int, q: int) -> nat {
    if n >= q - p { (n - (q - p)) as nat } else { 0 }
}

/// An octet string (or its absence, when it has no data bytes) and the position after it.
pub open spec fn octets_at(d: Seq<u8>, p: int) -> Option<(Option<Seq<u8>>, int)> {
    match tl_at(d, p) {
        Some((t, n, q)) => {
            let k = data_len(n, p, q);
            if k == 0 {
                Some((None, q))
            } else if q + k > d.len() {
                None
            } else {
                Some((Some(d.subrange(q, q + k)), q + k))
            }
        },
        None => None,
    }
}

/// An unsigned number of `w` bytes; absent when `optional` and the element has no data.
pub open spec fn uint_at(d: Seq<u8>, p: int, w: nat, optional: bool) -> Option<(Option<nat>, int)> {
    match tl_at(d, p) {
        Some((t, n, q)) => {
            let k = data_len(n, p, q);
            if optional && k == 0 {
                Some((None, q))
            } else if k != w || q + w > d.len() {
                None
            } else {
                Some((Some(be_uint(d.subrange(q, q + w))), q + w))
            }
        },
        None => None,
    }
}

/// A list header: the number of elements and the position of the first one.
pub open spec fn list_at(d: Seq<u8>, p: int) -> Option<(nat, int)> {
    match tl_at(d, p) {
        Some((t, n, q)) => if t == 7 { Some((n, q)) } else { None },
        None => None,
    }
}

/// Abstract form of a decoded SML value.
pub enum SmlValueView {
    Bool(bool),
    Signed(int, nat),
    Unsigned(nat, nat),
    Octets(Seq<u8>),
    List(nat),
}

impl View for SmlValue {
    type V = SmlValueView;

    open spec fn view(&self) -> SmlValueView {
        match self {
            SmlValue::Bool(b) => SmlValueView::Bool(*b),
            SmlValue::Int8(v) => SmlValueView::Signed(*v as int, 1),
            SmlValue::Int16(v) => SmlValueView::Signed(*v as int, 2),
            SmlValue::Int32(v) => SmlValueView::Signed(*v as int, 4),
            SmlValue::Int64(v) => SmlValueView::Signed(*v as int, 8),
            SmlValue::UInt8(v) => SmlValueView::Unsigned(*v as nat, 1),
            SmlValue::UInt16(v) => SmlValueView::Unsigned(*v as nat, 2),
            SmlValue::UInt32(v) => SmlValueView::Unsigned(*v as nat, 4),
            SmlValue::UInt64(v) => SmlValueView::Unsigned(*v as nat, 8),
            SmlValue::OctetString(b) => SmlValueView::Octets(b@),
            SmlValue::List(l) => SmlValueView::List(l.len() as nat),
        }
    }
}

/// An optional value: type 5 a flag, type 6 a signed and type 0 an unsigned
/// number of 1, 2, 4 or 8 bytes, any other type an octet string.
pub open spec fn value_at(d: Seq<u8>, p: int) -> Option<(Option<SmlValueView>, int)> {
    match tl_at(d, p) {
        Some((t, n, q)) => {
            let k = data_len(n, p, q);
            if k == 0 {
                Some((None, q))
            } else if q + k > d.len() {
                None
            } else if t == 5 {
                if k == 1 { Some((Some(SmlValueView::Bool(d[q] != 0)), q + 1)) } else { None }
            } else if t == 6 || t == 0 {
                if k == 1 || k == 2 || k == 4 || k == 8 {
                    let u = be_uint(d.subrange(q, q + k));
                    if t == 6 {
                        Some((Some(SmlValueView::Signed(signed_of(u, k), k)), q + k))
                    } else {
                        Some((Some(SmlValueView::Unsigned(u, k)), q + k))
                    }
                } else {
                    None
                }
            } else {
                Some((Some(SmlValueView::Octets(d.subrange(q, q + k))), q + k))
            }
        },
        None => None,
    }
}

/// Abstract form of a list entry: OBIS code, status, time, unit, scaler, value, signature.
pub type EntryView = (Option<Seq<u8>>, Option<nat>, Option<nat>, Option<nat>, Option<int>, Option<SmlValueView>, Option<Seq<u8>>);

/// The signed value of an optional number.
pub open spec fn opt_signed(o: Option<nat>, w: nat) -> Option<int> {
    match o {
        Some(u) => Some(signed_of(u, w)),
        None => None,
    }
}

/// One entry of a value list and the position after it.
#[verifier::opaque]
pub open spec fn entry_at(d: Seq<u8>, p: int) -> Option<(EntryView, int)> {
    match octets_at(d, p) {
        Some((obis, p1)) => match uint_at(d, p1, 8, true) {
            Some((status, p2)) => match uint_at(d, p2, 4, true) {
                Some((time, p3)) => match uint_at(d, p3, 1, true) {
                    Some((unit, p4)) => match uint_at(d, p4, 1, true) {
                        Some((scaler, p5)) => match value_at(d, p5) {
                            Some((value, p6)) => match octets_at(d, p6) {
                                Some((sig, p7)) => Some(((obis, status, time, unit, opt_signed(scaler, 1), value, sig), p7)),
                                None => None,
                            },
                            None => None,
                        },
                        None => None,
                    },
                    None => None,
                },
                None => None,
            },
            None => None,
        },
        None => None,
    }
}

/// `count` consecutive entries starting at `p`, and the position after them.
pub open spec fn entries_at(d: Seq<u8>, p: int, count: nat) -> Option<(Seq<EntryView>, int)>
    decreases count,
{
    if count == 0 {
        Some((Seq::empty(), p))
    } else {
        match entries_at(d, p, (count - 1) as nat) {
            Some((es, q)) => match entry_at(d, q) {
                Some((e, r)) => Some((es.push(e), r)),
                None => None,
            },
            None => None,
        }
    }
}

/// The abstract form of a decoded entry.
pub open spec fn entry_view(e: SmlListEntry) -> EntryView {
    (opt_bytes(e.obis_code), opt_nat64(e.status), opt_nat32(e.val_time), opt_nat8(e.unit),
        match e.scaler { Some(s) => Some(s as int), None => None },
        match e.value { Some(v) => Some(v@), None => None },
        opt_bytes(e.value_signature))
}

pub open spec fn opt_bytes(o: Option<Vec<u8>>) -> Option<Seq<u8>> {
    match o { Some(v) => Some(v@), None => None }
}

pub open spec fn opt_nat64(o: Option<u64>) -> Option<nat> {
    match o { Some(v) => Some(v as nat), None => None }
}

pub open spec fn opt_nat32(o: Option<u32>) -> Option<nat> {
    match o { Some(v) => Some(v as nat), None => None }
}

pub open spec fn opt_nat16(o: Option<u16>) -> Option<nat> {
    match o { Some(v) => Some(v as nat), None => None }
}

pub open spec fn opt_nat8(o: Option<u8>) -> Option<nat> {
    match o { Some(v) => Some(v as nat), None => None }
}

/// The entries of a value list and the position after it.
pub open spec fn val_list_at(d: Seq<u8>, p: int) -> Option<(Seq<EntryView>, int)> {
    match list_at(d, p) {
        Some((n, q)) => entries_at(d, q, n),
        None => None,
    }
}

/// A `GetListResponse`: its server id, its entries, and the position after it.
pub open spec fn list_response_at(d: Seq<u8>, p: int) -> Option<(Option<Seq<u8>>, Seq<EntryView>, int)> {
    match octets_at(d, p) {
        Some((client, p1)) => match octets_at(d, p1) {
            Some((server, p2)) => match octets_at(d, p2) {
                Some((name, p3)) => match uint_at(d, p3, 4, true) {
                    Some((t, p4)) => match val_list_at(d, p4) {
                        Some((es, p5)) => match octets_at(d, p5) {
                            Some((sig, p6)) => match uint_at(d, p6, 4, true) {
                                Some((gt, p7)) => Some((server, es, p7)),
                                None => None,
                            },
                            None => None,
                        },
                        None => None,
                    },
                    None => None,
                },
                None => None,
            },
            None => None,
        },
        None => None,
    }
}

/// A parameter tree (name and value only) and the position after it.
pub open spec fn tree_end(d: Seq<u8>, p: int) -> Option<int> {
    match tl_at(d, p) {
        Some((t, n, q)) => if t == 0 {
            Some(q)
        } else {
            match octets_at(d, q) {
                Some((name, q1)) => match value_at(d, q1) {
                    Some((v, q2)) => Some(q2),
                    None => None,
                },
                None => None,
            }
        },
        None => None,
    }
}

/// The position after a `GetProcParameterResponse`: server id, tree path, tree.
pub open spec fn proc_parameter_end(d: Seq<u8>, p: int) -> Option<int> {
    match octets_at(d, p) {
        Some((server, q1)) => match octets_at(d, q1) {
            Some((path, q2)) => tree_end(d, q2),
            None => None,
        },
        None => None,
    }
}

/// The position after an attention message: server id, number, message, details.
pub open spec fn attention_end(d: Seq<u8>, p: int) -> Option<int> {
    match octets_at(d, p) {
        Some((server, q1)) => proc_parameter_end(d, q1),
        None => None,
    }
}

/// The position after a skipped element.
pub open spec fn skip_end(d: Seq<u8>, p: int) -> Option<int> {
    match tl_at(d, p) {
        Some((t, n, q)) => if q + n > d.len() { None } else { Some(q + n) },
        None => None,
    }
}

/// A message body: its type, the entries of a `GetListResponse`, and the position after it.
pub open spec fn body_at(d: Seq<u8>, p: int) -> Option<(nat, Option<(Option<Seq<u8>>, Seq<EntryView>)>, int)> {
    match uint_at(d, p, 2, false) {
        Some((Some(ty), q)) => if ty == 0x701 {
            match list_response_at(d, q) {
                Some((server, es, r)) => Some((ty, Some((server, es)), r)),
                None => None,
            }
        } else if ty == 0x601 {
            match proc_parameter_end(d, q) {
                Some(r) => Some((ty, None, r)),
                None => None,
            }
        } else if ty == 0x901 {
            match attention_end(d, q) {
                Some(r) => Some((ty, None, r)),
                None => None,
            }
        } else {
            match skip_end(d, q) {
                Some(r) => Some((ty, None, r)),
                None => None,
            }
        },
        _ => None,
    }
}

/// Abstract form of a message: its body type and, for a `GetListResponse`, its entries.
pub type MessageView = (nat, Option<(Option<Seq<u8>>, Seq<EntryView>)>);

/// A message: transaction id, group, abort flag, body, optional CRC, end marker.
#[verifier::opaque]
pub open spec fn message_at(d: Seq<u8>, p: int) -> Option<(MessageView, int)> {
    match octets_at(d, p) {
        Some((tid, p1)) => match uint_at(d, p1, 1, false) {
            Some((g, p2)) => match uint_at(d, p2, 1, false) {
                Some((a, p3)) => match body_at(d, p3) {
                    Some((ty, es, p4)) => match uint_at(d, p4, 2, true) {
                        Some((crc, p5)) => match uint_at(d, p5, 1, false) {
                            Some((e, p6)) => Some(((ty, es), p6)),
                            None => None,
                        },
                        None => None,
                    },
                    None => None,
                },
                None => None,
            },
            None => None,
        },
        None => None,
    }
}

/// The messages of a file from `p` on: read until a zero byte, the end of
/// the data, or the first message that does not parse.
pub open spec fn file_messages(d: Seq<u8>, p: int) -> Seq<MessageView>
    decreases d.len() - p,
{
    if 0 <= p < d.len() && d[p] != 0 {
        match message_at(d, p) {
            Some((m, q)) => if p < q <= d.len() { seq![m] + file_messages(d, q) } else { seq![m] },
            None => Seq::empty(),
        }
    } else {
        Seq::empty()
    }
}

/// The abstract form of a decoded message.
pub open spec fn message_view(m: SmlMessage) -> MessageView {
    (m.message_body.msg_type as nat, match m.message_body.get_list_response {
        Some(l) => Some((opt_bytes(l.server_id), l.val_list@.map_values(|e: SmlListEntry| entry_view(e)))),
        None => None,
    })
}

/// A parser over the bytes of one SML file, with its current position.
pub struct SmlParser {
    pub data: Vec<u8>,
    pub pos: usize,
}

impl SmlParser {
    /// A parser at the start of `data`.
    pub fn new(data: &[u8]) -> (r: SmlParser)
        ensures
            r.data@ == data@,
            r.pos == 0,
    {
        let mut v: Vec<u8> = Vec::new();
        let mut i: usize = 0;
        while i < data.len()
            invariant
                i <= data@.len(),
                v@ == data@.subrange(0, i as int),
            decreases data.len() - i,
        {
            v.push(data[i]);
            i = i + 1;
            assert(v@ =~= data@.subrange(0, i as int));
        }
        assert(v@ =~= data@);
        SmlParser { data: v, pos: 0 }
    }

    fn fail(detail: &str) -> (r: SmlError)
        ensures
            r matches SmlError::ParseError(_),
    {
        SmlError::ParseError(lit(detail))
    }

    /// Reads a type-length field.
    pub fn parse_type_length(&mut self) -> (r: Result<(u8, usize), SmlError>)
        ensures
            final(self).data@ == old(self).data@,
            match tl_at(old(self).data@, old(self).pos as int) {
                Some((t, n, q)) => r == Ok::<(u8, usize), SmlError>((t, n as usize)) && final(self).pos == q,
                None => r is Err,
            },
    {
        if self.pos >= self.data.len() {
            return Err(Self::fail("Unexpected end of data"));
        }
        let first_byte = self.data[self.pos];
        self.pos = self.pos + 1;
        let type_field = (first_byte >> 4u8) & 0x07u8;
        let length_field = first_byte & 0x0Fu8;
        let length: usize = if length_field == 0x0F {
            if self.pos >= self.data.len() {
                return Err(Self::fail("Unexpected end in extended length"));
            }
            let extended = self.data[self.pos];
            self.pos = self.pos + 1;
            extended as usize
        } else {
            length_field as usize
        };
        Ok((type_field, length))
    }

    /// Number of data bytes after a type-length field read from `start`.
    fn data_length(&self, start: usize, length: usize) -> (k: usize)
        requires
            start <= self.pos,
        ensures
            k == data_len(length as nat, start as int, self.pos as int),
    {
        let tl = self.pos - start;
        if length >= tl { length - tl } else { 0 }
    }

    /// Reads a list header and returns its number of elements.
    pub fn parse_list_length(&mut self) -> (r: Result<usize, SmlError>)
        ensures
            final(self).data@ == old(self).data@,
            match list_at(old(self).data@, old(self).pos as int) {
                Some((n, q)) => r == Ok::<usize, SmlError>(n as usize) && final(self).pos == q,
                None => r is Err,
            },
    {
        let (type_field, length) = self.parse_type_length()?;
        if type_field != 7 {
            return Err(Self::fail("Expected list type"));
        }
        Ok(length)
    }

    /// Reads an octet string; absent when it carries no data bytes.
    pub fn parse_octet_string(&mut self) -> (r: Result<Option<Vec<u8>>, SmlError>)
        ensures
            final(self).data@ == old(self).data@,
            match octets_at(old(self).data@, old(self).pos as int) {
                Some((o, q)) => r matches Ok(v) && opt_bytes(v) == o && final(self).pos == q,
                None => r is Err,
            },
    {
        let start = self.pos;
        let (_type_field, length) = self.parse_type_length()?;
        let k = self.data_length(start, length);
        if k == 0 {
            return Ok(None);
        }
        if k > self.data.len() - self.pos {
            return Err(Self::fail("Octet string extends beyond data"));
        }
        let mut value: Vec<u8> = Vec::new();
        let end = self.pos + k;
        let mut i = self.pos;
        while i < end
            invariant
                self.pos <= i <= end <= self.data@.len(),
                value@ == self.data@.subrange(self.pos as int, i as int),
            decreases end - i,
        {
            value.push(self.data[i]);
            i = i + 1;
            assert(value@ =~= self.data@.subrange(self.pos as int, i as int));
        }
        self.pos = end;
        Ok(Some(value))
    }

    /// Reads an optional octet string.
    pub fn parse_optional_octet_string(&mut self) -> (r: Result<Option<Vec<u8>>, SmlError>)
        ensures
            final(self).data@ == old(self).data@,
            match octets_at(old(self).data@, old(self).pos as int) {
                Some((o, q)) => r matches Ok(v) && opt_bytes(v) == o && final(self).pos == q,
                None => r is Err,
            },
    {
        self.parse_octet_string()
    }

    /// Reads the `w` data bytes of a number as a big-endian unsigned value.
    fn read_be(&mut self, w: usize) -> (r: u64)
        requires
            1 <= w <= 8,
            old(self).pos + w <= old(self).data@.len(),
        ensures
            final(self).data@ == old(self).data@,
            final(self).pos == old(self).pos + w,
            r as nat == be_uint(old(self).data@.subrange(old(self).pos as int, old(self).pos + w)),
    {
        let start = self.pos;
        let mut v: u64 = 0;
        let mut i: usize = 0;
        while i < w
            invariant
                w <= 8,
                start + w <= self.data.len(),
                self.pos == start,
                i <= w,
                v as nat == be_uint(self.data@.subrange(start as int, start + i)),
            decreases w - i,
        {
            let ghost s = self.data@.subrange(start as int, start + i + 1);
            proof {
                assert(s.drop_last() =~= self.data@.subrange(start as int, start + i));
                lemma_be_uint_bound(self.data@.subrange(start as int, start + i));
                assert(pow256(i as nat) <= pow256(7)) by {
                    lemma_pow256_mono(i as nat, 7);
                }
                lemma_pow256_values();
            }
            v = v * 256 + self.data[start + i] as u64;
            i = i + 1;
        }
        self.pos = start + w;
        v
    }

    /// Reads an unsigned number of exactly `w` data bytes (absent without data when `optional`).
    fn parse_uint(&mut self, w: usize, optional: bool) -> (r: Result<Option<u64>, SmlError>)
        requires
            1 <= w <= 8,
        ensures
            final(self).data@ == old(self).data@,
            match uint_at(old(self).data@, old(self).pos as int, w as nat, optional) {
                Some((o, q)) => r matches Ok(v) && opt_nat64(v) == o && final(self).pos == q,
                None => r is Err,
            },
            r matches Ok(Some(v)) ==> (v as nat) < pow256(w as nat),
    {
        let start = self.pos;
        let (_type_field, length) = self.parse_type_length()?;
        let k = self.data_length(start, length);
        if optional && k == 0 {
            return Ok(None);
        }
        if k != w {
            return Err(Self::fail("Invalid number length"));
        }
        if w > self.data.len() - self.pos {
            return Err(Self::fail("Unexpected end of data"));
        }
        let ghost q = self.pos;
        let v = self.read_be(w);
        proof { lemma_be_uint_bound(self.data@.subrange(q as int, q + w)); }
        Ok(Some(v))
    }

    pub fn parse_unsigned8(&mut self) -> (r: Result<u8, SmlError>)
        ensures
            final(self).data@ == old(self).data@,
            match uint_at(old(self).data@, old(self).pos as int, 1, false) {
                Some((o, q)) => r matches Ok(v) && o == Some(v as nat) && final(self).pos == q,
                None => r is Err,
            },
    {
        match self.parse_uint(1, false)? {
            Some(v) => {
                proof { lemma_pow256_values(); }
                Ok(v as u8)
            },
            None => Err(Self::fail("Missing unsigned8")),
        }
    }

    pub fn parse_optional_unsigned8(&mut self) -> (r: Result<Option<u8>, SmlError>)
        ensures
            final(self).data@ == old(self).data@,
            match uint_at(old(self).data@, old(self).pos as int, 1, true) {
                Some((o, q)) => r matches Ok(v) && opt_nat8(v) == o && final(self).pos == q,
                None => r is Err,
            },
    {
        match self.parse_uint(1, true)? {
            Some(v) => {
                proof { lemma_pow256_values(); }
                Ok(Some(v as u8))
            },
            None => Ok(None),
        }
    }

    pub fn parse_unsigned16(&mut self) -> (r: Result<u16, SmlError>)
        ensures
            final(self).data@ == old(self).data@,
            match uint_at(old(self).data@, old(self).pos as int, 2, false) {
                Some((o, q)) => r matches Ok(v) && o == Some(v as nat) && final(self).pos == q,
                None => r is Err,
            },
    {
        match self.parse_uint(2, false)? {
            Some(v) => {
                proof {
                    lemma_pow256_values();
                }
                Ok(v as u16)
            },
            None => Err(Self::fail("Missing unsigned16")),
        }
    }

    pub fn parse_optional_unsigned16(&mut self) -> (r: Result<Option<u16>, SmlError>)
        ensures
            final(self).data@ == old(self).data@,
            match uint_at(old(self).data@, old(self).pos as int, 2, true) {
                Some((o, q)) => r matches Ok(v) && opt_nat16(v) == o && final(self).pos == q,
                None => r is Err,
            },
    {
        match self.parse_uint(2, true)? {
            Some(v) => {
                proof {
                    lemma_pow256_values();
                }
                Ok(Some(v as u16))
            },
            None => Ok(None),
        }
    }

    pub fn parse_unsigned32(&mut self) -> (r: Result<u32, SmlError>)
        ensures
            final(self).data@ == old(self).data@,
            match uint_at(old(self).data@, old(self).pos as int, 4, false) {
                Some((o, q)) => r matches Ok(v) && o == Some(v as nat) && final(self).pos == q,
                None => r is Err,
            },
    {
        match self.parse_uint(4, false)? {
            Some(v) => {
                proof {
                    lemma_pow256_values();
                }
                Ok(v as u32)
            },
            None => Err(Self::fail("Missing unsigned32")),
        }
    }

    pub fn parse_optional_unsigned32(&mut self) -> (r: Result<Option<u32>, SmlError>)
        ensures
            final(self).data@ == old(self).data@,
            match uint_at(old(self).data@, old(self).pos as int, 4, true) {
                Some((o, q)) => r matches Ok(v) && opt_nat32(v) == o && final(self).pos == q,
                None => r is Err,
            },
    {
        match self.parse_uint(4, true)? {
            Some(v) => {
                proof {
                    lemma_pow256_values();
                }
                Ok(Some(v as u32))
            },
            None => Ok(None),
        }
    }

    pub fn parse_unsigned64(&mut self) -> (r: Result<u64, SmlError>)
        ensures
            final(self).data@ == old(self).data@,
            match uint_at(old(self).data@, old(self).pos as int, 8, false) {
                Some((o, q)) => r matches Ok(v) && o == Some(v as nat) && final(self).pos == q,
                None => r is Err,
            },
    {
        match self.parse_uint(8, false)? {
            Some(v) => Ok(v),
            None => Err(Self::fail("Missing unsigned64")),
        }
    }

    pub fn parse_optional_unsigned64(&mut self) -> (r: Result<Option<u64>, SmlError>)
        ensures
            final(self).data@ == old(self).data@,
            match uint_at(old(self).data@, old(self).pos as int, 8, true) {
                Some((o, q)) => r matches Ok(v) && opt_nat64(v) == o && final(self).pos == q,
                None => r is Err,
            },
    {
        self.parse_uint(8, true)
    }

    pub fn parse_signed8(&mut self) -> (r: Result<i8, SmlError>)
        ensures
            final(self).data@ == old(self).data@,
            match uint_at(old(self).data@, old(self).pos as int, 1, false) {
                Some((o, q)) => r matches Ok(v) && o matches Some(u) && v as int == signed_of(u, 1) && final(self).pos == q,
                None => r is Err,
            },
    {
        let u = self.parse_unsigned8()?;
        Ok(to_i8(u))
    }

    pub fn parse_optional_signed8(&mut self) -> (r: Result<Option<i8>, SmlError>)
        ensures
            final(self).data@ == old(self).data@,
            match uint_at(old(self).data@, old(self).pos as int, 1, true) {
                Some((o, q)) => r matches Ok(v) && final(self).pos == q && match (o, v) {
                    (Some(u), Some(s)) => s as int == signed_of(u, 1),
                    (None, None) => true,
                    _ => false,
                },
                None => r is Err,
            },
    {
        match self.parse_optional_unsigned8()? {
            Some(u) => Ok(Some(to_i8(u))),
            None => Ok(None),
        }
    }

    pub fn parse_signed16(&mut self) -> (r: Result<i16, SmlError>)
        ensures
            final(self).data@ == old(self).data@,
            match uint_at(old(self).data@, old(self).pos as int, 2, false) {
                Some((o, q)) => r matches Ok(v) && o matches Some(u) && v as int == signed_of(u, 2) && final(self).pos == q,
                None => r is Err,
            },
    {
        let u = self.parse_unsigned16()?;
        Ok(to_i16(u))
    }

    pub fn parse_signed32(&mut self) -> (r: Result<i32, SmlError>)
        ensures
            final(self).data@ == old(self).data@,
            match uint_at(old(self).data@, old(self).pos as int, 4, false) {
                Some((o, q)) => r matches Ok(v) && o matches Some(u) && v as int == signed_of(u, 4) && final(self).pos == q,
                None => r is Err,
            },
    {
        let u = self.parse_unsigned32()?;
        Ok(to_i32(u))
    }

    pub fn parse_signed64(&mut self) -> (r: Result<i64, SmlError>)
        ensures
            final(self).data@ == old(self).data@,
            match uint_at(old(self).data@, old(self).pos as int, 8, false) {
                Some((o, q)) => r matches Ok(v) && o matches Some(u) && v as int == signed_of(u, 8) && final(self).pos == q,
                None => r is Err,
            },
    {
        let u = self.parse_unsigned64()?;
        Ok(to_i64(u))
    }

    pub fn parse_bool(&mut self) -> (r: Result<bool, SmlError>)
        ensures
            final(self).data@ == old(self).data@,
            match uint_at(old(self).data@, old(self).pos as int, 1, false) {
                Some((o, q)) => r matches Ok(b) && o matches Some(u) && b == (u != 0) && final(self).pos == q,
                None => r is Err,
            },
    {
        let u = self.parse_unsigned8()?;
        Ok(u != 0)
    }

    fn octets_or_empty(o: Option<Vec<u8>>) -> (r: Vec<u8>)
        ensures
            r@ == match o { Some(v) => v@, None => Seq::<u8>::empty() },
    {
        match o {
            Some(v) => v,
            None => Vec::new(),
        }
    }

    /// Reads an optional value of any type.
    pub fn parse_optional_value(&mut self) -> (r: Result<Option<SmlValue>, SmlError>)
        ensures
            final(self).data@ == old(self).data@,
            match value_at(old(self).data@, old(self).pos as int) {
                Some((o, q)) => r matches Ok(v) && final(self).pos == q
                    && o == match v { Some(x) => Some(x@), None => None::<SmlValueView> },
                None => r is Err,
            },
    {
        let start = self.pos;
        let (type_field, length) = self.parse_type_length()?;
        let k = self.data_length(start, length);
        if k == 0 {
            return Ok(None);
        }
        if k > self.data.len() - self.pos {
            return Err(Self::fail("Value extends beyond data"));
        }
        let q = self.pos;
        if type_field == 5 {
            if k != 1 {
                return Err(Self::fail("Invalid bool length"));
            }
            let b = self.data[q];
            self.pos = q + 1;
            return Ok(Some(SmlValue::Bool(b != 0)));
        }
        if type_field == 6 || type_field == 0 {
            if !(k == 1 || k == 2 || k == 4 || k == 8) {
                return Err(Self::fail("Invalid integer length"));
            }
            let u = self.read_be(k);
            proof {
                lemma_be_uint_bound(self.data@.subrange(q as int, q + k));
                lemma_pow256_values();
            }
            if type_field == 6 {
                if k == 1 {
                    return Ok(Some(SmlValue::Int8(to_i8(u as u8))));
                } else if k == 2 {
                    return Ok(Some(SmlValue::Int16(to_i16(u as u16))));
                } else if k == 4 {
                    return Ok(Some(SmlValue::Int32(to_i32(u as u32))));
                } else {
                    return Ok(Some(SmlValue::Int64(to_i64(u))));
                }
            } else {
                if k == 1 {
                    return Ok(Some(SmlValue::UInt8(u as u8)));
                } else if k == 2 {
                    return Ok(Some(SmlValue::UInt16(u as u16)));
                } else if k == 4 {
                    return Ok(Some(SmlValue::UInt32(u as u32)));
                } else {
                    return Ok(Some(SmlValue::UInt64(u)));
                }
            }
        }
        let mut value: Vec<u8> = Vec::new();
        let end = q + k;
        let mut i = q;
        while i < end
            invariant
                q <= i <= end <= self.data@.len(),
                value@ == self.data@.subrange(q as int, i as int),
            decreases end - i,
        {
            value.push(self.data[i]);
            i = i + 1;
            assert(value@ =~= self.data@.subrange(q as int, i as int));
        }
        self.pos = end;
        Ok(Some(SmlValue::OctetString(value)))
    }

    /// Reads one entry of a value list.
    pub fn parse_list_entry(&mut self) -> (r: Result<SmlListEntry, SmlError>)
        ensures
            final(self).data@ == old(self).data@,
            match entry_at(old(self).data@, old(self).pos as int) {
                Some((e, q)) => r matches Ok(x) && entry_view(x) == e && final(self).pos == q,
                None => r is Err,
            },
    {
        proof { reveal(entry_at); }
        let obis_code = self.parse_optional_octet_string()?;
        let status = self.parse_optional_unsigned64()?;
        let val_time = self.parse_optional_unsigned32()?;
        let unit = self.parse_optional_unsigned8()?;
        let scaler = self.parse_optional_signed8()?;
        let value = self.parse_optional_value()?;
        let value_signature = self.parse_optional_octet_string()?;
        Ok(SmlListEntry { obis_code, status, val_time, unit, scaler, value, value_signature })
    }

    /// Reads a value list.
    pub fn parse_val_list(&mut self) -> (r: Result<Vec<SmlListEntry>, SmlError>)
        ensures
            final(self).data@ == old(self).data@,
            match val_list_at(old(self).data@, old(self).pos as int) {
                Some((es, q)) => r matches Ok(v) && v@.map_values(|e: SmlListEntry| entry_view(e)) == es
                    && final(self).pos == q,
                None => r is Err,
            },
    {
        let list_length = self.parse_list_length()?;
        let ghost d = self.data@;
        let ghost q0 = self.pos as int;
        let mut entries: Vec<SmlListEntry> = Vec::new();
        let mut i: usize = 0;
        while i < list_length
            invariant
                self.data@ == d,
                d == old(self).data@,
                val_list_at(d, old(self).pos as int) == entries_at(d, q0, list_length as nat),
                i <= list_length,
                entries_at(d, q0, i as nat) == Some((entries@.map_values(|e: SmlListEntry| entry_view(e)), self.pos as int)),
            decreases list_length - i,
        {
            let ghost before = entries@.map_values(|e: SmlListEntry| entry_view(e));
            match self.parse_list_entry() {
                Ok(e) => {
                    let ghost ev = entry_view(e);
                    entries.push(e);
                    assert(entries@.map_values(|e: SmlListEntry| entry_view(e)) =~= before.push(ev));
                },
                Err(err) => {
                    proof { lemma_entries_fail(d, q0, i as nat, list_length as nat); }
                    return Err(err);
                },
            }
            i = i + 1;
        }
        Ok(entries)
    }

    /// Reads the body of a `GetListResponse`.
    pub fn parse_get_list_response(&mut self) -> (r: Result<SmlGetListResponse, SmlError>)
        ensures
            final(self).data@ == old(self).data@,
            match list_response_at(old(self).data@, old(self).pos as int) {
                Some((server, es, q)) => r matches Ok(x) && opt_bytes(x.server_id) == server
                    && x.val_list@.map_values(|e: SmlListEntry| entry_view(e)) == es && final(self).pos == q,
                None => r is Err,
            },
    {
        let client_id = self.parse_optional_octet_string()?;
        let server_id = self.parse_optional_octet_string()?;
        let list_name = self.parse_optional_octet_string()?;
        let act_sensor_time = self.parse_optional_unsigned32()?;
        let val_list = self.parse_val_list()?;
        let list_signature = self.parse_optional_octet_string()?;
        let act_gateway_time = self.parse_optional_unsigned32()?;
        Ok(SmlGetListResponse {
            client_id,
            server_id,
            list_name,
            act_sensor_time,
            val_list,
            list_signature,
            act_gateway_time,
        })
    }

    /// Reads an optional parameter tree (its name and value).
    pub fn parse_optional_tree(&mut self) -> (r: Result<Option<SmlTree>, SmlError>)
        ensures
            final(self).data@ == old(self).data@,
            match tree_end(old(self).data@, old(self).pos as int) {
                Some(q) => r is Ok && final(self).pos == q,
                None => r is Err,
            },
    {
        let (type_field, _length) = self.parse_type_length()?;
        if type_field == 0 {
            return Ok(None);
        }
        let parameter_name = self.parse_optional_octet_string()?;
        let parameter_value = self.parse_optional_value()?;
        Ok(Some(SmlTree { parameter_name, parameter_value, child_list: None }))
    }

    /// Reads the body of a `GetProcParameterResponse`.
    pub fn parse_get_proc_parameter_response(&mut self) -> (r: Result<SmlGetProcParameterResponse, SmlError>)
        ensures
            final(self).data@ == old(self).data@,
            match proc_parameter_end(old(self).data@, old(self).pos as int) {
                Some(q) => r is Ok && final(self).pos == q,
                None => r is Err,
            },
    {
        let server_id = self.parse_optional_octet_string()?;
        let path = self.parse_octet_string()?;
        let parameter_tree = self.parse_optional_tree()?;
        Ok(SmlGetProcParameterResponse {
            server_id,
            parameter_tree_path: Self::octets_or_empty(path),
            parameter_tree,
        })
    }

    /// Reads the body of an attention message.
    pub fn parse_attention_message(&mut self) -> (r: Result<SmlAttentionMessage, SmlError>)
        ensures
            final(self).data@ == old(self).data@,
            match attention_end(old(self).data@, old(self).pos as int) {
                Some(q) => r is Ok && final(self).pos == q,
                None => r is Err,
            },
    {
        let server_id = self.parse_optional_octet_string()?;
        let number = self.parse_octet_string()?;
        let attention_msg = self.parse_optional_octet_string()?;
        let attention_details = self.parse_optional_tree()?;
        Ok(SmlAttentionMessage {
            server_id,
            attention_no: Self::octets_or_empty(number),
            attention_msg,
            attention_details,
        })
    }

    /// Skips one element whose length field counts the bytes after its type-length bytes.
    pub fn skip_list(&mut self) -> (r: Result<(), SmlError>)
        ensures
            final(self).data@ == old(self).data@,
            match skip_end(old(self).data@, old(self).pos as int) {
                Some(q) => r is Ok && final(self).pos == q,
                None => r is Err,
            },
    {
        let (_type_field, length) = self.parse_type_length()?;
        if length > self.data.len() - self.pos {
            return Err(Self::fail("Skip extends beyond data"));
        }
        self.pos = self.pos + length;
        Ok(())
    }

    /// Reads a message body, dispatching on its type.
    pub fn parse_message_body(&mut self) -> (r: Result<SmlMessageBody, SmlError>)
        ensures
            final(self).data@ == old(self).data@,
            match body_at(old(self).data@, old(self).pos as int) {
                Some((ty, es, q)) => r matches Ok(b) && b.msg_type as nat == ty && final(self).pos == q
                    && match b.get_list_response {
                        Some(l) => es == Some((opt_bytes(l.server_id), l.val_list@.map_values(|e: SmlListEntry| entry_view(e)))),
                        None => es is None,
                    },
                None => r is Err,
            },
    {
        let msg_type = self.parse_unsigned16()?;
        let mut body = SmlMessageBody {
            msg_type,
            get_list_response: None,
            get_proc_parameter_response: None,
            attention_response: None,
        };
        if msg_type == 0x701 {
            body.get_list_response = Some(self.parse_get_list_response()?);
        } else if msg_type == 0x601 {
            body.get_proc_parameter_response = Some(self.parse_get_proc_parameter_response()?);
        } else if msg_type == 0x901 {
            body.attention_response = Some(self.parse_attention_message()?);
        } else {
            self.skip_list()?;
        }
        Ok(body)
    }

    /// Reads one message.
    pub fn parse_sml_message(&mut self) -> (r: Result<SmlMessage, SmlError>)
        ensures
            final(self).data@ == old(self).data@,
            match message_at(old(self).data@, old(self).pos as int) {
                Some((m, q)) => r matches Ok(x) && message_view(x) == m && final(self).pos == q,
                None => r is Err,
            },
    {
        proof { reveal(message_at); }
        let tid = self.parse_octet_string()?;
        let group_no = self.parse_unsigned8()?;
        let abort_on_error = self.parse_unsigned8()?;
        let message_body = self.parse_message_body()?;
        let crc = self.parse_optional_unsigned16()?;
        let end_of_message = self.parse_unsigned8()?;
        Ok(SmlMessage {
            transaction_id: Self::octets_or_empty(tid),
            group_no,
            abort_on_error,
            message_body,
            crc,
            end_of_message,
            client_id: None,
        })
    }

    /// Reads the messages of the file; fails when none can be read.
    pub fn parse_sml_file(&mut self) -> (r: Result<SmlFile, SmlError>)
        ensures
            final(self).data@ == old(self).data@,
            file_messages(old(self).data@, old(self).pos as int).len() == 0 <==> r is Err,
            r matches Ok(f) ==> f.messages@.map_values(|m: SmlMessage| message_view(m))
                == file_messages(old(self).data@, old(self).pos as int),
    {
        let ghost d = self.data@;
        let ghost p0 = self.pos as int;
        let mut messages: Vec<SmlMessage> = Vec::new();
        let mut stop = false;
        while !stop && self.pos < self.data.len() && self.data[self.pos] != 0
            invariant
                self.data@ == d,
                !stop ==> messages@.map_values(|m: SmlMessage| message_view(m)) + file_messages(d, self.pos as int)
                    == file_messages(d, p0),
                stop ==> messages@.map_values(|m: SmlMessage| message_view(m)) == file_messages(d, p0),
            decreases (if self.pos <= d.len() { d.len() - self.pos } else { 0int }) + (if stop { 0int } else { 1int }),
        {
            let ghost before = messages@.map_values(|m: SmlMessage| message_view(m));
            let ghost p = self.pos as int;
            let old_pos = self.pos;
            match self.parse_sml_message() {
                Ok(message) => {
                    let ghost mv = message_view(message);
                    messages.push(message);
                    assert(messages@.map_values(|m: SmlMessage| message_view(m)) =~= before.push(mv));
                    if self.pos <= old_pos || self.pos > self.data.len() {
                        assert(before + seq![mv] =~= before.push(mv));
                        self.pos = old_pos;
                        stop = true;
                    } else {
                        assert(before + (seq![mv] + file_messages(d, self.pos as int))
                            =~= before.push(mv) + file_messages(d, self.pos as int));
                    }
                },
                Err(e) => {
                    assert(before + Seq::<MessageView>::empty() =~= before);
                    self.pos = old_pos;
                    stop = true;
                },
            }
        }
        proof {
            if !stop {
                assert(file_messages(d, self.pos as int) == Seq::<MessageView>::empty());
                assert(messages@.map_values(|m: SmlMessage| message_view(m)) + Seq::<MessageView>::empty()
                    =~= messages@.map_values(|m: SmlMessage| message_view(m)));
            }
        }
        if messages.len() == 0 {
            assert(messages@.map_values(|m: SmlMessage| message_view(m)).len() == 0);
            return Err(SmlError::ParseError(lit("No valid SML messages found")));
        }
        Ok(SmlFile { messages })
    }
}


fn to_i8(u: u8) -> (r: i8)
    ensures
        r as int == signed_of(u as nat, 1),
{
    proof { lemma_pow256_values(); }
    if u >= 128 { (u as i16 - 256) as i8 } else { u as i8 }
}

fn to_i16(u: u16) -> (r: i16)
    ensures
        r as int == signed_of(u as nat, 2),
{
    proof { lemma_pow256_values(); }
    if u >= 32768 { (u as i32 - 65536) as i16 } else { u as i16 }
}

fn to_i32(u: u32) -> (r: i32)
    ensures
        r as int == signed_of(u as nat, 4),
{
    proof { lemma_pow256_values(); }
    if u >= 2147483648 { (u as i64 - 4294967296) as i32 } else { u as i32 }
}

fn to_i64(u: u64) -> (r: i64)
    ensures
        r as int == signed_of(u as nat, 8),
{
    proof { lemma_pow256_values(); }
    if u >= 9223372036854775808 { (u as i128 - 18446744073709551616) as i64 } else { u as i64 }
}

pub proof fn lemma_pow256_values()
    ensures
        pow256(1) == 256,
        pow256(2) == 65536,
        pow256(4) == 4294967296,
        pow256(7) == 72057594037927936,
        pow256(8) == 18446744073709551616,
{
    assert(pow256(0) == 1);
    assert(pow256(1) == 256);
    assert(pow256(2) == 65536);
    assert(pow256(3) == 16777216);
    assert(pow256(4) == 4294967296);
    assert(pow256(5) == 1099511627776);
    assert(pow256(6) == 281474976710656);
    assert(pow256(7) == 72057594037927936);
    assert(pow256(8) == 18446744073709551616);
}

proof fn lemma_entries_fail(d: Seq<u8>, p: int, i: nat, n: nat)
    requires
        i < n,
        entries_at(d, p, i) is Some,
        entry_at(d, entries_at(d, p, i).unwrap().1) is None,
    ensures
        entries_at(d, p, n) is None,
    decreases n,
{
    if n > i + 1 {
        lemma_entries_fail(d, p, i, (n - 1) as nat);
    }
}

pub proof fn lemma_pow256_mono(a: nat, b: nat)
    requires
        a <= b,
    ensures
        pow256(a) <= pow256(b),
    decreases b,
{
    if a < b {
        lemma_pow256_mono(a, (b - 1) as nat);
    }
}

} // verus!

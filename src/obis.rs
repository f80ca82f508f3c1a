//! OBIS identifiers: validation, normalisation, unit extraction and the
//! fixed tables of standard codes.
use vstd::prelude::*;
use crate::text::{chars_of, string_of, string_of_range, rfind_char, last_pos};
use crate::table::{StrTable, TableView, table_get};
use crate::obis_tables::{standard_descriptions, easymeter_names, ebz_names};

verus! {

/// One OBIS data line: the code, the raw value text and its optional unit.
pub struct ObisData {
    pub code: String,
    pub value: String,
    pub unit: Option<String>,
}

/// Whether `c` is white space in the Unicode sense (`char::is_whitespace`).
pub open spec fn is_ws(c: char) -> bool {
    ('\u{9}' <= c && c <= '\u{D}') || c == ' ' || c == '\u{85}' || c == '\u{A0}' || c == '\u{1680}'
        || ('\u{2000}' <= c && c <= '\u{200A}') || c == '\u{2028}' || c == '\u{2029}'
        || c == '\u{202F}' || c == '\u{205F}' || c == '\u{3000}'
}

pub fn is_whitespace_char(c: char) -> (r: bool)
    ensures
        r == is_ws(c),
{
    ('\u{9}' <= c && c <= '\u{D}') || c == ' ' || c == '\u{85}' || c == '\u{A0}' || c == '\u{1680}'
        || ('\u{2000}' <= c && c <= '\u{200A}') || c == '\u{2028}' || c == '\u{2029}'
        || c == '\u{202F}' || c == '\u{205F}' || c == '\u{3000}'
}

/// `s` without its leading white space.
pub open spec fn trim_start(s: Seq<char>) -> Seq<char>
    decreases s.len(),
{
    if s.len() > 0 && is_ws(s[0]) {
        trim_start(s.drop_first())
    } else {
        s
    }
}

/// `s` without its trailing white space.
pub open spec fn trim_end(s: Seq<char>) -> Seq<char>
    decreases s.len(),
{
    if s.len() > 0 && is_ws(s.last()) {
        trim_end(s.drop_last())
    } else {
        s
    }
}

/// `s` without surrounding white space.
pub open spec fn trim(s: Seq<char>) -> Seq<char> {
    trim_end(trim_start(s))
}

/// Bounds `(lo, hi)` such that `v[lo..hi]` is `v` trimmed.
pub fn trim_bounds(v: &Vec<char>) -> (r: (usize, usize))
    ensures
        r.0 <= r.1 <= v@.len(),
        v@.subrange(r.0 as int, r.1 as int) == trim(v@),
{
    let n = v.len();
    let mut lo: usize = 0;
    assert(v@.subrange(0, n as int) =~= v@);
    while lo < n && is_whitespace_char(v[lo])
        invariant
            n == v@.len(),
            lo <= n,
            trim_start(v@.subrange(lo as int, n as int)) == trim_start(v@),
        decreases n - lo,
    {
        assert(v@.subrange(lo as int, n as int).drop_first() =~= v@.subrange(lo + 1, n as int));
        lo = lo + 1;
    }
    assert(v@.subrange(0, n as int) =~= v@);
    let mut hi: usize = n;
    while hi > lo && is_whitespace_char(v[hi - 1])
        invariant
            n == v@.len(),
            lo <= hi <= n,
            trim_end(v@.subrange(lo as int, hi as int)) == trim(v@),
        decreases hi,
    {
        assert(v@.subrange(lo as int, hi as int).drop_last() =~= v@.subrange(lo as int, hi - 1));
        hi = hi - 1;
    }
    (lo, hi)
}

/// Pieces of `s` between the occurrences of `c` (like `str::split`).
pub open spec fn split(s: Seq<char>, c: char) -> Seq<Seq<char>>
    decreases s.len(),
{
    if s.len() == 0 {
        seq![Seq::empty()]
    } else {
        let p = split(s.drop_last(), c);
        if s.last() == c {
            p.push(Seq::empty())
        } else {
            p.update(p.len() - 1, p.last().push(s.last()))
        }
    }
}

pub proof fn lemma_split_nonempty(s: Seq<char>, c: char)
    ensures
        split(s, c).len() >= 1,
    decreases s.len(),
{
    if s.len() > 0 {
        lemma_split_nonempty(s.drop_last(), c);
    }
}

/// The first piece is a prefix of `s`.
pub proof fn lemma_split_first(s: Seq<char>, c: char)
    ensures
        split(s, c)[0].len() <= s.len(),
        s.subrange(0, split(s, c)[0].len() as int) == split(s, c)[0],
    decreases s.len(),
{
    lemma_split_nonempty(s, c);
    if s.len() > 0 {
        let p = split(s.drop_last(), c);
        lemma_split_first(s.drop_last(), c);
        lemma_split_nonempty(s.drop_last(), c);
        if s.last() == c {
            assert(split(s, c)[0] == p[0]);
            assert(s.subrange(0, p[0].len() as int) =~= s.drop_last().subrange(0, p[0].len() as int));
        } else if p.len() == 1 {
            assert(p[0] =~= s.drop_last().subrange(0, p[0].len() as int));
            assert(split(s, c)[0] == p[0].push(s.last()));
            assert(p[0].len() == s.drop_last().len()) by {
                lemma_split_last(s.drop_last(), c);
            }
            assert(s.subrange(0, split(s, c)[0].len() as int) =~= split(s, c)[0]);
        } else {
            assert(split(s, c)[0] == p[0]);
            assert(s.subrange(0, p[0].len() as int) =~= s.drop_last().subrange(0, p[0].len() as int));
        }
    }
}

/// The last piece is a suffix of `s`.
pub proof fn lemma_split_last(s: Seq<char>, c: char)
    ensures
        split(s, c).last().len() <= s.len(),
        s.subrange(s.len() - split(s, c).last().len(), s.len() as int) == split(s, c).last(),
        split(s, c).len() == 1 ==> split(s, c)[0] == s,
    decreases s.len(),
{
    lemma_split_nonempty(s, c);
    if s.len() == 0 {
        assert(s.subrange(0, 0) =~= split(s, c).last());
    } else {
        let p = split(s.drop_last(), c);
        lemma_split_last(s.drop_last(), c);
        lemma_split_nonempty(s.drop_last(), c);
        let q = split(s, c);
        if s.last() == c {
            assert(q.last() =~= Seq::<char>::empty());
            assert(s.subrange(s.len() as int, s.len() as int) =~= q.last());
        } else {
            let d = s.drop_last();
            assert(q.last() == p.last().push(s.last()));
            assert(d.subrange(d.len() - p.last().len(), d.len() as int) == p.last());
            assert(s.subrange(s.len() - q.last().len(), s.len() as int) =~= q.last());
            if q.len() == 1 {
                assert(q[0] =~= s);
            }
        }
    }
}

/// Without `c` in `s`, splitting gives `s` alone.
pub proof fn lemma_split_absent(s: Seq<char>, c: char)
    requires
        forall|i: int| 0 <= i < s.len() ==> s[i] != c,
    ensures
        split(s, c) == seq![s],
    decreases s.len(),
{
    if s.len() > 0 {
        lemma_split_absent(s.drop_last(), c);
        let p = split(s.drop_last(), c);
        assert(p.len() == 1 && p.last() == s.drop_last());
        assert(s.last() != c) by { assert(s[s.len() - 1] != c); }
        assert(s.drop_last().push(s.last()) =~= s);
        assert(split(s, c) =~= seq![s]);
    } else {
        assert(s =~= Seq::<char>::empty());
    }
}

/// The character sequences held by a vector of character vectors.
pub open spec fn pieces(r: Seq<Vec<char>>) -> Seq<Seq<char>> {
    r.map_values(|x: Vec<char>| x@)
}

/// Splits `v` at every `c`.
pub fn split_chars(v: &Vec<char>, c: char) -> (r: Vec<Vec<char>>)
    ensures
        pieces(r@) == split(v@, c),
{
    let mut done: Vec<Vec<char>> = Vec::new();
    let mut cur: Vec<char> = Vec::new();
    let mut i: usize = 0;
    proof { assert(v@.subrange(0, 0) =~= Seq::<char>::empty()); }
    while i < v.len()
        invariant
            i <= v.len(),
            pieces(done@).push(cur@) == split(v@.subrange(0, i as int), c),
        decreases v.len() - i,
    {
        let ghost before = pieces(done@).push(cur@);
        let ch = v[i];
        proof {
            lemma_split_nonempty(v@.subrange(0, i as int), c);
            assert(v@.subrange(0, i + 1).drop_last() =~= v@.subrange(0, i as int));
            assert(v@.subrange(0, i + 1).last() == ch);
        }
        if ch == c {
            let old_cur = cur;
            let ghost od = pieces(done@);
            done.push(old_cur);
            assert(pieces(done@) =~= od.push(old_cur@));
            cur = Vec::new();
            assert(pieces(done@).push(cur@) =~= before.push(Seq::empty()));
        } else {
            cur.push(ch);
            assert(pieces(done@).push(cur@) =~= before.update(before.len() - 1, before.last().push(ch)));
        }
        i = i + 1;
    }
    let ghost fin = pieces(done@).push(cur@);
    done.push(cur);
    assert(pieces(done@) =~= fin);
    assert(v@.subrange(0, v@.len() as int) =~= v@);
    done
}

/// Whether `c` is an ASCII decimal digit.
pub open spec fn is_digit(c: char) -> bool {
    '0' <= c && c <= '9'
}

/// Value of the decimal digit `c`.
pub open spec fn digit_value(c: char) -> nat {
    ((c as u32) - ('0' as u32)) as nat
}

/// The number that the decimal digits `s` denote.
pub open spec fn digits_value(s: Seq<char>) -> nat
    decreases s.len(),
{
    if s.len() == 0 {
        0
    } else {
        digits_value(s.drop_last()) * 10 + digit_value(s.last())
    }
}

/// Whether every character of `s` is a decimal digit.
pub open spec fn all_digits(s: Seq<char>) -> bool {
    forall|i: int| 0 <= i < s.len() ==> is_digit(#[trigger] s[i])
}

/// The digits of an unsigned number written with an optional `+` sign.
pub open spec fn unsigned_digits(s: Seq<char>) -> Seq<char> {
    if s.len() > 0 && s[0] == '+' { s.drop_first() } else { s }
}

/// Whether `s` reads as an 8-bit unsigned integer (`str::parse::<u8>`).
pub open spec fn parses_u8(s: Seq<char>) -> bool {
    let d = unsigned_digits(s);
    d.len() > 0 && all_digits(d) && digits_value(d) <= 255
}

/// Whether `v` reads as an 8-bit unsigned integer.
pub fn is_u8_text(v: &Vec<char>) -> (r: bool)
    ensures
        r == parses_u8(v@),
{
    let start: usize = if v.len() > 0 && v[0] == '+' { 1 } else { 0 };
    let ghost d = unsigned_digits(v@);
    assert(d =~= v@.subrange(start as int, v@.len() as int));
    if start >= v.len() {
        return false;
    }
    let mut val: u32 = 0;
    let mut over = false;
    let mut i: usize = start;
    while i < v.len()
        invariant
            start <= i <= v.len(),
            d == unsigned_digits(v@),
            d == v@.subrange(start as int, v@.len() as int),
            forall|k: int| start <= k < i ==> is_digit(#[trigger] v@[k]),
            !over ==> val as nat == digits_value(v@.subrange(start as int, i as int)) && val <= 255,
            over ==> digits_value(v@.subrange(start as int, i as int)) > 255,
        decreases v.len() - i,
    {
        let ch = v[i];
        if !('0' <= ch && ch <= '9') {
            assert(d[i - start] == ch);
            assert(!is_digit(d[i - start]));
            assert(!all_digits(d));
            return false;
        }
        let ghost pre = v@.subrange(start as int, i as int);
        assert(v@.subrange(start as int, i + 1).drop_last() =~= pre);
        assert(v@.subrange(start as int, i + 1).last() == ch);
        if !over {
            let nv: u32 = val * 10 + ((ch as u32) - ('0' as u32));
            if nv > 255 {
                over = true;
            } else {
                val = nv;
            }
        }
        i = i + 1;
    }
    assert(all_digits(d)) by {
        assert forall|k: int| 0 <= k < d.len() implies is_digit(#[trigger] d[k]) by {
            assert(d[k] == v@[start + k]);
        }
    }
    !over
}

/// Whether `s` is an OBIS code `A-B:C.D.E[*F]` whose fields are 8-bit numbers.
pub open spec fn valid_obis(s: Seq<char>) -> bool {
    let parts = split(s, ':');
    parts.len() == 2 && {
        let ab = split(parts[0], '-');
        let star = split(parts[1], '*');
        let cde = split(star[0], '.');
        ab.len() == 2 && cde.len() == 3 && parses_u8(ab[0]) && parses_u8(ab[1])
            && parses_u8(cde[0]) && parses_u8(cde[1]) && parses_u8(cde[2])
            && (star.len() == 1 || (star.len() == 2 && parses_u8(star[1])))
    }
}

/// Whether `code` is a well-formed OBIS code.
pub fn validate_obis_code(code: &str) -> (r: bool)
    ensures
        r == valid_obis(code@),
{
    let v = chars_of(code);
    let parts = split_chars(&v, ':');
    if parts.len() != 2 {
        return false;
    }
    let ab = split_chars(&parts[0], '-');
    if ab.len() != 2 {
        return false;
    }
    let star = split_chars(&parts[1], '*');
    proof { lemma_split_nonempty(parts[1]@, '*'); }
    let cde = split_chars(&star[0], '.');
    if cde.len() != 3 {
        return false;
    }
    let f_ok = star.len() == 1 || (star.len() == 2 && is_u8_text(&star[1]));
    is_u8_text(&ab[0]) && is_u8_text(&ab[1]) && is_u8_text(&cde[0]) && is_u8_text(&cde[1])
        && is_u8_text(&cde[2]) && f_ok
}

/// `code` without surrounding white space.
pub fn normalize_obis_code(code: &str) -> (r: String)
    ensures
        r@ == trim(code@),
{
    let v = chars_of(code);
    let (lo, hi) = trim_bounds(&v);
    string_of_range(&v, lo, hi)
}

/// The first character of a valid code is a digit or `+`, its last a digit.
proof fn lemma_valid_obis_ends(s: Seq<char>)
    requires
        valid_obis(s),
    ensures
        s.len() > 0,
        !is_ws(s[0]),
        !is_ws(s.last()),
{
    let parts = split(s, ':');
    lemma_split_first(s, ':');
    lemma_split_last(s, ':');
    let p0 = parts[0];
    let p1 = parts[1];
    assert(p1 == parts.last());
    lemma_split_first(p0, '-');
    let a = split(p0, '-')[0];
    assert(unsigned_digits(a).len() > 0);
    assert(s[0] == a[0]) by {
        assert(s.subrange(0, p0.len() as int)[0] == p0[0]);
        assert(p0.subrange(0, a.len() as int)[0] == a[0]);
    }
    if a[0] != '+' {
        assert(is_digit(unsigned_digits(a)[0]));
    }
    let star = split(p1, '*');
    lemma_split_last(p1, '*');
    lemma_split_nonempty(p1, '*');
    // the last piece of the code: E without a storage field, F with one
    let last_piece = if star.len() == 1 {
        let cde = split(p1, '.');
        lemma_split_last(p1, '.');
        assert(star[0] == p1);
        assert(cde.last() == cde[2]);
        cde.last()
    } else {
        assert(star.last() == star[1]);
        star.last()
    };
    assert(p1.subrange(p1.len() - last_piece.len(), p1.len() as int) == last_piece);
    let d = unsigned_digits(last_piece);
    assert(d.len() > 0);
    assert(last_piece.last() == d.last());
    assert(is_digit(d[d.len() - 1]));
    assert(s.last() == last_piece.last()) by {
        assert(p1.subrange(p1.len() - last_piece.len(), p1.len() as int)[last_piece.len() - 1]
            == last_piece[last_piece.len() - 1]);
        assert(s.subrange(s.len() - p1.len(), s.len() as int)[p1.len() - 1] == p1[p1.len() - 1]);
    }
}

/// A non-empty text that starts and ends with a non-space trims to itself.
proof fn lemma_trim_fixed(s: Seq<char>)
    requires
        s.len() == 0 || (!is_ws(s[0]) && !is_ws(s.last())),
    ensures
        trim(s) == s,
{
    assert(trim_start(s) == s);
    assert(trim_end(s) == s);
}

proof fn lemma_trim_end_keeps_first(x: Seq<char>)
    requires
        x.len() > 0,
        !is_ws(x[0]),
    ensures
        trim_end(x).len() > 0,
        trim_end(x)[0] == x[0],
    decreases x.len(),
{
    if is_ws(x.last()) {
        assert(x.len() > 1);
        assert(x.drop_last()[0] == x[0]);
        lemma_trim_end_keeps_first(x.drop_last());
    }
}

proof fn lemma_trim_start_result(x: Seq<char>)
    ensures
        trim_start(x).len() == 0 || !is_ws(trim_start(x)[0]),
    decreases x.len(),
{
    if x.len() > 0 && is_ws(x[0]) {
        lemma_trim_start_result(x.drop_first());
    }
}

proof fn lemma_trim_end_result(x: Seq<char>)
    ensures
        trim_end(x).len() == 0 || !is_ws(trim_end(x).last()),
    decreases x.len(),
{
    if x.len() > 0 && is_ws(x.last()) {
        lemma_trim_end_result(x.drop_last());
    }
}

/// Trimming twice is trimming once, for every text.
pub proof fn lemma_trim_idempotent(s: Seq<char>)
    ensures
        trim(trim(s)) == trim(s),
{
    let x = trim_start(s);
    lemma_trim_start_result(s);
    let y = trim_end(x);
    lemma_trim_end_result(x);
    if y.len() > 0 {
        assert(x.len() > 0);
        lemma_trim_end_keeps_first(x);
        lemma_trim_fixed(y);
    }
}

/// A valid code keeps its validity and its text through normalisation,
/// normalising again changes nothing, and white space around it is dropped.
pub proof fn lemma_obis_normalize_round_trip(s: Seq<char>, w1: Seq<char>, w2: Seq<char>)
    requires
        valid_obis(s),
        forall|i: int| 0 <= i < w1.len() ==> is_ws(#[trigger] w1[i]),
        forall|i: int| 0 <= i < w2.len() ==> is_ws(#[trigger] w2[i]),
    ensures
        trim(s) == s,
        valid_obis(trim(s)),
        trim(trim(s)) == trim(s),
        trim(w1 + s + w2) == s,
    decreases w1.len() + w2.len(),
{
    lemma_valid_obis_ends(s);
    lemma_trim_fixed(s);
    if w1.len() > 0 {
        let t = w1 + s + w2;
        assert(is_ws(t[0])) by { assert(t[0] == w1[0]); }
        assert(t.drop_first() =~= w1.drop_first() + s + w2);
        lemma_obis_normalize_round_trip(s, w1.drop_first(), w2);
        lemma_trim_start_prefix_drop(t);
    } else if w2.len() > 0 {
        let t = w1 + s + w2;
        assert(t =~= s + w2);
        assert(is_ws(t.last())) by { assert(t.last() == w2[w2.len() - 1]); }
        assert(t.drop_last() =~= w1 + s + w2.drop_last());
        lemma_obis_normalize_round_trip(s, w1, w2.drop_last());
        assert(trim_start(t) == t) by { assert(t[0] == s[0]); }
        assert(trim_start(t.drop_last()) == t.drop_last()) by { assert(t.drop_last()[0] == s[0]); }
    } else {
        assert(w1 + s + w2 =~= s);
    }
}

proof fn lemma_trim_start_prefix_drop(t: Seq<char>)
    requires
        t.len() > 0,
        is_ws(t[0]),
    ensures
        trim(t) == trim(t.drop_first()),
{
}

/// What `char::is_alphabetic` says of `c`.
pub uninterp spec fn alphabetic(c: char) -> bool;

/// Relies on `char::is_alphabetic`: the Unicode Alphabetic property.
#[verifier::external_body]
fn is_alphabetic_char(c: char) -> (r: bool)
    ensures
        r == alphabetic(c),
{
    c.is_alphabetic()
}

/// Whether `c` may stand in a unit symbol.
pub open spec fn unit_char(c: char) -> bool {
    alphabetic(c) || c == '/'
}

/// The longest prefix of `s` made of unit characters.
pub open spec fn unit_prefix(s: Seq<char>) -> Seq<char>
    decreases s.len(),
{
    if s.len() > 0 && unit_char(s[0]) {
        seq![s[0]] + unit_prefix(s.drop_first())
    } else {
        Seq::empty()
    }
}

proof fn lemma_unit_prefix(s: Seq<char>, k: int)
    requires
        0 <= k <= s.len(),
        forall|j: int| 0 <= j < k ==> unit_char(#[trigger] s[j]),
        k == s.len() || !unit_char(s[k]),
    ensures
        unit_prefix(s) == s.subrange(0, k),
    decreases k,
{
    if k == 0 {
        assert(s.subrange(0, 0) =~= Seq::<char>::empty());
    } else {
        let t = s.drop_first();
        assert forall|j: int| 0 <= j < k - 1 implies unit_char(#[trigger] t[j]) by {
            assert(t[j] == s[j + 1]);
        }
        if k < s.len() {
            assert(t[k - 1] == s[k]);
        }
        lemma_unit_prefix(t, k - 1);
        assert(unit_char(s[0]));
        assert(seq![s[0]] + t.subrange(0, k - 1) =~= s.subrange(0, k));
    }
}

/// The unit of a value text: the letters and `/` right after its last `*`.
pub open spec fn value_unit(s: Seq<char>) -> Option<Seq<char>> {
    match last_pos(s, '*') {
        Some(i) => {
            let u = unit_prefix(s.subrange(i + 1, s.len() as int));
            if u.len() > 0 { Some(u) } else { None }
        },
        None => None,
    }
}

/// The unit symbol of a value text such as `123.456*kWh`.
pub fn extract_unit(value_str: &str) -> (r: Option<String>)
    ensures
        match r {
            Some(u) => value_unit(value_str@) == Some(u@),
            None => value_unit(value_str@) is None,
        },
{
    let v = chars_of(value_str);
    let n = v.len();
    match rfind_char(&v, '*') {
        Some(p) => {
            let start = p + 1;
            let mut k: usize = start;
            while k < v.len() && (is_alphabetic_char(v[k]) || v[k] == '/')
                invariant
                    start <= k <= v@.len(),
                    forall|j: int| start <= j < k ==> unit_char(#[trigger] v@[j]),
                decreases v.len() - k,
            {
                k = k + 1;
            }
            proof {
                let t = v@.subrange(start as int, v@.len() as int);
                assert forall|j: int| 0 <= j < k - start implies unit_char(#[trigger] t[j]) by {
                    assert(t[j] == v@[start + j]);
                }
                if k < v.len() {
                    assert(t[k - start] == v@[k as int]);
                }
                lemma_unit_prefix(t, k - start);
                assert(t.subrange(0, k - start) =~= v@.subrange(start as int, k as int));
            }
            if k > start {
                Some(string_of_range(&v, start, k))
            } else {
                None
            }
        },
        None => None,
    }
}

/// Human-readable description of a standard OBIS code.
pub fn get_obis_description(obis_code: &str) -> (r: Option<String>)
    ensures
        match r {
            Some(d) => table_get(standard_descriptions(), obis_code@) == Some(d@),
            None => table_get(standard_descriptions(), obis_code@) is None,
        },
{
    let t = get_standard_obis_descriptions();
    t.get(obis_code)
}

/// The table of standard OBIS codes with their descriptions.
pub fn get_standard_obis_descriptions() -> (r: StrTable)
    ensures
        r@ == standard_descriptions(),
{
    crate::obis_tables::build_standard_descriptions()
}

/// Field names of the EasyMeter Q3D OBIS codes.
pub fn get_easymeter_obis_mapping() -> (r: StrTable)
    ensures
        r@ == easymeter_names(),
{
    crate::obis_tables::build_easymeter_names()
}

/// Field names of the EBZ DD3 OBIS codes.
pub fn get_ebz_obis_mapping() -> (r: StrTable)
    ensures
        r@ == ebz_names(),
{
    crate::obis_tables::build_ebz_names()
}

} // verus!

//! Dynamically typed values of a decoded record, and the ordered mapping
//! from field names to such values.
use vstd::prelude::*;
use crate::text::{chars_of, chars_eq, lit};

verus! {

/// A scalar decoded value: nothing, a flag, a number or a text.
#[derive(Debug)]
pub enum Scalar {
    Null,
    Bool(bool),
    Int(i128),
    /// The number `mantissa * 10^exponent`.
    Scaled(i128, i32),
    Text(String),
}

/// Abstract form of a scalar value.
pub enum ScalarView {
    Null,
    Bool(bool),
    Int(int),
    Scaled(int, int),
    Text(Seq<char>),
}

impl View for Scalar {
    type V = ScalarView;

    open spec fn view(&self) -> ScalarView {
        match self {
            Scalar::Null => ScalarView::Null,
            Scalar::Bool(b) => ScalarView::Bool(*b),
            Scalar::Int(i) => ScalarView::Int(*i as int),
            Scalar::Scaled(m, e) => ScalarView::Scaled(*m as int, *e as int),
            Scalar::Text(t) => ScalarView::Text(t@),
        }
    }
}

/// A field value of a record: a scalar or a flat mapping of scalars.
#[derive(Debug)]
pub enum Value {
    Scalar(Scalar),
    Object(FieldMap<Scalar>),
}

/// Abstract form of a field value.
pub enum ValueView {
    Scalar(ScalarView),
    Object(Seq<(Seq<char>, ScalarView)>),
}

impl View for Value {
    type V = ValueView;

    open spec fn view(&self) -> ValueView {
        match self {
            Value::Scalar(s) => ValueView::Scalar(s@),
            Value::Object(m) => ValueView::Object(m@),
        }
    }
}

/// The abstract text value `s`.
pub open spec fn text_view(s: Seq<char>) -> ValueView {
    ValueView::Scalar(ScalarView::Text(s))
}

/// Field names mapped to values, in insertion order.
#[derive(Debug)]
pub struct FieldMap<V> {
    pub entries: Vec<(String, V)>,
}

/// The mapping of a record's field names to values.
pub type ValueMap = FieldMap<Value>;

/// Abstract contents of a record mapping.
pub type MapView = Seq<(Seq<char>, ValueView)>;

impl<V: View> View for FieldMap<V> {
    type V = Seq<(Seq<char>, V::V)>;

    open spec fn view(&self) -> Seq<(Seq<char>, V::V)> {
        self.entries@.map_values(|e: (String, V)| (e.0@, e.1@))
    }
}

/// The value stored under `k`.
pub open spec fn map_get<A>(m: Seq<(Seq<char>, A)>, k: Seq<char>) -> Option<A>
    decreases m.len(),
{
    if m.len() == 0 {
        None
    } else if m.last().0 == k {
        Some(m.last().1)
    } else {
        map_get(m.drop_last(), k)
    }
}

/// `m` with `k` bound to `v`: an existing entry is replaced in place, a new one appended.
pub open spec fn map_insert<A>(m: Seq<(Seq<char>, A)>, k: Seq<char>, v: A) -> Seq<(Seq<char>, A)> {
    if exists|i: int| 0 <= i < m.len() && #[trigger] m[i].0 == k {
        let i = choose|i: int| 0 <= i < m.len() && #[trigger] m[i].0 == k;
        m.update(i, (k, v))
    } else {
        m.push((k, v))
    }
}

/// Whether every name occurs at most once.
pub open spec fn keys_unique<A>(m: Seq<(Seq<char>, A)>) -> bool {
    forall|i: int, j: int| 0 <= i < j < m.len() ==> m[i].0 != m[j].0
}

proof fn lemma_map_get_unique<A>(m: Seq<(Seq<char>, A)>, k: Seq<char>, i: int)
    requires
        keys_unique(m),
        0 <= i < m.len(),
        m[i].0 == k,
    ensures
        map_get(m, k) == Some(m[i].1),
    decreases m.len(),
{
    if i < m.len() - 1 {
        assert(m.last().0 != k) by {
            assert(m[i].0 != m[m.len() - 1].0);
        }
        assert(m.drop_last()[i] == m[i]);
        lemma_map_get_unique(m.drop_last(), k, i);
    }
}

proof fn lemma_map_get_absent<A>(m: Seq<(Seq<char>, A)>, k: Seq<char>)
    requires
        forall|i: int| 0 <= i < m.len() ==> m[i].0 != k,
    ensures
        map_get(m, k) is None,
    decreases m.len(),
{
    if m.len() > 0 {
        assert(m.last().0 != k) by {
            assert(m[m.len() - 1].0 != k);
        }
        assert forall|i: int| 0 <= i < m.len() - 1 implies m.drop_last()[i].0 != k by {
            assert(m.drop_last()[i] == m[i]);
        }
        lemma_map_get_absent(m.drop_last(), k);
    }
}

/// Looking up in a mapping with unique names after an insertion.
pub proof fn lemma_map_insert_get<A>(m: Seq<(Seq<char>, A)>, k: Seq<char>, v: A, k2: Seq<char>)
    requires
        keys_unique(m),
    ensures
        keys_unique(map_insert(m, k, v)),
        map_get(map_insert(m, k, v), k2) == if k2 == k { Some(v) } else { map_get(m, k2) },
{
    let r = map_insert(m, k, v);
    if exists|i: int| 0 <= i < m.len() && #[trigger] m[i].0 == k {
        let i = choose|i: int| 0 <= i < m.len() && #[trigger] m[i].0 == k;
        assert(r == m.update(i, (k, v)));
        assert(keys_unique(r)) by {
            assert forall|a: int, b: int| 0 <= a < b < r.len() implies r[a].0 != r[b].0 by {
                assert(r[a].0 == m[a].0);
                assert(r[b].0 == m[b].0);
            }
        }
        if exists|j: int| 0 <= j < m.len() && #[trigger] m[j].0 == k2 {
            let j = choose|j: int| 0 <= j < m.len() && #[trigger] m[j].0 == k2;
            lemma_map_get_unique(m, k2, j);
            lemma_map_get_unique(r, k2, j);
        } else {
            lemma_map_get_absent(m, k2);
            assert forall|j: int| 0 <= j < r.len() implies r[j].0 != k2 by {
                assert(r[j].0 == m[j].0);
            }
            lemma_map_get_absent(r, k2);
        }
    } else {
        assert(r == m.push((k, v)));
        assert(keys_unique(r)) by {
            assert forall|a: int, b: int| 0 <= a < b < r.len() implies r[a].0 != r[b].0 by {
                if b == m.len() {
                    assert(r[a] == m[a]);
                } else {
                    assert(r[a] == m[a] && r[b] == m[b]);
                }
            }
        }
        if k2 == k {
            lemma_map_get_unique(r, k2, m.len() as int);
        } else {
            assert(r.drop_last() =~= m);
        }
    }
}

impl<V: View> FieldMap<V> {
    /// An empty mapping.
    pub fn new() -> (r: FieldMap<V>)
        ensures
            r@ == Seq::<(Seq<char>, V::V)>::empty(),
    {
        let r = FieldMap { entries: Vec::new() };
        assert(r@ =~= Seq::<(Seq<char>, V::V)>::empty());
        r
    }

    /// Number of entries.
    pub fn len(&self) -> (r: usize)
        ensures
            r == self@.len(),
    {
        self.entries.len()
    }

    /// Position of the entry named `k`.
    fn position(&self, k: &Vec<char>) -> (r: Option<usize>)
        ensures
            match r {
                Some(i) => i < self@.len() && self@[i as int].0 == k@,
                None => forall|j: int| 0 <= j < self@.len() ==> self@[j].0 != k@,
            },
    {
        let mut i: usize = 0;
        while i < self.entries.len()
            invariant
                i <= self.entries@.len(),
                forall|j: int| 0 <= j < i ==> self@[j].0 != k@,
            decreases self.entries.len() - i,
        {
            let ec = chars_of(self.entries[i].0.as_str());
            if chars_eq(&ec, k) {
                return Some(i);
            }
            i = i + 1;
        }
        None
    }

    /// Binds `k` to `v`, replacing an earlier value of `k` in place.
    pub fn insert(&mut self, k: String, v: V)
        requires
            keys_unique(old(self)@),
        ensures
            final(self)@ == map_insert(old(self)@, k@, v@),
            keys_unique(final(self)@),
    {
        proof { lemma_map_insert_get(self@, k@, v@, k@); }
        let kc = chars_of(k.as_str());
        match self.position(&kc) {
            Some(i) => {
                let ghost m = self@;
                let ghost j = choose|j: int| 0 <= j < m.len() && #[trigger] m[j].0 == k@;
                assert(j == i as int) by {
                    if j != i as int {
                        assert(m[j].0 == m[i as int].0);
                    }
                }
                let ghost vv = v@;
                self.entries.set(i, (k, v));
                assert(final(self)@ =~= map_insert(m, k@, vv));
            },
            None => {
                let ghost m = self@;
                let ghost vv = v@;
                self.entries.push((k, v));
                assert(final(self)@ =~= map_insert(m, k@, vv));
            },
        }
    }

    /// The value stored under `k`.
    pub fn get(&self, k: &str) -> (r: Option<&V>)
        requires
            keys_unique(self@),
        ensures
            match r {
                Some(v) => map_get(self@, k@) == Some(v@),
                None => map_get(self@, k@) is None,
            },
    {
        let kc = chars_of(k);
        match self.position(&kc) {
            Some(i) => {
                proof { lemma_map_get_unique(self@, k@, i as int); }
                Some(&self.entries[i].1)
            },
            None => {
                proof { lemma_map_get_absent(self@, k@); }
                None
            },
        }
    }

    /// Whether some entry is named `k`.
    pub fn contains_key(&self, k: &str) -> (r: bool)
        ensures
            r == exists|i: int| 0 <= i < self@.len() && #[trigger] self@[i].0 == k@,
    {
        let kc = chars_of(k);
        match self.position(&kc) {
            Some(i) => true,
            None => false,
        }
    }
}

/// Binds `k` to the text `s`.
pub fn insert_text(m: &mut ValueMap, k: &str, s: &str)
    requires
        keys_unique(old(m)@),
    ensures
        keys_unique(final(m)@),
        final(m)@ == map_insert(old(m)@, k@, text_view(s@)),
{
    m.insert(lit(k), Value::Scalar(Scalar::Text(lit(s))));
}

/// Binds `k` to the scalar `v` in a flat mapping.
pub fn put(m: &mut FieldMap<Scalar>, k: &str, v: Scalar)
    requires
        keys_unique(old(m)@),
    ensures
        keys_unique(final(m)@),
        final(m)@ == map_insert(old(m)@, k@, v@),
{
    m.insert(lit(k), v);
}

/// Binds `k` to the text `s` in a flat mapping.
pub fn put_text(m: &mut FieldMap<Scalar>, k: &str, s: &str)
    requires
        keys_unique(old(m)@),
    ensures
        keys_unique(final(m)@),
        final(m)@ == map_insert(old(m)@, k@, ScalarView::Text(s@)),
{
    m.insert(lit(k), Scalar::Text(lit(s)));
}

} // verus!

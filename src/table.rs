//! An ordered table from string keys to string values, used for the fixed
//! OBIS code tables of the decoders.
use vstd::prelude::*;
use crate::text::{chars_of, chars_eq, lit};

verus! {

/// Abstract contents of a table: its entries in insertion order.
pub type TableView = Seq<(Seq<char>, Seq<char>)>;

/// The value of the first entry whose key is `k`.
pub open spec fn table_get(t: TableView, k: Seq<char>) -> Option<Seq<char>>
    decreases t.len(),
{
    if t.len() == 0 {
        None
    } else if t[0].0 == k {
        Some(t[0].1)
    } else {
        table_get(t.drop_first(), k)
    }
}

/// Whether some entry has key `k`.
pub open spec fn table_has(t: TableView, k: Seq<char>) -> bool {
    exists|i: int| 0 <= i < t.len() && #[trigger] t[i].0 == k
}

pub struct StrTable {
    pub entries: Vec<(String, String)>,
}

impl View for StrTable {
    type V = TableView;

    open spec fn view(&self) -> TableView {
        self.entries@.map_values(|e: (String, String)| (e.0@, e.1@))
    }
}

proof fn lemma_table_get_index(t: TableView, k: Seq<char>, i: int)
    requires
        0 <= i < t.len(),
        t[i].0 == k,
        forall|j: int| 0 <= j < i ==> t[j].0 != k,
    ensures
        table_get(t, k) == Some(t[i].1),
    decreases i,
{
    if i > 0 {
        assert forall|j: int| 0 <= j < i - 1 implies t.drop_first()[j].0 != k by {
            assert(t.drop_first()[j] == t[j + 1]);
        }
        lemma_table_get_index(t.drop_first(), k, i - 1);
    }
}

proof fn lemma_table_get_none(t: TableView, k: Seq<char>)
    requires
        forall|j: int| 0 <= j < t.len() ==> t[j].0 != k,
    ensures
        table_get(t, k) is None,
    decreases t.len(),
{
    if t.len() > 0 {
        assert forall|j: int| 0 <= j < t.len() - 1 implies t.drop_first()[j].0 != k by {
            assert(t.drop_first()[j] == t[j + 1]);
        }
        lemma_table_get_none(t.drop_first(), k);
    }
}

impl StrTable {
    /// An empty table.
    pub fn new() -> (r: StrTable)
        ensures
            r@ == Seq::<(Seq<char>, Seq<char>)>::empty(),
    {
        let r = StrTable { entries: Vec::new() };
        assert(r@ =~= Seq::<(Seq<char>, Seq<char>)>::empty());
        r
    }

    /// Appends an entry at the end.
    pub fn entry(&mut self, k: &str, v: &str)
        ensures
            final(self)@ == old(self)@.push((k@, v@)),
    {
        self.entries.push((lit(k), lit(v)));
        assert(final(self)@ =~= old(self)@.push((k@, v@)));
    }

    /// Number of entries.
    pub fn len(&self) -> (r: usize)
        ensures
            r == self@.len(),
    {
        self.entries.len()
    }

    /// Whether the table has no entry.
    pub fn is_empty(&self) -> (r: bool)
        ensures
            r == (self@.len() == 0),
    {
        self.entries.len() == 0
    }

    /// Position of the first entry with key `k`.
    fn position(&self, k: &str) -> (r: Option<usize>)
        ensures
            match r {
                Some(i) => i < self@.len() && self@[i as int].0 == k@
                    && forall|j: int| 0 <= j < i ==> self@[j].0 != k@,
                None => forall|j: int| 0 <= j < self@.len() ==> self@[j].0 != k@,
            },
    {
        let kc = chars_of(k);
        let mut i: usize = 0;
        while i < self.entries.len()
            invariant
                kc@ == k@,
                i <= self.entries@.len(),
                forall|j: int| 0 <= j < i ==> self@[j].0 != k@,
            decreases self.entries.len() - i,
        {
            let ec = chars_of(self.entries[i].0.as_str());
            if chars_eq(&ec, &kc) {
                return Some(i);
            }
            i = i + 1;
        }
        None
    }

    /// Whether some entry has key `k`.
    pub fn contains_key(&self, k: &str) -> (r: bool)
        ensures
            r == table_has(self@, k@),
    {
        match self.position(k) {
            Some(i) => true,
            None => false,
        }
    }

    /// The value stored under `k`, if any.
    pub fn get(&self, k: &str) -> (r: Option<String>)
        ensures
            match r {
                Some(v) => table_get(self@, k@) == Some(v@),
                None => table_get(self@, k@) is None,
            },
    {
        match self.position(k) {
            Some(i) => {
                proof { lemma_table_get_index(self@, k@, i as int); }
                Some(self.entries[i].1.clone())
            },
            None => {
                proof { lemma_table_get_none(self@, k@); }
                None
            },
        }
    }

    /// Whether some entry has value `v`.
    pub fn contains_value(&self, v: &str) -> (r: bool)
        ensures
            r == exists|i: int| 0 <= i < self@.len() && #[trigger] self@[i].1 == v@,
    {
        let vc = chars_of(v);
        let mut i: usize = 0;
        while i < self.entries.len()
            invariant
                vc@ == v@,
                i <= self.entries@.len(),
                forall|j: int| 0 <= j < i ==> self@[j].1 != v@,
            decreases self.entries.len() - i,
        {
            let ec = chars_of(self.entries[i].1.as_str());
            if chars_eq(&ec, &vc) {
                assert(self@[i as int].1 == v@);
                return true;
            }
            i = i + 1;
        }
        false
    }
}

} // verus!

//! A word-keyed map of field elements, the account storage map of the house.
//!
//! Every key is present and maps to zero until written, as in a sparse Merkle
//! tree where the empty word stands for an absent leaf.
use vstd::prelude::*;
use crate::felt::{Word, word_eq};

verus! {

/// The value of the first entry with key `k`, or zero when there is none.
pub open spec fn lookup(s: Seq<(Word, u64)>, k: Word) -> u64
    decreases s.len(),
{
    if s.len() == 0 {
        0
    } else if s[0].0 == k {
        s[0].1
    } else {
        lookup(s.drop_first(), k)
    }
}

/// The map whose value at every key is zero.
pub open spec fn zero_map() -> Map<Word, u64> {
    Map::total(|k: Word| 0u64)
}

proof fn lemma_lookup_update(s: Seq<(Word, u64)>, i: int, k: Word, v: u64, q: Word)
    requires
        0 <= i < s.len(),
        s[i].0 == k,
        forall|j: int| 0 <= j < i ==> s[j].0 != k,
    ensures
        lookup(s.update(i, (k, v)), q) == if q == k { v } else { lookup(s, q) },
    decreases s.len(),
{
    let u = s.update(i, (k, v));
    if i == 0 {
        assert(u.drop_first() =~= s.drop_first());
    } else {
        assert(u.drop_first() =~= s.drop_first().update(i - 1, (k, v)));
        if s[0].0 != q {
            lemma_lookup_update(s.drop_first(), i - 1, k, v, q);
        }
    }
}

proof fn lemma_lookup_push(s: Seq<(Word, u64)>, k: Word, v: u64, q: Word)
    requires
        forall|j: int| 0 <= j < s.len() ==> s[j].0 != k,
    ensures
        lookup(s.push((k, v)), q) == if q == k { v } else { lookup(s, q) },
    decreases s.len(),
{
    let u = s.push((k, v));
    if s.len() == 0 {
        assert(u[0] == (k, v));
        assert(u.drop_first() =~= Seq::<(Word, u64)>::empty());
        assert(lookup(u.drop_first(), q) == 0);
    } else {
        assert(u[0] == s[0]);
        assert(s[0].0 != k);
        assert(u.drop_first() =~= s.drop_first().push((k, v)));
        if s[0].0 != q {
            assert forall|j: int| 0 <= j < s.drop_first().len() implies s.drop_first()[j].0 != k by {
                assert(s.drop_first()[j] == s[j + 1]);
            }
            lemma_lookup_push(s.drop_first(), k, v, q);
        }
    }
}

/// A map from words to field elements in which unwritten keys read as zero.
pub struct WordMap {
    entries: Vec<(Word, u64)>,
}

impl View for WordMap {
    type V = Map<Word, u64>;

    closed spec fn view(&self) -> Map<Word, u64> {
        Map::total(|k: Word| lookup(self.entries@, k))
    }
}

impl WordMap {
    /// Every key of a map is present.
    pub proof fn lemma_total(&self)
        ensures
            forall|k: Word| #[trigger] self@.dom().contains(k),
    {
    }

    /// The empty map.
    pub fn new() -> (r: WordMap)
        ensures
            r@ == zero_map(),
    {
        let r = WordMap { entries: Vec::new() };
        assert(r@ =~= zero_map());
        r
    }

    /// Position of the first entry with key `k`, if any.
    fn find(&self, k: &Word) -> (r: Option<usize>)
        ensures
            match r {
                Some(i) => i < self.entries@.len() && self.entries@[i as int].0 == *k
                    && forall|j: int| 0 <= j < i ==> self.entries@[j].0 != *k,
                None => forall|j: int| 0 <= j < self.entries@.len() ==> self.entries@[j].0 != *k,
            },
    {
        let mut i: usize = 0;
        while i < self.entries.len()
            invariant
                i <= self.entries@.len(),
                forall|j: int| 0 <= j < i ==> self.entries@[j].0 != *k,
            decreases self.entries@.len() - i,
        {
            if word_eq(&self.entries[i].0, k) {
                return Some(i);
            }
            i = i + 1;
        }
        None
    }

    proof fn lemma_lookup_first(s: Seq<(Word, u64)>, i: int, k: Word)
        requires
            0 <= i < s.len(),
            s[i].0 == k,
            forall|j: int| 0 <= j < i ==> s[j].0 != k,
        ensures
            lookup(s, k) == s[i].1,
        decreases s.len(),
    {
        if i > 0 {
            Self::lemma_lookup_first(s.drop_first(), i - 1, k);
        }
    }

    proof fn lemma_lookup_none(s: Seq<(Word, u64)>, k: Word)
        requires
            forall|j: int| 0 <= j < s.len() ==> s[j].0 != k,
        ensures
            lookup(s, k) == 0,
        decreases s.len(),
    {
        if s.len() > 0 {
            Self::lemma_lookup_none(s.drop_first(), k);
        }
    }

    /// Reads the value stored at `k` (zero when never written).
    pub fn get(&self, k: &Word) -> (r: u64)
        ensures
            r == self@[*k],
    {
        match self.find(k) {
            Some(i) => {
                proof { Self::lemma_lookup_first(self.entries@, i as int, *k); }
                self.entries[i].1
            },
            None => {
                proof { Self::lemma_lookup_none(self.entries@, *k); }
                0
            },
        }
    }

    /// Writes `v` at `k`, leaving every other key as it was.
    pub fn set(&mut self, k: Word, v: u64)
        ensures
            final(self)@ == old(self)@.insert(k, v),
    {
        let ghost s = self.entries@;
        match self.find(&k) {
            Some(i) => {
                self.entries.set(i, (k, v));
                proof {
                    assert forall|q: Word| lookup(self.entries@, q) == if q == k { v } else { lookup(s, q) } by {
                        lemma_lookup_update(s, i as int, k, v, q);
                    }
                }
            },
            None => {
                self.entries.push((k, v));
                proof {
                    assert forall|q: Word| lookup(self.entries@, q) == if q == k { v } else { lookup(s, q) } by {
                        lemma_lookup_push(s, k, v, q);
                    }
                }
            },
        }
        assert(self@ =~= old(self)@.insert(k, v));
    }

    /// A copy of the map with the same contents.
    pub fn duplicate(&self) -> (r: WordMap)
        ensures
            r@ == self@,
    {
        let mut entries: Vec<(Word, u64)> = Vec::new();
        let mut i: usize = 0;
        while i < self.entries.len()
            invariant
                i <= self.entries@.len(),
                entries@ =~= self.entries@.take(i as int),
            decreases self.entries@.len() - i,
        {
            let e = self.entries[i];
            entries.push(e);
            i = i + 1;
            assert(entries@ =~= self.entries@.take(i as int));
        }
        assert(entries@ =~= self.entries@);
        WordMap { entries }
    }
}

} // verus!

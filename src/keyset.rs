//! A set of catalog keys (canonical paths as raw bytes).

use vstd::prelude::*;
use crate::path::{bytes_views, copy_bytes};

verus! {

/// Whether two byte strings are equal.
pub fn bytes_equal(a: &Vec<u8>, b: &Vec<u8>) -> (r: bool)
    ensures
        r == (a@ == b@),
{
    if a.len() != b.len() {
        return false;
    }
    let mut i: usize = 0;
    while i < a.len()
        invariant
            a@.len() == b@.len(),
            i <= a@.len(),
            forall|k: int| 0 <= k < i ==> a@[k] == b@[k],
        decreases a@.len() - i,
    {
        if a[i] != b[i] {
            return false;
        }
        i = i + 1;
    }
    assert(a@ =~= b@);
    true
}

/// Adding an element at the end of a list adds it to the list's set.
pub proof fn lemma_to_set_push(s: Seq<Seq<u8>>, x: Seq<u8>)
    ensures
        s.push(x).to_set() == s.to_set().insert(x),
{
    assert(s.push(x) =~= s + seq![x]);
    Seq::lemma_to_set_insert_commutes(s, x);
}

/// A finite set of keys, held as a list without repeats.
pub struct KeySet {
    keys: Vec<Vec<u8>>,
}

impl View for KeySet {
    type V = Set<Seq<u8>>;

    closed spec fn view(&self) -> Set<Seq<u8>> {
        bytes_views(self.keys@).to_set()
    }
}

impl KeySet {
    /// The keys in the order they were added.
    pub closed spec fn key_seq(&self) -> Seq<Seq<u8>> {
        bytes_views(self.keys@)
    }

    /// No key is held twice.
    pub closed spec fn wf(&self) -> bool {
        self.key_seq().no_duplicates()
    }

    /// The listed keys are exactly the set's members, each once.
    pub proof fn lemma_key_seq(&self)
        requires
            self.wf(),
        ensures
            self.key_seq().to_set() == self@,
            self.key_seq().no_duplicates(),
            self.key_seq().len() == self@.len(),
            self@.finite(),
    {
        self.key_seq().unique_seq_to_set();
    }

    /// The empty set.
    pub fn new() -> (r: KeySet)
        ensures
            r.wf(),
            r@ == Set::<Seq<u8>>::empty(),
    {
        let r = KeySet { keys: Vec::new() };
        assert(r@ =~= Set::<Seq<u8>>::empty());
        r
    }

    /// Whether `k` is a member.
    pub fn contains(&self, k: &Vec<u8>) -> (r: bool)
        ensures
            r == self@.contains(k@),
    {
        let mut i: usize = 0;
        while i < self.keys.len()
            invariant
                i <= self.keys@.len(),
                forall|j: int| 0 <= j < i ==> self.key_seq()[j] != k@,
            decreases self.keys@.len() - i,
        {
            if bytes_equal(&self.keys[i], k) {
                assert(self.key_seq()[i as int] == k@);
                assert(self.key_seq().contains(k@));
                return true;
            }
            i = i + 1;
        }
        assert(!self.key_seq().contains(k@));
        false
    }

    /// Adds `k`; a key already present stays once.
    pub fn insert(&mut self, k: Vec<u8>)
        requires
            old(self).wf(),
        ensures
            final(self).wf(),
            final(self)@ == old(self)@.insert(k@),
    {
        if !self.contains(&k) {
            let ghost before = self.key_seq();
            self.keys.push(k);
            assert(self.key_seq() =~= before.push(k@));
            proof {
                lemma_to_set_push(before, k@);
            }
        } else {
            assert(self@ =~= old(self)@.insert(k@));
        }
    }

    /// The number of members.
    pub fn len(&self) -> (r: usize)
        requires
            self.wf(),
        ensures
            r == self@.len(),
    {
        proof {
            self.lemma_key_seq();
        }
        self.keys.len()
    }

    /// The set of the given rows; repeated rows count once.
    pub fn from_rows(rows: &Vec<Vec<u8>>) -> (r: KeySet)
        ensures
            r.wf(),
            r@ == bytes_views(rows@).to_set(),
    {
        let mut r = KeySet::new();
        let mut i: usize = 0;
        while i < rows.len()
            invariant
                i <= rows@.len(),
                r.wf(),
                r@ == bytes_views(rows@).subrange(0, i as int).to_set(),
            decreases rows@.len() - i,
        {
            let ghost pre = bytes_views(rows@).subrange(0, i as int);
            r.insert(copy_bytes(&rows[i]));
            assert(bytes_views(rows@).subrange(0, i + 1) =~= pre.push(rows@[i as int]@));
            proof {
                lemma_to_set_push(pre, rows@[i as int]@);
            }
            i = i + 1;
        }
        assert(bytes_views(rows@).subrange(0, rows@.len() as int) =~= bytes_views(rows@));
        r
    }

    /// The members, each once, in the order they were added.
    pub fn keys(&self) -> (r: &Vec<Vec<u8>>)
        requires
            self.wf(),
        ensures
            bytes_views(r@).no_duplicates(),
            bytes_views(r@).to_set() == self@,
    {
        &self.keys
    }
}

} // verus!

//! A table of entries kept sorted by a string key, with exact-match lookup by
//! binary search.

use vstd::prelude::*;
use core::cmp::Ordering;
use crate::text::{chars_of, compare_chars, lex_lt, lemma_lex_irreflexive, lemma_lex_transitive, lemma_lex_total};

verus! {

/// A value that carries a string key.
pub trait Keyed {
    spec fn key(&self) -> Seq<char>;

    fn key_str(&self) -> (r: &str)
        ensures
            r@ == self.key(),
    ;
}

/// Keys strictly increase along `s`; in particular no key occurs twice.
pub open spec fn sorted_by_key<E: Keyed>(s: Seq<E>) -> bool {
    forall|i: int, j: int| 0 <= i < j < s.len() ==> lex_lt(#[trigger] s[i].key(), #[trigger] s[j].key())
}

/// Some element of `s` has key `k`.
pub open spec fn has_key<E: Keyed>(s: Seq<E>, k: Seq<char>) -> bool {
    exists|i: int| 0 <= i < s.len() && #[trigger] s[i].key() == k
}

/// A position of `s` whose element has key `k`, where there is one.
pub open spec fn key_index<E: Keyed>(s: Seq<E>, k: Seq<char>) -> int {
    choose|i: int| 0 <= i < s.len() && #[trigger] s[i].key() == k
}

/// The element of `s` with key `k`, if there is one.
pub open spec fn find_key<E: Keyed>(s: Seq<E>, k: Seq<char>) -> Option<E> {
    if has_key(s, k) {
        Some(s[key_index(s, k)])
    } else {
        None
    }
}

/// In a sorted sequence, the element at `i` is the one that `find_key` gives
/// for its key.
pub proof fn lemma_find_key_at<E: Keyed>(s: Seq<E>, i: int)
    requires
        sorted_by_key(s),
        0 <= i < s.len(),
    ensures
        find_key(s, s[i].key()) == Some(s[i]),
{
    let k = s[i].key();
    assert(has_key(s, k));
    let j = key_index(s, k);
    if j != i {
        lemma_lex_irreflexive(k);
        if j < i {
            assert(lex_lt(s[j].key(), s[i].key()));
        } else {
            assert(lex_lt(s[i].key(), s[j].key()));
        }
    }
}

/// What `find_key` finds carries the key asked for.
pub proof fn lemma_find_key_matches<E: Keyed>(s: Seq<E>, k: Seq<char>)
    ensures
        find_key(s, k) matches Some(e) ==> e.key() == k,
{
}

/// Entries sorted by key, each key at most once.
pub struct Table<E: Keyed> {
    entries: Vec<E>,
}

impl<E: Keyed> View for Table<E> {
    type V = Seq<E>;

    closed spec fn view(&self) -> Seq<E> {
        self.entries@
    }
}

impl<E: Keyed> Table<E> {
    #[verifier::type_invariant]
    spec fn inv(&self) -> bool {
        sorted_by_key(self.entries@)
    }

    /// The entries are sorted by key, with no key twice.
    pub open spec fn wf(&self) -> bool {
        sorted_by_key(self@)
    }

    /// An empty table.
    pub fn new() -> (r: Self)
        ensures
            r@ == Seq::<E>::empty(),
            r.wf(),
    {
        Table { entries: Vec::new() }
    }

    /// The number of entries.
    pub fn len(&self) -> (r: usize)
        ensures
            r == self@.len(),
    {
        self.entries.len()
    }

    /// All entries, in increasing order of key.
    pub fn as_slice(&self) -> (r: &[E])
        ensures
            r@ == self@,
            sorted_by_key(r@),
    {
        proof {
            use_type_invariant(self);
        }
        self.entries.as_slice()
    }

    /// The first position whose key is not below `k`.
    fn lower_bound(&self, k: &Vec<char>) -> (r: usize)
        ensures
            r <= self@.len(),
            forall|j: int| 0 <= j < r ==> lex_lt(#[trigger] self@[j].key(), k@),
            forall|j: int| r <= j < self@.len() ==> !lex_lt(#[trigger] self@[j].key(), k@),
    {
        proof {
            use_type_invariant(self);
        }
        let mut lo: usize = 0;
        let mut hi: usize = self.entries.len();
        while lo < hi
            invariant
                sorted_by_key(self.entries@),
                lo <= hi <= self.entries@.len(),
                forall|j: int| 0 <= j < lo ==> lex_lt(#[trigger] self.entries@[j].key(), k@),
                forall|j: int| hi <= j < self.entries@.len() ==> !lex_lt(#[trigger] self.entries@[j].key(), k@),
            decreases hi - lo,
        {
            let mid: usize = lo + (hi - lo) / 2;
            let mk = chars_of(self.entries[mid].key_str());
            let below = match compare_chars(&mk, k) {
                Ordering::Less => true,
                _ => false,
            };
            if below {
                assert forall|j: int| 0 <= j < mid + 1 implies lex_lt(#[trigger] self.entries@[j].key(), k@) by {
                    if j < mid {
                        lemma_lex_transitive(self.entries@[j].key(), self.entries@[mid as int].key(), k@);
                    }
                }
                lo = mid + 1;
            } else {
                assert forall|j: int| mid <= j < self.entries@.len() implies !lex_lt(#[trigger] self.entries@[j].key(), k@) by {
                    if mid < j && lex_lt(self.entries@[j].key(), k@) {
                        lemma_lex_transitive(self.entries@[mid as int].key(), self.entries@[j].key(), k@);
                    }
                }
                hi = mid;
            }
        }
        lo
    }

    /// The entry whose key is exactly `id`, if any.
    pub fn get(&self, id: &str) -> (r: Option<&E>)
        ensures
            match r {
                Some(e) => find_key(self@, id@) == Some(*e),
                None => find_key(self@, id@) is None,
            },
    {
        proof {
            use_type_invariant(self);
        }
        let k = chars_of(id);
        let i = self.lower_bound(&k);
        if i < self.entries.len() {
            let ik = chars_of(self.entries[i].key_str());
            match compare_chars(&ik, &k) {
                Ordering::Equal => {
                    proof {
                        lemma_find_key_at(self.entries@, i as int);
                    }
                    return Some(&self.entries[i]);
                },
                _ => {},
            }
        }
        proof {
            self.lemma_absent(k@, i as int);
        }
        None
    }

    /// Adds `e` at its place in key order. Where an entry with the same key
    /// is present already, the table stays as it was and `e` is handed back.
    pub fn insert(&mut self, e: E) -> (r: Result<(), E>)
        ensures
            final(self).wf(),
            has_key(old(self)@, e.key()) ==> r == Err::<(), E>(e) && final(self)@ == old(self)@,
            !has_key(old(self)@, e.key()) ==> {
                &&& r is Ok
                &&& final(self)@.len() == old(self)@.len() + 1
                &&& forall|k: Seq<char>| #[trigger] find_key(final(self)@, k) == if k == e.key() {
                    Some(e)
                } else {
                    find_key(old(self)@, k)
                }
            },
    {
        proof {
            use_type_invariant(&*self);
        }
        let k = chars_of(e.key_str());
        let i = self.lower_bound(&k);
        if i < self.entries.len() {
            let ik = chars_of(self.entries[i].key_str());
            match compare_chars(&ik, &k) {
                Ordering::Equal => {
                    assert(has_key(self.entries@, k@));
                    return Err(e);
                },
                _ => {},
            }
        }
        proof {
            self.lemma_absent(k@, i as int);
        }
        let ghost before = self.entries@;
        let mut taken = Table::new();
        core::mem::swap(self, &mut taken);
        let mut entries = taken.entries;
        entries.insert(i, e);
        let ghost after = entries@;
        proof {
            assert forall|a: int, b: int| 0 <= a < b < after.len() implies lex_lt(
                #[trigger] after[a].key(),
                #[trigger] after[b].key(),
            ) by {
                if a < i && b == i {
                } else if a == i {
                    let kb = after[b].key();
                    assert(kb == before[b - 1].key());
                    assert(!lex_lt(kb, k@));
                    if kb != k@ {
                        lemma_lex_total(kb, k@);
                    } else {
                        assert(has_key(before, k@));
                    }
                } else if a < i && b > i {
                    assert(after[a] == before[a]);
                    assert(after[b] == before[b - 1]);
                } else if a > i {
                    assert(after[a] == before[a - 1]);
                    assert(after[b] == before[b - 1]);
                } else {
                    assert(after[a] == before[a]);
                    assert(after[b] == before[b]);
                }
            }
            assert forall|q: Seq<char>| #[trigger] find_key(after, q) == if q == e.key() {
                Some(e)
            } else {
                find_key(before, q)
            } by {
                if q == e.key() {
                    lemma_find_key_at(after, i as int);
                } else if has_key(before, q) {
                    let j = key_index(before, q);
                    lemma_find_key_at(before, j);
                    if j < i {
                        assert(after[j] == before[j]);
                        lemma_find_key_at(after, j);
                    } else {
                        assert(after[j + 1] == before[j]);
                        lemma_find_key_at(after, j + 1);
                    }
                } else {
                    assert forall|j: int| 0 <= j < after.len() implies #[trigger] after[j].key() != q by {
                        if j < i {
                            assert(after[j] == before[j]);
                        } else if j > i {
                            assert(after[j] == before[j - 1]);
                        }
                    }
                }
            }
        }
        *self = Table { entries };
        Ok(())
    }

    proof fn lemma_absent(&self, k: Seq<char>, i: int)
        requires
            sorted_by_key(self.entries@),
            0 <= i <= self.entries@.len(),
            forall|j: int| 0 <= j < i ==> lex_lt(#[trigger] self.entries@[j].key(), k),
            forall|j: int| i <= j < self.entries@.len() ==> !lex_lt(#[trigger] self.entries@[j].key(), k),
            i < self.entries@.len() ==> self.entries@[i].key() != k,
        ensures
            !has_key(self.entries@, k),
    {
        assert forall|j: int| 0 <= j < self.entries@.len() implies #[trigger] self.entries@[j].key() != k by {
            lemma_lex_irreflexive(k);
            if i < j && self.entries@[j].key() == k {
                assert(lex_lt(self.entries@[i].key(), self.entries@[j].key()));
            }
        }
    }
}

} // verus!

//! The output mapping of one flatten call: string pairs, unique by key, in
//! insertion order.

use vstd::prelude::*;

use crate::errors::{ErrShape, SerializeToEnvError};
use crate::text::str_eq;

verus! {

/// Whether the entry sequence holds the key.
pub open spec fn has_key(m: Seq<(Seq<char>, Seq<char>)>, k: Seq<char>) -> bool {
    exists|i: int| 0 <= i < m.len() && (#[trigger] m[i]).0 == k
}

/// The value of the first entry with the key, scanning from position `i`.
pub open spec fn lookup_from(m: Seq<(Seq<char>, Seq<char>)>, k: Seq<char>, i: int) -> Option<
    Seq<char>,
>
    decreases m.len() - i,
{
    if i < 0 || i >= m.len() {
        Option::None
    } else if m[i].0 == k {
        Option::Some(m[i].1)
    } else {
        lookup_from(m, k, i + 1)
    }
}

/// The value stored under the key, if any.
pub open spec fn lookup(m: Seq<(Seq<char>, Seq<char>)>, k: Seq<char>) -> Option<Seq<char>> {
    lookup_from(m, k, 0)
}

/// All keys of the entry sequence are pairwise distinct.
pub open spec fn unique_keys(m: Seq<(Seq<char>, Seq<char>)>) -> bool {
    forall|i: int, j: int| 0 <= i < j < m.len() ==> (#[trigger] m[i]).0 != (#[trigger] m[j]).0
}

/// A flat mapping from composed keys to encoded values, unique by key and
/// kept in insertion order.
#[derive(Debug)]
pub struct FlatMap {
    entries: Vec<(String, String)>,
}

impl View for FlatMap {
    type V = Seq<(Seq<char>, Seq<char>)>;

    closed spec fn view(&self) -> Seq<(Seq<char>, Seq<char>)> {
        Seq::new(self.entries@.len(), |i: int| (self.entries@[i].0@, self.entries@[i].1@))
    }
}

impl FlatMap {
    /// Keys are pairwise distinct.
    pub open spec fn wf(self) -> bool {
        unique_keys(self@)
    }

    /// An empty mapping.
    pub fn new() -> (r: FlatMap)
        ensures
            r@ == Seq::<(Seq<char>, Seq<char>)>::empty(),
            r.wf(),
    {
        let r = FlatMap { entries: Vec::new() };
        proof {
            assert(r@ =~= Seq::<(Seq<char>, Seq<char>)>::empty());
        }
        r
    }

    /// The number of entries.
    pub fn len(&self) -> (r: usize)
        ensures
            r == self@.len(),
    {
        self.entries.len()
    }

    /// Whether the mapping holds the key.
    pub fn contains_key(&self, k: &str) -> (r: bool)
        ensures
            r == has_key(self@, k@),
    {
        let n = self.entries.len();
        let mut i: usize = 0;
        while i < n
            invariant
                i <= n,
                n == self@.len(),
                n == self.entries@.len(),
                forall|j: int| 0 <= j < i ==> (#[trigger] self@[j]).0 != k@,
        decreases n - i,
        {
            if str_eq(self.entries[i].0.as_str(), k) {
                proof {
                    assert((#[trigger] self@[i as int]).0 == k@);
                }
                return true;
            }
            i = i + 1;
        }
        false
    }

    /// The value stored under the key, if any.
    pub fn get(&self, k: &str) -> (r: Option<&String>)
        ensures
            match r {
                Option::Some(v) => lookup(self@, k@) == Option::Some(v@),
                Option::None => lookup(self@, k@) is None,
            },
    {
        let n = self.entries.len();
        let mut i: usize = 0;
        while i < n
            invariant
                i <= n,
                n == self@.len(),
                n == self.entries@.len(),
                lookup(self@, k@) == lookup_from(self@, k@, i as int),
        decreases n - i,
        {
            if str_eq(self.entries[i].0.as_str(), k) {
                return Option::Some(&self.entries[i].1);
            }
            i = i + 1;
        }
        Option::None
    }

    /// Adds a fresh key, refusing a duplicate rather than overwriting.
    pub fn insert_new(&mut self, k: String, v: String) -> (r: Result<(), SerializeToEnvError>)
        ensures
            match r {
                Result::Ok(()) => !has_key(old(self)@, k@) && final(self)@ == old(self)@.push(
                    (k@, v@),
                ) && (old(self).wf() ==> final(self).wf()),
                Result::Err(e) => has_key(old(self)@, k@) && e@ == (ErrShape::DuplicateKey {
                    key: k@,
                }) && final(self)@ == old(self)@ && *final(self) == *old(self),
            },
    {
        if self.contains_key(k.as_str()) {
            Result::Err(SerializeToEnvError::DuplicateKey(k))
        } else {
            let ghost prev = self@;
            self.entries.push((k, v));
            proof {
                assert(self@ =~= prev.push((k@, v@)));
                if unique_keys(prev) {
                    assert forall|i: int, j: int| 0 <= i < j < self@.len() implies (
                    #[trigger] self@[i]).0 != (#[trigger] self@[j]).0 by {
                        if j < prev.len() {
                        } else {
                            assert(self@[j].0 == k@);
                            assert(self@[i] == prev[i]);
                        }
                    }
                }
            }
            Result::Ok(())
        }
    }

    /// The stored pairs, in insertion order.
    pub fn pairs(&self) -> (r: &Vec<(String, String)>)
        ensures
            r@.len() == self@.len(),
            forall|i: int| 0 <= i < r@.len() ==> ((#[trigger] r@[i]).0@, r@[i].1@) == self@[i],
    {
        &self.entries
    }
}

} // verus!

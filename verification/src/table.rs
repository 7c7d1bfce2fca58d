//! A small association table keyed by command id, for operations awaiting an
//! out-of-band completion.  Lookups take the first entry with the key.

use vstd::prelude::*;

use crate::text::str_eq;

verus! {

/// The index of the first entry with the key, or `-1`.
pub open spec fn spec_index_of_key<V>(s: Seq<(Seq<char>, V)>, k: Seq<char>) -> int
    decreases s.len(),
{
    if s.len() == 0 {
        -1
    } else if s[0].0 == k {
        0
    } else {
        let r = spec_index_of_key(s.skip(1), k);
        if r < 0 {
            -1
        } else {
            r + 1
        }
    }
}

/// The value stored under the key, if any.
pub open spec fn spec_get<V>(s: Seq<(Seq<char>, V)>, k: Seq<char>) -> Option<V> {
    let i = spec_index_of_key(s, k);
    if i >= 0 {
        Some(s[i].1)
    } else {
        None
    }
}

/// The table: insertion order is kept; a fresh key is simply appended.
pub struct Table<V> {
    pub entries: Vec<(String, V)>,
}

impl<V> View for Table<V> {
    type V = Seq<(Seq<char>, V)>;

    open spec fn view(&self) -> Seq<(Seq<char>, V)> {
        self.entries@.map_values(|p: (String, V)| (p.0@, p.1))
    }
}

impl<V> Table<V> {
    /// An empty table.
    pub fn new() -> (r: Table<V>)
        ensures
            r@ == Seq::<(Seq<char>, V)>::empty(),
    {
        let r = Table { entries: Vec::new() };
        proof {
            assert(r@ =~= Seq::<(Seq<char>, V)>::empty());
        }
        r
    }

    /// How many operations are pending.
    pub fn len(&self) -> (r: usize)
        ensures
            r == self@.len(),
    {
        self.entries.len()
    }

    /// Records a pending operation under its command id.
    pub fn insert(&mut self, k: String, v: V)
        ensures
            final(self)@ == old(self)@.push((k@, v)),
    {
        let ghost old_view = self@;
        self.entries.push((k, v));
        proof {
            assert(self@ =~= old_view.push(
                (self.entries@[self.entries@.len() - 1].0@, self.entries@[self.entries@.len()
                    - 1].1),
            ));
        }
    }

    fn position(&self, k: &str, i: usize) -> (r: Option<usize>)
        requires
            i <= self@.len(),
        ensures
            match r {
                Some(j) => i <= j < self@.len() && spec_index_of_key(self@.skip(i as int), k@) == j
                    - i,
                None => spec_index_of_key(self@.skip(i as int), k@) == -1,
            },
        decreases self@.len() - i,
    {
        proof {
            if i < self@.len() {
                assert(self@.skip(i as int)[0] == self@[i as int]);
                assert(self@.skip(i as int).skip(1) =~= self@.skip(i + 1 as int));
            }
        }
        if i == self.entries.len() {
            None
        } else if str_eq(self.entries[i].0.as_str(), k) {
            Some(i)
        } else {
            self.position(k, i + 1)
        }
    }

    /// The pending operation recorded under a command id, if any.
    pub fn get<'a>(&'a self, k: &str) -> (r: Option<&'a V>)
        ensures
            match r {
                Some(v) => spec_get(self@, k@) == Some(*v),
                None => spec_get(self@, k@) is None,
            },
    {
        proof {
            assert(self@.skip(0) =~= self@);
        }
        match self.position(k, 0) {
            None => None,
            Some(j) => Some(&self.entries[j].1),
        }
    }

    /// Removes and returns the pending operation recorded under a command id.
    pub fn take(&mut self, k: &str) -> (r: Option<V>)
        ensures
            match r {
                Some(v) => spec_get(old(self)@, k@) == Some(v) && final(self)@ == old(self)@.remove(
                    spec_index_of_key(old(self)@, k@),
                ),
                None => spec_get(old(self)@, k@) is None && *final(self) == *old(self),
            },
    {
        proof {
            assert(self@.skip(0) =~= self@);
        }
        match self.position(k, 0) {
            None => None,
            Some(j) => {
                let ghost old_view = self@;
                let (_, v) = self.entries.remove(j);
                proof {
                    assert(self@ =~= old_view.remove(j as int));
                }
                Some(v)
            },
        }
    }
}

} // verus!

//! The header of a movie: keys with their values, each key at most once.

use vstd::prelude::*;
use super::text::same_bytes;

verus! {

/// The keys and values of a header, in the order of the file.
pub struct Header {
    pub entries: Vec<(Vec<u8>, Vec<u8>)>,
}

/// Whether `key` occurs in `pairs`.
pub open spec fn has_key(pairs: Seq<(Seq<u8>, Seq<u8>)>, key: Seq<u8>) -> bool {
    exists|i: int| 0 <= i < pairs.len() && (#[trigger] pairs[i]).0 == key
}

/// A place at which `key` occurs in `pairs`.
pub open spec fn place(pairs: Seq<(Seq<u8>, Seq<u8>)>, key: Seq<u8>) -> int {
    choose|i: int| 0 <= i < pairs.len() && (#[trigger] pairs[i]).0 == key
}

/// The value that `pairs` gives to `key`, if any.
pub open spec fn lookup(pairs: Seq<(Seq<u8>, Seq<u8>)>, key: Seq<u8>) -> Option<Seq<u8>> {
    if has_key(pairs, key) {
        Some(pairs[place(pairs, key)].1)
    } else {
        None
    }
}

/// `pairs` without `key`.
pub open spec fn without(pairs: Seq<(Seq<u8>, Seq<u8>)>, key: Seq<u8>) -> Seq<(Seq<u8>, Seq<u8>)> {
    if has_key(pairs, key) {
        pairs.remove(place(pairs, key))
    } else {
        pairs
    }
}

/// Whether no key occurs twice in `pairs`.
pub open spec fn distinct_keys(pairs: Seq<(Seq<u8>, Seq<u8>)>) -> bool {
    forall|i: int, j: int|
        0 <= i < j < pairs.len() ==> (#[trigger] pairs[i]).0 != (#[trigger] pairs[j]).0
}

impl Header {
    /// The keys and values as byte strings.
    pub open spec fn model(&self) -> Seq<(Seq<u8>, Seq<u8>)> {
        Seq::new(self.entries@.len(), |i: int| (self.entries@[i].0@, self.entries@[i].1@))
    }

    pub open spec fn wf(&self) -> bool {
        distinct_keys(self.model())
    }

    /// A header without keys.
    pub fn new() -> (h: Header)
        ensures
            h.wf(),
            h.model().len() == 0,
    {
        Header { entries: Vec::new() }
    }

    /// The place of `key`, if it occurs.
    pub fn position(&self, key: &[u8]) -> (at: Option<usize>)
        requires
            self.wf(),
        ensures
            match at {
                Some(i) => has_key(self.model(), key@) && i == place(self.model(), key@) && i
                    < self.entries@.len(),
                None => !has_key(self.model(), key@),
            },
    {
        let mut i: usize = 0;
        while i < self.entries.len()
            invariant
                i <= self.entries@.len(),
                self.wf(),
                forall|j: int| 0 <= j < i ==> (#[trigger] self.model()[j]).0 != key@,
            decreases self.entries@.len() - i,
        {
            if same_bytes(self.entries[i].0.as_slice(), key) {
                proof {
                    assert(self.model()[i as int].0 == key@);
                    let p = place(self.model(), key@);
                    assert(self.model()[p].0 == key@);
                    if p < i {
                        assert(self.model()[p].0 != key@);
                    } else if p > i {
                        assert(self.model()[i as int].0 != self.model()[p].0);
                    }
                }
                return Some(i);
            }
            i = i + 1;
        }
        None
    }

    /// Whether the header holds `key`.
    pub fn contains_key(&self, key: &[u8]) -> (found: bool)
        requires
            self.wf(),
        ensures
            found == has_key(self.model(), key@),
    {
        self.position(key).is_some()
    }

    /// Adds a key that does not occur yet.
    pub fn insert(&mut self, key: Vec<u8>, value: Vec<u8>)
        requires
            old(self).wf(),
            !has_key(old(self).model(), key@),
        ensures
            final(self).wf(),
            final(self).model() == old(self).model().push((key@, value@)),
    {
        let ghost k = key@;
        let ghost v = value@;
        self.entries.push((key, value));
        proof {
            assert(self.model() =~= old(self).model().push((k, v)));
            assert forall|i: int, j: int| 0 <= i < j < self.model().len() implies (
            #[trigger] self.model()[i]).0 != (#[trigger] self.model()[j]).0 by {
                if j == self.model().len() - 1 {
                    assert(old(self).model()[i].0 != k);
                } else {
                    assert(old(self).model()[i].0 != old(self).model()[j].0);
                }
            }
        }
    }

    /// Takes a key out, and gives its value.
    pub fn remove(&mut self, key: &[u8]) -> (value: Option<Vec<u8>>)
        requires
            old(self).wf(),
        ensures
            final(self).wf(),
            final(self).model() == without(old(self).model(), key@),
            match value {
                Some(v) => lookup(old(self).model(), key@) == Some(v@),
                None => lookup(old(self).model(), key@) is None,
            },
    {
        match self.position(key) {
            Some(i) => {
                let (_, value) = self.entries.remove(i);
                proof {
                    assert(self.model() =~= old(self).model().remove(i as int));
                    assert forall|a: int, b: int| 0 <= a < b < self.model().len() implies (
                    #[trigger] self.model()[a]).0 != (#[trigger] self.model()[b]).0 by {
                        let a0 = if a < i { a } else { a + 1 };
                        let b0 = if b < i { b } else { b + 1 };
                        assert(old(self).model()[a0].0 != old(self).model()[b0].0);
                    }
                }
                Some(value)
            },
            None => None,
        }
    }
}

} // verus!

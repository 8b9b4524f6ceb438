//! The deduplication tracker: the set of normalized lines one session has
//! already accepted, with insert-and-test semantics.

use vstd::prelude::*;

verus! {

/// Deduplicator tracks seen strings when deduplication is requested.
/// Its abstract value is the set of character sequences recorded so far;
/// membership is exact character equality.
pub struct Deduplicator {
    seen: Vec<String>,
}

impl View for Deduplicator {
    type V = Set<Seq<char>>;

    closed spec fn view(&self) -> Set<Seq<char>> {
        Set::new(|s: Seq<char>| exists|i: int| 0 <= i < self.seen@.len() && self.seen@[i]@ == s)
    }
}

impl Deduplicator {
    /// A fresh tracker that has seen nothing.
    pub fn new() -> (d: Self)
        ensures
            d@ == Set::<Seq<char>>::empty(),
    {
        let d = Deduplicator { seen: Vec::new() };
        proof {
            assert(d@ =~= Set::<Seq<char>>::empty());
        }
        d
    }

    /// Records `value` if it was not yet present and reports whether it was
    /// new; an already-present value leaves the tracker unchanged.
    pub fn insert(&mut self, value: &str) -> (fresh: bool)
        ensures
            fresh == !old(self)@.contains(value@),
            final(self)@ == old(self)@.insert(value@),
    {
        let owned: String = value.to_owned();
        let count = self.seen.len();
        let mut i: usize = 0;
        while i < count
            invariant
                *self == *old(self),
                count == self.seen@.len(),
                i <= count,
                owned@ == value@,
                forall|k: int| 0 <= k < i ==> self.seen@[k]@ != value@,
            decreases count - i,
        {
            if self.seen[i].eq(&owned) {
                proof {
                    assert(old(self)@.contains(value@));
                    assert(old(self)@.insert(value@) =~= old(self)@);
                }
                return false;
            }
            i = i + 1;
        }
        proof {
            assert(!old(self)@.contains(value@));
        }
        self.seen.push(owned);
        proof {
            assert forall|s: Seq<char>| self@.contains(s) implies old(self)@.insert(value@).contains(
                s,
            ) by {
                let i = choose|i: int| 0 <= i < self.seen@.len() && self.seen@[i]@ == s;
                if i < self.seen@.len() - 1 {
                    assert(old(self).seen@[i]@ == s);
                }
            }
            assert forall|s: Seq<char>| old(self)@.insert(value@).contains(s) implies self@.contains(
                s,
            ) by {
                if old(self)@.contains(s) {
                    let i = choose|i: int| 0 <= i < old(self).seen@.len() && old(self).seen@[i]@
                        == s;
                    assert(self.seen@[i]@ == s);
                } else {
                    assert(self.seen@[self.seen@.len() - 1]@ == s);
                }
            }
            assert(self@ =~= old(self)@.insert(value@));
        }
        true
    }

    /// Forgets everything the tracker has seen, for session-reset use.
    pub fn clear(&mut self)
        ensures
            final(self)@ == Set::<Seq<char>>::empty(),
    {
        self.seen.clear();
        proof {
            assert(self@ =~= Set::<Seq<char>>::empty());
        }
    }
}

} // verus!

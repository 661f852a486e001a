//! A transform turning a list of `(C, S)` pairs into `(C, S, C)` triples.
//!
//! Humans are good at making lists of alternating data types: a set of
//! driving directions, say, is an alternating list of waypoints and
//! instructions for how to reach the next waypoint. Computers prefer the
//! same sequence as a list of tuples `(initial, instruction, destination)`,
//! where every initial value matches the final value of the previous item.
//! This module pairs each element with its successor's first component to
//! build that list; as there is no trailing value, the final `S` of the
//! input is ignored and discarded.

use vstd::prelude::*;

verus! {

/// The triples of a pair sequence: element `i` carries its own two
/// components and the first component of element `i + 1`. A sequence of at
/// most one pair yields nothing.
pub open spec fn dupe_first_spec<C, S>(s: Seq<(C, S)>) -> Seq<(C, S, C)> {
    if s.len() <= 1 {
        Seq::empty()
    } else {
        Seq::new((s.len() - 1) as nat, |i: int| (s[i].0, s[i].1, s[i + 1].0))
    }
}

/// The computed triples of a pair list.
///
/// This `struct` is created by the `duplicate_first()` method on a vector
/// of pairs.
#[derive(Debug)]
pub struct DupeFirst<C, S> {
    pub triples: Vec<(C, S, C)>,
}

impl<C, S> DupeFirst<C, S> {
    /// Hand the triples out as a plain vector.
    pub fn into_vec(self) -> (r: Vec<(C, S, C)>)
        ensures
            r@ == self.triples@,
    {
        self.triples
    }
}

/// Transform a vector over `(C, S)` into the triples over `(C, S, C)`,
/// duplicating each successor's first component as necessary.
pub trait DuplicateFirst<C, S>: Sized {
    /// The pairs the transform consumes.
    spec fn pairs_view(self) -> Seq<(C, S)>;

    /// Build the triples.
    fn duplicate_first(self) -> (r: DupeFirst<C, S>)
        ensures
            r.triples@ == dupe_first_spec(self.pairs_view()),
    ;
}

impl<C: Copy, S: Copy> DuplicateFirst<C, S> for Vec<(C, S)> {
    open spec fn pairs_view(self) -> Seq<(C, S)> {
        self@
    }

    fn duplicate_first(self) -> (r: DupeFirst<C, S>) {
        let mut triples: Vec<(C, S, C)> = Vec::new();
        let n = self.len();
        if n >= 2 {
            let mut i: usize = 0;
            while i < n - 1
                invariant
                    2 <= n == self@.len(),
                    i <= n - 1,
                    triples@.len() == i as nat,
                    forall|j: int|
                        0 <= j < i ==> triples@[j] == (self@[j].0, self@[j].1, self@[j + 1].0),
                decreases n - 1 - i,
            {
                let current = self[i];
                let following = self[i + 1];
                triples.push((current.0, current.1, following.0));
                i = i + 1;
            }
        }
        proof {
            assert(triples@ =~= dupe_first_spec(self@));
        }
        DupeFirst { triples }
    }
}

} // verus!

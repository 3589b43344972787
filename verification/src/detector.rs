//! Completion detection: the rule that decides when a session is done.

use vstd::prelude::*;

verus! {

/// A session is complete when the number of recorded contributions equals
/// the number of contributors it expects.
pub open spec fn completes(contributions: nat, expected: nat) -> bool {
    contributions == expected
}

/// Decides completion from one consistent pair of counters.
///
/// The caller reads both counters under the same exclusive borrow that made
/// the append, so no other contribution can fall between the append and the
/// decision.
pub fn is_complete(contributions: usize, expected: usize) -> (done: bool)
    ensures
        done == completes(contributions as nat, expected as nat),
{
    contributions == expected
}

} // verus!

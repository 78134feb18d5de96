//! The item type of the list core and the cyclable sort policy.

use vstd::prelude::*;

verus! {

/// One entry of the backing collection: a display title, a source path and a
/// duration in whole seconds.  The core never mutates a song's fields; it
/// only reorders and hides entries.
pub struct Song {
    pub title: Vec<u8>,
    pub path: Vec<u8>,
    pub duration: u64,
}

/// The cyclable ordering policy of a pane: backing order, lexicographic by
/// title, or ascending by duration.
#[derive(Clone, Copy, Debug, PartialEq, Eq, Structural)]
pub enum SortingMethod {
    /// Identity permutation: the backing order.
    Index,
    Title,
    Duration,
}

impl SortingMethod {
    /// The successor in the fixed cycle Index -> Title -> Duration -> Index.
    pub open spec fn next_spec(self) -> SortingMethod {
        match self {
            SortingMethod::Index => SortingMethod::Title,
            SortingMethod::Title => SortingMethod::Duration,
            SortingMethod::Duration => SortingMethod::Index,
        }
    }

    /// Advance to the next ordering policy of the cycle.
    pub fn next(&self) -> (r: Self)
        ensures
            r == self.next_spec(),
    {
        match self {
            SortingMethod::Index => SortingMethod::Title,
            SortingMethod::Title => SortingMethod::Duration,
            SortingMethod::Duration => SortingMethod::Index,
        }
    }
}

impl Default for SortingMethod {
    /// The initial ordering policy is the backing order.
    fn default() -> (r: Self)
        ensures
            r == SortingMethod::Index,
    {
        SortingMethod::Index
    }
}

/// Law: the sort cycle is total.  From any starting mode, advancing exactly
/// as many times as there are modes returns to the start, and no shorter
/// non-empty run of advances does.
pub proof fn lemma_sort_cycle_totality(m: SortingMethod)
    ensures
        m.next_spec() != m,
        m.next_spec().next_spec() != m,
        m.next_spec().next_spec().next_spec() == m,
{
}

} // verus!

//! Heights: a revision number and a height within the revision.

use vstd::prelude::*;

verus! {

/// A height. A solo machine has no revisions: its heights have revision
/// number zero and the sequence as the revision height.
#[derive(Clone, Copy, Debug, PartialEq, Eq)]
pub struct Height {
    pub revision_number: u64,
    pub revision_height: u64,
}

impl Height {
    /// The height with the given revision number and revision height.
    pub fn new(revision_number: u64, revision_height: u64) -> (r: Self)
        ensures
            r == (Height { revision_number, revision_height }),
    {
        Self { revision_number, revision_height }
    }
}

} // verus!

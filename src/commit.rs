use vstd::prelude::*;

verus! {

/// The line counts of a commit.
#[derive(Clone, Debug)]
pub struct Stat {
    pub additions: i64,
    pub deletions: i64,
    pub total: i64,
}

} // verus!

use crate::layout::AllocLayout;
use vstd::prelude::*;

verus! {

/// The kernel refused to provide a region for `layout`.
#[non_exhaustive]
#[derive(Clone, Copy, Debug, PartialEq, Eq, Structural)]
pub struct PurgeableAllocError {
    pub layout: AllocLayout,
}

impl PurgeableAllocError {
    pub fn new(layout: AllocLayout) -> (r: PurgeableAllocError)
        ensures
            r.layout == layout,
    {
        PurgeableAllocError { layout }
    }

    /// The layout whose allocation failed.
    pub fn layout(&self) -> (r: AllocLayout)
        ensures
            r == self.layout,
    {
        self.layout
    }

    /// A human-readable description of the error.
    pub fn message(&self) -> (r: String)
        ensures
            r@ == "purgeable memory allocation failed"@,
    {
        let r = String::from_str("purgeable memory allocation failed");
        proof {
            reveal_strlit("purgeable memory allocation failed");
        }
        r
    }
}

/// A region was purged while it was unlocked; its contents are gone.
#[non_exhaustive]
#[derive(Clone, Copy, Debug, PartialEq, Eq, Structural)]
pub struct PurgeableBoxLockError;

impl PurgeableBoxLockError {
    /// A human-readable description of the error.
    pub fn message(&self) -> (r: String)
        ensures
            r@ == "the purgeable box has already been purged"@,
    {
        let r = String::from_str("the purgeable box has already been purged");
        proof {
            reveal_strlit("the purgeable box has already been purged");
        }
        r
    }
}

} // verus!

//! The lifecycle of a region, stated over its view, and the laws that hold of it.
use crate::layout::AllocLayout;
use crate::os::{
    KernelRegion, RegionState, RegionView, allocated_spec, lock_succeeds, plan_spec, release_spec,
    with_state,
};
use vstd::prelude::*;

verus! {

/// The region that unlocking a locked region leaves.
pub open spec fn unlock_spec(v: RegionView) -> RegionView {
    with_state(v, RegionState::Unlocked)
}

/// The region that a lock attempt on an unlocked region leaves behind a locked
/// handle, or `None` where the contents were purged.
pub open spec fn lock_spec(v: RegionView, intact: bool) -> Option<RegionView> {
    if lock_succeeds(v, intact) {
        Some(with_state(v, RegionState::Locked))
    } else {
        None
    }
}

/// The locked region after unlocking and locking `v` once for each kernel report in
/// `outcomes`, or `None` once a lock attempt finds it purged.
pub open spec fn cycles(v: RegionView, outcomes: Seq<bool>) -> Option<RegionView>
    decreases outcomes.len(),
{
    if outcomes.len() == 0 {
        Some(v)
    } else {
        match lock_spec(unlock_spec(v), outcomes[0]) {
            Some(w) => cycles(w, outcomes.drop_first()),
            None => None,
        }
    }
}

/// Unlocking a locked region and locking it again either fails, or gives back the
/// very same region: same address, same length, same kernel resource, locked.
pub proof fn lemma_round_trip(v: RegionView, intact: bool)
    requires
        v.state == RegionState::Locked,
    ensures
        lock_spec(unlock_spec(v), intact) is None || lock_spec(unlock_spec(v), intact) == Some(v),
        lock_spec(unlock_spec(v), intact) is None <==> (v.size != 0 && !intact),
{
}

/// However many times a locked region is unlocked and locked again, as long as no
/// lock attempt fails it stays the very same region.
pub proof fn lemma_cycles_keep_region(v: RegionView, outcomes: Seq<bool>)
    requires
        v.state == RegionState::Locked,
    ensures
        cycles(v, outcomes) is None || cycles(v, outcomes) == Some(v),
    decreases outcomes.len(),
{
    if outcomes.len() > 0 {
        lemma_round_trip(v, outcomes[0]);
        if lock_spec(unlock_spec(v), outcomes[0]) is Some {
            lemma_cycles_keep_region(v, outcomes.drop_first());
        }
    }
}

/// The byte length of an allocated region is the one requested, and neither it
/// nor the address changes across state transitions.
pub proof fn lemma_size_is_requested(
    layout: AllocLayout,
    granted: Option<KernelRegion>,
    outcomes: Seq<bool>,
)
    ensures
        allocated_spec(layout, granted) matches Some(v) ==> v.size == layout.size
            && unlock_spec(v).size == layout.size && (cycles(v, outcomes) matches Some(w)
            ==> w.size == layout.size && w.address == v.address),
{
    if let Some(v) = allocated_spec(layout, granted) {
        lemma_cycles_keep_region(v, outcomes);
    }
}

/// A zero-length allocation always succeeds, needs no kernel resource, sits at its
/// alignment, and survives every unlock and lock.
pub proof fn lemma_zero_size(layout: AllocLayout, granted: Option<KernelRegion>, outcomes: Seq<bool>)
    requires
        layout.size == 0,
    ensures
        allocated_spec(layout, granted) matches Some(v) && v.size == 0 && v.address
            == layout.align && cycles(v, outcomes) == Some(v),
    decreases outcomes.len(),
{
    if outcomes.len() > 0 {
        lemma_zero_size(layout, granted, outcomes.drop_first());
        let v = allocated_spec(layout, granted).unwrap();
        assert(lock_spec(unlock_spec(v), outcomes[0]) == Some(v));
    }
}

/// For an alignment no larger than the page, allocation is not a programming error,
/// and it yields a locked region of the requested length exactly where the layout
/// is empty or the kernel granted one; otherwise the error carries the layout.
pub proof fn lemma_allocation_outcome(layout: AllocLayout, page: usize, granted: Option<KernelRegion>)
    requires
        layout.align <= page,
    ensures
        !(plan_spec(layout, page) is AlignmentTooLarge),
        plan_spec(layout, page) is Empty <==> layout.size == 0,
        allocated_spec(layout, granted) is Some <==> (layout.size == 0 || granted is Some),
        allocated_spec(layout, granted) matches Some(v) ==> v.state == RegionState::Locked
            && v.size == layout.size,
{
}

/// What is released when a region goes away is exactly what the kernel granted for
/// it, however many times it was unlocked and locked again; an empty region holds
/// nothing to release.
pub proof fn lemma_release_returns_grant(
    layout: AllocLayout,
    granted: Option<KernelRegion>,
    outcomes: Seq<bool>,
)
    ensures
        allocated_spec(layout, granted) matches Some(v) ==> {
            &&& release_spec(unlock_spec(v)) == release_spec(v)
            &&& cycles(v, outcomes) matches Some(w) ==> release_spec(w) == if layout.size == 0 {
                None
            } else {
                granted
            }
        },
{
    if let Some(v) = allocated_spec(layout, granted) {
        lemma_cycles_keep_region(v, outcomes);
    }
}

} // verus!

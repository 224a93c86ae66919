//! The purgeable region itself: its address, length and kernel resource, and the
//! rules by which it moves between states.
use crate::error::PurgeableAllocError;
use crate::layout::AllocLayout;
use vstd::prelude::*;

pub mod ashmem;
pub mod mach;
pub mod windows;

verus! {

/// The kernel facility that provides purgeable memory.
#[derive(Clone, Copy, Debug, PartialEq, Eq, Structural)]
pub enum Backend {
    /// Darwin purgeable virtual memory.
    Darwin,
    /// Android / Linux shared memory.
    Ashmem,
    /// Windows reset memory.
    Windows,
}

/// What the kernel guarantees about a region's contents.
#[derive(Clone, Copy, Debug, PartialEq, Eq, Structural)]
pub enum RegionState {
    /// The contents are kept; they may be read and written.
    Locked,
    /// The kernel may discard the contents at any moment.
    Unlocked,
    /// The kernel discarded the contents; only release is left.
    Purged,
}

/// A region that the kernel granted: where it is mapped, and the file descriptor
/// that backs it where the platform has one (else a negative number).
#[derive(Clone, Copy, Debug, PartialEq, Eq, Structural)]
pub struct KernelRegion {
    pub address: usize,
    pub fd: i32,
}

/// What must happen before a region for a layout exists.
#[derive(Clone, Copy, Debug, PartialEq, Eq, Structural)]
pub enum AllocPlan {
    /// Nothing: a zero-length region needs no kernel resource.
    Empty,
    /// The kernel must be asked for `size` bytes.
    Kernel { size: usize },
    /// The alignment exceeds the page size: a programming error.
    AlignmentTooLarge { requested: usize, max: usize },
}

/// Everything that the library knows of a region.
#[derive(Clone, Copy, Debug, PartialEq, Eq, Structural)]
pub struct RegionView {
    pub address: usize,
    pub size: usize,
    pub fd: i32,
    pub state: RegionState,
}

/// The plan for allocating `layout` where pages are `page` bytes long.
pub open spec fn plan_spec(layout: AllocLayout, page: usize) -> AllocPlan {
    if layout.align > page {
        AllocPlan::AlignmentTooLarge { requested: layout.align, max: page }
    } else if layout.size == 0 {
        AllocPlan::Empty
    } else {
        AllocPlan::Kernel { size: layout.size }
    }
}

/// The region that allocating `layout` yields, given what the kernel granted, or
/// `None` where the kernel refused.
pub open spec fn allocated_spec(layout: AllocLayout, granted: Option<KernelRegion>) -> Option<
    RegionView,
> {
    if layout.size == 0 {
        Some(RegionView { address: layout.align, size: 0, fd: -1i32, state: RegionState::Locked })
    } else {
        match granted {
            Some(k) => Some(
                RegionView {
                    address: k.address,
                    size: layout.size,
                    fd: k.fd,
                    state: RegionState::Locked,
                },
            ),
            None => None,
        }
    }
}

/// A region with its state replaced.
pub open spec fn with_state(v: RegionView, s: RegionState) -> RegionView {
    RegionView { state: s, ..v }
}

/// Whether a lock attempt finds the contents intact: a zero-length region always
/// does, any other one when the kernel reports that nothing was purged.
pub open spec fn lock_succeeds(v: RegionView, intact: bool) -> bool {
    v.size == 0 || intact
}

/// The state that a lock attempt leaves the region in.
pub open spec fn after_lock(v: RegionView, intact: bool) -> RegionView {
    if lock_succeeds(v, intact) {
        with_state(v, RegionState::Locked)
    } else {
        with_state(v, RegionState::Purged)
    }
}

/// The kernel resource that giving a region up releases: none for an empty region.
pub open spec fn release_spec(v: RegionView) -> Option<KernelRegion> {
    if v.size == 0 {
        None
    } else {
        Some(KernelRegion { address: v.address, fd: v.fd })
    }
}

/// Relies on page_size::get for the page size of this machine; nothing is
/// assumed of its value.
#[verifier::external_body]
fn system_page_size() -> usize {
    page_size::get()
}

/// The plan for allocating `layout` on a machine whose pages are `page` bytes long.
pub fn plan_for_page(layout: AllocLayout, page: usize) -> (r: AllocPlan)
    ensures
        r == plan_spec(layout, page),
{
    if layout.align > page {
        AllocPlan::AlignmentTooLarge { requested: layout.align, max: page }
    } else if layout.size == 0 {
        AllocPlan::Empty
    } else {
        AllocPlan::Kernel { size: layout.size }
    }
}

/// The plan for allocating `layout` on this machine.
pub fn plan(layout: AllocLayout) -> (r: AllocPlan)
    ensures
        exists|page: usize| r == plan_spec(layout, page),
{
    let page = system_page_size();
    plan_for_page(layout, page)
}

/// One purgeable region, described by plain values. The kernel calls that
/// allocate, lock, unlock and release it are made by its owner, who hands their
/// outcome to the methods here.
pub(crate) struct SystemPurgeableBox {
    pub(crate) address: usize,
    pub(crate) size: usize,
    pub(crate) fd: i32,
    pub(crate) state: Ghost<RegionState>,
}

impl SystemPurgeableBox {
    pub(crate) open spec fn view(&self) -> RegionView {
        RegionView {
            address: self.address,
            size: self.size,
            fd: self.fd,
            state: self.state@,
        }
    }

    /// The region for `layout`: without kernel resource where it is empty, else the
    /// one the kernel granted, or the allocation error where it granted none.
    pub(crate) fn new_uninit_with_layout(layout: AllocLayout, granted: Option<KernelRegion>) -> (r:
        Result<SystemPurgeableBox, PurgeableAllocError>)
        ensures
            match allocated_spec(layout, granted) {
                Some(v) => r matches Ok(b) && b.view() == v,
                None => r == Err::<SystemPurgeableBox, _>(PurgeableAllocError { layout }),
            },
    {
        if layout.size == 0 {
            return Ok(
                SystemPurgeableBox {
                    address: layout.align,
                    size: 0,
                    fd: -1,
                    state: Ghost(RegionState::Locked),
                },
            );
        }
        match granted {
            Some(k) => Ok(
                SystemPurgeableBox {
                    address: k.address,
                    size: layout.size,
                    fd: k.fd,
                    state: Ghost(RegionState::Locked),
                },
            ),
            None => Err(PurgeableAllocError::new(layout)),
        }
    }

    /// Whether a state change of this region takes a kernel call.
    pub(crate) fn needs_kernel(&self) -> (r: bool)
        ensures
            r == (self.size != 0),
    {
        self.size != 0
    }

    /// Records a lock attempt, whose kernel call reported `intact`; returns whether the
    /// contents survived.
    pub(crate) fn lock(&mut self, intact: bool) -> (r: bool)
        requires
            old(self).view().state == RegionState::Unlocked,
        ensures
            r == lock_succeeds(old(self).view(), intact),
            final(self).view() == after_lock(old(self).view(), intact),
    {
        if self.size == 0 || intact {
            self.state = Ghost(RegionState::Locked);
            true
        } else {
            self.state = Ghost(RegionState::Purged);
            false
        }
    }

    /// Records that the region was made volatile.
    pub(crate) fn unlock(&mut self)
        requires
            old(self).view().state == RegionState::Locked,
        ensures
            final(self).view() == with_state(old(self).view(), RegionState::Unlocked),
    {
        self.state = Ghost(RegionState::Unlocked);
    }

    /// The kernel resource to give back when the region goes away, if it has one.
    pub(crate) fn release(self) -> (r: Option<KernelRegion>)
        ensures
            r == release_spec(self.view()),
    {
        if self.size == 0 {
            None
        } else {
            Some(KernelRegion { address: self.address, fd: self.fd })
        }
    }
}

} // verus!

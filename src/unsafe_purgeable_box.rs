//! A region viewed as `count` values of an element type, with no state tracked in
//! the type: each state change states the state it starts from.
use crate::error::PurgeableAllocError;
use crate::layout::{array_bytes, AllocLayout};
use crate::os::{release_spec, mach, KernelRegion, RegionState, RegionView, SystemPurgeableBox, allocated_spec, after_lock, lock_succeeds, with_state};
use core::marker::PhantomData;
use core::mem::MaybeUninit;
use vstd::layout::{align_of, valid_layout};
use vstd::prelude::*;

verus! {

/// The byte length of `len` values of `T` is a valid allocation size.
pub open spec fn array_fits<T>(len: nat) -> bool {
    array_bytes::<T>(len) <= usize::MAX && valid_layout(
        array_bytes::<T>(len) as usize,
        align_of::<T>() as usize,
    )
}

/// The layout of `len` values of `T`.
pub open spec fn array_layout<T>(len: nat) -> AllocLayout {
    AllocLayout { size: array_bytes::<T>(len) as usize, align: align_of::<T>() as usize }
}

pub(crate) struct UnsafePurgeableBox<T> {
    pub(crate) inner: SystemPurgeableBox,
    pub(crate) count: usize,
    pub(crate) marker: PhantomData<T>,
}

impl<T> UnsafePurgeableBox<T> {
    pub(crate) open spec fn region(&self) -> RegionView {
        self.inner.view()
    }

    /// Reads the region as `count` values of `T`: returns whether the contents were
    /// kept while it was unlocked.
    pub(crate) fn lock(&mut self, intact: bool) -> (r: bool)
        requires
            old(self).region().state == RegionState::Unlocked,
        ensures
            r == lock_succeeds(old(self).region(), intact),
            final(self).region() == after_lock(old(self).region(), intact),
            final(self).count == old(self).count,
    {
        self.inner.lock(intact)
    }

    pub(crate) fn unlock(&mut self)
        requires
            old(self).region().state == RegionState::Locked,
        ensures
            final(self).region() == with_state(old(self).region(), RegionState::Unlocked),
            final(self).count == old(self).count,
    {
        self.inner.unlock()
    }

    /// Whether the region was purged, given the return code and state of a Darwin
    /// state query on it; an empty region has nothing to purge.
    pub(crate) fn is_purged(&self, kern_ret: i32, state: i32) -> (r: bool)
        ensures
            r == (self.region().size != 0 && (kern_ret != mach::KERN_SUCCESS || state
                & mach::VM_PURGABLE_EMPTY != 0)),
    {
        self.inner.size != 0 && mach::state_reports_purged(kern_ret, state)
    }

    /// The address of the first value; reading through it is defined only while
    /// the region is locked.
    pub(crate) fn ptr(&self) -> (r: usize)
        ensures
            r == self.region().address,
    {
        self.inner.address
    }

    pub(crate) fn size(&self) -> (r: usize)
        ensures
            r == self.region().size,
    {
        self.inner.size
    }

    pub(crate) fn fd(&self) -> (r: i32)
        ensures
            r == self.region().fd,
    {
        self.inner.fd
    }

    pub(crate) fn count(&self) -> (r: usize)
        ensures
            r == self.count,
    {
        self.count
    }

    /// The same region viewed as values of `R`.
    pub(crate) fn cast<R>(self) -> (r: UnsafePurgeableBox<R>)
        ensures
            r.region() == self.region(),
            r.count == self.count,
    {
        UnsafePurgeableBox { inner: self.inner, count: self.count, marker: PhantomData }
    }

    pub(crate) fn release(self) -> (r: Option<KernelRegion>)
        ensures
            r == release_spec(self.region()),
    {
        self.inner.release()
    }
}

impl<T: Copy> UnsafePurgeableBox<T> {
    /// A locked region for one `T`, from what the kernel granted.
    pub(crate) fn try_new_locked_uninit(granted: Option<KernelRegion>) -> (r: Result<
        UnsafePurgeableBox<MaybeUninit<T>>,
        PurgeableAllocError,
    >)
        ensures
            match allocated_spec(array_layout::<T>(1), granted) {
                Some(v) => r matches Ok(b) && b.region() == v && b.count == 1,
                None => r matches Err(e) && e.layout == array_layout::<T>(1),
            },
    {
        let layout = AllocLayout::new::<T>();
        let inner = SystemPurgeableBox::new_uninit_with_layout(layout, granted)?;
        Ok(UnsafePurgeableBox { inner, count: 1, marker: PhantomData })
    }

    /// A locked region for `len` values of `T`, from what the kernel granted.
    pub(crate) fn try_new_locked_uninit_slice(len: usize, granted: Option<KernelRegion>) -> (r:
        Result<UnsafePurgeableBox<MaybeUninit<T>>, PurgeableAllocError>)
        requires
            array_fits::<T>(len as nat),
        ensures
            match allocated_spec(array_layout::<T>(len as nat), granted) {
                Some(v) => r matches Ok(b) && b.region() == v && b.count == len,
                None => r matches Err(e) && e.layout == array_layout::<T>(len as nat),
            },
    {
        let layout = AllocLayout::array::<T>(len).unwrap();
        let inner = SystemPurgeableBox::new_uninit_with_layout(layout, granted)?;
        Ok(UnsafePurgeableBox { inner, count: len, marker: PhantomData })
    }
}

impl<T> UnsafePurgeableBox<MaybeUninit<T>> {
    /// The region viewed as initialized values, once every one has been written.
    pub(crate) fn assume_init(self) -> (r: UnsafePurgeableBox<T>)
        ensures
            r.region() == self.region(),
            r.count == self.count,
    {
        self.cast()
    }
}

} // verus!

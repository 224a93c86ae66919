//! The locked handle: its existence proves that the region's contents are kept.
use crate::error::{PurgeableAllocError, PurgeableBoxLockError};
use crate::lifecycle::{lock_spec, unlock_spec};
use crate::os::{release_spec, KernelRegion, RegionState, RegionView, allocated_spec};
use crate::purgeable_box::PurgeableBox;
use crate::unsafe_purgeable_box::{UnsafePurgeableBox, array_fits, array_layout};
use core::mem::MaybeUninit;
use vstd::layout::size_of;
use vstd::prelude::*;

verus! {

/// `r` is what allocating `count` values of `T` yields when the kernel granted
/// `granted`: the locked region, or the allocation error carrying the layout.
pub open spec fn allocation_result<T, U>(
    r: Result<NonPurgeableBox<U>, PurgeableAllocError>,
    count: nat,
    granted: Option<KernelRegion>,
) -> bool {
    match allocated_spec(array_layout::<T>(count), granted) {
        Some(v) => r matches Ok(b) && b.region() == v && b.count() == count,
        None => r matches Err(e) && e.layout == array_layout::<T>(count),
    }
}

/// A region in the locked state, viewed as `count()` values of `T`.
///
/// The contents live in the mapping at `address()`; whoever holds the mapping
/// reads and writes them. The handle decides when that is allowed: only while it
/// exists.
pub struct NonPurgeableBox<T> {
    inner: UnsafePurgeableBox<T>,
}

impl<T> NonPurgeableBox<T> {
    #[verifier::type_invariant]
    spec fn locked(&self) -> bool {
        self.inner.region().state == RegionState::Locked
    }

    /// What the library knows of the region.
    pub closed spec fn region(&self) -> RegionView {
        self.inner.region()
    }

    /// The number of values of `T` in the region.
    pub closed spec fn count(&self) -> nat {
        self.inner.count as nat
    }

    fn from_locked_inner(inner: UnsafePurgeableBox<T>) -> (r: Self)
        requires
            inner.region().state == RegionState::Locked,
        ensures
            r.region() == inner.region(),
            r.count() == inner.count,
    {
        NonPurgeableBox { inner }
    }

    /// Takes an unlocked region back, where the kernel reported `intact` for its
    /// lock attempt; a purged region is given up.
    pub(crate) fn try_from_unlocked(inner: UnsafePurgeableBox<T>, intact: bool) -> (r: Result<
        NonPurgeableBox<T>,
        PurgeableBoxLockError,
    >)
        requires
            inner.region().state == RegionState::Unlocked,
        ensures
            match lock_spec(inner.region(), intact) {
                Some(v) => r matches Ok(b) && b.region() == v && b.count() == inner.count,
                None => r is Err,
            },
    {
        let mut pb = inner;
        if pb.lock(intact) {
            Ok(Self::from_locked_inner(pb))
        } else {
            Err(PurgeableBoxLockError)
        }
    }

    /// Makes the region volatile: the kernel may purge it from now on. The kernel
    /// call that does so is made by the owner of the mapping.
    pub fn unlock(this: Self) -> (r: PurgeableBox<T>)
        ensures
            r.region() == unlock_spec(this.region()),
            r.count() == this.count(),
    {
        proof {
            use_type_invariant(&this);
        }
        let mut pb = this.inner;
        pb.unlock();
        PurgeableBox::from_unlocked(pb)
    }

    /// The byte length of the region.
    pub fn size(&self) -> (r: usize)
        ensures
            r == self.region().size,
    {
        self.inner.size()
    }

    /// The address of the region's first byte.
    pub fn address(&self) -> (r: usize)
        ensures
            r == self.region().address,
    {
        self.inner.ptr()
    }

    /// The file descriptor behind the region, where the platform has one.
    pub fn fd(&self) -> (r: i32)
        ensures
            r == self.region().fd,
    {
        self.inner.fd()
    }

    /// The number of values of `T` in the region.
    pub fn len(&self) -> (r: usize)
        ensures
            r == self.count(),
    {
        self.inner.count()
    }

    /// Whether a state change takes a kernel call: every one does but on an empty
    /// region.
    pub fn needs_kernel(&self) -> (r: bool)
        ensures
            r == (self.region().size != 0),
    {
        self.inner.inner.needs_kernel()
    }

    /// Gives the region up; returns the kernel resource to release, if any.
    pub fn release(this: Self) -> (r: Option<KernelRegion>)
        ensures
            r == release_spec(this.region()),
    {
        this.inner.release()
    }
}

impl<T: Copy> NonPurgeableBox<T> {
    /// A locked region for one `T` whose contents are not yet written.
    pub fn try_new_uninit(granted: Option<KernelRegion>) -> (r: Result<
        NonPurgeableBox<MaybeUninit<T>>,
        PurgeableAllocError,
    >)
        ensures
            allocation_result::<T, _>(r, 1, granted),
    {
        let locked_inner = UnsafePurgeableBox::<T>::try_new_locked_uninit(granted)?;
        Ok(NonPurgeableBox::from_locked_inner(locked_inner))
    }

    /// A locked region for one `T` whose contents are not yet written; the kernel
    /// must have granted one unless `T` is empty.
    pub fn new_uninit(granted: Option<KernelRegion>) -> (r: NonPurgeableBox<MaybeUninit<T>>)
        requires
            size_of::<T>() == 0 || granted is Some,
        ensures
            allocation_result::<T, _>(Ok(r), 1, granted),
    {
        handle_alloc_result(Self::try_new_uninit(granted))
    }

    /// A locked region for a value of `T`, which the owner of the mapping copies in.
    pub fn try_new(_x: &T, granted: Option<KernelRegion>) -> (r: Result<
        NonPurgeableBox<T>,
        PurgeableAllocError,
    >)
        ensures
            allocation_result::<T, _>(r, 1, granted),
    {
        let npb = Self::try_new_uninit(granted)?;
        Ok(npb.assume_init())
    }

    /// A locked region for the value `x`, which the owner of the mapping copies in;
    /// the kernel must have granted one unless `T` is empty.
    pub fn new(x: &T, granted: Option<KernelRegion>) -> (r: NonPurgeableBox<T>)
        requires
            size_of::<T>() == 0 || granted is Some,
        ensures
            allocation_result::<T, _>(Ok(r), 1, granted),
    {
        handle_alloc_result(Self::try_new(x, granted))
    }

    /// A locked region for `len` values of `T` whose contents are not yet written.
    pub fn try_new_uninit_slice(len: usize, granted: Option<KernelRegion>) -> (r: Result<
        NonPurgeableBox<MaybeUninit<T>>,
        PurgeableAllocError,
    >)
        requires
            array_fits::<T>(len as nat),
        ensures
            allocation_result::<T, _>(r, len as nat, granted),
    {
        let locked_inner = UnsafePurgeableBox::<T>::try_new_locked_uninit_slice(len, granted)?;
        Ok(NonPurgeableBox::from_locked_inner(locked_inner))
    }

    /// A locked region for `len` values of `T` whose contents are not yet written;
    /// the kernel must have granted one unless the region is empty.
    pub fn new_uninit_slice(len: usize, granted: Option<KernelRegion>) -> (r: NonPurgeableBox<
        MaybeUninit<T>,
    >)
        requires
            array_fits::<T>(len as nat),
            array_layout::<T>(len as nat).size == 0 || granted is Some,
        ensures
            allocation_result::<T, _>(Ok(r), len as nat, granted),
    {
        handle_alloc_result(Self::try_new_uninit_slice(len, granted))
    }

    /// A locked region for a copy of `src`, which the owner of the mapping copies in.
    pub fn try_new_slice(src: &[T], granted: Option<KernelRegion>) -> (r: Result<
        NonPurgeableBox<T>,
        PurgeableAllocError,
    >)
        requires
            array_fits::<T>(src@.len()),
        ensures
            allocation_result::<T, _>(r, src@.len(), granted),
    {
        let pb = Self::try_new_uninit_slice(src.len(), granted)?;
        Ok(pb.assume_init())
    }

    /// A locked region for a copy of `src`; the kernel must have granted one unless
    /// the region is empty.
    pub fn new_slice(src: &[T], granted: Option<KernelRegion>) -> (r: NonPurgeableBox<T>)
        requires
            array_fits::<T>(src@.len()),
            array_layout::<T>(src@.len()).size == 0 || granted is Some,
        ensures
            allocation_result::<T, _>(Ok(r), src@.len(), granted),
    {
        handle_alloc_result(Self::try_new_slice(src, granted))
    }

    /// A locked region for `len` copies of a value, which the owner of the mapping
    /// writes in; the kernel must have granted one unless the region is empty.
    pub fn new_filled_slice(_x: T, len: usize, granted: Option<KernelRegion>) -> (r:
        NonPurgeableBox<T>)
        requires
            array_fits::<T>(len as nat),
            array_layout::<T>(len as nat).size == 0 || granted is Some,
        ensures
            allocation_result::<T, _>(Ok(r), len as nat, granted),
    {
        let npb = Self::new_uninit_slice(len, granted);
        npb.assume_init()
    }
}

impl<T> NonPurgeableBox<MaybeUninit<T>> {
    /// The same region viewed as initialized values, once every one has been
    /// written through the mapping.
    pub fn assume_init(self) -> (r: NonPurgeableBox<T>)
        ensures
            r.region() == self.region(),
            r.count() == self.count(),
    {
        proof {
            use_type_invariant(&self);
        }
        NonPurgeableBox::from_locked_inner(self.inner.assume_init())
    }
}

/// The handle of a successful allocation; the caller has ruled failure out.
fn handle_alloc_result<U>(result: Result<NonPurgeableBox<U>, PurgeableAllocError>) -> (r:
    NonPurgeableBox<U>)
    requires
        result is Ok,
    ensures
        result == Ok::<_, PurgeableAllocError>(r),
{
    result.unwrap()
}

} // verus!

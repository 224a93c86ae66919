//! The unlocked handle: the kernel may purge its region at any moment, so it
//! offers no way to reach the contents.
use crate::error::PurgeableBoxLockError;
use crate::lifecycle::lock_spec;
use crate::non_purgeable_box::NonPurgeableBox;
use crate::os::{release_spec, KernelRegion, RegionState, RegionView, mach};
use crate::unsafe_purgeable_box::UnsafePurgeableBox;
use vstd::prelude::*;

verus! {

/// A region in the unlocked state, viewed as `count()` values of `T`.
pub struct PurgeableBox<T> {
    inner: UnsafePurgeableBox<T>,
}

impl<T> PurgeableBox<T> {
    #[verifier::type_invariant]
    spec fn unlocked(&self) -> bool {
        self.inner.region().state == RegionState::Unlocked
    }

    /// What the library knows of the region.
    pub closed spec fn region(&self) -> RegionView {
        self.inner.region()
    }

    /// The number of values of `T` in the region.
    pub closed spec fn count(&self) -> nat {
        self.inner.count as nat
    }

    pub(crate) fn from_unlocked(pb: UnsafePurgeableBox<T>) -> (r: PurgeableBox<T>)
        requires
            pb.region().state == RegionState::Unlocked,
        ensures
            r.region() == pb.region(),
            r.count() == pb.count,
    {
        PurgeableBox { inner: pb }
    }

    /// Makes the region non-volatile again, where the kernel reported `intact` for
    /// that call: the locked handle where the contents were kept, else the error;
    /// the purged region is then given up, and its kernel resource must be released.
    /// An empty region is always kept.
    pub fn lock(self, intact: bool) -> (r: Result<NonPurgeableBox<T>, PurgeableBoxLockError>)
        ensures
            match lock_spec(self.region(), intact) {
                Some(v) => r matches Ok(b) && b.region() == v && b.count() == self.count(),
                None => r is Err,
            },
    {
        proof {
            use_type_invariant(&self);
        }
        NonPurgeableBox::try_from_unlocked(self.inner, intact)
    }

    /// Whether the region was purged, given the return code and state of a Darwin
    /// state query on it; an empty region never is.
    pub fn is_purged(&self, kern_ret: i32, state: i32) -> (r: bool)
        ensures
            r == (self.region().size != 0 && (kern_ret != mach::KERN_SUCCESS || state
                & mach::VM_PURGABLE_EMPTY != 0)),
    {
        self.inner.is_purged(kern_ret, state)
    }

    /// The byte length of the region.
    pub fn size(&self) -> (r: usize)
        ensures
            r == self.region().size,
    {
        self.inner.size()
    }

    /// The address of the region's first byte.
    pub fn address(&self) -> (r: usize)
        ensures
            r == self.region().address,
    {
        self.inner.ptr()
    }

    /// The file descriptor behind the region, where the platform has one.
    pub fn fd(&self) -> (r: i32)
        ensures
            r == self.region().fd,
    {
        self.inner.fd()
    }

    /// The number of values of `T` in the region.
    pub fn len(&self) -> (r: usize)
        ensures
            r == self.count(),
    {
        self.inner.count()
    }

    /// Whether a state change takes a kernel call: every one does but on an empty
    /// region.
    pub fn needs_kernel(&self) -> (r: bool)
        ensures
            r == (self.region().size != 0),
    {
        self.inner.inner.needs_kernel()
    }

    /// Gives the region up; returns the kernel resource to release, if any.
    pub fn release(this: Self) -> (r: Option<KernelRegion>)
        ensures
            r == release_spec(this.region()),
    {
        this.inner.release()
    }
}

} // verus!

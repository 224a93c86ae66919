//! Typed handles to purgeable memory regions.
//!
//! A region is either locked (its contents are kept), unlocked (the kernel may
//! discard them at any moment) or purged (the kernel has discarded them). The
//! library models a region by its address, byte length and kernel resource, and
//! decides every state transition from what the kernel reported; the kernel
//! calls themselves are made by the owner of the mapping.
mod layout;
mod error;
pub mod os;
pub mod lifecycle;
mod unsafe_purgeable_box;
mod non_purgeable_box;
mod purgeable_box;

pub use layout::AllocLayout;
pub use error::{PurgeableAllocError, PurgeableBoxLockError};
pub use non_purgeable_box::NonPurgeableBox;
pub use purgeable_box::PurgeableBox;

use os::{Backend, KernelRegion};
use vstd::prelude::*;

verus! {

/// Whether purgeable regions can be had from `backend`; for ashmem, `probe` is what
/// the kernel granted for a one-byte allocation.
pub fn is_available(backend: Backend, probe: Option<KernelRegion>) -> (r: bool)
    ensures
        r == (backend != Backend::Ashmem || probe is Some),
{
    match backend {
        Backend::Darwin => os::mach::is_available(),
        Backend::Ashmem => os::ashmem::is_available(probe),
        Backend::Windows => os::windows::is_available(),
    }
}

} // verus!

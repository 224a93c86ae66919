//! Darwin purgeable virtual memory: flags, states, and what the kernel's answers
//! mean.
use crate::os::KernelRegion;
use vstd::prelude::*;

verus! {

pub const KERN_SUCCESS: i32 = 0;

pub const VM_FLAGS_ANYWHERE: i32 = 0x0001;

pub const VM_FLAGS_PURGABLE: i32 = 0x0002;

pub const VM_PURGABLE_SET_STATE: i32 = 0;

pub const VM_PURGABLE_GET_STATE: i32 = 1;

pub const VM_PURGABLE_NONVOLATILE: i32 = 0;

pub const VM_PURGABLE_VOLATILE: i32 = 1;

pub const VM_PURGABLE_EMPTY: i32 = 2;

pub const VM_VOLATILE_GROUP_DEFAULT: i32 = 0;

/// The flags of `vm_allocate` for a purgeable region placed anywhere.
pub fn allocate_flags() -> (r: i32)
    ensures
        r == VM_FLAGS_PURGABLE | VM_FLAGS_ANYWHERE,
{
    VM_FLAGS_PURGABLE | VM_FLAGS_ANYWHERE
}

/// The state that unlocking sets: volatile, in the default group.
pub fn volatile_state() -> (r: i32)
    ensures
        r == VM_PURGABLE_VOLATILE | VM_VOLATILE_GROUP_DEFAULT,
{
    VM_PURGABLE_VOLATILE | VM_VOLATILE_GROUP_DEFAULT
}

/// The region that `vm_allocate` granted, given its return code and the address it
/// wrote.
pub fn allocated_region(kern_ret: i32, address: usize) -> (r: Option<KernelRegion>)
    ensures
        r is Some <==> kern_ret == KERN_SUCCESS && address != 0,
        r matches Some(k) ==> k.address == address && k.fd < 0,
{
    if kern_ret != KERN_SUCCESS || address == 0 {
        None
    } else {
        Some(KernelRegion { address, fd: -1 })
    }
}

/// Whether setting the state to non-volatile found the contents intact, given the
/// return code and the previous state that the kernel wrote back.
pub fn lock_reports_intact(kern_ret: i32, state: i32) -> (r: bool)
    ensures
        r == (kern_ret == KERN_SUCCESS && state & VM_PURGABLE_EMPTY == 0),
{
    kern_ret == KERN_SUCCESS && state & VM_PURGABLE_EMPTY == 0
}

/// Whether a state query says that the region was purged; a failed query counts
/// as purged.
pub fn state_reports_purged(kern_ret: i32, state: i32) -> (r: bool)
    ensures
        r == (kern_ret != KERN_SUCCESS || state & VM_PURGABLE_EMPTY != 0),
{
    kern_ret != KERN_SUCCESS || state & VM_PURGABLE_EMPTY != 0
}

/// Purgeable memory is always supported on Darwin.
pub fn is_available() -> (r: bool)
    ensures
        r,
{
    true
}

} // verus!

//! Windows reset memory (`MEM_RESET` / `MEM_RESET_UNDO`): what the kernel's answers
//! mean. The kernel does not report purges here: a successful undo may still
//! leave the contents indeterminate.
use crate::os::KernelRegion;
use vstd::prelude::*;

verus! {

/// The region that `VirtualAlloc` granted, given the address it returned.
pub fn allocated_region(address: usize) -> (r: Option<KernelRegion>)
    ensures
        r is Some <==> address != 0,
        r matches Some(k) ==> k.address == address && k.fd < 0,
{
    if address == 0 {
        None
    } else {
        Some(KernelRegion { address, fd: -1 })
    }
}

/// Whether a `MEM_RESET_UNDO` call that returned `address` counts as a successful
/// lock: any non-null result does.
pub fn reset_undo_reports_intact(address: usize) -> (r: bool)
    ensures
        r == (address != 0),
{
    address != 0
}

/// Reset memory is always supported on Windows.
pub fn is_available() -> (r: bool)
    ensures
        r,
{
    true
}

} // verus!

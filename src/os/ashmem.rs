//! Android / Linux shared memory (`/dev/ashmem`): request codes, the steps that
//! create a region, and what the kernel's answers mean.
use crate::layout::AllocLayout;
use crate::os::{KernelRegion, SystemPurgeableBox};
use vstd::prelude::*;

verus! {

/// The ioctl type byte of the ashmem driver.
pub const ASHMEM_IOC_MAGIC: u32 = 0x77;

/// The length of the name buffer that `ASHMEM_SET_NAME` passes.
pub const ASHMEM_NAME_LEN: u32 = 256;

/// The byte length of the pin range argument: two `u32`, offset and length.
pub const ASHMEM_PIN_ARG_LEN: u32 = 8;

/// What `ASHMEM_PIN` returns when the pages were kept while unpinned.
pub const ASHMEM_NOT_PURGED: i32 = 0;

/// The direction bits of a request that passes data to the kernel.
pub const IOC_WRITE: u32 = 1;

/// The code of a request that passes `size` bytes to the kernel, in the encoding of
/// x86, ARM and RISC-V: direction in the top two bits, then fourteen bits of size,
/// eight of type and eight of number.
pub open spec fn ioc_write_spec(ty: u32, nr: u32, size: u32) -> u32 {
    (IOC_WRITE << 30u32) | (size << 16u32) | (ty << 8u32) | nr
}

/// Encodes a request that passes `size` bytes to the kernel.
pub fn ioc_write(ty: u32, nr: u32, size: u32) -> (r: u32)
    requires
        ty < 0x100,
        nr < 0x100,
        size < 0x4000,
    ensures
        r == ioc_write_spec(ty, nr, size),
        r & 0xff == nr,
        (r >> 8u32) & 0xff == ty,
        (r >> 16u32) & 0x3fff == size,
        r >> 30u32 == IOC_WRITE,
{
    let r = (IOC_WRITE << 30u32) | (size << 16u32) | (ty << 8u32) | nr;
    assert(r & 0xff == nr && (r >> 8u32) & 0xff == ty && (r >> 16u32) & 0x3fff == size && r
        >> 30u32 == 1u32) by (bit_vector)
        requires
            ty < 0x100,
            nr < 0x100,
            size < 0x4000,
            r == (1u32 << 30u32) | (size << 16u32) | (ty << 8u32) | nr,
    ;
    r
}

/// `ASHMEM_SET_NAME`: names the region.
pub fn set_name_request() -> (r: u32)
    ensures
        r == ioc_write_spec(ASHMEM_IOC_MAGIC, 1, ASHMEM_NAME_LEN),
{
    ioc_write(ASHMEM_IOC_MAGIC, 1, ASHMEM_NAME_LEN)
}

/// `ASHMEM_SET_SIZE`: fixes the region's length, passed as a `size_t`.
pub fn set_size_request() -> (r: u32)
    ensures
        r == ioc_write_spec(ASHMEM_IOC_MAGIC, 3, vstd::layout::size_of::<usize>() as u32),
{
    broadcast use vstd::layout::layout_of_primitives;

    assert(usize::BITS == 32 || usize::BITS == 64);
    ioc_write(ASHMEM_IOC_MAGIC, 3, core::mem::size_of::<usize>() as u32)
}

/// `ASHMEM_PIN`: makes a range non-volatile and reports whether it was purged.
pub fn pin_request() -> (r: u32)
    ensures
        r == ioc_write_spec(ASHMEM_IOC_MAGIC, 7, ASHMEM_PIN_ARG_LEN),
{
    ioc_write(ASHMEM_IOC_MAGIC, 7, ASHMEM_PIN_ARG_LEN)
}

/// `ASHMEM_UNPIN`: makes a range volatile.
pub fn unpin_request() -> (r: u32)
    ensures
        r == ioc_write_spec(ASHMEM_IOC_MAGIC, 8, ASHMEM_PIN_ARG_LEN),
{
    ioc_write(ASHMEM_IOC_MAGIC, 8, ASHMEM_PIN_ARG_LEN)
}

/// What a step of creating an ashmem file through `/dev/ashmem` returned.
#[derive(Clone, Copy, Debug, PartialEq, Eq, Structural)]
pub enum CreateEvent {
    /// `open` returned `fd`.
    Opened { fd: i32 },
    /// The `ASHMEM_SET_NAME` ioctl on `fd` returned `ret`.
    NameSet { fd: i32, ret: i32 },
    /// The `ASHMEM_SET_SIZE` ioctl on `fd` returned `ret`.
    SizeSet { fd: i32, ret: i32 },
}

/// What to do next while creating an ashmem file.
#[derive(Clone, Copy, Debug, PartialEq, Eq, Structural)]
pub enum CreateAction {
    /// Issue `ASHMEM_SET_NAME` on `fd`.
    SetName { fd: i32 },
    /// Issue `ASHMEM_SET_SIZE` on `fd`.
    SetSize { fd: i32 },
    /// Close `fd`: creation failed.
    CloseAndFail { fd: i32 },
    /// Creation failed; nothing is open.
    Fail,
    /// `fd` is ready to be mapped.
    Done { fd: i32 },
}

pub open spec fn create_next_spec(named: bool, ev: CreateEvent) -> CreateAction {
    match ev {
        CreateEvent::Opened { fd } => if fd < 0 {
            CreateAction::Fail
        } else if named {
            CreateAction::SetName { fd }
        } else {
            CreateAction::SetSize { fd }
        },
        CreateEvent::NameSet { fd, ret } => if ret != 0 {
            CreateAction::CloseAndFail { fd }
        } else {
            CreateAction::SetSize { fd }
        },
        CreateEvent::SizeSet { fd, ret } => if ret != 0 {
            CreateAction::CloseAndFail { fd }
        } else {
            CreateAction::Done { fd }
        },
    }
}

/// The next step of creating an ashmem file, where `named` tells whether a name was
/// asked for and `ev` is what the last step returned.
pub fn create_next(named: bool, ev: CreateEvent) -> (r: CreateAction)
    ensures
        r == create_next_spec(named, ev),
{
    match ev {
        CreateEvent::Opened { fd } => {
            if fd < 0 {
                CreateAction::Fail
            } else if named {
                CreateAction::SetName { fd }
            } else {
                CreateAction::SetSize { fd }
            }
        },
        CreateEvent::NameSet { fd, ret } => {
            if ret != 0 {
                CreateAction::CloseAndFail { fd }
            } else {
                CreateAction::SetSize { fd }
            }
        },
        CreateEvent::SizeSet { fd, ret } => {
            if ret != 0 {
                CreateAction::CloseAndFail { fd }
            } else {
                CreateAction::Done { fd }
            }
        },
    }
}

/// Whether a file descriptor returned by the create call can be mapped.
pub fn created(fd: i32) -> (r: bool)
    ensures
        r == (fd >= 0),
{
    fd >= 0
}

/// The region that creating `fd` and mapping it at `address` granted, where
/// `map_failed` is what `mmap` returns on failure.
pub fn mapped_region(fd: i32, address: usize, map_failed: usize) -> (r: Option<KernelRegion>)
    ensures
        r is Some <==> fd >= 0 && address != map_failed,
        r matches Some(k) ==> k == (KernelRegion { address, fd }),
{
    if fd < 0 || address == map_failed {
        None
    } else {
        Some(KernelRegion { address, fd })
    }
}

/// Whether the code that `ASHMEM_PIN` returned says that the pages were kept.
pub fn pin_reports_intact(code: i32) -> (r: bool)
    ensures
        r == (code == ASHMEM_NOT_PURGED),
{
    code == ASHMEM_NOT_PURGED
}

/// Whether ashmem regions can be had, given what the kernel granted for a one-byte
/// probe allocation.
pub fn is_available(probe: Option<KernelRegion>) -> (r: bool)
    ensures
        r == (probe is Some),
{
    let layout = AllocLayout::new::<u8>();
    proof {
        broadcast use vstd::layout::layout_of_primitives;

    }
    match SystemPurgeableBox::new_uninit_with_layout(layout, probe) {
        Ok(_) => true,
        Err(_) => false,
    }
}

} // verus!

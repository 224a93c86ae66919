use purgeable::os::KernelRegion;
use purgeable::{AllocLayout, NonPurgeableBox, PurgeableAllocError, PurgeableBox, PurgeableBoxLockError};

fn granted(address: usize, fd: i32) -> Option<KernelRegion> {
    Some(KernelRegion { address, fd })
}

#[test]
fn box_impls_send_sync() {
    fn assert_send<T: Send>() {}
    fn assert_sync<T: Sync>() {}

    assert_send::<PurgeableBox<i32>>();
    assert_send::<NonPurgeableBox<i32>>();

    assert_sync::<NonPurgeableBox<i32>>();
}

#[test]
fn alloc_zst() {
    let _ = NonPurgeableBox::new(&(), None);
}

#[test]
fn zero_size_round_trips_without_kernel() {
    let b = NonPurgeableBox::new(&(), None);
    assert_eq!(b.size(), 0);
    assert!(!b.needs_kernel());
    assert_eq!(b.address(), std::mem::align_of::<()>());
    let u = NonPurgeableBox::unlock(b);
    assert_eq!(u.size(), 0);
    // An empty region is kept whatever the kernel would say.
    let b = u.lock(false).expect("an empty region cannot be purged");
    assert_eq!(b.size(), 0);
    assert_eq!(NonPurgeableBox::release(b), None);
}

#[test]
fn i32_round_trips_keep_the_region() {
    let b = NonPurgeableBox::new(&1i32, granted(0x7000, 9));
    assert_eq!(b.size(), 4);
    assert_eq!(b.len(), 1);
    assert_eq!(b.address(), 0x7000);
    let u = NonPurgeableBox::unlock(b);
    assert_eq!(u.address(), 0x7000);
    let b = u.lock(true).expect("kept");
    assert_eq!(b.address(), 0x7000);
    assert_eq!(b.fd(), 9);
    let u = NonPurgeableBox::unlock(b);
    let b = u.lock(true).expect("kept");
    assert_eq!(b.size(), 4);
    assert_eq!(NonPurgeableBox::release(b), granted(0x7000, 9));
}

#[test]
fn purged_region_fails_to_lock() {
    let b = NonPurgeableBox::new(&7u64, granted(0x9000, 3));
    let u = NonPurgeableBox::unlock(b);
    let e: PurgeableBoxLockError = u.lock(false).err().expect("purged");
    assert_eq!(e.message(), "the purgeable box has already been purged");
}

#[test]
fn one_mebibyte_filled_slice() {
    let b = NonPurgeableBox::<u8>::new_filled_slice(0, 1 << 20, granted(0x10_0000, 4));
    assert_eq!(b.size(), 1 << 20);
    assert_eq!(b.len(), 1 << 20);
    let u = NonPurgeableBox::unlock(b);
    assert_eq!(u.size(), 1 << 20);
    let b = u.lock(true).expect("kept");
    assert_eq!(b.size(), 1 << 20);
}

#[test]
fn slice_of_ten_u32() {
    let src: [u32; 10] = [0, 1, 2, 3, 4, 5, 6, 7, 8, 9];
    let b = NonPurgeableBox::new_slice(&src, granted(0x2000, -1));
    assert_eq!(b.len(), 10);
    assert_eq!(b.size(), 40);
    let u = NonPurgeableBox::unlock(b);
    assert_eq!(u.len(), 10);
    let b = u.lock(true).expect("kept");
    assert_eq!(b.len(), 10);
    assert_eq!(b.address(), 0x2000);
}

#[test]
fn huge_allocation_reports_its_layout() {
    let r = NonPurgeableBox::<u8>::try_new_uninit_slice(1 << 60, None);
    let e = r.err().expect("the kernel granted nothing");
    assert_eq!(e.layout().size(), 1 << 60);
    assert_eq!(e.layout().align(), 1);
    assert_eq!(e, PurgeableAllocError::new(AllocLayout { size: 1 << 60, align: 1 }));
}

#[test]
fn refused_single_value_reports_its_layout() {
    let e = NonPurgeableBox::<u64>::try_new(&5, None).err().expect("refused");
    assert_eq!(e.layout, AllocLayout { size: 8, align: std::mem::align_of::<u64>() });
    let e = NonPurgeableBox::<u16>::try_new_uninit(None).err().expect("refused");
    assert_eq!(e.layout.size, 2);
}

#[test]
fn try_new_slice_of_empty_source_needs_no_kernel() {
    let src: [u32; 0] = [];
    let b = NonPurgeableBox::try_new_slice(&src, None).expect("empty");
    assert_eq!(b.size(), 0);
    assert_eq!(b.address(), std::mem::align_of::<u32>());
}

#[test]
fn uninit_then_assume_init_keeps_region() {
    let b = NonPurgeableBox::<u32>::new_uninit_slice(3, granted(0x4000, 2));
    assert_eq!(b.size(), 12);
    let b = b.assume_init();
    assert_eq!(b.len(), 3);
    assert_eq!(b.address(), 0x4000);
    let one = NonPurgeableBox::<u16>::new_uninit(granted(0x5000, 2)).assume_init();
    assert_eq!(one.size(), 2);
}

#[test]
fn is_purged_reads_the_empty_bit() {
    let u = NonPurgeableBox::unlock(NonPurgeableBox::new(&1u8, granted(0x3000, -1)));
    assert!(!u.is_purged(0, 1));
    assert!(u.is_purged(0, 2));
    assert!(u.is_purged(5, 0));
    let empty = NonPurgeableBox::unlock(NonPurgeableBox::new(&(), None));
    assert!(!empty.is_purged(5, 2));
}

#[test]
fn release_of_unlocked_region() {
    let u = NonPurgeableBox::unlock(NonPurgeableBox::new(&1u8, granted(0x3000, 11)));
    assert!(u.needs_kernel());
    assert_eq!(u.fd(), 11);
    assert_eq!(PurgeableBox::release(u), granted(0x3000, 11));
}

#[test]
fn error_messages() {
    let e = PurgeableAllocError::new(AllocLayout { size: 1, align: 1 });
    assert_eq!(e.message(), "purgeable memory allocation failed");
}

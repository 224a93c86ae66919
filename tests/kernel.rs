use purgeable::os::ashmem::{self, CreateAction, CreateEvent};
use purgeable::os::{mach, plan, plan_for_page, windows, AllocPlan, Backend, KernelRegion};
use purgeable::{is_available, AllocLayout};

#[test]
fn alignment_above_page_size_is_refused() {
    let page = page_size::get();
    let layout = AllocLayout { size: 8, align: page * 2 };
    assert_eq!(plan(layout), AllocPlan::AlignmentTooLarge { requested: page * 2, max: page });
    assert_eq!(plan(AllocLayout { size: 8, align: page }), AllocPlan::Kernel { size: 8 });
    assert_eq!(plan(AllocLayout { size: 0, align: 1 }), AllocPlan::Empty);
}

#[test]
fn plan_for_given_page() {
    let l = AllocLayout { size: 16, align: 8192 };
    assert_eq!(plan_for_page(l, 4096), AllocPlan::AlignmentTooLarge { requested: 8192, max: 4096 });
    assert_eq!(plan_for_page(l, 16384), AllocPlan::Kernel { size: 16 });
}

#[test]
fn layouts() {
    assert_eq!(AllocLayout::new::<u64>().size(), 8);
    assert_eq!(AllocLayout::new::<()>().size(), 0);
    let a = AllocLayout::array::<u32>(10).expect("fits");
    assert_eq!(a.size(), 40);
    assert_eq!(a.align(), std::mem::align_of::<u32>());
    assert_eq!(AllocLayout::array::<u64>(usize::MAX / 4), None);
    assert_eq!(AllocLayout::array::<u8>(isize::MAX as usize + 1), None);
    assert_eq!(AllocLayout::array::<u8>(isize::MAX as usize).map(|l| l.size()), Some(isize::MAX as usize));
}

#[test]
fn ashmem_request_codes() {
    assert_eq!(ashmem::set_name_request(), 0x4100_7701);
    assert_eq!(ashmem::pin_request(), 0x4008_7707);
    assert_eq!(ashmem::unpin_request(), 0x4008_7708);
    let size_t = std::mem::size_of::<usize>() as u32;
    assert_eq!(ashmem::set_size_request(), 0x4000_7703 | (size_t << 16));
    assert_eq!(ashmem::ioc_write(0x12, 0x34, 0x56), 0x4056_1234);
}

#[test]
fn ashmem_create_steps() {
    assert_eq!(ashmem::create_next(false, CreateEvent::Opened { fd: -1 }), CreateAction::Fail);
    assert_eq!(ashmem::create_next(true, CreateEvent::Opened { fd: 3 }), CreateAction::SetName { fd: 3 });
    assert_eq!(ashmem::create_next(false, CreateEvent::Opened { fd: 3 }), CreateAction::SetSize { fd: 3 });
    assert_eq!(ashmem::create_next(true, CreateEvent::NameSet { fd: 3, ret: -1 }), CreateAction::CloseAndFail { fd: 3 });
    assert_eq!(ashmem::create_next(true, CreateEvent::NameSet { fd: 3, ret: 0 }), CreateAction::SetSize { fd: 3 });
    assert_eq!(ashmem::create_next(true, CreateEvent::SizeSet { fd: 3, ret: 1 }), CreateAction::CloseAndFail { fd: 3 });
    assert_eq!(ashmem::create_next(true, CreateEvent::SizeSet { fd: 3, ret: 0 }), CreateAction::Done { fd: 3 });
}

#[test]
fn ashmem_results() {
    assert!(ashmem::created(0));
    assert!(!ashmem::created(-1));
    assert_eq!(ashmem::mapped_region(4, 0x1000, usize::MAX), Some(KernelRegion { address: 0x1000, fd: 4 }));
    assert_eq!(ashmem::mapped_region(4, usize::MAX, usize::MAX), None);
    assert_eq!(ashmem::mapped_region(-1, 0x1000, usize::MAX), None);
    assert!(ashmem::pin_reports_intact(0));
    assert!(!ashmem::pin_reports_intact(1));
}

#[test]
fn mach_results() {
    assert_eq!(mach::allocate_flags(), 3);
    assert_eq!(mach::volatile_state(), 1);
    assert_eq!(mach::allocated_region(0, 0x8000).map(|k| k.address), Some(0x8000));
    assert_eq!(mach::allocated_region(3, 0x8000), None);
    assert_eq!(mach::allocated_region(0, 0), None);
    assert!(mach::lock_reports_intact(0, 1));
    assert!(!mach::lock_reports_intact(0, 2));
    assert!(!mach::lock_reports_intact(4, 0));
    assert!(mach::state_reports_purged(0, 2));
    assert!(mach::state_reports_purged(1, 0));
    assert!(!mach::state_reports_purged(0, 1));
}

#[test]
fn windows_results() {
    assert_eq!(windows::allocated_region(0), None);
    assert_eq!(windows::allocated_region(0x1_0000).map(|k| k.address), Some(0x1_0000));
    assert!(windows::reset_undo_reports_intact(0x1_0000));
    assert!(!windows::reset_undo_reports_intact(0));
}

#[test]
fn availability() {
    assert!(is_available(Backend::Darwin, None));
    assert!(is_available(Backend::Windows, None));
    assert!(!is_available(Backend::Ashmem, None));
    assert!(is_available(Backend::Ashmem, Some(KernelRegion { address: 0x1000, fd: 3 })));
}

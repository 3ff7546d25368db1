//! One handle through its life, and the three strategies around it.

use zigalloc::{
    AllocCall, AllocError, DeallocCall, DebugAllocatorConfig, DestroyCall, FfiAllocator, Layout,
    NonNullAddr, WordWidth, ZigArenaSmpAllocator, ZigDebugAllocator, ZigSmpAllocator,
};

fn handle(addr: usize) -> NonNullAddr {
    NonNullAddr::new(addr).unwrap()
}

#[test]
fn handle_owner_keeps_what_it_was_given() {
    let allocator = FfiAllocator::new(handle(0x5000), WordWidth::Bits32);
    assert_eq!(allocator.allocator_ptr().addr(), 0x5000);
    assert_eq!(allocator.width(), WordWidth::Bits32);
}

#[test]
fn alloc_call_carries_handle_size_and_align() {
    let allocator = FfiAllocator::new(handle(0x5000), WordWidth::Bits64);
    let layout = Layout::from_size_align(40, 4).unwrap();
    assert_eq!(
        allocator.alloc_call(layout),
        Some(AllocCall { allocator: 0x5000, size: 40, align: 4 })
    );
}

#[test]
fn alloc_call_is_refused_where_the_engine_cannot_take_it() {
    let allocator = FfiAllocator::new(handle(0x5000), WordWidth::Bits32);
    let layout = Layout::from_size_align(0x1_0000_0000, 8).unwrap();
    assert_eq!(allocator.alloc_call(layout), None);
    // The null address of the raw convention is the failure of the checked one.
    assert_eq!(allocator.allocate(layout, 0), Err(AllocError));
    // Nothing that was not put to the engine can have been served by it.
    assert_eq!(allocator.allocate(layout, 0x9000), Err(AllocError));
}

#[test]
fn allocate_packages_address_and_requested_size() {
    let allocator = FfiAllocator::new(handle(0x5000), WordWidth::Bits64);
    let layout = Layout::from_size_align(40, 4).unwrap();
    let block = allocator.allocate(layout, 0x9000).unwrap();
    assert_eq!(block.ptr().addr(), 0x9000);
    assert_eq!(block.len(), 40);
}

#[test]
fn allocate_turns_null_into_the_error() {
    let allocator = FfiAllocator::new(handle(0x5000), WordWidth::Bits64);
    let layout = Layout::from_size_align(40, 4).unwrap();
    assert_eq!(allocator.allocate(layout, 0), Err(AllocError));
}

#[test]
fn zero_size_requests_go_to_the_engine() {
    let allocator = FfiAllocator::new(handle(0x5000), WordWidth::Bits64);
    let layout = Layout::from_size_align(0, 8).unwrap();
    assert_eq!(
        allocator.alloc_call(layout),
        Some(AllocCall { allocator: 0x5000, size: 0, align: 8 })
    );
    // What the engine answers decides, as for any other size.
    let block = allocator.allocate(layout, 0x9000).unwrap();
    assert_eq!(block.len(), 0);
    assert_eq!(block.ptr().addr(), 0x9000);
    assert_eq!(allocator.allocate(layout, 0), Err(AllocError));
    assert_eq!(
        allocator.dealloc(0x9000, layout),
        Some(DeallocCall { allocator: 0x5000, memory: 0x9000, size: 0, align: 8 })
    );
}

#[test]
fn dealloc_call_carries_the_layout_of_the_allocation() {
    let allocator = FfiAllocator::new(handle(0x5000), WordWidth::Bits64);
    let layout = Layout::from_size_align(96, 8).unwrap();
    let call = allocator.alloc_call(layout).unwrap();
    let release = allocator.dealloc(0x9000, layout).unwrap();
    assert_eq!(release, DeallocCall { allocator: 0x5000, memory: 0x9000, size: 96, align: 8 });
    assert_eq!((release.size, release.align), (call.size, call.align));
}

#[test]
fn dealloc_is_refused_where_the_engine_cannot_take_it() {
    let allocator = FfiAllocator::new(handle(0x5000), WordWidth::Bits32);
    let layout = Layout::from_size_align(0x1_0000_0000, 8).unwrap();
    assert_eq!(allocator.dealloc(0x9000, layout), None);
    assert_eq!(allocator.deallocate(handle(0x9000), layout), None);
}

#[test]
fn both_conventions_make_the_same_dealloc_call() {
    let allocator = FfiAllocator::new(handle(0x5000), WordWidth::Bits64);
    let layout = Layout::from_size_align(96, 8).unwrap();
    assert_eq!(allocator.deallocate(handle(0x9000), layout), allocator.dealloc(0x9000, layout));
}

#[test]
fn destroy_names_the_handle() {
    let allocator = FfiAllocator::new(handle(0x5000), WordWidth::Bits64);
    assert_eq!(allocator.destroy(), DestroyCall { allocator: 0x5000 });
}

#[test]
fn smp_allocator_goes_through_its_handle() {
    let allocator = ZigSmpAllocator::new(handle(0x6000), WordWidth::Bits64);
    let layout = Layout::from_size_align(128, 16).unwrap();
    assert_eq!(
        allocator.alloc_call(layout),
        Some(AllocCall { allocator: 0x6000, size: 128, align: 16 })
    );
    let block = allocator.allocate(layout, 0xa000).unwrap();
    assert_eq!((block.ptr().addr(), block.len()), (0xa000, 128));
    assert_eq!(allocator.allocate(layout, 0), Err(AllocError));
    let release = DeallocCall { allocator: 0x6000, memory: 0xa000, size: 128, align: 16 };
    assert_eq!(allocator.dealloc(0xa000, layout), Some(release));
    assert_eq!(allocator.deallocate(block.ptr(), layout), Some(release));
    assert_eq!(allocator.destroy(), DestroyCall { allocator: 0x6000 });
}

#[test]
fn arena_allocator_goes_through_its_handle() {
    let allocator = ZigArenaSmpAllocator::new(handle(0x6100), WordWidth::Bits32);
    let layout = Layout::from_size_align(128, 16).unwrap();
    assert_eq!(
        allocator.alloc_call(layout),
        Some(AllocCall { allocator: 0x6100, size: 128, align: 16 })
    );
    let block = allocator.allocate(layout, 0xa000).unwrap();
    assert_eq!((block.ptr().addr(), block.len()), (0xa000, 128));
    assert_eq!(allocator.allocate(layout, 0), Err(AllocError));
    let release = DeallocCall { allocator: 0x6100, memory: 0xa000, size: 128, align: 16 };
    assert_eq!(allocator.dealloc(0xa000, layout), Some(release));
    assert_eq!(allocator.deallocate(block.ptr(), layout), Some(release));
    let too_large = Layout::from_size_align(0x8000_0000, 1).unwrap();
    assert_eq!(allocator.alloc_call(too_large), None);
    assert_eq!(allocator.destroy(), DestroyCall { allocator: 0x6100 });
}

#[test]
fn debug_allocator_goes_through_its_handle() {
    let allocator = ZigDebugAllocator::new(handle(0x6200), WordWidth::Bits64);
    let layout = Layout::from_size_align(128, 16).unwrap();
    assert_eq!(
        allocator.alloc_call(layout),
        Some(AllocCall { allocator: 0x6200, size: 128, align: 16 })
    );
    let block = allocator.allocate(layout, 0xa000).unwrap();
    assert_eq!((block.ptr().addr(), block.len()), (0xa000, 128));
    assert_eq!(allocator.allocate(layout, 0), Err(AllocError));
    let release = DeallocCall { allocator: 0x6200, memory: 0xa000, size: 128, align: 16 };
    assert_eq!(allocator.dealloc(0xa000, layout), Some(release));
    assert_eq!(allocator.deallocate(block.ptr(), layout), Some(release));
    assert_eq!(allocator.destroy(), DestroyCall { allocator: 0x6200 });
}

#[test]
fn debug_allocator_remembers_its_configuration() {
    let by_default = ZigDebugAllocator::new(handle(0x6200), WordWidth::Bits64);
    assert_eq!(by_default.config(), DebugAllocatorConfig { panic_on_leaks: true });
    let warn = ZigDebugAllocator::with_panic_on_leaks(false, handle(0x6200), WordWidth::Bits64);
    assert_eq!(warn.config(), DebugAllocatorConfig { panic_on_leaks: false });
    let panic = ZigDebugAllocator::with_panic_on_leaks(true, handle(0x6200), WordWidth::Bits64);
    assert_eq!(panic.config(), DebugAllocatorConfig { panic_on_leaks: true });
    let given = ZigDebugAllocator::with_config(
        DebugAllocatorConfig { panic_on_leaks: false },
        handle(0x6200),
        WordWidth::Bits64,
    );
    assert_eq!(given.config(), DebugAllocatorConfig { panic_on_leaks: false });
}

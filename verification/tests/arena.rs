//! An arena that is destroyed with blocks still in it.

use zigalloc::{
    leak_policy, Exchange, Layout, LeakPolicy, LeakSignal, LeakTracker, NonNullAddr, WordWidth,
    ZigArenaSmpAllocator, ZigSmpAllocator,
};

#[test]
fn arena_releases_as_a_group() {
    let create = ZigArenaSmpAllocator::create();
    assert_eq!(leak_policy(&create), LeakPolicy::Untracked);
    let mut tracker = LeakTracker::new(leak_policy(&create));
    let arena = ZigArenaSmpAllocator::new(NonNullAddr::new(0x7100).unwrap(), WordWidth::Bits64);

    // A block with room for ten 32-bit numbers.
    let numbers = Layout::from_size_align(40, 4).unwrap();
    let call = arena.alloc_call(numbers).unwrap();
    tracker.observe(Exchange::Alloc { call, reply: 0x20_0000 });
    let first = arena.allocate(numbers, 0x20_0000).unwrap();
    assert_eq!(first.len(), 40);

    // A text buffer that starts with room for four items of three words and
    // grows once: the larger block is allocated, the smaller one given back.
    let small = Layout::from_size_align(96, 8).unwrap();
    let call = arena.alloc_call(small).unwrap();
    tracker.observe(Exchange::Alloc { call, reply: 0x20_1000 });
    let texts = arena.allocate(small, 0x20_1000).unwrap();
    let large = Layout::from_size_align(192, 8).unwrap();
    let call = arena.alloc_call(large).unwrap();
    tracker.observe(Exchange::Alloc { call, reply: 0x20_2000 });
    let grown = arena.allocate(large, 0x20_2000).unwrap();
    assert_eq!(grown.len(), 192);
    let release = arena.deallocate(texts.ptr(), small).unwrap();
    tracker.observe(Exchange::Dealloc { release });

    // Two blocks are still in the arena when it goes.
    assert_eq!(tracker.outstanding(), 2);
    assert_eq!(arena.destroy().allocator, 0x7100);
    assert_eq!(tracker.on_destroy(), LeakSignal::Silent);
}

#[test]
fn arena_with_everything_given_back_is_silent_too() {
    let mut tracker = LeakTracker::new(leak_policy(&ZigArenaSmpAllocator::create()));
    let arena = ZigArenaSmpAllocator::new(NonNullAddr::new(0x7100).unwrap(), WordWidth::Bits64);
    let layout = Layout::from_size_align(40, 4).unwrap();
    let call = arena.alloc_call(layout).unwrap();
    tracker.observe(Exchange::Alloc { call, reply: 0x20_0000 });
    let release = arena.dealloc(0x20_0000, layout).unwrap();
    tracker.observe(Exchange::Dealloc { release });
    assert_eq!(tracker.outstanding(), 0);
    assert_eq!(tracker.on_destroy(), LeakSignal::Silent);
}

#[test]
fn smp_allocator_keeps_no_account() {
    let create = ZigSmpAllocator::create();
    assert_eq!(leak_policy(&create), LeakPolicy::Untracked);
    let mut tracker = LeakTracker::new(leak_policy(&create));
    let allocator = ZigSmpAllocator::new(NonNullAddr::new(0x7200).unwrap(), WordWidth::Bits64);
    let layout = Layout::from_size_align(8, 8).unwrap();
    let call = allocator.alloc_call(layout).unwrap();
    tracker.observe(Exchange::Alloc { call, reply: 0x30_0000 });
    assert_eq!(tracker.on_destroy(), LeakSignal::Silent);
}

//! The fatal side of leak detection: a debug allocator that is destroyed
//! with a block outstanding, under the configuration that makes leaks fatal.

use zigalloc::{
    leak_policy, AllocCall, CreateCall, DebugAllocatorConfig, DestroyCall, Exchange, Layout,
    LeakPolicy, LeakSignal, LeakTracker, NonNullAddr, WordWidth, ZigDebugAllocator,
};

/// Stands in for the engine behind one handle: it hands out addresses in
/// turn and keeps the count that the leak protocol prescribes.
struct Engine {
    handle: usize,
    next: usize,
    tracker: LeakTracker,
}

impl Engine {
    fn create(call: &CreateCall) -> (Engine, NonNullAddr) {
        let handle = 0x7000;
        let engine = Engine { handle, next: 0x10_0000, tracker: LeakTracker::new(leak_policy(call)) };
        (engine, NonNullAddr::new(handle).unwrap())
    }

    fn serve(&mut self, call: Option<AllocCall>) -> usize {
        match call {
            Some(call) => {
                assert_eq!(call.allocator, self.handle);
                let reply = self.next;
                self.next += call.size as usize + call.align as usize;
                assert!(self.tracker.try_observe(Exchange::Alloc { call, reply }));
                reply
            }
            None => 0,
        }
    }

    fn destroy(self, call: DestroyCall) -> LeakSignal {
        assert_eq!(call.allocator, self.handle);
        self.tracker.on_destroy()
    }
}

#[test]
fn ensure_detects_leak_with_panic() {
    let create = ZigDebugAllocator::create(DebugAllocatorConfig { panic_on_leaks: true });
    assert_eq!(leak_policy(&create), LeakPolicy::Panic);
    let (mut engine, handle) = Engine::create(&create);
    let allocator = ZigDebugAllocator::with_panic_on_leaks(true, handle, WordWidth::Bits64);

    let layout = Layout::from_size_align(500, 1).unwrap();
    let raw = engine.serve(allocator.alloc_call(layout));
    assert!(allocator.allocate(layout, raw).is_ok());

    // The block is never given back: the destruction has to abort.
    let signal = engine.destroy(allocator.destroy());
    assert_eq!(signal, LeakSignal::Abort);
}

#[test]
fn default_configuration_makes_leaks_fatal() {
    let create = ZigDebugAllocator::create(DebugAllocatorConfig::default());
    assert_eq!(leak_policy(&create), LeakPolicy::Panic);
    let (mut engine, handle) = Engine::create(&create);
    let allocator = ZigDebugAllocator::new(handle, WordWidth::Bits64);

    let layout = Layout::from_size_align(500, 1).unwrap();
    let raw = engine.serve(allocator.alloc_call(layout));
    assert!(allocator.allocate(layout, raw).is_ok());

    assert_eq!(engine.destroy(allocator.destroy()), LeakSignal::Abort);
}

#[test]
fn refused_request_leaks_nothing() {
    let create = ZigDebugAllocator::create(DebugAllocatorConfig::default());
    let (mut engine, handle) = Engine::create(&create);
    let allocator = ZigDebugAllocator::new(handle, WordWidth::Bits32);

    // Too large for the engine: it is never asked, so it never counts.
    let layout = Layout::from_size_align(0x8000_0000, 1).unwrap();
    let raw = engine.serve(allocator.alloc_call(layout));
    assert_eq!(raw, 0);
    assert!(allocator.allocate(layout, raw).is_err());

    assert_eq!(engine.destroy(allocator.destroy()), LeakSignal::Silent);
}

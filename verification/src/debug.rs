//! The debug strategy: every block is tracked, and what is still allocated
//! at destruction is reported as a leak.

use crate::config::DebugAllocatorConfig;
use crate::codec::{representable, AllocError, Block, NonNullAddr, WordWidth};
use crate::engine::{AllocCall, CreateCall, DeallocCall, DestroyCall};
use crate::ffi::FfiAllocator;
use crate::layout::Layout;
use vstd::prelude::*;

verus! {

/// Zig Debug Allocator
#[derive(Debug)]
pub struct ZigDebugAllocator {
    /// Inner allocator
    ffi_allocator: FfiAllocator,
    /// What the engine was told at creation
    config: DebugAllocatorConfig,
}

impl ZigDebugAllocator {
    /// The handle owner that every call of this allocator goes through.
    pub closed spec fn inner(&self) -> FfiAllocator {
        self.ffi_allocator
    }

    /// The configuration that the engine was given at creation.
    pub closed spec fn spec_config(&self) -> DebugAllocatorConfig {
        self.config
    }

    /// The creation call of this strategy for `config`: it takes the record
    /// that `config` marshals to.
    pub fn create(config: DebugAllocatorConfig) -> (call: CreateCall)
        ensures
            call matches CreateCall::Debug { config: record } && record@ == config.record_spec(),
    {
        CreateCall::Debug { config: config.to_record() }
    }

    /// Create a new debug allocator with default settings (panics on leaks)
    /// around the handle that the creation call returned.
    pub fn new(allocator_ptr: NonNullAddr, width: WordWidth) -> (allocator: Self)
        ensures
            allocator.inner().allocator_ptr() == allocator_ptr,
            allocator.inner().width() == width,
            allocator.config() == (DebugAllocatorConfig { panic_on_leaks: true }),
    {
        Self::with_config(DebugAllocatorConfig::default(), allocator_ptr, width)
    }

    /// Create a new debug allocator with the given configuration around the
    /// handle that the creation call for `config` returned.
    pub fn with_config(
        config: DebugAllocatorConfig,
        allocator_ptr: NonNullAddr,
        width: WordWidth,
    ) -> (allocator: Self)
        ensures
            allocator.inner().allocator_ptr() == allocator_ptr,
            allocator.inner().width() == width,
            allocator.config() == config,
    {
        ZigDebugAllocator { ffi_allocator: FfiAllocator::new(allocator_ptr, width), config }
    }

    /// Create a new debug allocator with configurable panic behavior around
    /// the handle that the creation call for that configuration returned.
    pub fn with_panic_on_leaks(
        panic_on_leaks: bool,
        allocator_ptr: NonNullAddr,
        width: WordWidth,
    ) -> (allocator: Self)
        ensures
            allocator.inner().allocator_ptr() == allocator_ptr,
            allocator.inner().width() == width,
            allocator.config() == (DebugAllocatorConfig { panic_on_leaks }),
    {
        Self::with_config(DebugAllocatorConfig { panic_on_leaks }, allocator_ptr, width)
    }

    /// The configuration that the engine was given at creation.
    #[verifier::when_used_as_spec(spec_config)]
    pub fn config(&self) -> (config: DebugAllocatorConfig)
        ensures
            config == self.spec_config(),
    {
        self.config
    }

    /// Raw convention: the call that serves `layout`; none, and so the null
    /// address for the caller, where the request does not fit the engine.
    pub fn alloc_call(&self, layout: Layout) -> (call: Option<AllocCall>)
        ensures
            call == self.inner().alloc_spec(layout),
            call is Some <==> representable(layout, self.inner().width()),
    {
        self.ffi_allocator.alloc_call(layout)
    }

    /// Raw convention: the call that gives back the block at `ptr`, which
    /// was allocated with `layout`.
    pub fn dealloc(&self, ptr: usize, layout: Layout) -> (call: Option<DeallocCall>)
        ensures
            call == self.inner().dealloc_spec(ptr, layout),
            call is Some <==> representable(layout, self.inner().width()),
    {
        self.ffi_allocator.dealloc(ptr, layout)
    }

    /// Checked convention: what the address `raw`, which the raw convention
    /// came to for `layout`, amounts to.
    pub fn allocate(&self, layout: Layout, raw: usize) -> (r: Result<Block, AllocError>)
        ensures
            r is Ok <==> representable(layout, self.inner().width()) && raw != 0,
            r matches Ok(block) ==> block.ptr().addr() == raw && block.len() == layout.size(),
    {
        self.ffi_allocator.allocate(layout, raw)
    }

    /// Checked convention: the call that gives back the block at `ptr`,
    /// which was allocated with `layout`.
    pub fn deallocate(&self, ptr: NonNullAddr, layout: Layout) -> (call: Option<DeallocCall>)
        ensures
            call == self.inner().dealloc_spec(ptr.addr(), layout),
            call is Some <==> representable(layout, self.inner().width()),
    {
        self.ffi_allocator.deallocate(ptr, layout)
    }

    /// Releases the allocator: the destruction call for its handle. The
    /// engine answers it by the leak protocol: with blocks outstanding it
    /// aborts the process or reports the leak, as the configuration says.
    pub fn destroy(self) -> (call: DestroyCall)
        ensures
            call == (DestroyCall { allocator: self.inner().allocator_ptr().addr() }),
    {
        self.ffi_allocator.destroy()
    }
}

} // verus!

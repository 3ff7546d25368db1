//! The concurrent general-purpose strategy.

use crate::codec::{representable, AllocError, Block, NonNullAddr, WordWidth};
use crate::engine::{AllocCall, CreateCall, DeallocCall, DestroyCall};
use crate::ffi::FfiAllocator;
use crate::layout::Layout;
use vstd::prelude::*;

verus! {

/// Zig SMP Allocator
#[derive(Debug)]
pub struct ZigSmpAllocator {
    /// Inner allocator
    ffi_allocator: FfiAllocator,
}

impl ZigSmpAllocator {
    /// The handle owner that every call of this allocator goes through.
    pub closed spec fn inner(&self) -> FfiAllocator {
        self.ffi_allocator
    }

    /// The creation call of this strategy. It takes no configuration.
    pub fn create() -> (call: CreateCall)
        ensures
            call == CreateCall::Smp,
    {
        CreateCall::Smp
    }

    /// Create a new SMP allocator around the handle that the creation call
    /// returned.
    pub fn new(allocator_ptr: NonNullAddr, width: WordWidth) -> (allocator: Self)
        ensures
            allocator.inner().allocator_ptr() == allocator_ptr,
            allocator.inner().width() == width,
    {
        ZigSmpAllocator { ffi_allocator: FfiAllocator::new(allocator_ptr, width) }
    }

    /// Raw convention: the call that serves `layout`; none, and so the null
    /// address for the caller, where the request does not fit the engine.
    pub fn alloc_call(&self, layout: Layout) -> (call: Option<AllocCall>)
        ensures
            call == self.inner().alloc_spec(layout),
            call is Some <==> representable(layout, self.inner().width()),
    {
        self.ffi_allocator.alloc_call(layout)
    }

    /// Raw convention: the call that gives back the block at `ptr`, which
    /// was allocated with `layout`.
    pub fn dealloc(&self, ptr: usize, layout: Layout) -> (call: Option<DeallocCall>)
        ensures
            call == self.inner().dealloc_spec(ptr, layout),
            call is Some <==> representable(layout, self.inner().width()),
    {
        self.ffi_allocator.dealloc(ptr, layout)
    }

    /// Checked convention: what the address `raw`, which the raw convention
    /// came to for `layout`, amounts to.
    pub fn allocate(&self, layout: Layout, raw: usize) -> (r: Result<Block, AllocError>)
        ensures
            r is Ok <==> representable(layout, self.inner().width()) && raw != 0,
            r matches Ok(block) ==> block.ptr().addr() == raw && block.len() == layout.size(),
    {
        self.ffi_allocator.allocate(layout, raw)
    }

    /// Checked convention: the call that gives back the block at `ptr`,
    /// which was allocated with `layout`.
    pub fn deallocate(&self, ptr: NonNullAddr, layout: Layout) -> (call: Option<DeallocCall>)
        ensures
            call == self.inner().dealloc_spec(ptr.addr(), layout),
            call is Some <==> representable(layout, self.inner().width()),
    {
        self.ffi_allocator.deallocate(ptr, layout)
    }

    /// Releases the allocator: the destruction call for its handle.
    pub fn destroy(self) -> (call: DestroyCall)
        ensures
            call == (DestroyCall { allocator: self.inner().allocator_ptr().addr() }),
    {
        self.ffi_allocator.destroy()
    }
}

} // verus!

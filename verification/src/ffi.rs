//! The life of one engine handle: made once, used through shared borrows,
//! destroyed once.

use crate::codec::{encode, encode_spec, representable, AllocError, Block, NonNullAddr, WordWidth};
use crate::engine::{AllocCall, DeallocCall, DestroyCall};
use crate::layout::Layout;
use vstd::prelude::*;

verus! {

/// The owner of one engine handle.
///
/// The value cannot be copied or cloned, and `destroy` consumes it: the
/// destruction call of a handle can be asked for once, and after it no call
/// on that handle can be asked for at all.
#[derive(Debug)]
pub struct FfiAllocator {
    allocator_ptr: NonNullAddr,
    width: WordWidth,
}

impl FfiAllocator {
    /// The handle that the engine gave out at creation.
    pub closed spec fn spec_allocator_ptr(&self) -> NonNullAddr {
        self.allocator_ptr
    }

    /// The width of the integers that the engine takes.
    pub closed spec fn spec_width(&self) -> WordWidth {
        self.width
    }

    /// The call that serves a request for `layout`, where there is one.
    pub open spec fn alloc_spec(&self, layout: Layout) -> Option<AllocCall> {
        match encode_spec(layout, self.width()) {
            Some(e) => Some(
                AllocCall { allocator: self.allocator_ptr().addr(), size: e.size, align: e.align },
            ),
            None => None,
        }
    }

    /// The call that gives back the block at `ptr`, where there is one.
    pub open spec fn dealloc_spec(&self, ptr: usize, layout: Layout) -> Option<DeallocCall> {
        match encode_spec(layout, self.width()) {
            Some(e) => Some(
                DeallocCall {
                    allocator: self.allocator_ptr().addr(),
                    memory: ptr,
                    size: e.size,
                    align: e.align,
                },
            ),
            None => None,
        }
    }

    /// Takes ownership of the handle `allocator_ptr`, which a creation call
    /// has just returned, of an engine whose integers are `width` wide.
    pub fn new(allocator_ptr: NonNullAddr, width: WordWidth) -> (allocator: Self)
        ensures
            allocator.allocator_ptr() == allocator_ptr,
            allocator.width() == width,
    {
        FfiAllocator { allocator_ptr, width }
    }

    /// The handle that the engine gave out at creation.
    #[verifier::when_used_as_spec(spec_allocator_ptr)]
    pub fn allocator_ptr(&self) -> (ptr: NonNullAddr)
        ensures
            ptr == self.spec_allocator_ptr(),
    {
        self.allocator_ptr
    }

    /// The width of the integers that the engine takes.
    #[verifier::when_used_as_spec(spec_width)]
    pub fn width(&self) -> (width: WordWidth)
        ensures
            width == self.spec_width(),
    {
        self.width
    }

    /// Allocate some memory: the call to make for `layout`.
    ///
    /// Size and alignment cross the boundary exactly as asked. A request that
    /// does not fit the engine's integers is refused here: there is no call,
    /// and the caller gets the null address. A request for zero bytes is no
    /// special case: it is put to the engine like any other, and the engine's
    /// answer decides.
    pub fn alloc_call(&self, layout: Layout) -> (call: Option<AllocCall>)
        ensures
            call == self.alloc_spec(layout),
            call is Some <==> representable(layout, self.width()),
    {
        match encode(layout, self.width) {
            Some(e) => Some(
                AllocCall { allocator: self.allocator_ptr.addr(), size: e.size, align: e.align },
            ),
            None => None,
        }
    }

    /// Allocate some memory, checked: what the address `raw` amounts to,
    /// where `raw` is what the call of `alloc_call` came to for the same `layout`.
    ///
    /// The request succeeds exactly when it was put to the engine and the
    /// engine answered with an address other than null. The block then starts
    /// at that address and spans the size that was asked for.
    pub fn allocate(&self, layout: Layout, raw: usize) -> (r: Result<Block, AllocError>)
        ensures
            r is Ok <==> representable(layout, self.width()) && raw != 0,
            r matches Ok(block) ==> block.ptr().addr() == raw && block.len() == layout.size(),
    {
        match encode(layout, self.width) {
            Some(_) => Block::from_reply(raw, layout),
            None => Err(AllocError),
        }
    }

    /// Dealloc some memory from the allocator: the call to make for the
    /// block at `ptr`.
    ///
    /// `layout` has to be the one the block was allocated with; it is handed
    /// on as it is and not checked against anything. A layout that does not
    /// fit the engine's integers never allocated a block, and gives no call.
    pub fn dealloc(&self, ptr: usize, layout: Layout) -> (call: Option<DeallocCall>)
        ensures
            call == self.dealloc_spec(ptr, layout),
            call is Some <==> representable(layout, self.width()),
    {
        match encode(layout, self.width) {
            Some(e) => Some(
                DeallocCall {
                    allocator: self.allocator_ptr.addr(),
                    memory: ptr,
                    size: e.size,
                    align: e.align,
                },
            ),
            None => None,
        }
    }

    /// Dealloc some memory from the allocator, checked: the same call as
    /// `dealloc` makes for the address of `ptr`.
    pub fn deallocate(&self, ptr: NonNullAddr, layout: Layout) -> (call: Option<DeallocCall>)
        ensures
            call == self.dealloc_spec(ptr.addr(), layout),
            call is Some <==> representable(layout, self.width()),
    {
        self.dealloc(ptr.addr(), layout)
    }

    /// Gives up the handle: the destruction call to make for it.
    pub fn destroy(self) -> (call: DestroyCall)
        ensures
            call == (DestroyCall { allocator: self.allocator_ptr().addr() }),
    {
        DestroyCall { allocator: self.allocator_ptr.addr() }
    }
}

} // verus!

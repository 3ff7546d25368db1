//! The arena strategy as the allocator of the whole process.

use crate::arena_smp::ZigArenaSmpAllocator;
use crate::codec::{NonNullAddr, WordWidth};
use crate::engine::{AllocCall, CreateCall, DeallocCall, DestroyCall};
use crate::global::{after_install, GlobalStep};
use crate::layout::Layout;
use vstd::prelude::*;

verus! {

/// A global allocator wrapper around ZigArenaSmpAllocator
///
/// The slot of the one arena that serves the whole process. It starts
/// empty, is filled on first use, and is never emptied: there is no
/// operation that destroys the instance, so what the arena holds is held
/// until the process ends. An arena is meant for a narrower scope; this one
/// is for trying the strategy on a whole program.
#[derive(Debug)]
pub struct ZigGlobalArenaSmpAllocator {
    instance: Option<ZigArenaSmpAllocator>,
}

impl ZigGlobalArenaSmpAllocator {
    /// The instance, once it exists.
    pub closed spec fn instance(&self) -> Option<ZigArenaSmpAllocator> {
        self.instance
    }

    /// The handle of the instance, once it exists.
    pub open spec fn handle(&self) -> Option<NonNullAddr> {
        match self.instance() {
            Some(allocator) => Some(allocator.inner().allocator_ptr()),
            None => None,
        }
    }

    /// The slot before first use.
    pub fn new() -> (global: Self)
        ensures
            global.instance() is None,
    {
        ZigGlobalArenaSmpAllocator { instance: None }
    }

    /// Whether the instance exists.
    pub fn is_initialized(&self) -> (yes: bool)
        ensures
            yes == self.instance() is Some,
    {
        self.instance.is_some()
    }

    /// Installs the instance around the handle that the creation call
    /// returned. Only the first installation takes effect. A later one
    /// leaves the instance as it is, and gets the destruction call for the
    /// handle that it brought, which nothing will ever use.
    pub fn install(&mut self, allocator_ptr: NonNullAddr, width: WordWidth) -> (surplus: Option<
        DestroyCall,
    >)
        ensures
            final(self).handle() == after_install(old(self).handle(), allocator_ptr),
            old(self).instance() is Some ==> {
                &&& final(self).instance() == old(self).instance()
                &&& surplus == Some(DestroyCall { allocator: allocator_ptr.addr() })
            },
            old(self).instance() is None ==> {
                &&& surplus is None
                &&& final(self).instance() matches Some(installed)
                &&& installed.inner().width() == width
            },
    {
        if self.instance.is_some() {
            Some(DestroyCall { allocator: allocator_ptr.addr() })
        } else {
            self.instance = Some(ZigArenaSmpAllocator::new(allocator_ptr, width));
            None
        }
    }

    /// The instance if it exists, and else the call that creates it.
    pub fn get_or_init_alloc(&self) -> (r: Result<&ZigArenaSmpAllocator, CreateCall>)
        ensures
            match r {
                Ok(allocator) => self.instance() == Some(*allocator),
                Err(call) => self.instance() is None && call == CreateCall::ArenaSmp,
            },
    {
        match &self.instance {
            Some(allocator) => Ok(allocator),
            None => Err(ZigArenaSmpAllocator::create()),
        }
    }

    /// A request for `layout` on the process-wide allocator: the instance is
    /// made first if it is not there, and serves the request if it is.
    pub fn alloc_call(&self, layout: Layout) -> (step: GlobalStep<AllocCall>)
        ensures
            step == match self.instance() {
                Some(allocator) => GlobalStep::Forward(allocator.inner().alloc_spec(layout)),
                None => GlobalStep::Initialize(CreateCall::ArenaSmp),
            },
    {
        match self.get_or_init_alloc() {
            Ok(allocator) => GlobalStep::Forward(allocator.alloc_call(layout)),
            Err(call) => GlobalStep::Initialize(call),
        }
    }

    /// The block at `ptr`, allocated with `layout`, goes back to the
    /// process-wide allocator.
    pub fn dealloc(&self, ptr: usize, layout: Layout) -> (step: GlobalStep<DeallocCall>)
        ensures
            step == match self.instance() {
                Some(allocator) => GlobalStep::Forward(allocator.inner().dealloc_spec(ptr, layout)),
                None => GlobalStep::Initialize(CreateCall::ArenaSmp),
            },
    {
        match self.get_or_init_alloc() {
            Ok(allocator) => GlobalStep::Forward(allocator.dealloc(ptr, layout)),
            Err(call) => GlobalStep::Initialize(call),
        }
    }
}

} // verus!

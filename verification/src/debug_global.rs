//! The debug strategy as the allocator of the whole process.

use crate::codec::{NonNullAddr, WordWidth};
use crate::config::DebugAllocatorConfig;
use crate::debug::ZigDebugAllocator;
use crate::engine::{AllocCall, CreateCall, DeallocCall, DestroyCall};
use crate::global::{after_install, GlobalStep};
use crate::layout::Layout;
use vstd::prelude::*;

verus! {

/// A global allocator wrapper around ZigDebugAllocator
///
/// The slot of the one debug allocator that serves the whole process, with
/// the default configuration. It starts empty, is filled on first use, and
/// is never emptied: there is no operation that destroys the instance, so
/// the leak protocol never runs for it.
#[derive(Debug)]
pub struct ZigGlobalDebugAllocator {
    instance: Option<ZigDebugAllocator>,
}

impl ZigGlobalDebugAllocator {
    /// The instance, once it exists.
    pub closed spec fn instance(&self) -> Option<ZigDebugAllocator> {
        self.instance
    }

    /// The handle of the instance, once it exists.
    pub open spec fn handle(&self) -> Option<NonNullAddr> {
        match self.instance() {
            Some(allocator) => Some(allocator.inner().allocator_ptr()),
            None => None,
        }
    }

    /// The slot before first use.
    pub fn new() -> (global: Self)
        ensures
            global.instance() is None,
    {
        ZigGlobalDebugAllocator { instance: None }
    }

    /// Whether the instance exists.
    pub fn is_initialized(&self) -> (yes: bool)
        ensures
            yes == self.instance() is Some,
    {
        self.instance.is_some()
    }

    /// Installs the instance around the handle that the creation call
    /// returned. Only the first installation takes effect. A later one
    /// leaves the instance as it is, and gets the destruction call for the
    /// handle that it brought, which nothing will ever use.
    pub fn install(&mut self, allocator_ptr: NonNullAddr, width: WordWidth) -> (surplus: Option<
        DestroyCall,
    >)
        ensures
            final(self).handle() == after_install(old(self).handle(), allocator_ptr),
            old(self).instance() is Some ==> {
                &&& final(self).instance() == old(self).instance()
                &&& surplus == Some(DestroyCall { allocator: allocator_ptr.addr() })
            },
            old(self).instance() is None ==> {
                &&& surplus is None
                &&& final(self).instance() matches Some(installed)
                &&& installed.inner().width() == width
                &&& installed.config() == (DebugAllocatorConfig { panic_on_leaks: true })
            },
    {
        if self.instance.is_some() {
            Some(DestroyCall { allocator: allocator_ptr.addr() })
        } else {
            self.instance = Some(ZigDebugAllocator::new(allocator_ptr, width));
            None
        }
    }

    /// The creation call of the instance: the debug strategy with the
    /// default configuration, under which leaks are fatal.
    pub open spec fn is_creation(call: CreateCall) -> bool {
        call matches CreateCall::Debug { config } && config@ == (DebugAllocatorConfig {
            panic_on_leaks: true,
        }).record_spec()
    }

    /// The instance if it exists, and else the call that creates it.
    pub fn get_or_init_alloc(&self) -> (r: Result<&ZigDebugAllocator, CreateCall>)
        ensures
            match r {
                Ok(allocator) => self.instance() == Some(*allocator),
                Err(call) => self.instance() is None && Self::is_creation(call),
            },
    {
        match &self.instance {
            Some(allocator) => Ok(allocator),
            None => Err(ZigDebugAllocator::create(DebugAllocatorConfig::default())),
        }
    }

    /// A request for `layout` on the process-wide allocator: the instance is
    /// made first if it is not there, and serves the request if it is.
    pub fn alloc_call(&self, layout: Layout) -> (step: GlobalStep<AllocCall>)
        ensures
            match self.instance() {
                Some(allocator) => step == GlobalStep::Forward(
                    allocator.inner().alloc_spec(layout),
                ),
                None => step matches GlobalStep::Initialize(call) && Self::is_creation(call),
            },
    {
        match self.get_or_init_alloc() {
            Ok(allocator) => GlobalStep::Forward(allocator.alloc_call(layout)),
            Err(call) => GlobalStep::Initialize(call),
        }
    }

    /// The block at `ptr`, allocated with `layout`, goes back to the
    /// process-wide allocator.
    pub fn dealloc(&self, ptr: usize, layout: Layout) -> (step: GlobalStep<DeallocCall>)
        ensures
            match self.instance() {
                Some(allocator) => step == GlobalStep::Forward(
                    allocator.inner().dealloc_spec(ptr, layout),
                ),
                None => step matches GlobalStep::Initialize(call) && Self::is_creation(call),
            },
    {
        match self.get_or_init_alloc() {
            Ok(allocator) => GlobalStep::Forward(allocator.dealloc(ptr, layout)),
            Err(call) => GlobalStep::Initialize(call),
        }
    }
}

} // verus!

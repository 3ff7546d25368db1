//! The calls that cross the boundary to the engine, as values.
//!
//! The engine offers four primitives: it creates an allocator of one
//! strategy and hands out its handle, it allocates and deallocates through a
//! handle, and it destroys the handle. The bridge decides which call is made
//! and with which arguments, and says so in one of these values. Whoever
//! holds the value makes the call, argument for argument.

use crate::config::ConfigRecord;
use vstd::prelude::*;

verus! {

/// The creation primitive of one strategy, with what it takes.
#[derive(Clone, Copy, Debug, PartialEq, Eq, Structural)]
pub enum CreateCall {
    /// The concurrent general-purpose strategy. Takes nothing.
    Smp,
    /// The arena strategy on top of the concurrent one: whatever is still
    /// allocated is released as a group at destruction. Takes nothing.
    ArenaSmp,
    /// The debug strategy, which tracks every block. Takes the address of
    /// the configuration record.
    Debug { config: ConfigRecord },
}

/// The allocation primitive: `size` bytes aligned to `align`, from the
/// allocator behind `allocator`. The engine answers with an address, null
/// where it cannot serve.
#[derive(Clone, Copy, Debug, PartialEq, Eq, Structural)]
pub struct AllocCall {
    pub allocator: usize,
    pub size: i64,
    pub align: i64,
}

/// The deallocation primitive: the block at `memory`, which was allocated
/// with exactly `size` and `align`, goes back to the allocator behind
/// `allocator`.
#[derive(Clone, Copy, Debug, PartialEq, Eq, Structural)]
pub struct DeallocCall {
    pub allocator: usize,
    pub memory: usize,
    pub size: i64,
    pub align: i64,
}

/// The destruction primitive: the allocator behind `allocator` is torn down,
/// and the handle is dead.
#[derive(Clone, Copy, Debug, PartialEq, Eq, Structural)]
pub struct DestroyCall {
    pub allocator: usize,
}

} // verus!

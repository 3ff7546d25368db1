//! The decision core of a bridge between Rust code and an allocator engine
//! that lives behind a C boundary.
//!
//! Nothing in this crate touches memory. Every request is answered with a
//! description of the boundary call that serves it, and every reply of the
//! engine is classified by a function of plain values. The shell around the
//! crate performs the calls; what it is told to send, and what it is told to
//! make of the answer, is proved here.
//!
//! - `layout`, `codec`, `config`: requests, their engine form, replies, and
//!   the configuration record.
//! - `engine`: the four boundary calls as values.
//! - `ffi`: the owner of one engine handle.
//! - `smp`, `arena_smp`, `debug`: the three strategies.
//! - `smp_global`, `arena_smp_global`, `debug_global`, `global`: each
//!   strategy as the allocator of the whole process.
//! - `leak`, `round_trip`: the leak detection protocol and what follows from
//!   it.

pub mod arena_smp;
pub mod arena_smp_global;
pub mod codec;
pub mod config;
pub mod debug;
pub mod debug_global;
pub mod engine;
pub mod ffi;
pub mod global;
pub mod layout;
pub mod leak;
pub mod round_trip;
pub mod smp;
pub mod smp_global;

pub use arena_smp::ZigArenaSmpAllocator;
pub use arena_smp_global::ZigGlobalArenaSmpAllocator;
pub use codec::{encode, AllocError, Block, EngineLayout, NonNullAddr, WordWidth};
pub use config::{ConfigRecord, DebugAllocatorConfig, CONFIG_RECORD_ALIGN, CONFIG_RECORD_SIZE};
pub use debug::ZigDebugAllocator;
pub use debug_global::ZigGlobalDebugAllocator;
pub use engine::{AllocCall, CreateCall, DeallocCall, DestroyCall};
pub use ffi::FfiAllocator;
pub use global::GlobalStep;
pub use layout::Layout;
pub use leak::{leak_policy, Exchange, LeakPolicy, LeakSignal, LeakTracker};
pub use smp::ZigSmpAllocator;
pub use smp_global::ZigGlobalSmpAllocator;

//! The layout codec: what a request looks like in the engine's integers, and
//! what the address that comes back means.

use crate::layout::Layout;
use vstd::arithmetic::power2::is_pow2;
use vstd::prelude::*;

verus! {

/// The width of the signed integer in which the engine takes sizes and
/// alignments.
#[derive(Clone, Copy, Debug, PartialEq, Eq, Structural)]
pub enum WordWidth {
    Bits32,
    Bits64,
}

impl WordWidth {
    /// The largest value that an engine integer of this width holds.
    pub open spec fn spec_max_word(&self) -> i64 {
        match self {
            WordWidth::Bits32 => 0x7fff_ffffi64,
            WordWidth::Bits64 => 0x7fff_ffff_ffff_ffffi64,
        }
    }

    /// The largest value that an engine integer of this width holds.
    #[verifier::when_used_as_spec(spec_max_word)]
    pub fn max_word(&self) -> (m: i64)
        ensures
            m == self.spec_max_word(),
    {
        match self {
            WordWidth::Bits32 => 0x7fff_ffffi64,
            WordWidth::Bits64 => 0x7fff_ffff_ffff_ffffi64,
        }
    }
}

/// A request as the engine takes it: size and alignment as engine integers.
#[derive(Clone, Copy, Debug, PartialEq, Eq, Structural)]
pub struct EngineLayout {
    pub size: i64,
    pub align: i64,
}

/// Whether both numbers of `layout` fit an engine integer of `width` as they
/// are.
pub open spec fn representable(layout: Layout, width: WordWidth) -> bool {
    layout.size() <= width.max_word() && layout.align() <= width.max_word()
}

/// The engine's form of `layout`, where it has one.
pub open spec fn encode_spec(layout: Layout, width: WordWidth) -> Option<EngineLayout> {
    if representable(layout, width) {
        Some(EngineLayout { size: layout.size() as i64, align: layout.align() as i64 })
    } else {
        None
    }
}

/// Puts `layout` into engine integers of `width`.
///
/// A request is never narrowed: where the size or the alignment exceeds the
/// width, it has no engine form, and it fails at once without reaching the
/// engine.
pub fn encode(layout: Layout, width: WordWidth) -> (r: Option<EngineLayout>)
    ensures
        r == encode_spec(layout, width),
        r matches Some(e) ==> {
            &&& e.size as int == layout.size() as int
            &&& e.align as int == layout.align() as int
            &&& 0 <= e.size <= width.max_word()
            &&& 0 < e.align <= width.max_word()
            &&& is_pow2(e.align as int)
        },
{
    let max: u64 = width.max_word() as u64;
    let size: usize = layout.size();
    let align: usize = layout.align();
    proof {
        // A power of two is positive.
        reveal(is_pow2);
    }
    if size as u64 <= max && align as u64 <= max {
        Some(EngineLayout { size: size as i64, align: align as i64 })
    } else {
        None
    }
}

/// Nothing is lost on the way to the engine: layouts that cross the boundary
/// as the same two integers ask for the same size and the same alignment.
pub proof fn lemma_encode_is_lossless(a: Layout, b: Layout, width: WordWidth)
    requires
        encode_spec(a, width) is Some,
        encode_spec(a, width) == encode_spec(b, width),
    ensures
        a.size() == b.size(),
        a.align() == b.align(),
{
}

/// An address that is not null.
#[derive(Clone, Copy, Debug, PartialEq, Eq, Structural)]
pub struct NonNullAddr {
    addr: usize,
}

impl NonNullAddr {
    #[verifier::type_invariant]
    spec fn well_formed(self) -> bool {
        self.addr != 0
    }

    /// The address as a number.
    pub closed spec fn spec_addr(&self) -> usize {
        self.addr
    }

    /// Classifies an address that came back over the boundary: null is a
    /// failure and gives `None`, anything else is handed on unchanged.
    pub fn new(raw: usize) -> (r: Option<NonNullAddr>)
        ensures
            r is Some <==> raw != 0,
            r matches Some(a) ==> a.addr() == raw,
    {
        if raw == 0 {
            None
        } else {
            Some(NonNullAddr { addr: raw })
        }
    }

    /// The address as a number, never zero.
    #[verifier::when_used_as_spec(spec_addr)]
    pub fn addr(&self) -> (a: usize)
        ensures
            a == self.spec_addr(),
            a != 0,
    {
        proof {
            use_type_invariant(self);
        }
        self.addr
    }
}

/// The engine could not serve a request, or the request could not be put to
/// it.
#[derive(Clone, Copy, Debug, PartialEq, Eq, Structural)]
pub struct AllocError;

/// A served request: where the memory starts and how many bytes were asked
/// for.
#[derive(Clone, Copy, Debug, PartialEq, Eq, Structural)]
pub struct Block {
    ptr: NonNullAddr,
    len: usize,
}

impl Block {
    /// Where the block starts.
    pub closed spec fn spec_ptr(&self) -> NonNullAddr {
        self.ptr
    }

    /// The usable span in bytes.
    pub closed spec fn spec_len(&self) -> usize {
        self.len
    }

    /// Packages the engine's reply to a request for `layout`: a null address
    /// is the failure, any other address starts a block of exactly the size
    /// that was asked for.
    pub fn from_reply(raw: usize, layout: Layout) -> (r: Result<Block, AllocError>)
        ensures
            r is Ok <==> raw != 0,
            r matches Ok(block) ==> block.ptr().addr() == raw && block.len() == layout.size(),
    {
        match NonNullAddr::new(raw) {
            Some(ptr) => Ok(Block { ptr, len: layout.size() }),
            None => Err(AllocError),
        }
    }

    /// Where the block starts.
    #[verifier::when_used_as_spec(spec_ptr)]
    pub fn ptr(&self) -> (p: NonNullAddr)
        ensures
            p == self.spec_ptr(),
    {
        self.ptr
    }

    /// The usable span in bytes: the size that was asked for.
    #[verifier::when_used_as_spec(spec_len)]
    pub fn len(&self) -> (n: usize)
        ensures
            n == self.spec_len(),
    {
        self.len
    }
}

} // verus!

//! Memory requests: a size and a power-of-two alignment.

use vstd::arithmetic::power2::is_pow2;
use vstd::prelude::*;

verus! {

/// A memory request: a size in bytes and the alignment of its first byte.
///
/// The alignment of every `Layout` is a power of two. The size is free, zero
/// included.
#[derive(Clone, Copy, Debug, PartialEq, Eq, Structural)]
pub struct Layout {
    size: usize,
    align: usize,
}

/// A positive number has a single bit set exactly when it is a power of two.
proof fn lemma_single_bit_is_pow2(n: u64)
    ensures
        is_pow2(n as int) <==> (n != 0 && n & ((n - 1) as u64) == 0),
    decreases n,
{
    reveal(is_pow2);
    if n == 0 {
    } else if n == 1 {
        assert(1u64 & 0u64 == 0) by (bit_vector);
    } else if n % 2 == 0 {
        let half: u64 = n / 2;
        lemma_single_bit_is_pow2(half);
        assert((n & ((n - 1) as u64) == 0) <==> (half & ((half - 1) as u64) == 0))
            by (bit_vector)
            requires
                n % 2 == 0,
                n >= 2,
                half == n / 2,
        ;
    } else {
        assert(n & ((n - 1) as u64) != 0) by (bit_vector)
            requires
                n % 2 == 1,
                n > 1,
        ;
    }
}

impl Layout {
    #[verifier::type_invariant]
    spec fn well_formed(self) -> bool {
        is_pow2(self.align as int)
    }

    /// The requested size in bytes.
    pub closed spec fn spec_size(&self) -> usize {
        self.size
    }

    /// The requested alignment in bytes.
    pub closed spec fn spec_align(&self) -> usize {
        self.align
    }

    /// Builds the request for `size` bytes aligned to `align`, which must be
    /// a power of two. Any other alignment, zero included, gives `None`.
    pub fn from_size_align(size: usize, align: usize) -> (r: Option<Layout>)
        ensures
            r is Some <==> is_pow2(align as int),
            r matches Some(l) ==> l.size() == size && l.align() == align,
    {
        let a: u64 = align as u64;
        proof {
            lemma_single_bit_is_pow2(a);
        }
        if a != 0 && a & (a - 1) == 0 {
            Some(Layout { size, align })
        } else {
            None
        }
    }

    /// The requested size in bytes.
    #[verifier::when_used_as_spec(spec_size)]
    pub fn size(&self) -> (s: usize)
        ensures
            s == self.spec_size(),
    {
        self.size
    }

    /// The requested alignment in bytes, a power of two.
    #[verifier::when_used_as_spec(spec_align)]
    pub fn align(&self) -> (a: usize)
        ensures
            a == self.spec_align(),
            is_pow2(a as int),
    {
        proof {
            use_type_invariant(self);
        }
        self.align
    }
}

} // verus!

//! The size and alignment of a block of memory.

use vstd::prelude::*;

verus! {

/// Whether `n` is a power of two: exactly one of its bits is set.
pub open spec fn is_power_of_two(n: usize) -> bool {
    n != 0 && n & ((n - 1) as usize) == 0
}

/// Every power of two above eight is a multiple of sixteen, and with it of eight.
pub proof fn lemma_power_of_two_above_eight(n: usize)
    requires
        is_power_of_two(n),
        n > 8,
    ensures
        n % 16 == 0,
        n % 8 == 0,
        n >= 16,
{
    assert(n % 16 == 0 && n % 8 == 0 && n >= 16) by (bit_vector)
        requires
            n != 0 && n & ((n - 1) as usize) == 0,
            n > 8,
    ;
}

/// The powers of two up to eight are one, two, four and eight.
pub proof fn lemma_power_of_two_up_to_eight(n: usize)
    requires
        is_power_of_two(n),
        n <= 8,
    ensures
        n == 1 || n == 2 || n == 4 || n == 8,
{
    assert(n == 1 || n == 2 || n == 4 || n == 8) by (bit_vector)
        requires
            n != 0 && n & ((n - 1) as usize) == 0,
            n <= 8,
    ;
}

/// Tells whether `n` is a power of two.
pub fn power_of_two(n: usize) -> (yes: bool)
    ensures
        yes == is_power_of_two(n),
{
    n != 0 && n & (n - 1) == 0
}

/// A request for memory: how many bytes, and to what boundary their address
/// is aligned. The alignment of a `Layout` is always a power of two.
#[derive(Clone, Copy, Debug, PartialEq, Eq)]
pub struct Layout {
    size: usize,
    align: usize,
}

impl Layout {
    #[verifier::type_invariant]
    spec fn well_formed(self) -> bool {
        is_power_of_two(self.align)
    }

    /// The number of bytes asked for.
    pub closed spec fn spec_size(&self) -> usize {
        self.size
    }

    /// The alignment asked for.
    pub closed spec fn spec_align(&self) -> usize {
        self.align
    }

    /// Builds a layout, or nothing when `align` is not a power of two.
    pub fn from_size_align(size: usize, align: usize) -> (layout: Option<Layout>)
        ensures
            layout is Some <==> is_power_of_two(align),
            layout matches Some(l) ==> l.spec_size() == size && l.spec_align() == align,
    {
        if power_of_two(align) {
            Some(Layout { size, align })
        } else {
            None
        }
    }

    /// The number of bytes asked for.
    #[verifier::when_used_as_spec(spec_size)]
    pub fn size(&self) -> (size: usize)
        ensures
            size == self.spec_size(),
    {
        self.size
    }

    /// The alignment asked for, a power of two.
    #[verifier::when_used_as_spec(spec_align)]
    pub fn align(&self) -> (align: usize)
        ensures
            align == self.spec_align(),
            is_power_of_two(align),
    {
        proof {
            use_type_invariant(self);
        }
        self.align
    }

    /// An address that stands for a block of no bytes: it is not null and it
    /// is aligned as the layout asks, but nothing may be read or written there.
    pub fn dangling(&self) -> (address: usize)
        ensures
            address == self.spec_align(),
            address != 0,
            address % self.spec_align() == 0,
    {
        proof {
            use_type_invariant(self);
        }
        self.align
    }
}

} // verus!

//! Typed addresses and typed pointers for a 64-bit freestanding environment.
//!
//! Every value of [`Address`], [`Ptr`], [`NonNullPtr`] and [`AlignedPtr`] carries,
//! in its type, the guarantee that its address is valid for its use: canonical for
//! its address space and aligned for its unit.
use vstd::prelude::*;

pub mod addr;
pub mod ptr;

pub use addr::{
    AddressKind, PtrableAddressKind, IndexableAddressKind, DefaultableAddressKind, Physical,
    Frame, Virtual, Page, Address,
};
pub use ptr::{Ptr, NonNullPtr, AlignedPtr, PtrError};

verus! {

/// Access marker: the memory may only be read.
pub struct ReadOnly;

/// Access marker: the memory may only be written.
pub struct WriteOnly;

/// Access marker: the memory may be read and written.
pub struct ReadWrite;

pub const PAGE_SHIFT: u32 = 12;

pub const PAGE_SIZE: u64 = 4096;

pub const PAGE_MASK: u64 = 4095;

pub const TABLE_INDEX_SHIFT: u32 = 9;

pub const TABLE_INDEX_SIZE: usize = 512;

pub const TABLE_INDEX_MASK: usize = 511;

/// The bits that must be clear in a physical address.
pub const PHYS_NON_CANONICAL_MASK: u64 = 0xFFF0_0000_0000_0000;

pub const KIBIBYTE: u64 = 0x400;

pub const MIBIBYTE: u64 = 0x10_0000;

pub const GIBIBYTE: u64 = 0x4000_0000;

/// The number of whole kibibytes in `value` bytes.
pub fn to_kibibytes(value: u64) -> (r: u64)
    ensures
        r == value / 1024,
{
    value / KIBIBYTE
}

/// The number of whole mebibytes in `value` bytes.
pub fn to_mibibytes(value: u64) -> (r: u64)
    ensures
        r == value / 0x10_0000u64,
{
    value / MIBIBYTE
}

/// The least multiple of `alignment` that is not below `value`.
pub open spec fn aligned_up(value: nat, alignment: nat) -> nat {
    if value % alignment == 0 {
        value
    } else {
        (value - value % alignment + alignment) as nat
    }
}

/// Rounds `value` up to a multiple of `alignment`.
pub fn align_up(value: usize, alignment: usize) -> (r: usize)
    requires
        alignment > 0,
        aligned_up(value as nat, alignment as nat) <= usize::MAX,
    ensures
        r == aligned_up(value as nat, alignment as nat),
        r % alignment == 0,
        value <= r < value + alignment,
{
    let rem = value % alignment;
    if rem == 0 {
        value
    } else {
        proof {
            vstd::arithmetic::div_mod::lemma_fundamental_div_mod(value as int, alignment as int);
            vstd::arithmetic::div_mod::lemma_mod_bound(value as int, alignment as int);
            vstd::arithmetic::div_mod::lemma_mod_multiples_basic(
                value as int / alignment as int + 1,
                alignment as int,
            );
            assert(value - rem + alignment == (value as int / alignment as int + 1) * alignment)
                by (nonlinear_arith)
                requires
                    value == alignment * (value as int / alignment as int) + rem,
            ;
            assert(rem <= value) by (nonlinear_arith)
                requires
                    value == alignment * (value as int / alignment as int) + rem,
                    value as int / alignment as int >= 0,
                    alignment > 0,
            ;
        }
        value - rem + alignment
    }
}

/// The number of `alignment`-sized units needed to hold `value`: `value / alignment`
/// rounded up.
pub fn align_up_div(value: usize, alignment: usize) -> (r: usize)
    requires
        alignment > 0,
        value + alignment - 1 <= usize::MAX,
    ensures
        r == (value + alignment - 1) / (alignment as int),
{
    (value + (alignment - 1)) / alignment
}

/// Rounds `value` down to a multiple of `alignment`.
pub fn align_down(value: usize, alignment: usize) -> (r: usize)
    requires
        alignment > 0,
    ensures
        r == value - value % alignment,
        r % alignment == 0,
        r <= value < r + alignment,
{
    let rem = value % alignment;
    proof {
        vstd::arithmetic::div_mod::lemma_fundamental_div_mod(value as int, alignment as int);
        vstd::arithmetic::div_mod::lemma_mod_multiples_basic(
            value as int / alignment as int,
            alignment as int,
        );
        assert(value - rem == (value as int / alignment as int) * alignment) by (nonlinear_arith)
            requires
                value == alignment * (value as int / alignment as int) + rem,
        ;
    }
    value - rem
}

/// The number of whole `alignment`-sized units in `value`.
pub fn align_down_div(value: usize, alignment: usize) -> (r: usize)
    requires
        alignment > 0,
    ensures
        r == value / alignment,
{
    let down = align_down(value, alignment);
    proof {
        vstd::arithmetic::div_mod::lemma_fundamental_div_mod(value as int, alignment as int);
        vstd::arithmetic::div_mod::lemma_div_multiples_vanish(
            value as int / alignment as int,
            alignment as int,
        );
        assert(down == (value as int / alignment as int) * alignment) by (nonlinear_arith)
            requires
                value == alignment * (value as int / alignment as int) + value % alignment,
                down == value - value % alignment,
        ;
    }
    down / alignment
}

/// A cursor that walks the indices `0 .. max` round and round.
#[derive(Debug)]
pub struct IndexRing {
    current: usize,
    max: usize,
}

impl IndexRing {
    #[verifier::type_invariant]
    spec fn inv(self) -> bool {
        self.current < self.max
    }

    /// The index the ring points at.
    pub closed spec fn current(self) -> nat {
        self.current as nat
    }

    /// The number of indices in the ring.
    pub closed spec fn size(self) -> nat {
        self.max as nat
    }

    /// A ring over `0 .. max`, at index 0.
    pub fn new(max: usize) -> (r: Self)
        requires
            max > 0,
        ensures
            r.current() == 0,
            r.size() == max,
    {
        IndexRing { current: 0, max }
    }

    pub fn index(&self) -> (r: usize)
        ensures
            r == self.current(),
            r < self.size(),
    {
        proof {
            use_type_invariant(self);
        }
        self.current
    }

    /// Moves the ring to its next index.
    pub fn increment(&mut self)
        ensures
            final(self).size() == old(self).size(),
            final(self).current() == (old(self).current() + 1) % old(self).size(),
    {
        proof {
            use_type_invariant(&*self);
        }
        let next = self.next_index();
        self.current = next;
    }

    /// The index after the current one, wrapping to 0 after the last.
    pub fn next_index(&self) -> (r: usize)
        ensures
            r == (self.current() + 1) % self.size(),
            r < self.size(),
    {
        proof {
            use_type_invariant(self);
        }
        (self.current + 1) % self.max
    }
}

} // verus!

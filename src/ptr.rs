//! Pointers whose address is checked once, when they are made.
//!
//! A pointer is held as the address it points at, tagged with its pointee type.
use vstd::prelude::*;
use core::marker::PhantomData;

pub mod nonnull;
pub mod aligned;

pub use nonnull::NonNullPtr;
pub use aligned::AlignedPtr;

verus! {

/// The lowest address of the upper canonical half.
pub const UPPER_HALF_START: u64 = 0xFFFF_8000_0000_0000;

/// One past the highest address of the lower canonical half.
pub const LOWER_HALF_END: u64 = 0x8000_0000_0000;

/// An address is canonical when bits 47 to 63 are all equal: it lies in the lower
/// half `0 .. 2^47` or in the upper half `2^64 - 2^47 .. 2^64`.
pub open spec fn is_canonical(addr: u64) -> bool {
    addr < LOWER_HALF_END || addr >= UPPER_HALF_START
}

/// Why an address was refused as a pointer; each variant carries the refused address.
#[derive(Debug, Clone, Copy, PartialEq, Eq, Structural)]
pub enum PtrError {
    /// Bits 47 to 63 are not all equal.
    NonCanonicalAddress(u64),
    /// The address is zero.
    NullAddress(u64),
    /// The address is not a multiple of the required alignment.
    MisalignedAddress(u64),
}

/// Returns the address back when it is canonical.
pub fn checked_canonical(addr: u64) -> (r: Option<u64>)
    ensures
        r == (if is_canonical(addr) { Some(addr) } else { None::<u64> }),
{
    let top = addr >> 47u32;
    assert((addr >> 47u32 == 0 || addr >> 47u32 == 0x1FFFF) <==> (addr < 0x8000_0000_0000
        || addr >= 0xFFFF_8000_0000_0000)) by (bit_vector);
    if top == 0 || top == 0x1FFFF {
        Some(addr)
    } else {
        None
    }
}

/// A pointer to a `T` whose address is canonical.
#[derive(Debug, PartialEq, Eq, Hash)]
pub struct Ptr<T> {
    addr: u64,
    pointee: PhantomData<T>,
}

impl<T> Clone for Ptr<T> {
    fn clone(&self) -> (r: Self)
        ensures
            r == *self,
    {
        *self
    }
}

impl<T> Copy for Ptr<T> {

}

impl<T> View for Ptr<T> {
    type V = u64;

    closed spec fn view(&self) -> u64 {
        self.addr
    }
}

impl<T> Ptr<T> {
    #[verifier::type_invariant]
    spec fn inv(self) -> bool {
        is_canonical(self.addr)
    }

    /// Makes a pointer from an address already known to be canonical.
    pub(crate) fn from_canonical(addr: u64) -> (r: Self)
        requires
            is_canonical(addr),
        ensures
            r@ == addr,
    {
        Ptr { addr, pointee: PhantomData }
    }

    /// Checks that `addr` is canonical and makes a pointer of it.
    pub fn try_from(addr: u64) -> (r: Result<Self, PtrError>)
        ensures
            is_canonical(addr) <==> r is Ok,
            r matches Ok(p) ==> p@ == addr,
            r matches Err(e) ==> e == PtrError::NonCanonicalAddress(addr),
    {
        match checked_canonical(addr) {
            Some(a) => Ok(Ptr { addr: a, pointee: PhantomData }),
            None => Err(PtrError::NonCanonicalAddress(addr)),
        }
    }

    /// Drops the non-null guarantee of a pointer and keeps its address.
    pub fn from_non_null(p: NonNullPtr<T>) -> (r: Self)
        ensures
            r@ == p@,
    {
        let addr = p.addr();
        Ptr { addr, pointee: PhantomData }
    }

    /// The address this pointer points at.
    pub fn addr(&self) -> (r: u64)
        ensures
            r == self@,
            is_canonical(r),
    {
        proof {
            use_type_invariant(self);
        }
        self.addr
    }
}

} // verus!

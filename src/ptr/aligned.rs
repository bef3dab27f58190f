use vstd::prelude::*;
use core::marker::PhantomData;
use super::{is_canonical, checked_canonical, Ptr, PtrError};

verus! {

/// An address is aligned to `2^shift` when it is a multiple of it; no alignment of
/// `2^64` or more can be represented, so none is met.
pub open spec fn is_aligned(addr: u64, shift: u32) -> bool {
    shift < 64 && addr as nat % vstd::arithmetic::power2::pow2(shift as nat) == 0
}

/// Returns whether `addr` is a multiple of `2^shift`, for `shift < 64`.
fn aligned_to(addr: u64, shift: u32) -> (r: bool)
    requires
        shift < 64,
    ensures
        r == is_aligned(addr, shift),
{
    let align: u64 = 1u64 << (shift as u64);
    proof {
        vstd::bits::lemma_u64_pow2_no_overflow(shift as nat);
        vstd::bits::lemma_u64_shl_is_mul(1u64, shift as u64);
    }
    addr % align == 0
}

/// A pointer to a `T` whose address is canonical and a multiple of `2^ALIGN_SHIFT`.
#[derive(Debug, PartialEq, Eq, Hash)]
pub struct AlignedPtr<T, const ALIGN_SHIFT: u32> {
    addr: u64,
    pointee: PhantomData<T>,
}

impl<T, const ALIGN_SHIFT: u32> Clone for AlignedPtr<T, ALIGN_SHIFT> {
    fn clone(&self) -> (r: Self)
        ensures
            r == *self,
    {
        *self
    }
}

impl<T, const ALIGN_SHIFT: u32> Copy for AlignedPtr<T, ALIGN_SHIFT> {

}

impl<T, const ALIGN_SHIFT: u32> View for AlignedPtr<T, ALIGN_SHIFT> {
    type V = u64;

    closed spec fn view(&self) -> u64 {
        self.addr
    }
}

impl<T, const ALIGN_SHIFT: u32> AlignedPtr<T, ALIGN_SHIFT> {
    #[verifier::type_invariant]
    spec fn inv(self) -> bool {
        is_canonical(self.addr) && is_aligned(self.addr, ALIGN_SHIFT)
    }

    /// Checks that `addr` is canonical and aligned, and makes a pointer of it.
    pub fn try_from(addr: u64) -> (r: Result<Self, PtrError>)
        ensures
            (is_canonical(addr) && is_aligned(addr, ALIGN_SHIFT)) <==> r is Ok,
            r matches Ok(p) ==> p@ == addr,
            !is_canonical(addr) ==> r == Err::<Self, PtrError>(PtrError::NonCanonicalAddress(addr)),
            is_canonical(addr) && !is_aligned(addr, ALIGN_SHIFT) ==> r == Err::<Self, PtrError>(
                PtrError::MisalignedAddress(addr),
            ),
    {
        match checked_canonical(addr) {
            None => Err(PtrError::NonCanonicalAddress(addr)),
            Some(a) => {
                if ALIGN_SHIFT < 64 && aligned_to(a, ALIGN_SHIFT) {
                    Ok(AlignedPtr { addr: a, pointee: PhantomData })
                } else {
                    Err(PtrError::MisalignedAddress(addr))
                }
            },
        }
    }

    /// Checks that a canonical pointer is aligned.
    pub fn try_from_ptr(p: Ptr<T>) -> (r: Result<Self, PtrError>)
        ensures
            is_aligned(p@, ALIGN_SHIFT) <==> r is Ok,
            r matches Ok(q) ==> q@ == p@,
            r matches Err(e) ==> e == PtrError::MisalignedAddress(p@),
    {
        let addr = p.addr();
        if ALIGN_SHIFT < 64 && aligned_to(addr, ALIGN_SHIFT) {
            Ok(AlignedPtr { addr, pointee: PhantomData })
        } else {
            Err(PtrError::MisalignedAddress(addr))
        }
    }

    /// The address this pointer points at.
    pub fn addr(&self) -> (r: u64)
        ensures
            r == self@,
            is_canonical(r),
            is_aligned(r, ALIGN_SHIFT),
    {
        proof {
            use_type_invariant(self);
        }
        self.addr
    }
}

} // verus!

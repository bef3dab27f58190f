use vstd::prelude::*;
use core::marker::PhantomData;
use super::{is_canonical, checked_canonical, Ptr, PtrError};

verus! {

/// A pointer to a `T` whose address is canonical and not zero.
#[derive(Debug, PartialEq, Eq, Hash)]
pub struct NonNullPtr<T> {
    addr: u64,
    pointee: PhantomData<T>,
}

impl<T> Clone for NonNullPtr<T> {
    fn clone(&self) -> (r: Self)
        ensures
            r == *self,
    {
        *self
    }
}

impl<T> Copy for NonNullPtr<T> {

}

impl<T> View for NonNullPtr<T> {
    type V = u64;

    closed spec fn view(&self) -> u64 {
        self.addr
    }
}

impl<T> NonNullPtr<T> {
    #[verifier::type_invariant]
    spec fn inv(self) -> bool {
        is_canonical(self.addr) && self.addr != 0
    }

    /// Checks that `addr` is canonical and not zero, and makes a pointer of it.
    /// A zero address is refused as null, though it is canonical.
    pub fn try_from(addr: u64) -> (r: Result<Self, PtrError>)
        ensures
            (is_canonical(addr) && addr != 0) <==> r is Ok,
            r matches Ok(p) ==> p@ == addr,
            addr == 0 ==> r == Err::<Self, PtrError>(PtrError::NullAddress(0)),
            !is_canonical(addr) ==> r == Err::<Self, PtrError>(PtrError::NonCanonicalAddress(addr)),
    {
        if addr == 0 {
            return Err(PtrError::NullAddress(addr));
        }
        match checked_canonical(addr) {
            Some(a) => Ok(NonNullPtr { addr: a, pointee: PhantomData }),
            None => Err(PtrError::NonCanonicalAddress(addr)),
        }
    }

    /// Checks that a canonical pointer is not null.
    pub fn try_from_ptr(p: Ptr<T>) -> (r: Result<Self, PtrError>)
        ensures
            (p@ != 0) <==> r is Ok,
            r matches Ok(q) ==> q@ == p@,
            p@ == 0 ==> r == Err::<Self, PtrError>(PtrError::NullAddress(0)),
    {
        let addr = p.addr();
        if addr == 0 {
            Err(PtrError::NullAddress(addr))
        } else {
            Ok(NonNullPtr { addr, pointee: PhantomData })
        }
    }

    /// The address this pointer points at.
    pub fn addr(&self) -> (r: u64)
        ensures
            r == self@,
            is_canonical(r),
            r != 0,
    {
        proof {
            use_type_invariant(self);
        }
        self.addr
    }
}

} // verus!

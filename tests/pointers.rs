use typed_addr::{AlignedPtr, NonNullPtr, Ptr, PtrError};

#[test]
fn ptr_accepts_only_canonical() {
    assert_eq!(Ptr::<u8>::try_from(0).unwrap().addr(), 0);
    assert_eq!(Ptr::<u8>::try_from(0x0000_7FFF_FFFF_FFFF).unwrap().addr(), 0x0000_7FFF_FFFF_FFFF);
    assert_eq!(Ptr::<u8>::try_from(0xFFFF_8000_0000_0000).unwrap().addr(), 0xFFFF_8000_0000_0000);
    assert_eq!(
        Ptr::<u8>::try_from(0x0000_8000_0000_0000).unwrap_err(),
        PtrError::NonCanonicalAddress(0x0000_8000_0000_0000)
    );
    assert_eq!(
        Ptr::<u8>::try_from(0xFFFF_7FFF_FFFF_FFFF).unwrap_err(),
        PtrError::NonCanonicalAddress(0xFFFF_7FFF_FFFF_FFFF)
    );
}

#[test]
fn non_null_rejects_zero_as_null() {
    assert_eq!(NonNullPtr::<u8>::try_from(0).unwrap_err(), PtrError::NullAddress(0));
    let zero = Ptr::<u8>::try_from(0).unwrap();
    assert_eq!(NonNullPtr::try_from_ptr(zero).unwrap_err(), PtrError::NullAddress(0));
}

#[test]
fn non_null_rejects_non_canonical() {
    assert_eq!(
        NonNullPtr::<u8>::try_from(0x0001_0000_0000_0000).unwrap_err(),
        PtrError::NonCanonicalAddress(0x0001_0000_0000_0000)
    );
    let p = NonNullPtr::<u16>::try_from(0x10).unwrap();
    assert_eq!(p.addr(), 0x10);
    assert_eq!(Ptr::from_non_null(p).addr(), 0x10);
    let q = Ptr::<u16>::try_from(0x20).unwrap();
    assert_eq!(NonNullPtr::try_from_ptr(q).unwrap().addr(), 0x20);
}

fn check_alignment<const SHIFT: u32>(addr: u64) {
    let align = 1u64 << SHIFT;
    let canonical = Ptr::<u8>::try_from(addr).is_ok();
    let r = AlignedPtr::<u8, SHIFT>::try_from(addr);
    if !canonical {
        assert_eq!(r.unwrap_err(), PtrError::NonCanonicalAddress(addr));
    } else if addr % align == 0 {
        assert_eq!(r.unwrap().addr(), addr);
    } else {
        assert_eq!(r.unwrap_err(), PtrError::MisalignedAddress(addr));
    }
    if canonical {
        let p = Ptr::<u8>::try_from(addr).unwrap();
        let s = AlignedPtr::<u8, SHIFT>::try_from_ptr(p);
        assert_eq!(s.is_ok(), addr % align == 0);
    }
}

#[test]
fn aligned_ptr_over_a_spread() {
    let addrs: [u64; 12] = [
        0,
        1,
        2,
        3,
        0xFFE,
        0xFFF,
        0x1000,
        0x1001,
        0x0000_7FFF_FFFF_F000,
        0x0000_7FFF_FFFF_FFFF,
        0x0000_8000_0000_0000,
        0xFFFF_8000_0000_2000,
    ];
    for &a in addrs.iter() {
        check_alignment::<0>(a);
        check_alignment::<1>(a);
        check_alignment::<12>(a);
    }
}

#[test]
fn aligned_ptr_exact_cases() {
    assert!(AlignedPtr::<u8, 1>::try_from(2).is_ok());
    assert_eq!(AlignedPtr::<u8, 1>::try_from(3).unwrap_err(), PtrError::MisalignedAddress(3));
    assert_eq!(
        AlignedPtr::<u8, 12>::try_from(0x1800).unwrap_err(),
        PtrError::MisalignedAddress(0x1800)
    );
    assert_eq!(AlignedPtr::<u8, 64>::try_from(0x1000).unwrap_err(), PtrError::MisalignedAddress(0x1000));
}

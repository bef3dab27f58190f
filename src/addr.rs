//! Addresses tagged with the address space they belong to.
//!
//! An [`AddressKind`] states which raw values are valid in its space and how any
//! raw value is forced into a valid one. [`Address<K>`] holds a value that its kind
//! accepts, and exposes the conversions that the optional capability traits add.
use vstd::prelude::*;
use core::marker::PhantomData;
use crate::{PAGE_MASK, PAGE_SHIFT, PAGE_SIZE, PHYS_NON_CANONICAL_MASK};
use crate::ptr::{is_canonical, Ptr};

verus! {

/// One past the highest physical address: bits 52 to 63 must be clear.
pub const PHYS_LIMIT: u64 = 0x10_0000_0000_0000;

/// A physical address has its reserved top bits clear.
pub open spec fn is_phys_canonical(addr: u64) -> bool {
    addr < PHYS_LIMIT
}

/// The largest multiple of the page size that is not above `addr`.
pub open spec fn page_floor(addr: u64) -> u64 {
    (addr - addr % PAGE_SIZE) as u64
}

/// `addr` with bits 48 to 63 replaced by copies of bit 47.
pub open spec fn sign_extended(addr: u64) -> u64 {
    let low = addr % 0x1_0000_0000_0000;
    if low < 0x8000_0000_0000 {
        low as u64
    } else {
        (low + 0xFFFF_0000_0000_0000) as u64
    }
}

/// Returns whether the reserved top bits of a physical address are clear.
pub fn checked_phys_canonical(addr: u64) -> (r: bool)
    ensures
        r == is_phys_canonical(addr),
{
    assert((addr & 0xFFF0_0000_0000_0000 == 0) == (addr < 0x10_0000_0000_0000)) by (bit_vector);
    (addr & PHYS_NON_CANONICAL_MASK) == 0
}

/// Copies bit 47 of `addr` into bits 48 to 63.
fn sign_extend(addr: u64) -> (r: u64)
    ensures
        r == sign_extended(addr),
{
    let low = addr & 0xFFFF_FFFF_FFFF;
    assert(addr & 0xFFFF_FFFF_FFFF == addr % 0x1_0000_0000_0000) by (bit_vector);
    if low & 0x8000_0000_0000 == 0 {
        assert(low & 0x8000_0000_0000 == 0 <==> low < 0x8000_0000_0000) by (bit_vector)
            requires
                low < 0x1_0000_0000_0000,
        ;
        low
    } else {
        assert(low & 0x8000_0000_0000 == 0 <==> low < 0x8000_0000_0000) by (bit_vector)
            requires
                low < 0x1_0000_0000_0000,
        ;
        assert(low | 0xFFFF_0000_0000_0000 == low + 0xFFFF_0000_0000_0000) by (bit_vector)
            requires
                low < 0x1_0000_0000_0000,
        ;
        low | 0xFFFF_0000_0000_0000
    }
}

/// Clears the low bits of `addr` below the page size.
fn clear_page_offset(addr: u64) -> (r: u64)
    ensures
        r == page_floor(addr),
{
    assert(addr & !0xFFFu64 == addr - addr % 4096) by (bit_vector);
    addr & !PAGE_MASK
}

/// The rules of one address space: which raw values are valid addresses in it, and
/// how any raw value is forced into a valid one.
pub trait AddressKind: Sized {
    /// The raw values that are valid addresses of this kind.
    spec fn is_valid(addr: u64) -> bool;

    /// The valid address that a raw value is forced to.
    spec fn truncated(addr: u64) -> u64;

    /// Returns `init` back when it is valid.
    fn new(init: u64) -> (r: Option<u64>)
        ensures
            r == (if Self::is_valid(init) { Some(init) } else { None::<u64> }),
    ;

    /// Forces `init` into a valid address by clearing or overwriting its invalid bits.
    fn new_truncate(init: u64) -> (r: u64)
        ensures
            r == Self::truncated(init),
    ;

    /// Forcing yields a valid address, and leaves a valid one as it is.
    proof fn lemma_truncated(init: u64)
        ensures
            Self::is_valid(Self::truncated(init)),
            Self::is_valid(init) ==> Self::truncated(init) == init,
    ;
}

/// Kinds whose addresses can be used by the running code as pointers.
pub trait PtrableAddressKind: AddressKind {
    /// The address of this kind that stands for a pointer at `addr`.
    spec fn from_ptr_addr(addr: u64) -> u64;

    fn from_ptr<T>(ptr: Ptr<T>) -> (r: u64)
        ensures
            r == Self::from_ptr_addr(ptr@),
            Self::is_valid(r),
    ;

    fn as_ptr(repr: u64) -> (r: Ptr<u8>)
        requires
            Self::is_valid(repr),
        ensures
            r@ == repr,
    ;
}

/// Kinds whose addresses are numbered in units of one page.
pub trait IndexableAddressKind: AddressKind {
    /// The page numbers whose first address is valid for this kind.
    spec fn index_in_range(index: u64) -> bool;

    /// The first address of page `index`, when it is in range.
    fn from_index(index: u64) -> (r: Option<u64>)
        ensures
            r is Some <==> Self::index_in_range(index),
            r matches Some(a) ==> a == index * PAGE_SIZE && Self::is_valid(a),
    ;

    /// The number of the page that holds `repr`.
    fn index(repr: u64) -> (r: u64)
        requires
            Self::is_valid(repr),
        ensures
            r == repr / PAGE_SIZE,
    ;

    /// The first address of a page in range fits in 64 bits and is valid.
    proof fn lemma_index_in_range(index: u64)
        requires
            Self::index_in_range(index),
        ensures
            index * PAGE_SIZE <= u64::MAX,
            Self::is_valid((index * PAGE_SIZE) as u64),
    ;
}

/// Kinds with a zero placeholder address.
pub trait DefaultableAddressKind: AddressKind {
    fn default() -> (r: u64)
        ensures
            r == 0,
            Self::is_valid(r),
    ;
}

/// Physical memory: bits 52 to 63 clear.
#[derive(Debug, Clone, Copy, PartialEq, Eq, PartialOrd, Ord, Hash)]
pub struct Physical;

impl AddressKind for Physical {
    open spec fn is_valid(addr: u64) -> bool {
        is_phys_canonical(addr)
    }

    open spec fn truncated(addr: u64) -> u64 {
        (addr % PHYS_LIMIT) as u64
    }

    fn new(init: u64) -> (r: Option<u64>) {
        if checked_phys_canonical(init) {
            Some(init)
        } else {
            None
        }
    }

    fn new_truncate(init: u64) -> (r: u64) {
        assert(init & !0xFFF0_0000_0000_0000u64 == init % 0x10_0000_0000_0000) by (bit_vector);
        init & !PHYS_NON_CANONICAL_MASK
    }

    proof fn lemma_truncated(init: u64) {
    }
}

impl DefaultableAddressKind for Physical {
    fn default() -> (r: u64) {
        0
    }
}

/// Physical page frames: a physical address that is also page aligned.
#[derive(Debug, Clone, Copy, PartialEq, Eq, PartialOrd, Ord, Hash)]
pub struct Frame;

impl AddressKind for Frame {
    open spec fn is_valid(addr: u64) -> bool {
        is_phys_canonical(addr) && addr % PAGE_SIZE == 0
    }

    open spec fn truncated(addr: u64) -> u64 {
        page_floor((addr % PHYS_LIMIT) as u64)
    }

    fn new(init: u64) -> (r: Option<u64>) {
        if init & PAGE_MASK == 0 && checked_phys_canonical(init) {
            assert(init & 0xFFF == 0 <==> init % 4096 == 0) by (bit_vector);
            Some(init)
        } else {
            assert(init & 0xFFF == 0 <==> init % 4096 == 0) by (bit_vector);
            None
        }
    }

    fn new_truncate(init: u64) -> (r: u64) {
        assert(init & !0xFFF0_0000_0000_0000u64 == init % 0x10_0000_0000_0000) by (bit_vector);
        clear_page_offset(init & !PHYS_NON_CANONICAL_MASK)
    }

    proof fn lemma_truncated(init: u64) {
        let p = (init % PHYS_LIMIT) as u64;
        assert((p - p % 4096) as u64 % 4096 == 0 && p - p % 4096 < 0x10_0000_0000_0000) by (bit_vector)
            requires
                p < 0x10_0000_0000_0000,
        ;
    }
}

impl IndexableAddressKind for Frame {
    open spec fn index_in_range(index: u64) -> bool {
        index < 0x100_0000_0000
    }

    fn from_index(index: u64) -> (r: Option<u64>) {
        if index < 0x100_0000_0000 {
            assert(index << 12 == index * 4096 && (index * 4096) % 4096 == 0 && index * 4096
                < 0x10_0000_0000_0000) by (bit_vector)
                requires
                    index < 0x100_0000_0000,
            ;
            Some(index << PAGE_SHIFT)
        } else {
            None
        }
    }

    fn index(repr: u64) -> (r: u64) {
        assert(repr >> 12 == repr / 4096) by (bit_vector);
        repr >> PAGE_SHIFT
    }

    proof fn lemma_index_in_range(index: u64) {
        assert(index * 4096 <= 0xFFFF_FFFF_FFFF_FFFF && (index * 4096) % 4096 == 0 && index * 4096
            < 0x10_0000_0000_0000) by (bit_vector)
            requires
                index < 0x100_0000_0000,
        ;
    }
}

impl DefaultableAddressKind for Frame {
    fn default() -> (r: u64) {
        0
    }
}

/// Virtual memory: bits 48 to 63 equal to bit 47.
#[derive(Debug, Clone, Copy, PartialEq, Eq, PartialOrd, Ord, Hash)]
pub struct Virtual;

impl AddressKind for Virtual {
    open spec fn is_valid(addr: u64) -> bool {
        is_canonical(addr)
    }

    open spec fn truncated(addr: u64) -> u64 {
        sign_extended(addr)
    }

    fn new(init: u64) -> (r: Option<u64>) {
        crate::ptr::checked_canonical(init)
    }

    fn new_truncate(init: u64) -> (r: u64) {
        sign_extend(init)
    }

    proof fn lemma_truncated(init: u64) {
    }
}

impl PtrableAddressKind for Virtual {
    open spec fn from_ptr_addr(addr: u64) -> u64 {
        addr
    }

    fn from_ptr<T>(ptr: Ptr<T>) -> (r: u64) {
        ptr.addr()
    }

    fn as_ptr(repr: u64) -> (r: Ptr<u8>) {
        Ptr::from_canonical(repr)
    }
}

impl DefaultableAddressKind for Virtual {
    fn default() -> (r: u64) {
        0
    }
}

/// Virtual pages: a canonical virtual address that is also page aligned.
///
/// Pages are the units of the virtual address space, so this kind follows the virtual
/// canonical rule and can stand for a pointer; [`Frame`] is its physical counterpart.
#[derive(Debug, Clone, Copy, PartialEq, Eq, PartialOrd, Ord, Hash)]
pub struct Page;

impl AddressKind for Page {
    open spec fn is_valid(addr: u64) -> bool {
        is_canonical(addr) && addr % PAGE_SIZE == 0
    }

    open spec fn truncated(addr: u64) -> u64 {
        page_floor(sign_extended(addr))
    }

    fn new(init: u64) -> (r: Option<u64>) {
        if init & PAGE_MASK == 0 && crate::ptr::checked_canonical(init).is_some() {
            assert(init & 0xFFF == 0 <==> init % 4096 == 0) by (bit_vector);
            Some(init)
        } else {
            assert(init & 0xFFF == 0 <==> init % 4096 == 0) by (bit_vector);
            None
        }
    }

    fn new_truncate(init: u64) -> (r: u64) {
        clear_page_offset(sign_extend(init))
    }

    proof fn lemma_truncated(init: u64) {
        let s = sign_extended(init);
        lemma_page_floor_canonical(s);
    }
}

impl PtrableAddressKind for Page {
    /// A pointer stands for the page that holds it.
    open spec fn from_ptr_addr(addr: u64) -> u64 {
        page_floor(addr)
    }

    fn from_ptr<T>(ptr: Ptr<T>) -> (r: u64) {
        let addr = ptr.addr();
        proof {
            lemma_page_floor_canonical(addr);
        }
        clear_page_offset(addr)
    }

    fn as_ptr(repr: u64) -> (r: Ptr<u8>) {
        Ptr::from_canonical(repr)
    }
}

impl IndexableAddressKind for Page {
    open spec fn index_in_range(index: u64) -> bool {
        index < 0x8_0000_0000 || (0xF_FFF8_0000_0000 <= index && index < 0x10_0000_0000_0000)
    }

    fn from_index(index: u64) -> (r: Option<u64>) {
        if index < 0x8_0000_0000 || (0xF_FFF8_0000_0000 <= index && index < 0x10_0000_0000_0000) {
            assert(index << 12 == index * 4096 && (index * 4096) % 4096 == 0 && ((index * 4096)
                < 0x8000_0000_0000 || index * 4096 >= 0xFFFF_8000_0000_0000)) by (bit_vector)
                requires
                    index < 0x8_0000_0000 || (0xF_FFF8_0000_0000 <= index && index
                        < 0x10_0000_0000_0000),
            ;
            Some(index << PAGE_SHIFT)
        } else {
            None
        }
    }

    fn index(repr: u64) -> (r: u64) {
        assert(repr >> 12 == repr / 4096) by (bit_vector);
        repr >> PAGE_SHIFT
    }

    proof fn lemma_index_in_range(index: u64) {
        assert(index * 4096 <= 0xFFFF_FFFF_FFFF_FFFF && (index * 4096) % 4096 == 0 && ((index * 4096)
            < 0x8000_0000_0000 || index * 4096 >= 0xFFFF_8000_0000_0000)) by (bit_vector)
            requires
                index < 0x8_0000_0000 || (0xF_FFF8_0000_0000 <= index && index
                    < 0x10_0000_0000_0000),
        ;
    }
}

impl DefaultableAddressKind for Page {
    fn default() -> (r: u64) {
        0
    }
}

/// An address of kind `K`: a raw value that `K` accepts, and nothing else.
#[derive(Debug, PartialEq, Eq, PartialOrd, Ord, Hash)]
pub struct Address<K: AddressKind> {
    repr: u64,
    kind: PhantomData<K>,
}

impl<K: AddressKind> Clone for Address<K> {
    fn clone(&self) -> (r: Self)
        ensures
            r == *self,
    {
        *self
    }
}

impl<K: AddressKind> Copy for Address<K> {

}

impl<K: AddressKind> View for Address<K> {
    type V = u64;

    closed spec fn view(&self) -> u64 {
        self.repr
    }
}

impl<K: DefaultableAddressKind> Default for Address<K> {
    /// The zero placeholder address of `K`.
    fn default() -> (r: Self)
        ensures
            r@ == 0,
    {
        Address { repr: K::default(), kind: PhantomData }
    }
}

impl<K: AddressKind> Address<K> {
    #[verifier::type_invariant]
    spec fn inv(self) -> bool {
        K::is_valid(self.repr)
    }

    /// Accepts `init` when `K` finds it valid, and then holds it unchanged.
    pub fn new(init: u64) -> (r: Option<Self>)
        ensures
            r is Some <==> K::is_valid(init),
            r matches Some(a) ==> a@ == init,
    {
        match K::new(init) {
            Some(repr) => Some(Address { repr, kind: PhantomData }),
            None => None,
        }
    }

    /// Forces `init` into a valid address of `K`; a valid `init` is kept as it is.
    pub fn new_truncate(init: u64) -> (r: Self)
        ensures
            r@ == K::truncated(init),
            K::is_valid(r@),
            K::is_valid(init) ==> r@ == init,
    {
        proof {
            K::lemma_truncated(init);
        }
        Address { repr: K::new_truncate(init), kind: PhantomData }
    }

    /// The raw value, which `K` finds valid.
    pub fn get(self) -> (r: u64)
        ensures
            r == self@,
            K::is_valid(r),
    {
        proof {
            use_type_invariant(&self);
        }
        self.repr
    }
}

impl<K: PtrableAddressKind> Address<K> {
    /// The address of kind `K` that stands for the pointer `ptr`.
    pub fn from_ptr<T>(ptr: Ptr<T>) -> (r: Self)
        ensures
            r@ == K::from_ptr_addr(ptr@),
    {
        Address { repr: K::from_ptr(ptr), kind: PhantomData }
    }

    /// A byte pointer at this address.
    pub fn as_ptr(self) -> (r: Ptr<u8>)
        ensures
            r@ == self@,
    {
        proof {
            use_type_invariant(&self);
        }
        K::as_ptr(self.repr)
    }
}

impl<K: IndexableAddressKind> Address<K> {
    /// The first address of page `index`, when that page lies in the space of `K`.
    pub fn from_index(index: u64) -> (r: Option<Self>)
        ensures
            r is Some <==> K::index_in_range(index),
            r matches Some(a) ==> a@ == index * PAGE_SIZE,
    {
        match K::from_index(index) {
            Some(repr) => Some(Address { repr, kind: PhantomData }),
            None => None,
        }
    }

    /// The number of the page at this address.
    pub fn index(self) -> (r: u64)
        ensures
            r == self@ / PAGE_SIZE,
    {
        proof {
            use_type_invariant(&self);
        }
        K::index(self.repr)
    }
}

/// For every kind numbered by pages, the page number of the first address of page
/// `index` is `index` again, whenever `index` is in range: `Address::from_index`
/// followed by `Address::index` gives back the number it started from.
pub proof fn lemma_index_round_trip<K: IndexableAddressKind>(index: u64)
    requires
        K::index_in_range(index),
    ensures
        K::is_valid((index * PAGE_SIZE) as u64),
        ((index * PAGE_SIZE) as u64) / PAGE_SIZE == index,
{
    K::lemma_index_in_range(index);
    assert(((index * 4096) as u64) / 4096 == index) by (bit_vector)
        requires
            index * 4096 <= 0xFFFF_FFFF_FFFF_FFFF,
    ;
}

/// Forcing a raw value into a virtual address or a virtual page extends the sign of
/// bit 47 rather than masking: bits 48 to 63 of the result are all set when bit 47 of
/// the input is set, and all clear when it is clear; bits 12 to 47 are kept.
pub proof fn lemma_truncate_sign_extends(x: u64)
    ensures
        x & 0x8000_0000_0000 != 0 ==> Virtual::truncated(x) >= 0xFFFF_8000_0000_0000
            && Page::truncated(x) >= 0xFFFF_8000_0000_0000,
        x & 0x8000_0000_0000 == 0 ==> Virtual::truncated(x) < 0x8000_0000_0000
            && Page::truncated(x) < 0x8000_0000_0000,
        Virtual::truncated(x) % 0x1_0000_0000_0000 == x % 0x1_0000_0000_0000,
        Page::truncated(x) / PAGE_SIZE % 0x10_0000_0000 == x / PAGE_SIZE % 0x10_0000_0000,
{
    let v = sign_extended(x);
    let p = page_floor(v);
    assert((x & 0x8000_0000_0000 != 0 ==> v >= 0xFFFF_8000_0000_0000 && p >= 0xFFFF_8000_0000_0000)
        && (x & 0x8000_0000_0000 == 0 ==> v < 0x8000_0000_0000 && p < 0x8000_0000_0000) && v
        % 0x1_0000_0000_0000 == x % 0x1_0000_0000_0000 && p / 4096 % 0x10_0000_0000 == x / 4096
        % 0x10_0000_0000) by (bit_vector)
        requires
            v == (if x % 0x1_0000_0000_0000 < 0x8000_0000_0000 {
                (x % 0x1_0000_0000_0000) as u64
            } else {
                (x % 0x1_0000_0000_0000 + 0xFFFF_0000_0000_0000) as u64
            }),
            p == ((v - v % 4096) as u64),
    ;
}

/// Clearing the page offset of a canonical address keeps it canonical.
pub proof fn lemma_page_floor_canonical(addr: u64)
    requires
        is_canonical(addr),
    ensures
        is_canonical(page_floor(addr)),
        page_floor(addr) % PAGE_SIZE == 0,
        page_floor(addr) <= addr,
{
    let f = page_floor(addr);
    assert(f % 4096 == 0 && f <= addr && (f >= 0xFFFF_8000_0000_0000 || f < 0x8000_0000_0000))
        by (bit_vector)
        requires
            f == ((addr - addr % 4096) as u64),
            addr < 0x8000_0000_0000 || addr >= 0xFFFF_8000_0000_0000,
    ;
}

} // verus!

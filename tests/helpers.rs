use typed_addr::{
    align_down, align_down_div, align_up, align_up_div, to_kibibytes, to_mibibytes, IndexRing,
};

#[test]
fn unit_conversions() {
    assert_eq!(to_kibibytes(0), 0);
    assert_eq!(to_kibibytes(1023), 0);
    assert_eq!(to_kibibytes(4096), 4);
    assert_eq!(to_mibibytes(3 * 1024 * 1024 + 5), 3);
}

#[test]
fn alignment_rounding() {
    assert_eq!(align_up(0, 4096), 0);
    assert_eq!(align_up(1, 4096), 4096);
    assert_eq!(align_up(4096, 4096), 4096);
    assert_eq!(align_up(4097, 4096), 8192);
    assert_eq!(align_up(7, 1), 7);
    assert_eq!(align_down(4097, 4096), 4096);
    assert_eq!(align_down(4095, 4096), 0);
    assert_eq!(align_up_div(0, 4096), 0);
    assert_eq!(align_up_div(1, 4096), 1);
    assert_eq!(align_up_div(8193, 4096), 3);
    assert_eq!(align_down_div(8193, 4096), 2);
    assert_eq!(align_down_div(4095, 4096), 0);
}

#[test]
fn index_ring_wraps() {
    let mut ring = IndexRing::new(3);
    assert_eq!(ring.index(), 0);
    assert_eq!(ring.next_index(), 1);
    ring.increment();
    ring.increment();
    assert_eq!(ring.index(), 2);
    assert_eq!(ring.next_index(), 0);
    ring.increment();
    assert_eq!(ring.index(), 0);
    let mut single = IndexRing::new(1);
    single.increment();
    assert_eq!(single.index(), 0);
}

use kroos::layout::block_layout;

#[test]
fn layout_wide_counter_narrow_payload() {
    // an eight-byte counter before five payload bytes
    assert_eq!(block_layout::<u64>(5), Some((13, 8)));
}

#[test]
fn layout_byte_counter() {
    // a one-byte counter packs directly against the payload
    assert_eq!(block_layout::<u8>(3), Some((4, 1)));
    assert_eq!(block_layout::<u8>(0), Some((1, 1)));
}

#[test]
fn layout_overflowing_payload() {
    assert_eq!(block_layout::<u64>(usize::MAX), None);
    assert_eq!(block_layout::<u64>(usize::MAX - 8), Some((usize::MAX, 8)));
}

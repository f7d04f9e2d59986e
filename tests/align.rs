use jlrs::align::llt_align;

#[test]
fn align_rounds_up_to_multiples() {
    assert_eq!(llt_align(0, 8), 0);
    assert_eq!(llt_align(1, 8), 8);
    assert_eq!(llt_align(8, 8), 8);
    assert_eq!(llt_align(9, 8), 16);
    assert_eq!(llt_align(13, 1), 13);
    assert_eq!(llt_align(17, 16), 32);
}

#[test]
fn align_at_the_top_of_the_range() {
    assert_eq!(llt_align(usize::MAX - 7, 8), usize::MAX - 7);
    assert_eq!(llt_align(usize::MAX - 15, 8), usize::MAX - 15);
    assert_eq!(llt_align(usize::MAX - 14, 8), usize::MAX - 7);
}

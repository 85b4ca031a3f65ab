use nthash::util::min;

#[test]
fn test_const_min() {
    assert_eq!(min(10, 11), 10);
    assert_eq!(min(11, 10), 10);
}

#[test]
fn min_clips_an_unbounded_end() {
    assert_eq!(min(4, usize::MAX), 4);
    assert_eq!(min(100, 50), 50);
}

#[test]
fn min_of_equal_values() {
    assert_eq!(min(0, 0), 0);
    assert_eq!(min(7, 7), 7);
    assert_eq!(min(usize::MAX, usize::MAX), usize::MAX);
}

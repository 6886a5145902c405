use vec_sandbox::{within_bounds, ConstIndex, ConstNum, NonZero, WithinBounds};

fn valid(index: ConstIndex, guarantee: usize) -> bool {
    (index, ConstNum { value: guarantee }).check_within_bounds()
}

#[test]
fn within_bounds_is_a_half_open_range() {
    assert!(within_bounds(0, 0, 1));
    assert!(!within_bounds(0, 1, 1));
    assert!(!within_bounds(0, 0, 0));
    assert!(within_bounds(1, 1, 2));
    assert!(!within_bounds(1, 0, 2));
    assert!(!within_bounds(1, 2, 2));
    assert!(within_bounds(3, 7, 8));
    assert!(!within_bounds(3, 8, 8));
    assert!(within_bounds(0, usize::MAX - 1, usize::MAX));
    assert!(!within_bounds(0, usize::MAX, usize::MAX));
}

#[test]
fn a_signed_index_becomes_magnitude_and_direction() {
    let first = ConstIndex::new(0);
    assert_eq!(first.magnitude, 0);
    assert!(!first.reverse);

    let fifth = ConstIndex::new(4);
    assert_eq!(fifth.magnitude, 4);
    assert!(!fifth.reverse);

    let last = ConstIndex::new(-1);
    assert_eq!(last.magnitude, 1);
    assert!(last.reverse);

    let third_to_last = ConstIndex::new(-3);
    assert_eq!(third_to_last.magnitude, 3);
    assert!(third_to_last.reverse);
}

#[test]
fn the_extreme_signed_indices_convert_without_overflow() {
    let largest = ConstIndex::new(isize::MAX);
    assert_eq!(largest.magnitude, isize::MAX.unsigned_abs());
    assert!(!largest.reverse);

    let smallest = ConstIndex::new(isize::MIN);
    assert_eq!(smallest.magnitude, isize::MIN.unsigned_abs());
    assert_eq!(smallest.magnitude, isize::MAX.unsigned_abs() + 1);
    assert!(smallest.reverse);
}

#[test]
fn from_start_and_from_end_keep_the_magnitude() {
    let forward = ConstIndex::from_start(7);
    assert_eq!(forward.magnitude, 7);
    assert!(!forward.reverse);

    let backward = ConstIndex::from_end(7);
    assert_eq!(backward.magnitude, 7);
    assert!(backward.reverse);

    let past_signed = ConstIndex::from_start(usize::MAX);
    assert_eq!(past_signed.magnitude, usize::MAX);
}

#[test]
fn a_forward_index_is_valid_below_the_guarantee() {
    assert!(valid(ConstIndex::new(0), 1));
    assert!(!valid(ConstIndex::new(1), 1));
    assert!(valid(ConstIndex::new(0), 3));
    assert!(valid(ConstIndex::new(2), 3));
    assert!(!valid(ConstIndex::new(3), 3));
    assert!(!valid(ConstIndex::new(4), 3));
    assert!(!valid(ConstIndex::new(0), 0));
}

#[test]
fn a_reverse_index_is_valid_from_one_up_to_the_guarantee() {
    assert!(valid(ConstIndex::new(-1), 1));
    assert!(!valid(ConstIndex::new(-2), 1));
    assert!(valid(ConstIndex::new(-1), 3));
    assert!(valid(ConstIndex::new(-3), 3));
    assert!(!valid(ConstIndex::new(-4), 3));
    assert!(!valid(ConstIndex::new(-1), 0));
    // A reverse index of zero would name the position one past the end.
    assert!(!valid(ConstIndex::from_end(0), 3));
    assert!(!valid(ConstIndex::from_end(0), 0));
}

#[test]
fn a_guarantee_of_one_admits_exactly_the_two_extremes() {
    assert!(valid(ConstIndex::new(0), 1));
    assert!(valid(ConstIndex::new(-1), 1));
    assert!(!valid(ConstIndex::new(1), 1));
    assert!(!valid(ConstIndex::new(-2), 1));
    assert!(!valid(ConstIndex::from_end(0), 1));
}

#[test]
fn the_largest_guarantee_does_not_overflow_the_reverse_check() {
    assert!(valid(ConstIndex::from_end(usize::MAX), usize::MAX));
    assert!(valid(ConstIndex::from_end(1), usize::MAX));
    assert!(!valid(ConstIndex::from_end(0), usize::MAX));
    assert!(!valid(ConstIndex::from_end(usize::MAX), usize::MAX - 1));
    assert!(valid(ConstIndex::from_start(usize::MAX - 1), usize::MAX));
    assert!(!valid(ConstIndex::from_start(usize::MAX), usize::MAX));
}

#[test]
fn validity_grows_with_the_guarantee() {
    let index = ConstIndex::new(-2);
    assert!(!valid(index, 0));
    assert!(!valid(index, 1));
    assert!(valid(index, 2));
    assert!(valid(index, 3));
    assert!(valid(index, 1000));
}

#[test]
fn only_zero_is_not_non_zero() {
    assert!(!ConstNum { value: 0 }.check_non_zero());
    assert!(ConstNum { value: 1 }.check_non_zero());
    assert!(ConstNum { value: 2 }.check_non_zero());
    assert!(ConstNum { value: usize::MAX }.check_non_zero());
}

#[test]
fn non_zero_is_what_the_first_and_the_last_element_need() {
    for value in [0usize, 1, 2, 17] {
        let guarantee = ConstNum { value };
        assert_eq!(guarantee.check_non_zero(), valid(ConstIndex::new(0), value));
        assert_eq!(guarantee.check_non_zero(), valid(ConstIndex::new(-1), value));
    }
}

#[test]
fn resolve_counts_forward_from_the_start() {
    assert_eq!(ConstIndex::new(0).resolve(5), 0);
    assert_eq!(ConstIndex::new(3).resolve(5), 3);
    assert_eq!(ConstIndex::new(4).resolve(5), 4);
    assert_eq!(ConstIndex::new(0).resolve(1), 0);
}

#[test]
fn resolve_counts_backward_from_the_end() {
    assert_eq!(ConstIndex::new(-1).resolve(5), 4);
    assert_eq!(ConstIndex::new(-2).resolve(5), 3);
    assert_eq!(ConstIndex::new(-5).resolve(5), 0);
    assert_eq!(ConstIndex::new(-1).resolve(1), 0);
}

#[test]
fn a_forward_index_and_its_mirror_name_the_same_position() {
    let len: usize = 6;
    for forward in 0..len {
        let mirror = ConstIndex::from_end(len - forward);
        assert_eq!(ConstIndex::from_start(forward).resolve(len), mirror.resolve(len));
        assert!(valid(mirror, len));
    }
}

use space_booking::window::{is_valid_window, overlaps, MAX_DURATION};

#[test]
fn windows_overlap_when_each_starts_before_the_other_ends() {
    assert!(overlaps(10, 20, 15, 25));
    assert!(overlaps(15, 25, 10, 20));
    assert!(overlaps(10, 20, 10, 20));
    assert!(overlaps(10, 20, 12, 13));
    assert!(overlaps(12, 13, 10, 20));
    assert!(overlaps(10, 20, 19, 30));
}

#[test]
fn windows_that_touch_or_lie_apart_do_not_overlap() {
    assert!(!overlaps(10, 20, 20, 30));
    assert!(!overlaps(20, 30, 10, 20));
    assert!(!overlaps(10, 20, 21, 30));
    assert!(!overlaps(i64::MIN, 0, 0, i64::MAX));
}

#[test]
fn a_window_lasts_more_than_nothing_and_at_most_two_hours() {
    assert_eq!(MAX_DURATION, 7_200);
    assert!(is_valid_window(0, 1));
    assert!(is_valid_window(0, 7_200));
    assert!(!is_valid_window(0, 7_201));
    assert!(!is_valid_window(5, 5));
    assert!(!is_valid_window(6, 5));
    assert!(is_valid_window(-3_600, 3_600));
    assert!(!is_valid_window(-3_601, 3_600));
    assert!(is_valid_window(-7_200, 0));
}

#[test]
fn window_lengths_are_judged_without_overflow() {
    assert!(!is_valid_window(i64::MIN, i64::MAX));
    assert!(!is_valid_window(i64::MAX, i64::MIN));
    assert!(!is_valid_window(-1, i64::MAX));
    assert!(!is_valid_window(i64::MIN, 0));
    assert!(is_valid_window(i64::MAX - 7_200, i64::MAX));
    assert!(is_valid_window(i64::MIN, i64::MIN + 7_200));
    assert!(!is_valid_window(i64::MIN, i64::MIN + 7_201));
}

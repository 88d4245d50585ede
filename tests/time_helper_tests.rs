use webreg_scraper::time_helper::{calculate_time_with_offset, time_conflicts};

const BASE_TIME: (i16, i16) = (5, 10);

#[test]
fn basic_offset() {
    assert_eq!((5, 15), calculate_time_with_offset(BASE_TIME, 5));
}

#[test]
fn basic_offset_2() {
    assert_eq!((5, 59), calculate_time_with_offset(BASE_TIME, 49));
}

#[test]
fn offset_over_pos_1() {
    assert_eq!((6, 30), calculate_time_with_offset(BASE_TIME, 80));
}

#[test]
fn offset_over_pos_2() {
    assert_eq!((7, 15), calculate_time_with_offset(BASE_TIME, 125));
}

#[test]
fn offset_over_neg_1() {
    assert_eq!((4, 30), calculate_time_with_offset(BASE_TIME, -40));
}

#[test]
fn offset_over_neg_2() {
    assert_eq!((3, 5), calculate_time_with_offset(BASE_TIME, -125));
}

#[test]
fn general_no_conflict() {
    assert!(!time_conflicts((10, 0), (10, 50), (11, 0), (11, 50)));
}

#[test]
fn general_no_conflict_rev() {
    assert!(!time_conflicts((11, 0), (11, 50), (10, 0), (10, 50)));
}

#[test]
fn close_no_conflict() {
    assert!(!time_conflicts((15, 20), (15, 30), (15, 31), (15, 33)));
}

#[test]
fn close_no_conflict_rev() {
    assert!(!time_conflicts((15, 31), (15, 33), (15, 20), (15, 30)));
}

#[test]
fn right_conflict() {
    assert!(time_conflicts((10, 0), (10, 50), (10, 15), (11, 50)));
}

#[test]
fn right_conflict_rev() {
    assert!(time_conflicts((10, 15), (11, 50), (10, 0), (10, 50)));
}

#[test]
fn close_right_conflict() {
    assert!(time_conflicts((19, 0), (19, 30), (19, 30), (19, 40)));
}

#[test]
fn close_right_conflict_rev() {
    assert!(time_conflicts((19, 30), (19, 40), (19, 0), (19, 30)));
}

#[test]
fn left_conflict() {
    assert!(time_conflicts((10, 15), (11, 0), (10, 0), (10, 50)));
}

#[test]
fn left_conflict_rev() {
    assert!(time_conflicts((10, 0), (10, 50), (10, 15), (11, 0)));
}

#[test]
fn close_left_conflict() {
    assert!(time_conflicts((9, 15), (10, 0), (10, 0), (10, 50)));
}

#[test]
fn close_left_conflict_rev() {
    assert!(time_conflicts((10, 0), (10, 50), (9, 15), (10, 0)));
}

#[test]
fn overlap_conflict() {
    assert!(time_conflicts((10, 0), (10, 50), (10, 20), (10, 40)));
}

#[test]
fn overlap_conflict_rev() {
    assert!(time_conflicts((10, 20), (10, 40), (10, 0), (10, 50)));
}

#[test]
fn full_overlap_conflict() {
    assert!(time_conflicts((10, 0), (10, 50), (10, 0), (10, 50)));
}

#[test]
fn offset_negative_minutes_borrow_across_hours() {
    assert_eq!((-1, 50), calculate_time_with_offset((0, 0), -10));
}

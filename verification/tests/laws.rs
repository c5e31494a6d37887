use erange::ERange;
use erange::IterAB;

#[test]
fn interval_ascending_unit() {
    let result: Vec<i64> = ERange::from_interval(1, 5).drain();
    assert_eq!(vec![1, 2, 3, 4], result);
}

#[test]
fn interval_descending_unit() {
    let result: Vec<i64> = ERange::from_interval(3, -2).drain();
    assert_eq!(vec![3, 2, 1, 0, -1], result);
}

#[test]
fn interval_adjacent_bounds_are_empty() {
    // With only one value between the bounds, the first advance already
    // overshoots, so classification stops the range at construction.
    assert_eq!(Vec::<i64>::new(), ERange::from_interval(4, 5).drain());
    assert_eq!(Vec::<i64>::new(), ERange::from_interval(5, 4).drain());
    assert_eq!(Vec::<i64>::new(), ERange::from_interval(6, 6).drain());
}

#[test]
fn reversed_interval_unit_step() {
    let result: Vec<i64> = ERange::new(5, 1, -1).drain();
    assert_eq!(vec![5, 4, 3, 2], result);
}

#[test]
fn large_negative_step_skips() {
    let result: Vec<i64> = ERange::new(5, 1, -2).drain();
    assert_eq!(vec![5, 3], result);
}

#[test]
fn large_positive_step_skips() {
    let result: Vec<i64> = ERange::new(1, 10, 3).drain();
    assert_eq!(vec![1, 4, 7], result);
}

#[test]
fn from_range_with_step() {
    assert_eq!(vec![5, 3], ERange::from_range(5..1, -2).drain());
    assert_eq!(vec![1, 3, 5], ERange::from_range(1..7, 2).drain());
}

#[test]
fn exhaustion_is_permanent() {
    let mut r = ERange::new(0, 3, 1);
    assert_eq!(Some(0), r.next());
    assert_eq!(Some(1), r.next());
    assert_eq!(Some(2), r.next());
    assert_eq!(None, r.next());
    assert_eq!(None, r.next());
    assert_eq!(None, r.next());
}

#[test]
fn exhaustion_is_permanent_dual() {
    let mut it = IterAB::from_bounds(1, 3);
    assert_eq!(Some(1), it.next());
    assert_eq!(Some(2), it.next());
    assert_eq!(None, it.next());
    assert_eq!(None, it.next());
}

#[test]
fn is_exhausted_tracks_draining() {
    let mut r = ERange::new(5, 1, -2);
    assert!(!r.is_exhausted());
    r.drain();
    assert!(r.is_exhausted());
    let mut it = IterAB::from_bounds(3, 3);
    assert!(it.is_exhausted());
    assert_eq!(None, it.next());
}

#[test]
fn identical_arguments_drain_identically() {
    let a: Vec<i64> = ERange::new(-7, 20, 4).drain();
    let b: Vec<i64> = ERange::new(-7, 20, 4).drain();
    assert_eq!(a, b);
    let c: Vec<i64> = IterAB::from_bounds(9, -3).drain();
    let d: Vec<i64> = IterAB::from_bounds(9, -3).drain();
    assert_eq!(c, d);
}

#[test]
fn equal_bounds_are_empty_for_any_step() {
    assert_eq!(Vec::<i64>::new(), ERange::new(7, 7, 5).drain());
    assert_eq!(Vec::<i64>::new(), ERange::new(7, 7, -5).drain());
    assert_eq!(Vec::<i64>::new(), ERange::new(0, 0, 0).drain());
    assert_eq!(Vec::<i64>::new(), ERange::new(i64::MIN, i64::MIN, 1).drain());
}

#[test]
fn degenerate_steps_are_empty() {
    // A zero step and a step against the order of the bounds would never
    // approach the bound; both are classified as stopped at construction.
    assert_eq!(Vec::<i64>::new(), ERange::new(1, 9, 0).drain());
    assert_eq!(Vec::<i64>::new(), ERange::new(1, 9, -1).drain());
    assert_eq!(Vec::<i64>::new(), ERange::new(9, 1, 2).drain());
}

#[test]
fn immediate_overshoot_is_empty() {
    assert_eq!(Vec::<i64>::new(), ERange::new(1, 5, 10).drain());
    assert_eq!(Vec::<i64>::new(), ERange::new(5, 1, -10).drain());
}

#[test]
fn cursor_overflow_stops_at_bound() {
    // The second advance would leave i64; the sum is then already past the
    // bound, so the range stops after yielding the captured value.
    let step: i64 = 1 << 62;
    let result: Vec<i64> = ERange::new(0, i64::MAX, step).drain();
    assert_eq!(vec![0, step], result);
    let down: Vec<i64> = ERange::new(0, i64::MIN, -step).drain();
    assert_eq!(vec![0, -step], down);
}

#[test]
fn overshooting_extreme_step_is_empty() {
    assert_eq!(Vec::<i64>::new(), ERange::new(i64::MAX - 1, i64::MAX, i64::MAX).drain());
}

#[test]
fn bounds_adjacent_and_equal() {
    assert_eq!(vec![4], IterAB::from_bounds(4, 5).drain());
    assert_eq!(vec![5], IterAB::from_bounds(5, 4).drain());
    assert_eq!(Vec::<i64>::new(), IterAB::from_bounds(5, 5).drain());
}

#[test]
fn bounds_across_zero() {
    assert_eq!(vec![-3, -2, -1, 0], IterAB::from_bounds(-3, 1).drain());
    assert_eq!(vec![1, 0, -1, -2], IterAB::from_bounds(1, -3).drain());
}

#[test]
fn bounds_at_extremes() {
    assert_eq!(Vec::<i64>::new(), IterAB::from_bounds(i64::MIN, i64::MIN).drain());
    assert_eq!(vec![i64::MAX, i64::MAX - 1], IterAB::from_bounds(i64::MAX, i64::MAX - 2).drain());
}

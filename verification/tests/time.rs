use ratelim::{Duration, Instant};

#[test]
fn duration_counts_nanoseconds() {
    assert_eq!(Duration::from_millis(50).as_nanos(), 50_000_000);
    assert_eq!(Duration::from_millis(0).as_nanos(), 0);
    assert_eq!(
        Duration::from_millis(u64::MAX).as_nanos(),
        18_446_744_073_709_551_615_000_000
    );
    assert_eq!(Duration::from_nanos(7).as_nanos(), 7);
    assert_eq!(Duration::from_nanos(u128::MAX).as_nanos(), u128::MAX);
    assert_eq!(Duration::from_millis(3), Duration::from_nanos(3_000_000));
}

#[test]
fn duration_is_zero_only_when_empty() {
    assert!(Duration::from_nanos(0).is_zero());
    assert!(Duration::from_millis(0).is_zero());
    assert!(!Duration::from_nanos(1).is_zero());
    assert!(!Duration::from_millis(1).is_zero());
}

#[test]
fn duration_minus_takes_the_spent_part_away() {
    let fifty = Duration::from_millis(50);
    assert_eq!(fifty.minus(Duration::from_millis(10)), Duration::from_millis(40));
    assert_eq!(fifty.minus(fifty), Duration::from_nanos(0));
    assert_eq!(
        Duration::from_nanos(5).minus(Duration::from_nanos(0)),
        Duration::from_nanos(5)
    );
}

#[test]
fn duration_plus_joins_two_spans() {
    let fifty = Duration::from_millis(50);
    assert_eq!(fifty.plus(Duration::from_millis(10)), Duration::from_millis(60));
    assert_eq!(fifty.plus(Duration::from_nanos(0)), fifty);
    assert_eq!(
        Duration::from_nanos(u128::MAX - 1).plus(Duration::from_nanos(1)),
        Duration::from_nanos(u128::MAX)
    );
}

#[test]
fn durations_are_ordered_by_length() {
    assert!(Duration::from_millis(10) < Duration::from_millis(11));
    assert!(Duration::from_nanos(999_999) < Duration::from_millis(1));
    assert!(Duration::from_millis(2) > Duration::from_nanos(1_999_999));
}

#[test]
fn instant_lies_its_offset_after_the_origin() {
    let t = Instant::after_origin(Duration::from_millis(3));
    assert_eq!(t, Instant::after_origin(Duration::from_nanos(3_000_000)));
    assert_eq!(
        t.duration_since(Instant::after_origin(Duration::from_nanos(0))),
        Duration::from_millis(3)
    );
}

#[test]
fn instant_duration_since_is_the_distance() {
    let early = Instant::after_origin(Duration::from_millis(10));
    let late = Instant::after_origin(Duration::from_millis(30));
    assert_eq!(late.duration_since(early), Duration::from_millis(20));
    assert_eq!(late.duration_since(late), Duration::from_nanos(0));
}

#[test]
fn instant_is_before_is_strict() {
    let ten = Instant::after_origin(Duration::from_millis(10));
    let eleven = Instant::after_origin(Duration::from_millis(11));
    assert!(ten.is_before(eleven));
    assert!(!eleven.is_before(eleven));
    assert!(!eleven.is_before(ten));
    assert!(ten < eleven);
}

#[test]
fn instant_not_before_is_the_later_of_two() {
    let ten = Instant::after_origin(Duration::from_millis(10));
    let eleven = Instant::after_origin(Duration::from_millis(11));
    assert_eq!(ten.not_before(eleven), eleven);
    assert_eq!(eleven.not_before(ten), eleven);
    assert_eq!(ten.not_before(ten), ten);
}

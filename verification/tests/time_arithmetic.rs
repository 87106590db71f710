use timekeeping::time::{Duration, Instant, MAX_NANOS, NANOS_PER_SEC};

fn at_secs(secs: u64) -> Instant {
    Instant::after_origin(Duration::from_secs(secs))
}

#[test]
fn duration_from_secs_keeps_whole_seconds() {
    let d = Duration::from_secs(32);
    assert_eq!(32, d.as_secs());
    assert_eq!(0, d.subsec_nanos());
}

#[test]
fn duration_new_splits_into_seconds_and_fraction() {
    let d = Duration::new(5, 250_000_000);
    assert_eq!(5, d.as_secs());
    assert_eq!(250_000_000, d.subsec_nanos());
}

#[test]
fn duration_new_carries_whole_seconds_out_of_the_nanoseconds() {
    let d = Duration::new(5, 2_500_000_000);
    assert_eq!(7, d.as_secs());
    assert_eq!(500_000_000, d.subsec_nanos());
    assert_eq!(Duration::new(7, 500_000_000), d);
}

#[test]
fn duration_holds_the_longest_span() {
    let d = Duration::new(u64::MAX, 999_999_999);
    assert_eq!(u64::MAX, d.as_secs());
    assert_eq!(999_999_999, d.subsec_nanos());
    assert_eq!(Instant::latest().since_origin(), d);
}

#[test]
fn zero_duration_is_zero_seconds() {
    let d = Duration::from_secs(0);
    assert_eq!(0, d.as_secs());
    assert_eq!(Duration::new(0, 0), d);
}

#[test]
fn the_limit_is_the_longest_span_in_nanoseconds() {
    assert_eq!(1_000_000_000, NANOS_PER_SEC);
    assert_eq!((u64::MAX as u128) * 1_000_000_000 + 999_999_999, MAX_NANOS);
}

#[test]
fn adding_then_subtracting_gives_the_span_back() {
    let a = at_secs(1_000);
    let spans = [
        Duration::from_secs(0),
        Duration::from_secs(32),
        Duration::new(1, 1),
        Duration::new(86_400, 999_999_999),
    ];
    for d in spans {
        assert_eq!(d, (a + d) - a);
        assert_eq!(d, a.checked_add(d).unwrap().duration_since(a));
    }
}

#[test]
fn adding_then_subtracting_holds_up_to_the_end_of_the_timeline() {
    let a = at_secs(7);
    let d = Instant::latest().duration_since(a);
    assert_eq!(Some(Instant::latest()), a.checked_add(d));
    assert_eq!(d, (a + d) - a);
}

#[test]
fn checked_add_gives_the_later_instant() {
    let a = at_secs(10);
    let sum = a.checked_add(Duration::new(32, 5)).unwrap();
    assert_eq!(Duration::new(42, 5), sum.since_origin());
    assert!(sum > a);
}

#[test]
fn checked_add_refuses_a_sum_beyond_the_timeline() {
    let one_nano = Duration::new(0, 1);
    assert_eq!(None, Instant::latest().checked_add(one_nano));
    assert_eq!(None, at_secs(1).checked_add(Duration::new(u64::MAX, 0)));
    assert_eq!(
        Some(Instant::latest()),
        Instant::latest().checked_add(Duration::from_secs(0))
    );
}

#[test]
fn duration_since_an_equal_instant_is_zero() {
    let a = at_secs(5);
    assert_eq!(Duration::from_secs(0), a.duration_since(a));
    assert_eq!(Duration::from_secs(0), a - a);
}

#[test]
fn duration_since_a_later_instant_is_zero() {
    let earlier = at_secs(5);
    let later = at_secs(9);
    assert_eq!(Duration::from_secs(4), later.duration_since(earlier));
    assert_eq!(Duration::from_secs(0), earlier.duration_since(later));
    assert_eq!(Duration::from_secs(0), earlier - later);
}

#[test]
fn instants_are_ordered_by_time() {
    let a = at_secs(5);
    let b = Instant::after_origin(Duration::new(5, 1));
    assert!(a < b);
    assert!(a <= b);
    assert!(b > a);
    assert!(b >= a);
    assert!(a <= a);
    assert!(!(a < a));
    assert_ne!(a, b);
    assert_eq!(a, at_secs(5));
    assert_eq!(b, a.max(b));
}

#[test]
fn durations_are_ordered_by_length() {
    let short = Duration::new(1, 999_999_999);
    let long = Duration::from_secs(2);
    assert!(short < long);
    assert!(long > short);
    assert!(short <= short);
    assert_eq!(long, short.max(long));
}

#[test]
fn origin_and_back() {
    let d = Duration::new(12, 34);
    assert_eq!(d, Instant::after_origin(d).since_origin());
    assert_eq!(Duration::from_secs(0), Instant::after_origin(Duration::from_secs(0)).since_origin());
}

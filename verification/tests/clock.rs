use workload_supervisor::clock::{Moment, Span, NANOS_PER_MILLI, NANOS_PER_SEC};

#[test]
fn spans_are_counted_in_nanoseconds() {
    assert_eq!(NANOS_PER_SEC, 1_000_000_000);
    assert_eq!(NANOS_PER_MILLI, 1_000_000);
    assert_eq!(Span::from_secs(10), Span { nanos: 10_000_000_000 });
    assert_eq!(Span::from_millis(50), Span { nanos: 50_000_000 });
    assert_eq!(Span::from_secs(0), Span { nanos: 0 });
}

#[test]
fn longest_spans_do_not_overflow() {
    assert_eq!(
        Span::from_secs(u64::MAX),
        Span { nanos: 18_446_744_073_709_551_615_000_000_000 }
    );
    assert_eq!(
        Span::from_millis(u64::MAX),
        Span { nanos: 18_446_744_073_709_551_615_000_000 }
    );
}

#[test]
fn span_exceeds_only_when_strictly_longer() {
    let ten = Span::from_secs(10);
    assert!(!ten.exceeds(ten));
    assert!(Span { nanos: 10_000_000_001 }.exceeds(ten));
    assert!(!Span { nanos: 9_999_999_999 }.exceeds(ten));
}

#[test]
fn elapsed_time_is_the_difference_of_readings() {
    let early = Moment { nanos: 1_500 };
    let late = Moment { nanos: 4_000 };
    assert_eq!(late.since(early), Span { nanos: 2_500 });
    assert_eq!(late.since(late), Span { nanos: 0 });
}

#[test]
fn elapsed_time_is_zero_for_a_later_start() {
    let early = Moment { nanos: 1_500 };
    let late = Moment { nanos: 4_000 };
    assert_eq!(early.since(late), Span { nanos: 0 });
    assert_eq!(Moment { nanos: 0 }.since(Moment { nanos: u128::MAX }), Span { nanos: 0 });
    assert_eq!(
        Moment { nanos: u128::MAX }.since(Moment { nanos: 0 }),
        Span { nanos: u128::MAX }
    );
}

#[test]
fn moment_is_after_only_when_strictly_later() {
    let at = Moment { nanos: 7 };
    assert!(!at.is_after(at));
    assert!(Moment { nanos: 8 }.is_after(at));
    assert!(!Moment { nanos: 6 }.is_after(at));
}

use workload_supervisor::attempt::{Attempt, Method, Trial, Verdict, AWAIT_DURATION_MS};
use workload_supervisor::clock::{Moment, Span};

fn at(millis: u64) -> Moment {
    Moment { nanos: Span::from_millis(millis).nanos }
}

fn failure(millis: u64) -> Trial {
    Trial { succeeded: false, at: at(millis) }
}

fn success(millis: u64) -> Trial {
    Trial { succeeded: true, at: at(millis) }
}

/// Runs an operation whose tries go as `outcomes` says, as a driver would,
/// and returns the number of tries made and the verdict that ended it.
fn drive(method: Method, outcomes: &[bool]) -> (usize, Option<Verdict>) {
    let mut attempt = Attempt::start(method, at(0));
    let mut tries = 0;
    for (i, succeeded) in outcomes.iter().enumerate() {
        tries += 1;
        let trial = Trial { succeeded: *succeeded, at: at(50 * (i as u64 + 1)) };
        match attempt.record(trial) {
            Verdict::Retry(_) => {}
            verdict => return (tries, Some(verdict)),
        }
    }
    (tries, None)
}

#[test]
fn the_pause_is_fifty_milliseconds() {
    assert_eq!(AWAIT_DURATION_MS, 50);
    let mut attempt = Attempt::start(Method::Retry(5), at(0));
    assert_eq!(attempt.record(failure(1)), Verdict::Retry(Span { nanos: 50_000_000 }));
}

#[test]
fn start_records_the_beginning() {
    let attempt = Attempt::start(Method::Retry(2), at(17));
    assert_eq!(attempt, Attempt { method: Method::Retry(2), begin: at(17), retries: 0 });
}

#[test]
fn retry_makes_one_try_more_than_the_count() {
    assert_eq!(drive(Method::Retry(3), &[false; 10]), (4, Some(Verdict::GaveUp)));
    assert_eq!(drive(Method::Retry(1), &[false; 10]), (2, Some(Verdict::GaveUp)));
}

#[test]
fn retry_zero_makes_one_try() {
    assert_eq!(drive(Method::Retry(0), &[false; 10]), (1, Some(Verdict::GaveUp)));
}

#[test]
fn retry_is_unfinished_while_tries_are_left() {
    assert_eq!(drive(Method::Retry(3), &[false, false, false]), (3, None));
}

#[test]
fn first_success_ends_the_operation() {
    assert_eq!(
        drive(Method::Retry(3), &[false, false, true, false, true]),
        (3, Some(Verdict::Succeeded))
    );
    assert_eq!(drive(Method::Retry(3), &[true, false]), (1, Some(Verdict::Succeeded)));
}

#[test]
fn success_on_the_last_try_counts() {
    assert_eq!(
        drive(Method::Retry(2), &[false, false, true]),
        (3, Some(Verdict::Succeeded))
    );
}

#[test]
fn retry_counts_its_retries() {
    let mut attempt = Attempt::start(Method::Retry(2), at(0));
    assert_eq!(attempt.record(failure(1)), Verdict::Retry(Span::from_millis(50)));
    assert_eq!(attempt.retries, 1);
    assert_eq!(attempt.record(failure(2)), Verdict::Retry(Span::from_millis(50)));
    assert_eq!(attempt.retries, 2);
    assert_eq!(attempt.record(failure(3)), Verdict::GaveUp);
    assert_eq!(attempt.retries, 2);
}

#[test]
fn retry_ignores_the_clock() {
    let mut attempt = Attempt::start(Method::Retry(1), at(0));
    let far = Trial { succeeded: false, at: Moment { nanos: u128::MAX } };
    assert_eq!(attempt.record(far), Verdict::Retry(Span::from_millis(50)));
    assert_eq!(attempt.record(far), Verdict::GaveUp);
}

#[test]
fn retry_count_at_the_limit_of_the_type() {
    let mut attempt = Attempt { method: Method::Retry(u64::MAX), begin: at(0), retries: u64::MAX - 1 };
    assert_eq!(attempt.record(failure(1)), Verdict::Retry(Span::from_millis(50)));
    assert_eq!(attempt.retries, u64::MAX);
    assert_eq!(attempt.record(failure(2)), Verdict::GaveUp);
    assert_eq!(attempt.retries, u64::MAX);
}

#[test]
fn success_leaves_the_attempt_as_it_was() {
    let mut attempt = Attempt { method: Method::Retry(4), begin: at(0), retries: 2 };
    assert_eq!(attempt.record(success(9)), Verdict::Succeeded);
    assert_eq!(attempt, Attempt { method: Method::Retry(4), begin: at(0), retries: 2 });
}

#[test]
fn timeout_retries_until_the_limit_has_passed() {
    let mut attempt = Attempt::start(Method::Timeout(Span::from_secs(10)), at(1_000));
    assert_eq!(attempt.record(failure(1_001)), Verdict::Retry(Span::from_millis(50)));
    assert_eq!(attempt.record(failure(10_999)), Verdict::Retry(Span::from_millis(50)));
    // Exactly the limit has passed: not yet more than the limit.
    assert_eq!(attempt.record(failure(11_000)), Verdict::Retry(Span::from_millis(50)));
    assert_eq!(attempt.record(failure(11_001)), Verdict::GaveUp);
    assert_eq!(attempt.retries, 0);
}

#[test]
fn timeout_of_zero_still_makes_one_try() {
    let mut attempt = Attempt::start(Method::Timeout(Span::from_secs(0)), at(5));
    assert_eq!(attempt.record(success(6)), Verdict::Succeeded);
    let mut attempt = Attempt::start(Method::Timeout(Span::from_secs(0)), at(5));
    assert_eq!(attempt.record(failure(5)), Verdict::Retry(Span::from_millis(50)));
    assert_eq!(attempt.record(failure(6)), Verdict::GaveUp);
}

#[test]
fn timeout_counts_from_the_beginning_not_from_the_last_try() {
    let mut attempt = Attempt::start(Method::Timeout(Span::from_millis(100)), at(0));
    assert_eq!(attempt.record(failure(60)), Verdict::Retry(Span::from_millis(50)));
    assert_eq!(attempt.record(failure(101)), Verdict::GaveUp);
}

#[test]
fn timeout_succeeds_even_after_the_limit() {
    let mut attempt = Attempt::start(Method::Timeout(Span::from_millis(100)), at(0));
    assert_eq!(attempt.record(success(5_000)), Verdict::Succeeded);
}

#[test]
fn deadline_retries_until_the_clock_has_passed_it() {
    let mut attempt = Attempt::start(Method::Deadline(at(500)), at(0));
    assert_eq!(attempt.record(failure(499)), Verdict::Retry(Span::from_millis(50)));
    assert_eq!(attempt.record(failure(500)), Verdict::Retry(Span::from_millis(50)));
    assert_eq!(attempt.record(failure(501)), Verdict::GaveUp);
}

#[test]
fn deadline_in_the_past_still_makes_one_try() {
    let mut attempt = Attempt::start(Method::Deadline(at(10)), at(100));
    assert_eq!(attempt.record(success(101)), Verdict::Succeeded);
    let mut attempt = Attempt::start(Method::Deadline(at(10)), at(100));
    assert_eq!(attempt.record(failure(101)), Verdict::GaveUp);
}

#[test]
fn retry_never_makes_more_than_one_try_over_the_count() {
    let scripts: [&[bool]; 5] = [
        &[false, false, false, false, false, false],
        &[false, true, false, false, true, true],
        &[true, true, true, true, true, true],
        &[false, false, true, false, false, false],
        &[false, false, false, true, false, false],
    ];
    for count in 0..4u64 {
        for script in scripts {
            let (tries, _) = drive(Method::Retry(count), script);
            assert!(tries as u64 <= count + 1, "{count} retries, {script:?}");
        }
    }
}

//! Bounded retry of an operation that fails fast.
//!
//! The operation itself is run by the driver. After each try the driver
//! reports how it went and is told whether to stop or to wait and try again.

use vstd::prelude::*;
use crate::clock::{Moment, Span, NANOS_PER_MILLI};

verus! {

/// The fixed pause between two tries, in milliseconds. It is the same in
/// every mode and does not grow.
pub const AWAIT_DURATION_MS: u64 = 50;

/// When to stop trying.
#[derive(Clone, Copy, Debug, PartialEq, Eq, Structural)]
pub enum Method {
    /// Stop once more than this much time has passed since the first try began.
    Timeout(Span),
    /// Stop once the clock has passed this reading.
    Deadline(Moment),
    /// Stop after this many retries, that is after one try more than the count.
    Retry(u64),
}

/// One try as the driver saw it: how it went, and the clock when it ended.
#[derive(Clone, Copy, Debug, PartialEq, Eq, Structural)]
pub struct Trial {
    pub succeeded: bool,
    pub at: Moment,
}

/// What to do after a try.
#[derive(Clone, Copy, Debug, PartialEq, Eq, Structural)]
pub enum Verdict {
    /// The try succeeded: hand its result back, try no more.
    Succeeded,
    /// The try failed and the stop condition is not met: pause, then try again.
    Retry(Span),
    /// The try failed and the stop condition is met: hand its failure back.
    GaveUp,
}

/// The progress of one retried operation.
#[derive(Clone, Copy, Debug, PartialEq, Eq, Structural)]
pub struct Attempt {
    pub method: Method,
    /// The clock when the first try began.
    pub begin: Moment,
    /// Retries asked for so far; counted in `Retry` mode only.
    pub retries: u64,
}

/// The pause between two tries.
pub open spec fn pause() -> Span {
    Span { nanos: (AWAIT_DURATION_MS * NANOS_PER_MILLI) as u128 }
}

impl Attempt {
    pub open spec fn begun(method: Method, now: Moment) -> Attempt {
        Attempt { method, begin: now, retries: 0 }
    }

    /// Whether the stop condition is met at `now`.
    pub open spec fn exhausted(self, now: Moment) -> bool {
        match self.method {
            Method::Timeout(limit) => now.elapsed_since(self.begin).nanos > limit.nanos,
            Method::Deadline(deadline) => now.nanos > deadline.nanos,
            Method::Retry(count) => self.retries >= count,
        }
    }

    /// The verdict on a try.
    pub open spec fn verdict(self, trial: Trial) -> Verdict {
        if trial.succeeded {
            Verdict::Succeeded
        } else if self.exhausted(trial.at) {
            Verdict::GaveUp
        } else {
            Verdict::Retry(pause())
        }
    }

    /// The progress after a try.
    pub open spec fn after(self, trial: Trial) -> Attempt {
        if self.verdict(trial) is Retry && self.method is Retry {
            Attempt { retries: (self.retries + 1) as u64, ..self }
        } else {
            self
        }
    }

    /// How many tries are made when they go as `trials` says, in that order.
    /// Tries listed after the one that ends the operation are never made.
    pub open spec fn tries_made(self, trials: Seq<Trial>) -> nat
        decreases trials.len(),
    {
        if trials.len() == 0 {
            0
        } else if self.verdict(trials[0]) is Retry {
            1 + self.after(trials[0]).tries_made(trials.drop_first())
        } else {
            1
        }
    }

    /// The verdict that ends the operation when its tries go as `trials`
    /// says, or `None` where the list runs out before the operation ends.
    pub open spec fn ending(self, trials: Seq<Trial>) -> Option<Verdict>
        decreases trials.len(),
    {
        if trials.len() == 0 {
            None
        } else if self.verdict(trials[0]) is Retry {
            self.after(trials[0]).ending(trials.drop_first())
        } else {
            Some(self.verdict(trials[0]))
        }
    }

    /// Starts with the first try about to begin at `now`.
    pub fn start(method: Method, now: Moment) -> (attempt: Attempt)
        ensures
            attempt == Attempt::begun(method, now),
    {
        Attempt { method, begin: now, retries: 0 }
    }

    /// Takes note of a try that ended at `trial.at` and says what to do next.
    pub fn record(&mut self, trial: Trial) -> (verdict: Verdict)
        ensures
            verdict == old(self).verdict(trial),
            *final(self) == old(self).after(trial),
    {
        if trial.succeeded {
            return Verdict::Succeeded;
        }
        let stop: bool = match self.method {
            Method::Timeout(limit) => trial.at.since(self.begin).exceeds(limit),
            Method::Deadline(deadline) => trial.at.is_after(deadline),
            Method::Retry(count) => self.retries >= count,
        };
        if stop {
            return Verdict::GaveUp;
        }
        if let Method::Retry(count) = self.method {
            self.retries = self.retries + 1;
        }
        Verdict::Retry(Span::from_millis(AWAIT_DURATION_MS))
    }
}

/// In `Retry` mode, with `self.retries` retries already used, an operation
/// that fails `first` times and then succeeds is tried `first + 1` times.
proof fn lemma_retry_until_success(attempt: Attempt, trials: Seq<Trial>, first: int)
    requires
        attempt.method matches Method::Retry(count) && attempt.retries + first <= count,
        0 <= first < trials.len(),
        trials[first].succeeded,
        forall|i: int| 0 <= i < first ==> !trials[i].succeeded,
    ensures
        attempt.tries_made(trials) == first + 1,
        attempt.ending(trials) == Some(Verdict::Succeeded),
    decreases first,
{
    if first > 0 {
        let rest = trials.drop_first();
        assert(rest[first - 1] == trials[first]);
        assert forall|i: int| 0 <= i < first - 1 implies !rest[i].succeeded by {
            assert(rest[i] == trials[i + 1]);
        }
        lemma_retry_until_success(attempt.after(trials[0]), rest, first - 1);
    }
}

/// In `Retry` mode, with `self.retries` retries already used, an operation
/// whose tries all fail is tried once for each retry that is left, and once more.
proof fn lemma_retry_until_given_up(attempt: Attempt, trials: Seq<Trial>)
    requires
        attempt.method matches Method::Retry(count) && attempt.retries <= count
            && trials.len() > count - attempt.retries,
        forall|i: int|
            0 <= i <= attempt.method->Retry_0 - attempt.retries ==> !trials[i].succeeded,
    ensures
        attempt.tries_made(trials) == attempt.method->Retry_0 - attempt.retries + 1,
        attempt.ending(trials) == Some(Verdict::GaveUp),
    decreases attempt.method->Retry_0 - attempt.retries,
{
    let count = attempt.method->Retry_0;
    assert(!trials[0].succeeded);
    if attempt.retries < count {
        let rest = trials.drop_first();
        let next = attempt.after(trials[0]);
        assert forall|i: int| 0 <= i <= count - next.retries implies !rest[i].succeeded by {
            assert(rest[i] == trials[i + 1]);
        }
        lemma_retry_until_given_up(next, rest);
    }
}

/// In `Retry(count)` mode an operation whose tries all fail is tried exactly
/// `count + 1` times, whatever the clock says, and is then given up.
pub proof fn retry_gives_up_after_count_plus_one(count: u64, begin: Moment, trials: Seq<Trial>)
    requires
        trials.len() > count,
        forall|i: int| 0 <= i <= count ==> !trials[i].succeeded,
    ensures
        Attempt::begun(Method::Retry(count), begin).tries_made(trials) == count + 1,
        Attempt::begun(Method::Retry(count), begin).ending(trials) == Some(Verdict::GaveUp),
{
    lemma_retry_until_given_up(Attempt::begun(Method::Retry(count), begin), trials);
}

/// In `Retry(count)` mode the first success among the first `count + 1` tries
/// ends the operation at once: the tries after it are not made.
pub proof fn retry_ends_at_first_success(
    count: u64,
    begin: Moment,
    trials: Seq<Trial>,
    first: int,
)
    requires
        0 <= first <= count,
        first < trials.len(),
        trials[first].succeeded,
        forall|i: int| 0 <= i < first ==> !trials[i].succeeded,
    ensures
        Attempt::begun(Method::Retry(count), begin).tries_made(trials) == first + 1,
        Attempt::begun(Method::Retry(count), begin).ending(trials) == Some(Verdict::Succeeded),
{
    lemma_retry_until_success(Attempt::begun(Method::Retry(count), begin), trials, first);
}

/// In every mode at least one try is made, and a try that succeeds is the
/// last one.
pub proof fn success_ends_any_attempt(attempt: Attempt, trials: Seq<Trial>)
    requires
        trials.len() > 0,
    ensures
        attempt.tries_made(trials) >= 1,
        trials[0].succeeded ==> attempt.tries_made(trials) == 1 && attempt.ending(trials)
            == Some(Verdict::Succeeded),
{
}

/// In `Timeout` and in `Deadline` mode an operation whose tries all fail is
/// given up at the first try that ends with the stop condition met, however
/// many tries that takes.
pub proof fn clock_bound_ends_at_first_late_failure(
    attempt: Attempt,
    trials: Seq<Trial>,
    late: int,
)
    requires
        !(attempt.method is Retry),
        0 <= late < trials.len(),
        forall|i: int| 0 <= i <= late ==> !trials[i].succeeded,
        forall|i: int| 0 <= i < late ==> !attempt.exhausted(trials[i].at),
        attempt.exhausted(trials[late].at),
    ensures
        attempt.tries_made(trials) == late + 1,
        attempt.ending(trials) == Some(Verdict::GaveUp),
    decreases late,
{
    assert(!trials[0].succeeded);
    if late > 0 {
        let rest = trials.drop_first();
        assert(!attempt.exhausted(trials[0].at));
        assert(attempt.after(trials[0]) == attempt);
        assert(rest[late - 1] == trials[late]);
        assert forall|i: int| 0 <= i <= late - 1 implies !rest[i].succeeded by {
            assert(rest[i] == trials[i + 1]);
        }
        assert forall|i: int| 0 <= i < late - 1 implies !attempt.exhausted(rest[i].at) by {
            assert(rest[i] == trials[i + 1]);
        }
        clock_bound_ends_at_first_late_failure(attempt, rest, late - 1);
    }
}

/// In `Retry` mode, with `attempt.retries` retries already used, no more
/// tries are made than one for each retry that is left, and one more.
proof fn lemma_retry_is_bounded(attempt: Attempt, trials: Seq<Trial>)
    requires
        attempt.method matches Method::Retry(count) && attempt.retries <= count,
    ensures
        attempt.tries_made(trials) <= attempt.method->Retry_0 - attempt.retries + 1,
    decreases trials.len(),
{
    if trials.len() > 0 && attempt.verdict(trials[0]) is Retry {
        lemma_retry_is_bounded(attempt.after(trials[0]), trials.drop_first());
    }
}

/// In `Retry(count)` mode no more than `count + 1` tries are made, however
/// they go.
pub proof fn retry_makes_count_plus_one_tries_at_most(
    count: u64,
    begin: Moment,
    trials: Seq<Trial>,
)
    ensures
        Attempt::begun(Method::Retry(count), begin).tries_made(trials) <= count + 1,
{
    lemma_retry_is_bounded(Attempt::begun(Method::Retry(count), begin), trials);
}

} // verus!

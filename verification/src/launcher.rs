//! Bringing the workload up and taking it down.
//!
//! Both routines are written as small machines. The driver owns the child
//! process and the administrative connection; it does the work it is asked
//! for and reports how each piece went.

use vstd::prelude::*;
use crate::attempt::{Attempt, Method, Trial, Verdict};
use crate::clock::{Moment, Span, NANOS_PER_SEC};

verus! {

/// How long, in seconds, the administrative connection is tried for after the
/// process was spawned.
pub const CONNECT_TIMEOUT_SEC: u64 = 10;

/// The host on which the workload runs and is reached: for its
/// administrative connection and for its status.
pub const WORKLOAD_HOST: &'static str = "localhost";

/// The administrative command that asks the workload to stop.
pub const STOP_COMMAND: &'static str = "stop";

/// Why the workload could not be started.
#[derive(Clone, Copy, Debug, PartialEq, Eq, Structural)]
pub enum StartError {
    /// The process could not be spawned.
    ProcessStart,
    /// No administrative connection could be made in time. The process was
    /// killed.
    ConnectFailed,
    /// The workload refused the credential. The process was killed.
    AuthFailed,
}

/// Why the workload could not be stopped.
#[derive(Clone, Copy, Debug, PartialEq, Eq, Structural)]
pub enum StopError {
    /// The process is alive and could not be killed.
    ProcessKill,
}

/// How an attempt to kill the process went.
#[derive(Clone, Copy, Debug, PartialEq, Eq, Structural)]
pub enum KillOutcome {
    /// The process was alive and has been killed.
    Killed,
    /// The process had exited before.
    AlreadyExited,
    /// The process is alive and the kill failed.
    Failed,
}

/// A piece of work for the driver.
#[derive(Clone, Copy, Debug, PartialEq, Eq, Structural)]
pub enum Work {
    /// Spawn the workload's process, in the workload's own directory.
    Spawn,
    /// Open the administrative connection, to [`WORKLOAD_HOST`].
    Connect,
    /// Sleep for the given time, then open the administrative connection.
    ConnectAfter(Span),
    /// Present the credential on the administrative connection.
    Authenticate,
    /// Kill the process.
    Kill,
    /// Send [`STOP_COMMAND`] over the administrative connection.
    SendStop,
}

/// How a piece of work went.
#[derive(Clone, Copy, Debug, PartialEq, Eq, Structural)]
pub enum Report {
    Spawned(bool),
    Connected(bool),
    Authenticated(bool),
    Killed(KillOutcome),
    StopSent(bool),
}

/// Where a start of the workload stands. Each state waits for the report on
/// one piece of work.
#[derive(Clone, Copy, Debug, PartialEq, Eq, Structural)]
pub enum Startup {
    /// Waits for `Spawned`. No process exists yet.
    Spawning,
    /// Waits for `Connected`.
    Connecting(Attempt),
    /// Waits for `Authenticated`.
    Authenticating,
    /// The start has failed for the given reason; waits for `Killed`.
    Aborting(StartError),
}

/// The next step of a start.
#[derive(Clone, Copy, Debug, PartialEq, Eq, Structural)]
pub enum StartStep {
    /// Do this work and report to this state.
    Continue(Startup, Work),
    /// The process runs and the connection is authenticated.
    Started,
    /// The start failed. No process is left running.
    Failed(StartError),
}

/// Where a stop of the workload stands.
#[derive(Clone, Copy, Debug, PartialEq, Eq, Structural)]
pub enum Shutdown {
    /// Waits for `StopSent`.
    Asking,
    /// The workload could not be asked to stop, or the stop is a forced one
    /// and it was not asked; waits for `Killed`.
    Killing,
}

/// The next step of a stop.
#[derive(Clone, Copy, Debug, PartialEq, Eq, Structural)]
pub enum StopStep {
    /// Do this work and report to this state.
    Continue(Shutdown, Work),
    /// The stop is over: the workload was told to stop, or its process is dead.
    Stopped,
    /// The stop is over and has failed.
    Failed(StopError),
}

/// The limit on the time spent connecting.
pub open spec fn connect_limit() -> Span {
    Span { nanos: (CONNECT_TIMEOUT_SEC * NANOS_PER_SEC) as u128 }
}

impl Startup {
    /// Whether a spawned process exists in this state.
    pub open spec fn owns_process(self) -> bool {
        !(self is Spawning)
    }

    /// Whether an administrative connection exists in this state that is yet
    /// to be authenticated.
    pub open spec fn owns_connection(self) -> bool {
        self is Authenticating
    }

    /// The step that `report`, received at `now`, leads to, or `None` where
    /// this state does not wait for a report of that kind.
    pub open spec fn step(self, report: Report, now: Moment) -> Option<StartStep> {
        match (self, report) {
            (Startup::Spawning, Report::Spawned(true)) => Some(
                StartStep::Continue(
                    Startup::Connecting(Attempt::begun(Method::Timeout(connect_limit()), now)),
                    Work::Connect,
                ),
            ),
            (Startup::Spawning, Report::Spawned(false)) => Some(
                StartStep::Failed(StartError::ProcessStart),
            ),
            (Startup::Connecting(attempt), Report::Connected(succeeded)) => {
                let trial = Trial { succeeded, at: now };
                Some(
                    match attempt.verdict(trial) {
                        Verdict::Succeeded => StartStep::Continue(
                            Startup::Authenticating,
                            Work::Authenticate,
                        ),
                        Verdict::Retry(pause) => StartStep::Continue(
                            Startup::Connecting(attempt.after(trial)),
                            Work::ConnectAfter(pause),
                        ),
                        Verdict::GaveUp => StartStep::Continue(
                            Startup::Aborting(StartError::ConnectFailed),
                            Work::Kill,
                        ),
                    },
                )
            },
            (Startup::Authenticating, Report::Authenticated(true)) => Some(StartStep::Started),
            (Startup::Authenticating, Report::Authenticated(false)) => Some(
                StartStep::Continue(Startup::Aborting(StartError::AuthFailed), Work::Kill),
            ),
            (Startup::Aborting(error), Report::Killed(_)) => Some(StartStep::Failed(error)),
            _ => None,
        }
    }

    /// A start that has asked for `Work::Spawn`.
    pub fn begin() -> (startup: Startup)
        ensures
            startup == Startup::Spawning,
    {
        Startup::Spawning
    }

    /// Takes the report on the work that this state waits for and decides
    /// the next step. A report of another kind is refused with `None`.
    pub fn advance(self, report: Report, now: Moment) -> (step: Option<StartStep>)
        ensures
            step == self.step(report, now),
    {
        match self {
            Startup::Spawning => match report {
                Report::Spawned(true) => {
                    let limit = Span::from_secs(CONNECT_TIMEOUT_SEC);
                    let attempt = Attempt::start(Method::Timeout(limit), now);
                    Some(StartStep::Continue(Startup::Connecting(attempt), Work::Connect))
                },
                Report::Spawned(false) => Some(StartStep::Failed(StartError::ProcessStart)),
                _ => None,
            },
            Startup::Connecting(attempt) => match report {
                Report::Connected(succeeded) => {
                    let mut attempt = attempt;
                    let next = match attempt.record(Trial { succeeded, at: now }) {
                        Verdict::Succeeded => StartStep::Continue(
                            Startup::Authenticating,
                            Work::Authenticate,
                        ),
                        Verdict::Retry(pause) => StartStep::Continue(
                            Startup::Connecting(attempt),
                            Work::ConnectAfter(pause),
                        ),
                        Verdict::GaveUp => StartStep::Continue(
                            Startup::Aborting(StartError::ConnectFailed),
                            Work::Kill,
                        ),
                    };
                    Some(next)
                },
                _ => None,
            },
            Startup::Authenticating => match report {
                Report::Authenticated(true) => Some(StartStep::Started),
                Report::Authenticated(false) => Some(
                    StartStep::Continue(Startup::Aborting(StartError::AuthFailed), Work::Kill),
                ),
                _ => None,
            },
            Startup::Aborting(error) => match report {
                Report::Killed(_) => Some(StartStep::Failed(error)),
                _ => None,
            },
        }
    }
}

/// The result of a stop, given how asking the workload to stop went and how
/// killing the process goes where it comes to that: an error only where the
/// workload could not be asked and a live process could not be killed.
pub open spec fn stop_result(asked: bool, kill: KillOutcome) -> Result<(), StopError> {
    if !asked && kill is Failed {
        Err(StopError::ProcessKill)
    } else {
        Ok(())
    }
}

impl StopStep {
    /// The step that ends a stop with `result`.
    pub open spec fn ending(result: Result<(), StopError>) -> StopStep {
        match result {
            Ok(_) => StopStep::Stopped,
            Err(error) => StopStep::Failed(error),
        }
    }
}

impl Shutdown {
    /// The step that `report` leads to, or `None` where this state does not
    /// wait for a report of that kind.
    pub open spec fn step(self, report: Report) -> Option<StopStep> {
        match (self, report) {
            (Shutdown::Asking, Report::StopSent(true)) => Some(StopStep::Stopped),
            (Shutdown::Asking, Report::StopSent(false)) => Some(
                StopStep::Continue(Shutdown::Killing, Work::Kill),
            ),
            (Shutdown::Killing, Report::Killed(outcome)) => Some(
                StopStep::ending(stop_result(false, outcome)),
            ),
            _ => None,
        }
    }

    /// A graceful stop, which has asked for `Work::SendStop`.
    pub fn begin() -> (shutdown: Shutdown)
        ensures
            shutdown == Shutdown::Asking,
    {
        Shutdown::Asking
    }

    /// A forced stop, which has asked for `Work::Kill` without a word to the
    /// workload.
    pub fn force() -> (shutdown: Shutdown)
        ensures
            shutdown == Shutdown::Killing,
    {
        Shutdown::Killing
    }

    /// Takes the report on the work that this state waits for and decides
    /// the next step. A report of another kind is refused with `None`.
    pub fn advance(self, report: Report) -> (step: Option<StopStep>)
        ensures
            step == self.step(report),
    {
        match self {
            Shutdown::Asking => match report {
                Report::StopSent(true) => Some(StopStep::Stopped),
                Report::StopSent(false) => Some(StopStep::Continue(Shutdown::Killing, Work::Kill)),
                _ => None,
            },
            Shutdown::Killing => match report {
                Report::Killed(KillOutcome::Failed) => Some(
                    StopStep::Failed(StopError::ProcessKill),
                ),
                Report::Killed(_) => Some(StopStep::Stopped),
                _ => None,
            },
        }
    }
}

/// A stop fails only where the workload could not be asked to stop and its
/// process, still alive, could not be killed. In particular it never fails
/// on a process that had already exited.
pub proof fn stop_fails_only_on_live_process(shutdown: Shutdown, report: Report)
    ensures
        shutdown.step(report) matches Some(StopStep::Failed(error)) ==> error
            == StopError::ProcessKill && shutdown == Shutdown::Killing && report == Report::Killed(
            KillOutcome::Failed,
        ),
        shutdown.step(Report::Killed(KillOutcome::AlreadyExited)) != Some(
            StopStep::Failed(StopError::ProcessKill),
        ),
        forall|asked: bool| stop_result(asked, KillOutcome::AlreadyExited) is Ok,
{
}

/// A graceful stop asks for each piece of work once at most: first for the
/// stop command, then, only where that failed, for the kill. It is over
/// after two reports at the latest, a forced stop after one, with the result
/// that `stop_result` gives.
pub proof fn stop_is_over_in_two_steps(kill: KillOutcome)
    ensures
        Shutdown::Asking.step(Report::StopSent(true)) == Some(StopStep::Stopped),
        Shutdown::Asking.step(Report::StopSent(false)) == Some(
            StopStep::Continue(Shutdown::Killing, Work::Kill),
        ),
        Shutdown::Killing.step(Report::Killed(kill)) == Some(
            StopStep::ending(stop_result(false, kill)),
        ),
        stop_result(true, kill) is Ok,
{
}

/// A start never leaves a process behind: it fails at once where nothing
/// was spawned, and otherwise only on the report of the kill that it asked
/// for when it gave up.
pub proof fn failed_start_leaves_no_process(startup: Startup, report: Report, now: Moment)
    ensures
        startup.step(report, now) matches Some(StartStep::Failed(error)) ==> {
            ||| startup == Startup::Spawning && report == Report::Spawned(false) && error
                == StartError::ProcessStart
            ||| startup == Startup::Aborting(error) && report is Killed
        },
        startup.step(report, now) matches Some(StartStep::Continue(Startup::Aborting(error), work))
            ==> work == Work::Kill && startup.owns_process() && error != StartError::ProcessStart,
        startup.step(report, now) matches Some(StartStep::Continue(next, work)) ==> (work
            == Work::Kill <==> next is Aborting),
{
}

/// A start succeeds only on the report that the credential was accepted,
/// which it waits for only once the connection has been made: the
/// credential is asked to be presented exactly where the start comes to own
/// a connection, and a start that succeeds owns one.
pub proof fn start_succeeds_on_authentication_alone(startup: Startup, report: Report, now: Moment)
    ensures
        startup.step(report, now) == Some(StartStep::Started) <==> startup
            == Startup::Authenticating && report == Report::Authenticated(true),
        startup.step(report, now) == Some(StartStep::Started) ==> startup.owns_connection()
            && startup.owns_process(),
        startup.step(report, now) matches Some(StartStep::Continue(next, work)) ==> (work
            == Work::Authenticate <==> next.owns_connection()) && (next.owns_connection()
            ==> !startup.owns_connection() && next.owns_process()),
        startup.step(report, now) matches Some(StartStep::Continue(Startup::Authenticating, work))
            ==> startup is Connecting && report == Report::Connected(true) && work
            == Work::Authenticate,
{
}

/// The connection is tried again, after the fixed pause, for as long as it
/// fails and no more than the connect limit has passed since the process
/// was spawned; the first failure after that gives the start up.
pub proof fn connecting_is_bounded_by_the_limit(begin: Moment, now: Moment)
    ensures
        ({
            let attempt = Attempt::begun(Method::Timeout(connect_limit()), begin);
            Startup::Connecting(attempt).step(Report::Connected(false), now) == Some(
                if now.elapsed_since(begin).nanos > connect_limit().nanos {
                    StartStep::Continue(Startup::Aborting(StartError::ConnectFailed), Work::Kill)
                } else {
                    StartStep::Continue(
                        Startup::Connecting(attempt),
                        Work::ConnectAfter(crate::attempt::pause()),
                    )
                },
            )
        }),
{
}

} // verus!

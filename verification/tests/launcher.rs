use workload_supervisor::attempt::{Attempt, Method};
use workload_supervisor::clock::{Moment, Span};
use workload_supervisor::launcher::{
    KillOutcome, Report, Shutdown, StartError, StartStep, Startup, StopError, StopStep, Work,
    CONNECT_TIMEOUT_SEC, STOP_COMMAND, WORKLOAD_HOST,
};

fn secs(n: u64) -> Moment {
    Moment { nanos: Span::from_secs(n).nanos }
}

fn connecting_since(n: u64) -> Startup {
    Startup::Connecting(Attempt {
        method: Method::Timeout(Span::from_secs(10)),
        begin: secs(n),
        retries: 0,
    })
}

#[test]
fn start_begins_by_spawning() {
    assert_eq!(Startup::begin(), Startup::Spawning);
}

#[test]
fn spawn_failure_fails_the_start_at_once() {
    assert_eq!(
        Startup::Spawning.advance(Report::Spawned(false), secs(1)),
        Some(StartStep::Failed(StartError::ProcessStart))
    );
}

#[test]
fn spawn_success_leads_to_connecting_for_ten_seconds() {
    assert_eq!(CONNECT_TIMEOUT_SEC, 10);
    assert_eq!(
        Startup::Spawning.advance(Report::Spawned(true), secs(3)),
        Some(StartStep::Continue(connecting_since(3), Work::Connect))
    );
}

#[test]
fn failed_connection_is_tried_again_after_the_pause() {
    assert_eq!(
        connecting_since(3).advance(Report::Connected(false), secs(4)),
        Some(StartStep::Continue(
            connecting_since(3),
            Work::ConnectAfter(Span { nanos: 50_000_000 })
        ))
    );
    assert_eq!(
        connecting_since(3).advance(Report::Connected(false), secs(13)),
        Some(StartStep::Continue(connecting_since(3), Work::ConnectAfter(Span::from_millis(50))))
    );
}

#[test]
fn connection_is_given_up_after_ten_seconds_and_the_process_killed() {
    let late = Moment { nanos: secs(13).nanos + 1 };
    assert_eq!(
        connecting_since(3).advance(Report::Connected(false), late),
        Some(StartStep::Continue(Startup::Aborting(StartError::ConnectFailed), Work::Kill))
    );
    for outcome in [KillOutcome::Killed, KillOutcome::AlreadyExited, KillOutcome::Failed] {
        assert_eq!(
            Startup::Aborting(StartError::ConnectFailed).advance(Report::Killed(outcome), late),
            Some(StartStep::Failed(StartError::ConnectFailed))
        );
    }
}

#[test]
fn connection_made_late_is_still_used() {
    assert_eq!(
        connecting_since(3).advance(Report::Connected(true), secs(100)),
        Some(StartStep::Continue(Startup::Authenticating, Work::Authenticate))
    );
}

#[test]
fn accepted_credential_completes_the_start() {
    assert_eq!(
        Startup::Authenticating.advance(Report::Authenticated(true), secs(5)),
        Some(StartStep::Started)
    );
}

#[test]
fn refused_credential_kills_the_process_before_failing() {
    assert_eq!(
        Startup::Authenticating.advance(Report::Authenticated(false), secs(5)),
        Some(StartStep::Continue(Startup::Aborting(StartError::AuthFailed), Work::Kill))
    );
    assert_eq!(
        Startup::Aborting(StartError::AuthFailed)
            .advance(Report::Killed(KillOutcome::AlreadyExited), secs(5)),
        Some(StartStep::Failed(StartError::AuthFailed))
    );
}

#[test]
fn start_refuses_reports_it_does_not_wait_for() {
    let states = [
        Startup::Spawning,
        connecting_since(0),
        Startup::Authenticating,
        Startup::Aborting(StartError::AuthFailed),
    ];
    let reports = [
        Report::Spawned(true),
        Report::Connected(true),
        Report::Authenticated(true),
        Report::Killed(KillOutcome::Killed),
        Report::StopSent(true),
    ];
    for (i, state) in states.iter().enumerate() {
        for (j, report) in reports.iter().enumerate() {
            let step = state.advance(*report, secs(1));
            assert_eq!(step.is_some(), i == j, "state {state:?}, report {report:?}");
        }
    }
}

#[test]
fn stop_begins_by_asking() {
    assert_eq!(Shutdown::begin(), Shutdown::Asking);
}

#[test]
fn forced_stop_begins_by_killing() {
    assert_eq!(Shutdown::force(), Shutdown::Killing);
    assert_eq!(Shutdown::force().advance(Report::StopSent(true)), None);
    assert_eq!(
        Shutdown::force().advance(Report::Killed(KillOutcome::Killed)),
        Some(StopStep::Stopped)
    );
    assert_eq!(
        Shutdown::force().advance(Report::Killed(KillOutcome::AlreadyExited)),
        Some(StopStep::Stopped)
    );
    assert_eq!(
        Shutdown::force().advance(Report::Killed(KillOutcome::Failed)),
        Some(StopStep::Failed(StopError::ProcessKill))
    );
}

#[test]
fn the_workload_is_reached_on_this_host_and_stopped_by_this_command() {
    assert_eq!(WORKLOAD_HOST, "localhost");
    assert_eq!(STOP_COMMAND, "stop");
}

#[test]
fn stop_command_that_goes_through_ends_the_stop() {
    assert_eq!(Shutdown::Asking.advance(Report::StopSent(true)), Some(StopStep::Stopped));
}

#[test]
fn stop_command_that_fails_leads_to_the_kill() {
    assert_eq!(
        Shutdown::Asking.advance(Report::StopSent(false)),
        Some(StopStep::Continue(Shutdown::Killing, Work::Kill))
    );
    assert_eq!(
        Shutdown::Killing.advance(Report::Killed(KillOutcome::Killed)),
        Some(StopStep::Stopped)
    );
}

#[test]
fn stopping_a_dead_process_is_no_error() {
    assert_eq!(
        Shutdown::Killing.advance(Report::Killed(KillOutcome::AlreadyExited)),
        Some(StopStep::Stopped)
    );
}

#[test]
fn kill_that_fails_on_a_live_process_is_an_error() {
    assert_eq!(
        Shutdown::Killing.advance(Report::Killed(KillOutcome::Failed)),
        Some(StopStep::Failed(StopError::ProcessKill))
    );
}

#[test]
fn stop_refuses_reports_it_does_not_wait_for() {
    assert_eq!(Shutdown::Asking.advance(Report::Killed(KillOutcome::Killed)), None);
    assert_eq!(Shutdown::Asking.advance(Report::Spawned(true)), None);
    assert_eq!(Shutdown::Killing.advance(Report::StopSent(true)), None);
    assert_eq!(Shutdown::Killing.advance(Report::StopSent(false)), None);
    assert_eq!(Shutdown::Killing.advance(Report::Connected(true)), None);
    assert_eq!(Shutdown::Killing.advance(Report::Authenticated(false)), None);
}

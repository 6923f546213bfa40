//! What holds of the supervisor in every state and on every input.
//!
//! Each statement is about [`Supervisor::react`], the function that
//! [`Supervisor::handle`] computes, or about [`Supervisor::run`], which
//! applies it to one input after another.

use vstd::prelude::*;
use crate::clock::{Moment, Span};
use crate::control::{
    Arrival, ControlCmd, ControlEvent, Effects, Fault, Input, Phase, Reply, Request, Supervisor,
    Watch, poll_period,
};
use crate::launcher::{KillOutcome, Report, Shutdown, StartError, Startup, StopError, Work};

verus! {

/// Whether `input` can be the outcome of what `request` asks for.
pub open spec fn answers(request: Request, input: Input) -> bool {
    match request {
        Request::AwaitCommand => input is Command || input is InboxClosed,
        Request::AwaitCommandFor(_) => input is Command || input is InboxClosed || input is Quiet,
        Request::QueryStatus => input is Status,
        Request::Launcher(Work::Spawn) => input matches Input::Launcher(Report::Spawned(_)),
        Request::Launcher(Work::Connect) | Request::Launcher(Work::ConnectAfter(_)) => {
            input matches Input::Launcher(Report::Connected(_))
        },
        Request::Launcher(Work::Authenticate) => input matches Input::Launcher(
            Report::Authenticated(_),
        ),
        Request::Launcher(Work::Kill) => input matches Input::Launcher(Report::Killed(_)),
        Request::Launcher(Work::SendStop) => input matches Input::Launcher(Report::StopSent(_)),
    }
}

/// The request whose outcome a phase waits for; for a start that is
/// connecting, either form of the connect request.
pub open spec fn awaited(phase: Phase, request: Request) -> bool {
    match phase {
        Phase::Idle => request == Request::AwaitCommand,
        Phase::Starting(Startup::Spawning) => request == Request::Launcher(Work::Spawn),
        Phase::Starting(Startup::Connecting(_)) => request == Request::Launcher(Work::Connect)
            || request matches Request::Launcher(Work::ConnectAfter(_)),
        Phase::Starting(Startup::Authenticating) => request == Request::Launcher(
            Work::Authenticate,
        ),
        Phase::Starting(Startup::Aborting(_)) => request == Request::Launcher(Work::Kill),
        Phase::Waiting(_) => request == Request::AwaitCommandFor(poll_period()),
        Phase::Answering(_) | Phase::Polling(_) => request == Request::QueryStatus,
        Phase::Stopping { shutdown: Shutdown::Asking, .. } => request == Request::Launcher(
            Work::SendStop,
        ),
        Phase::Stopping { shutdown: Shutdown::Killing, .. } => request == Request::Launcher(
            Work::Kill,
        ),
    }
}

/// A supervisor takes exactly the inputs that can be the outcome of the
/// request that its phase waits for. So a driver that does what it was asked
/// last and reports the outcome is never refused, and no command that the
/// inbox yields is dropped.
pub proof fn outcome_of_the_request_is_taken(
    supervisor: Supervisor,
    request: Request,
    input: Input,
    now: Moment,
)
    requires
        awaited(supervisor.phase, request),
    ensures
        supervisor.react(input, now) is Some <==> answers(request, input),
{
}

/// Every step asks for the request that the phase it leads to waits for.
pub proof fn request_is_the_one_awaited(supervisor: Supervisor, input: Input, now: Moment)
    ensures
        supervisor.react(input, now) matches Some((next, effects)) ==> awaited(
            next.phase,
            effects.request,
        ) && next.idle_timeout == supervisor.idle_timeout,
{
}

/// The workload's process is asked for only by an idle supervisor, which
/// owns none, and only on the command to start; an idle supervisor takes
/// that command whenever it comes.
pub proof fn spawn_is_asked_for_by_idle_alone(supervisor: Supervisor, input: Input, now: Moment)
    ensures
        supervisor.react(input, now) matches Some((next, effects)) ==> (effects.request
            == Request::Launcher(Work::Spawn) <==> supervisor.phase is Idle && input
            == Input::Command(ControlCmd::StartServer)),
        supervisor.phase is Idle ==> !supervisor.phase.owns_process() && supervisor.react(
            Input::Command(ControlCmd::StartServer),
            now,
        ) is Some,
{
}

/// A supervisor comes to own a process only by the report that the process
/// it asked for was spawned, and lets go of one only as it turns idle, on the
/// report that the workload was told to stop or that the kill was tried.
/// While it is active it owns a process; while it is idle it owns none.
pub proof fn process_is_owned_from_spawn_to_teardown(
    supervisor: Supervisor,
    input: Input,
    now: Moment,
)
    ensures
        supervisor.react(input, now) matches Some((next, effects)) ==> {
            &&& !supervisor.phase.owns_process() && next.phase.owns_process() ==> input
                == Input::Launcher(Report::Spawned(true))
            &&& supervisor.phase.owns_process() && !next.phase.owns_process() ==> next.phase
                is Idle && (input == Input::Launcher(Report::StopSent(true))
                || input matches Input::Launcher(Report::Killed(_)))
            &&& supervisor.phase.owns_process() && next.phase is Idle ==> !(effects.request
                == Request::Launcher(Work::Spawn))
        },
        supervisor.phase.state() is Active ==> supervisor.phase.owns_process(),
        supervisor.phase.state() is Idle ==> !supervisor.phase.owns_process(),
{
}

/// The change in the number of processes that the driver holds for the
/// supervisor, over the reports in `arrivals`: one more for each process
/// spawned, one less for each that the driver was done with, when the
/// workload had been told to stop or the kill had been tried.
pub open spec fn processes_gained(arrivals: Seq<Arrival>) -> int
    decreases arrivals.len(),
{
    if arrivals.len() == 0 {
        0
    } else {
        let change: int = match arrivals[0].input {
            Input::Launcher(Report::Spawned(true)) => 1,
            Input::Launcher(Report::StopSent(true)) | Input::Launcher(Report::Killed(_)) => -1,
            _ => 0,
        };
        change + processes_gained(arrivals.drop_first())
    }
}

/// The number of processes that exist in a phase: one or none.
pub open spec fn processes(phase: Phase) -> int {
    if phase.owns_process() {
        1
    } else {
        0
    }
}

/// However many commands to start arrive, and whatever else does, the driver
/// never holds more than one process: over any inputs that the supervisor
/// takes, the processes spawned and not yet done with are exactly the one
/// that the supervisor's phase owns, or none.
pub proof fn one_process_at_a_time(supervisor: Supervisor, arrivals: Seq<Arrival>)
    ensures
        supervisor.run(arrivals) matches Some(last) ==> processes(supervisor.phase)
            + processes_gained(arrivals) == processes(last.phase),
        supervisor.run(arrivals) is Some && supervisor.phase is Idle ==> 0 <= processes_gained(
            arrivals,
        ) <= 1,
    decreases arrivals.len(),
{
    if arrivals.len() > 0 {
        if let Some((next, _)) = supervisor.react(arrivals[0].input, arrivals[0].at) {
            one_process_at_a_time(next, arrivals.drop_first());
        }
    }
}

/// The command to start, given while the workload runs, changes nothing: no
/// event, no reply, no fault, the watch as it was. It is handed back to be
/// put on record, and the round goes on to its poll as it does when the wait
/// runs out.
pub proof fn start_while_active_is_ignored(supervisor: Supervisor, watch: Watch, now: Moment)
    requires
        supervisor.phase == Phase::Waiting(watch),
    ensures
        supervisor.react(Input::Command(ControlCmd::StartServer), now) == Some(
            (
                supervisor.turned(Phase::Polling(watch)),
                Effects {
                    ignored: Some(ControlCmd::StartServer),
                    ..Effects::only(Request::QueryStatus)
                },
            ),
        ),
        supervisor.react(Input::Quiet, now) == Some(
            (supervisor.turned(Phase::Polling(watch)), Effects::only(Request::QueryStatus)),
        ),
{
}

/// A command is set aside, and handed back to be put on record, in two cases
/// and no other: the command to start while the workload runs, and the
/// command to stop while nothing runs. Neither changes what the supervisor
/// owns or broadcasts.
pub proof fn commands_are_set_aside_where_idle_or_running(
    supervisor: Supervisor,
    input: Input,
    now: Moment,
)
    ensures
        supervisor.react(input, now) matches Some((next, effects)) ==> {
            &&& effects.ignored is Some <==> {
                ||| supervisor.phase is Waiting && input == Input::Command(ControlCmd::StartServer)
                ||| supervisor.phase is Idle && input == Input::Command(ControlCmd::StopServer)
            }
            &&& effects.ignored matches Some(command) ==> {
                &&& input == Input::Command(command)
                &&& effects.events == Seq::<ControlEvent>::empty()
                &&& effects.reply is None
                &&& effects.fault is None
                &&& next.phase.owns_process() == supervisor.phase.owns_process()
                &&& next.phase.state() == supervisor.phase.state()
            }
        },
{
}

/// While the workload runs, a wait for a command is asked for only when the
/// workload has just come up or a poll has just found it alive and not due
/// to be stopped; and whatever ends a wait, the next request is not another
/// wait. So one command at most is taken between two polls.
pub proof fn poll_separates_two_waits(supervisor: Supervisor, input: Input, now: Moment)
    ensures
        supervisor.react(input, now) matches Some((next, effects)) ==> {
            &&& effects.request is AwaitCommandFor ==> {
                ||| supervisor.phase is Polling && input matches Input::Status(Some(_))
                ||| supervisor.phase == Phase::Starting(Startup::Authenticating) && input
                    == Input::Launcher(Report::Authenticated(true))
            }
            &&& supervisor.phase is Waiting ==> !(effects.request is AwaitCommandFor)
                && !(effects.request is AwaitCommand)
            &&& next.phase is Polling ==> (supervisor.phase is Waiting || supervisor.phase
                is Answering) && effects.request == Request::QueryStatus
        },
{
}

/// A reply is given exactly on a `Query` to an idle supervisor, at once and
/// offline, and on the status that a `Query` to a running one had asked for.
/// A `Query` to a running supervisor leads to nothing but that status query,
/// so each `Query` is answered once.
pub proof fn each_query_is_answered_once(supervisor: Supervisor, input: Input, now: Moment)
    ensures
        supervisor.react(input, now) matches Some((next, effects)) ==> {
            &&& effects.reply is Some <==> (supervisor.phase is Idle && input == Input::Command(
                ControlCmd::Query,
            )) || supervisor.phase is Answering
            &&& supervisor.phase is Idle && input == Input::Command(ControlCmd::Query)
                ==> effects.reply == Some(Reply::Offline) && next == supervisor && effects.request
                == Request::AwaitCommand
            &&& next.phase is Answering <==> supervisor.phase is Waiting && input
                == Input::Command(ControlCmd::Query)
            &&& supervisor.phase is Answering ==> (input matches Input::Status(status)
                && effects.reply == Some(
                match status {
                    Some(online) => Reply::Online(online),
                    None => Reply::Offline,
                },
            ))
        },
{
}

/// A status query made to answer a `Query` leaves the watch as it was: it
/// neither resets the idle timer nor gives rise to an event.
pub proof fn answering_leaves_the_watch_alone(
    supervisor: Supervisor,
    watch: Watch,
    status: Option<u32>,
    now: Moment,
)
    requires
        supervisor.phase == Phase::Answering(watch),
    ensures
        supervisor.react(Input::Status(status), now) matches Some((next, effects)) && next.phase
            == Phase::Polling(watch) && effects.events == Seq::<ControlEvent>::empty(),
{
}

/// A stop, once begun, ends with the supervisor idle and `Stopped`
/// broadcast, whether or not the workload could be stopped; `Crashed` goes
/// before `Stopped` exactly where the stop was forced by a failure of
/// supervision. Until it ends nothing is broadcast, and the stop command is
/// not sent once the stop is under way: all that may follow is the kill,
/// after a stop command that failed.
pub proof fn every_stop_ends_idle(
    supervisor: Supervisor,
    shutdown: Shutdown,
    crashed: bool,
    input: Input,
    now: Moment,
)
    requires
        supervisor.phase == (Phase::Stopping { shutdown, crashed }),
    ensures
        supervisor.react(input, now) matches Some((next, effects)) ==> {
            &&& effects.request != Request::Launcher(Work::SendStop)
            &&& effects.reply is None
            &&& if next.phase is Idle {
                &&& effects.events == Supervisor::farewell(crashed)
                &&& effects.request == Request::AwaitCommand
                &&& effects.fault is Some <==> input == Input::Launcher(
                    Report::Killed(KillOutcome::Failed),
                )
            } else {
                &&& next.phase == (Phase::Stopping { shutdown: Shutdown::Killing, crashed })
                &&& shutdown == Shutdown::Asking
                &&& input == Input::Launcher(Report::StopSent(false))
                &&& effects == Effects::only(Request::Launcher(Work::Kill))
            }
        },
        supervisor.react(Input::Launcher(Report::StopSent(true)), now) is Some <==> shutdown
            == Shutdown::Asking,
{
}

/// A stop is begun in four cases and no other: on the command to stop, and
/// on a poll that finds the workload idle for longer than the timeout, both
/// graceful; on a closed inbox and on a failed poll, both forced. A graceful
/// stop begins with the stop command, which is sent at no other time; a
/// forced stop begins with the kill.
pub proof fn stop_is_begun_for_cause(supervisor: Supervisor, input: Input, now: Moment)
    ensures
        supervisor.react(input, now) matches Some((next, effects)) ==> {
            &&& effects.request == Request::Launcher(Work::SendStop) <==> !(supervisor.phase
                is Stopping) && next.phase == Phase::stopping(false)
            &&& !(supervisor.phase is Stopping) && next.phase is Stopping ==> {
                &&& next.phase == Phase::stopping(next.phase->crashed)
                &&& effects.request == Request::Launcher(
                    if next.phase->crashed {
                        Work::Kill
                    } else {
                        Work::SendStop
                    },
                )
                &&& match supervisor.phase {
                    Phase::Waiting(_) => if next.phase->crashed {
                        input == Input::InboxClosed
                    } else {
                        input == Input::Command(ControlCmd::StopServer)
                    },
                    Phase::Polling(watch) => if next.phase->crashed {
                        input == Input::Status(None)
                    } else {
                        input matches Input::Status(Some(online)) && watch.after_poll(
                            online,
                            now,
                        ).expired(now, supervisor.idle_timeout)
                    },
                    _ => false,
                }
            }
        },
{
}

/// One failed poll is enough: whatever the watch holds, the supervisor has
/// the process killed at once, without a word to the workload. The same
/// holds when the inbox is found closed while the workload runs. However the
/// kill goes, its report leaves the supervisor idle, with `Crashed` and then
/// `Stopped` broadcast; a kill that failed on a live process is put on
/// record and holds nothing up.
pub proof fn lost_supervision_forces_a_kill(
    supervisor: Supervisor,
    watch: Watch,
    kill: KillOutcome,
    now: Moment,
    later: Moment,
)
    ensures
        supervisor.phase == Phase::Polling(watch) ==> supervisor.react(Input::Status(None), now)
            == Some(
            (
                supervisor.turned(
                    Phase::Stopping { shutdown: Shutdown::Killing, crashed: true },
                ),
                Effects::only(Request::Launcher(Work::Kill)),
            ),
        ),
        supervisor.phase == Phase::Waiting(watch) ==> supervisor.react(Input::InboxClosed, now)
            == Some(
            (
                supervisor.turned(
                    Phase::Stopping { shutdown: Shutdown::Killing, crashed: true },
                ),
                Effects::only(Request::Launcher(Work::Kill)),
            ),
        ),
        supervisor.turned(Phase::Stopping { shutdown: Shutdown::Killing, crashed: true }).react(
            Input::Launcher(Report::Killed(kill)),
            later,
        ) == Some(
            (
                Supervisor::idle(supervisor.idle_timeout),
                Effects {
                    events: seq![ControlEvent::Crashed, ControlEvent::Stopped],
                    fault: if kill is Failed {
                        Some(Fault::Stop(StopError::ProcessKill))
                    } else {
                        None
                    },
                    ..Effects::only(Request::AwaitCommand)
                },
            ),
        ),
{
}

/// `Started` is broadcast exactly when a start succeeds, and the supervisor
/// is then active with a fresh watch. A start that fails broadcasts nothing,
/// puts its error on record and leaves the supervisor idle, where the next
/// command to start is taken like the first.
pub proof fn started_is_announced_on_success_alone(
    supervisor: Supervisor,
    input: Input,
    now: Moment,
)
    ensures
        supervisor.react(input, now) matches Some((next, effects)) ==> {
            &&& effects.events.contains(ControlEvent::Started) <==> supervisor.phase
                == Phase::Starting(Startup::Authenticating) && input == Input::Launcher(
                Report::Authenticated(true),
            )
            &&& effects.events.contains(ControlEvent::Started) ==> next.phase == Phase::Waiting(
                Watch::fresh(now),
            ) && effects.events == seq![ControlEvent::Started]
            &&& supervisor.phase is Starting && next.phase is Idle ==> effects.fault
                is Some && effects.fault->0 is Start && effects.events == Seq::<
                ControlEvent,
            >::empty() && next == Supervisor::idle(supervisor.idle_timeout)
            &&& effects.fault matches Some(Fault::Start(_)) ==> supervisor.phase
                is Starting && next.phase is Idle
        },
        supervisor.phase == Phase::Starting(Startup::Spawning) ==> supervisor.react(
            Input::Launcher(Report::Spawned(false)),
            now,
        ) == Some(
            (
                Supervisor::idle(supervisor.idle_timeout),
                Effects {
                    fault: Some(Fault::Start(StartError::ProcessStart)),
                    ..Effects::only(Request::AwaitCommand)
                },
            ),
        ),
{
    assert(seq![ControlEvent::Started].contains(ControlEvent::Started)) by {
        assert(seq![ControlEvent::Started][0] == ControlEvent::Started);
    }
    assert(seq![ControlEvent::Crashed, ControlEvent::Stopped][0] == ControlEvent::Crashed);
}

/// Whether the latest news of occupancy in `events` is that the workload is
/// empty. A workload that has just started counts as not known to be empty.
pub open spec fn told_empty(events: Seq<ControlEvent>) -> bool
    decreases events.len(),
{
    if events.len() == 0 {
        false
    } else {
        match events.last() {
            ControlEvent::Empty => true,
            ControlEvent::Occupied | ControlEvent::Started => false,
            _ => told_empty(events.drop_last()),
        }
    }
}

/// Whether each `Empty` and each `Occupied` in `events` reports a change:
/// `Empty` comes only when the latest news was not that the workload is
/// empty, `Occupied` only when it was.
pub open spec fn edge_triggered(events: Seq<ControlEvent>) -> bool
    decreases events.len(),
{
    events.len() == 0 || (edge_triggered(events.drop_last()) && match events.last() {
        ControlEvent::Empty => !told_empty(events.drop_last()),
        ControlEvent::Occupied => told_empty(events.drop_last()),
        _ => true,
    })
}

/// Whether the watch that `phase` holds, if it holds one, has it that the
/// workload is empty exactly where that is the latest news in `events`.
pub open spec fn in_step(phase: Phase, events: Seq<ControlEvent>) -> bool {
    match phase {
        Phase::Waiting(watch) | Phase::Answering(watch) | Phase::Polling(watch) => watch.is_empty
            == told_empty(events),
        _ => true,
    }
}

/// A poll gives rise to `Empty` only where it finds nobody online and the
/// workload was not known to be empty, to `Occupied` only where it finds
/// somebody and the workload was known to be empty, and to nothing
/// otherwise. After it the workload is known to be empty exactly where the
/// poll found nobody, so a second poll with the same finding is silent.
pub proof fn poll_announces_changes_alone(
    watch: Watch,
    online: u32,
    now: Moment,
    again: u32,
    later: Moment,
)
    ensures
        watch.announcement(online) == if online == 0 && !watch.is_empty {
            seq![ControlEvent::Empty]
        } else if online > 0 && watch.is_empty {
            seq![ControlEvent::Occupied]
        } else {
            Seq::empty()
        },
        watch.after_poll(online, now).is_empty == (online == 0),
        (online == 0) == (again == 0) ==> watch.after_poll(online, now).announcement(again)
            == Seq::<ControlEvent>::empty(),
{
}

proof fn lemma_one_more_event(events: Seq<ControlEvent>, event: ControlEvent)
    ensures
        told_empty(events.push(event)) == match event {
            ControlEvent::Empty => true,
            ControlEvent::Occupied | ControlEvent::Started => false,
            _ => told_empty(events),
        },
        edge_triggered(events.push(event)) == (edge_triggered(events) && match event {
            ControlEvent::Empty => !told_empty(events),
            ControlEvent::Occupied => told_empty(events),
            _ => true,
        }),
{
    assert(events.push(event).drop_last() =~= events);
}

/// One step keeps the events edge-triggered and the watch in step with them.
proof fn lemma_step_keeps_edges(
    supervisor: Supervisor,
    input: Input,
    now: Moment,
    prior: Seq<ControlEvent>,
)
    requires
        edge_triggered(prior),
        in_step(supervisor.phase, prior),
    ensures
        supervisor.react(input, now) matches Some((next, effects)) ==> edge_triggered(
            prior + effects.events,
        ) && in_step(next.phase, prior + effects.events),
{
    if let Some((next, effects)) = supervisor.react(input, now) {
        let events = effects.events;
        if events.len() == 0 {
            assert(prior + events =~= prior);
        } else if events.len() == 1 {
            assert(prior + events =~= prior.push(events[0]));
            lemma_one_more_event(prior, events[0]);
        } else {
            assert(events == seq![ControlEvent::Crashed, ControlEvent::Stopped]);
            assert(prior + events =~= prior.push(ControlEvent::Crashed).push(
                ControlEvent::Stopped,
            ));
            lemma_one_more_event(prior, ControlEvent::Crashed);
            lemma_one_more_event(prior.push(ControlEvent::Crashed), ControlEvent::Stopped);
        }
    }
}

/// Let `prior` be the events broadcast so far, edge-triggered, and let the
/// supervisor's watch be in step with them. Then whatever arrives, the events
/// stay edge-triggered and the watch stays in step.
pub proof fn occupancy_events_stay_edge_triggered(
    supervisor: Supervisor,
    arrivals: Seq<Arrival>,
    prior: Seq<ControlEvent>,
)
    requires
        edge_triggered(prior),
        in_step(supervisor.phase, prior),
    ensures
        edge_triggered(prior + supervisor.broadcast(arrivals)),
        supervisor.run(arrivals) matches Some(last) ==> in_step(
            last.phase,
            prior + supervisor.broadcast(arrivals),
        ),
    decreases arrivals.len(),
{
    if arrivals.len() == 0 {
        assert(prior + supervisor.broadcast(arrivals) =~= prior);
    } else {
        lemma_step_keeps_edges(supervisor, arrivals[0].input, arrivals[0].at, prior);
        match supervisor.react(arrivals[0].input, arrivals[0].at) {
            Some((next, effects)) => {
                let rest = arrivals.drop_first();
                occupancy_events_stay_edge_triggered(next, rest, prior + effects.events);
                assert((prior + effects.events) + next.broadcast(rest) =~= prior
                    + supervisor.broadcast(arrivals));
            },
            None => {
                assert(prior + supervisor.broadcast(arrivals) =~= prior);
            },
        }
    }
}

/// From its creation on, whatever arrives, a supervisor broadcasts `Empty`
/// and `Occupied` on changes only: never `Empty` twice without `Occupied` or
/// a new start between them, never `Occupied` unless `Empty` was the latest
/// news.
pub proof fn occupancy_events_are_edge_triggered(idle_timeout: Span, arrivals: Seq<Arrival>)
    ensures
        edge_triggered(Supervisor::idle(idle_timeout).broadcast(arrivals)),
{
    let supervisor = Supervisor::idle(idle_timeout);
    occupancy_events_stay_edge_triggered(supervisor, arrivals, Seq::empty());
    assert(Seq::<ControlEvent>::empty() + supervisor.broadcast(arrivals)
        =~= supervisor.broadcast(arrivals));
}

/// One round for each reading in `polls`, in which no command comes: the
/// wait runs out, and the poll that follows ends at that reading and finds
/// nobody online.
pub open spec fn idle_rounds(polls: Seq<Moment>) -> Seq<Arrival>
    decreases polls.len(),
{
    if polls.len() == 0 {
        Seq::empty()
    } else {
        seq![
            Arrival { input: Input::Quiet, at: polls[0] },
            Arrival { input: Input::Status(Some(0)), at: polls[0] },
        ] + idle_rounds(polls.drop_first())
    }
}

/// While nobody is found online the idle timer is left to run: a poll that
/// ends within the timeout leaves the supervisor waiting, with the timer's
/// start where it was; a poll that ends after it begins a graceful stop.
pub proof fn idle_timer_runs_while_empty(supervisor: Supervisor, watch: Watch, now: Moment)
    requires
        supervisor.phase == Phase::Polling(watch),
    ensures
        supervisor.react(Input::Status(Some(0)), now) == Some(
            if watch.expired(now, supervisor.idle_timeout) {
                (
                    supervisor.turned(Phase::stopping(false)),
                    Effects {
                        events: watch.announcement(0),
                        ..Effects::only(Request::Launcher(Work::SendStop))
                    },
                )
            } else {
                (
                    supervisor.turned(
                        Phase::Waiting(Watch { idle_begin: watch.idle_begin, is_empty: true }),
                    ),
                    Effects {
                        events: watch.announcement(0),
                        ..Effects::only(Request::AwaitCommandFor(poll_period()))
                    },
                )
            },
        ),
{
}

/// Somebody found online starts the idle timer anew, so that poll never
/// stops the workload.
pub proof fn idle_timer_restarts_when_occupied(
    supervisor: Supervisor,
    watch: Watch,
    online: u32,
    now: Moment,
)
    requires
        supervisor.phase == Phase::Polling(watch),
        online > 0,
    ensures
        supervisor.react(Input::Status(Some(online)), now) == Some(
            (
                supervisor.turned(Phase::Waiting(Watch { idle_begin: now, is_empty: false })),
                Effects {
                    events: watch.announcement(online),
                    ..Effects::only(Request::AwaitCommandFor(poll_period()))
                },
            ),
        ),
{
}

/// Let the workload run, and let round after round pass in which no command
/// comes and the poll finds nobody online. If the last of these polls is the
/// first to end later than the idle timeout after the timer's start, then
/// the supervisor takes every one of these inputs, asks for the stop command
/// on the last of them and on no other, and is then stopping gracefully. All
/// that it broadcasts meanwhile is `Empty`, once, where that was news.
pub proof fn empty_workload_is_stopped_after_timeout(
    supervisor: Supervisor,
    watch: Watch,
    polls: Seq<Moment>,
)
    requires
        supervisor.phase == Phase::Waiting(watch),
        polls.len() > 0,
        forall|i: int|
            0 <= i < polls.len() - 1 ==> !watch.expired(polls[i], supervisor.idle_timeout),
        watch.expired(polls.last(), supervisor.idle_timeout),
    ensures
        supervisor.run(idle_rounds(polls)) == Some(supervisor.turned(Phase::stopping(false))),
        supervisor.broadcast(idle_rounds(polls)) == watch.announcement(0),
        supervisor.decisions(idle_rounds(polls)).len() == 2 * polls.len(),
        forall|i: int|
            0 <= i < 2 * polls.len() ==> (#[trigger] supervisor.decisions(
                idle_rounds(polls),
            )[i].request == Request::Launcher(Work::SendStop) <==> i == 2 * polls.len() - 1),
    decreases polls.len(),
{
    let arrivals = idle_rounds(polls);
    let rest = idle_rounds(polls.drop_first());
    let quiet = Arrival { input: Input::Quiet, at: polls[0] };
    let poll = Arrival { input: Input::Status(Some(0)), at: polls[0] };
    assert(arrivals == seq![quiet, poll] + rest);
    assert(arrivals[0] == quiet);
    let tail = arrivals.drop_first();
    assert(tail =~= seq![poll] + rest);
    assert(tail[0] == poll);
    assert(tail.drop_first() =~= rest);
    let polling = supervisor.turned(Phase::Polling(watch));
    let first = Effects::only(Request::QueryStatus);
    assert(supervisor.react(quiet.input, quiet.at) == Some((polling, first)));
    idle_timer_runs_while_empty(polling, watch, polls[0]);
    let (next, second) = polling.react(poll.input, poll.at)->0;
    assert(supervisor.run(arrivals) == polling.run(tail));
    assert(polling.run(tail) == next.run(rest));
    assert(supervisor.broadcast(arrivals) =~= polling.broadcast(tail));
    assert(polling.broadcast(tail) =~= second.events + next.broadcast(rest));
    assert(supervisor.decisions(arrivals) =~= seq![first] + polling.decisions(tail));
    assert(polling.decisions(tail) =~= seq![second] + next.decisions(rest));
    assert(supervisor.decisions(arrivals) =~= seq![first, second] + next.decisions(rest));
    if polls.len() == 1 {
        assert(polls.last() == polls[0]);
        assert(rest =~= Seq::<Arrival>::empty());
        assert(supervisor.broadcast(arrivals) =~= watch.announcement(0));
    } else {
        let seen = Watch { idle_begin: watch.idle_begin, is_empty: true };
        let later = polls.drop_first();
        assert(later.last() == polls.last());
        assert forall|i: int| 0 <= i < later.len() - 1 implies !seen.expired(
            later[i],
            next.idle_timeout,
        ) by {
            assert(later[i] == polls[i + 1]);
        }
        empty_workload_is_stopped_after_timeout(next, seen, later);
        assert(supervisor.broadcast(arrivals) =~= watch.announcement(0));
        assert forall|i: int| 0 <= i < 2 * polls.len() implies (
        #[trigger] supervisor.decisions(arrivals)[i].request == Request::Launcher(Work::SendStop)
            <==> i == 2 * polls.len() - 1) by {
            if i >= 2 {
                assert(supervisor.decisions(arrivals)[i] == next.decisions(rest)[i - 2]);
            }
        }
    }
}

/// Taking inputs in two batches comes to the same as taking them in one.
pub proof fn run_goes_on_where_it_left_off(
    supervisor: Supervisor,
    first: Seq<Arrival>,
    then: Seq<Arrival>,
)
    ensures
        supervisor.run(first + then) == match supervisor.run(first) {
            Some(between) => between.run(then),
            None => None,
        },
        supervisor.run(first) matches Some(between) ==> supervisor.broadcast(first + then)
            == supervisor.broadcast(first) + between.broadcast(then),
    decreases first.len(),
{
    if first.len() == 0 {
        assert(first + then =~= then);
        assert(supervisor.broadcast(first) + supervisor.broadcast(then) =~= supervisor.broadcast(
            then,
        ));
    } else {
        let all = first + then;
        assert(all[0] == first[0]);
        assert(all.drop_first() =~= first.drop_first() + then);
        if let Some((next, effects)) = supervisor.react(first[0].input, first[0].at) {
            run_goes_on_where_it_left_off(next, first.drop_first(), then);
            if let Some(between) = next.run(first.drop_first()) {
                assert(effects.events + (next.broadcast(first.drop_first()) + between.broadcast(
                    then,
                )) =~= (effects.events + next.broadcast(first.drop_first())) + between.broadcast(
                    then,
                ));
            }
        }
    }
}

/// A workload that stays empty until a poll finds it idle for longer than
/// the timeout, and that takes the stop command, leaves the supervisor idle,
/// with `Stopped` broadcast once, after `Empty` where that was news, and
/// nothing else.
pub proof fn idle_workload_ends_stopped(
    supervisor: Supervisor,
    watch: Watch,
    polls: Seq<Moment>,
    stopped_at: Moment,
)
    requires
        supervisor.phase == Phase::Waiting(watch),
        polls.len() > 0,
        forall|i: int|
            0 <= i < polls.len() - 1 ==> !watch.expired(polls[i], supervisor.idle_timeout),
        watch.expired(polls.last(), supervisor.idle_timeout),
    ensures
        ({
            let stopped = Arrival {
                input: Input::Launcher(Report::StopSent(true)),
                at: stopped_at,
            };
            let arrivals = idle_rounds(polls) + seq![stopped];
            &&& supervisor.run(arrivals) == Some(Supervisor::idle(supervisor.idle_timeout))
            &&& supervisor.broadcast(arrivals) == watch.announcement(0) + seq![
                ControlEvent::Stopped,
            ]
        }),
{
    let stopped = Arrival { input: Input::Launcher(Report::StopSent(true)), at: stopped_at };
    let last = seq![stopped];
    empty_workload_is_stopped_after_timeout(supervisor, watch, polls);
    run_goes_on_where_it_left_off(supervisor, idle_rounds(polls), last);
    let stopping = supervisor.turned(Phase::stopping(false));
    let (idle, effects) = stopping.react(stopped.input, stopped.at)->0;
    assert(last[0] == stopped);
    assert(last.drop_first() =~= Seq::<Arrival>::empty());
    assert(stopping.run(last) == idle.run(last.drop_first()));
    assert(stopping.broadcast(last) =~= effects.events + idle.broadcast(last.drop_first()));
    assert(stopping.broadcast(last) =~= seq![ControlEvent::Stopped]);
}

/// The number of workloads that `events` leaves running: one more for each
/// `Started`, one less for each `Stopped`.
pub open spec fn left_running(events: Seq<ControlEvent>) -> int
    decreases events.len(),
{
    if events.len() == 0 {
        0
    } else {
        left_running(events.drop_last()) + match events.last() {
            ControlEvent::Started => 1int,
            ControlEvent::Stopped => -1int,
            _ => 0int,
        }
    }
}

/// Whether `events`, cut off after any one of them, leaves one workload
/// running or none.
pub open spec fn one_at_a_time(events: Seq<ControlEvent>) -> bool
    decreases events.len(),
{
    events.len() == 0 || (one_at_a_time(events.drop_last()) && 0 <= left_running(events) <= 1)
}

/// Whether `events` leaves a workload running exactly where `phase` is one
/// in which a workload is up and `Stopped` is yet to be broadcast.
pub open spec fn tells_of(events: Seq<ControlEvent>, phase: Phase) -> bool {
    left_running(events) == if phase.state() is Active {
        1int
    } else {
        0int
    }
}

proof fn lemma_one_more_told(events: Seq<ControlEvent>, event: ControlEvent)
    ensures
        left_running(events.push(event)) == left_running(events) + match event {
            ControlEvent::Started => 1int,
            ControlEvent::Stopped => -1int,
            _ => 0int,
        },
        one_at_a_time(events.push(event)) == (one_at_a_time(events) && 0 <= left_running(
            events.push(event),
        ) <= 1),
{
    assert(events.push(event).drop_last() =~= events);
}

/// One step keeps the events telling of one workload at a time.
proof fn lemma_step_keeps_count(
    supervisor: Supervisor,
    input: Input,
    now: Moment,
    prior: Seq<ControlEvent>,
)
    requires
        one_at_a_time(prior),
        tells_of(prior, supervisor.phase),
    ensures
        supervisor.react(input, now) matches Some((next, effects)) ==> one_at_a_time(
            prior + effects.events,
        ) && tells_of(prior + effects.events, next.phase),
{
    if let Some((next, effects)) = supervisor.react(input, now) {
        let events = effects.events;
        if events.len() == 0 {
            assert(prior + events =~= prior);
        } else if events.len() == 1 {
            assert(prior + events =~= prior.push(events[0]));
            lemma_one_more_told(prior, events[0]);
        } else {
            assert(events == seq![ControlEvent::Crashed, ControlEvent::Stopped]);
            assert(prior + events =~= prior.push(ControlEvent::Crashed).push(
                ControlEvent::Stopped,
            ));
            lemma_one_more_told(prior, ControlEvent::Crashed);
            lemma_one_more_told(prior.push(ControlEvent::Crashed), ControlEvent::Stopped);
        }
    }
}

/// Let `prior` be the events broadcast so far, telling of one workload at a
/// time and of one running now exactly where the supervisor is active. Then
/// whatever arrives, the events go on to tell of one workload at a time.
pub proof fn events_keep_telling_of_one_workload(
    supervisor: Supervisor,
    arrivals: Seq<Arrival>,
    prior: Seq<ControlEvent>,
)
    requires
        one_at_a_time(prior),
        tells_of(prior, supervisor.phase),
    ensures
        one_at_a_time(prior + supervisor.broadcast(arrivals)),
        supervisor.run(arrivals) matches Some(last) ==> tells_of(
            prior + supervisor.broadcast(arrivals),
            last.phase,
        ),
    decreases arrivals.len(),
{
    if arrivals.len() == 0 {
        assert(prior + supervisor.broadcast(arrivals) =~= prior);
    } else {
        lemma_step_keeps_count(supervisor, arrivals[0].input, arrivals[0].at, prior);
        match supervisor.react(arrivals[0].input, arrivals[0].at) {
            Some((next, effects)) => {
                let rest = arrivals.drop_first();
                events_keep_telling_of_one_workload(next, rest, prior + effects.events);
                assert((prior + effects.events) + next.broadcast(rest) =~= prior
                    + supervisor.broadcast(arrivals));
            },
            None => {
                assert(prior + supervisor.broadcast(arrivals) =~= prior);
            },
        }
    }
}

/// From its creation on, whatever arrives, a supervisor has broadcast
/// `Started` as often as `Stopped`, or once more: every `Stopped` closes a
/// `Started`, and no `Started` comes before the one before it is closed.
pub proof fn every_started_is_closed_by_stopped(idle_timeout: Span, arrivals: Seq<Arrival>)
    ensures
        one_at_a_time(Supervisor::idle(idle_timeout).broadcast(arrivals)),
        0 <= left_running(Supervisor::idle(idle_timeout).broadcast(arrivals)) <= 1,
{
    let supervisor = Supervisor::idle(idle_timeout);
    events_keep_telling_of_one_workload(supervisor, arrivals, Seq::empty());
    let events = supervisor.broadcast(arrivals);
    assert(Seq::<ControlEvent>::empty() + events =~= events);
}

} // verus!

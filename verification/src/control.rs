//! The supervisor: the control loop's decisions.
//!
//! The supervisor is idle until it is told to start the workload. While the
//! workload runs it waits for commands, a bounded time each round, and polls
//! the workload's status after every wait. It stops the workload gracefully
//! on command and when it has been empty for longer than the idle timeout.
//! When it can no longer supervise the workload, because a poll has failed
//! or the inbox is closed, it has the process killed outright.
//!
//! The driver receives from the inbox, queries the workload, does the
//! launcher's work and broadcasts events. It feeds what happened to
//! [`Supervisor::handle`] and carries out what comes back.

use vstd::prelude::*;
use crate::clock::{Moment, Span, NANOS_PER_SEC};
use crate::launcher::{Report, Shutdown, StartError, StartStep, Startup, StopError, StopStep, Work};

verus! {

/// How long, in seconds, the supervisor waits for a command before it polls
/// the running workload.
pub const IDLE_QUERY_PERIOD_SEC: u64 = 30;

/// A command from a front-end. The reply slot of a `Query` stays with the
/// driver, which fills it as [`Output::reply`] says.
#[derive(Clone, Copy, Debug, PartialEq, Eq, Structural)]
pub enum ControlCmd {
    StartServer,
    StopServer,
    Query,
}

/// An event for the subscribers.
#[derive(Clone, Copy, Debug, PartialEq, Eq, Structural)]
pub enum ControlEvent {
    Started,
    Starting,
    Stopped,
    Crashed,
    /// The number of users online fell to zero.
    Empty,
    /// The number of users online rose above zero.
    Occupied,
}

/// What the supervisor keeps track of while the workload runs.
#[derive(Clone, Copy, Debug, PartialEq, Eq, Structural)]
pub struct Watch {
    /// The clock when the workload came up, or when it was last seen with
    /// users online.
    pub idle_begin: Moment,
    /// Whether the subscribers have been told that the workload is empty.
    pub is_empty: bool,
}

/// What the supervisor is waiting for.
#[derive(Clone, Copy, Debug, PartialEq, Eq, Structural)]
pub enum Phase {
    /// No workload runs. Waits for a command, without limit.
    Idle,
    /// The workload is being started. Waits for a launcher report.
    Starting(Startup),
    /// The workload runs. Waits for a command, for the poll period at most.
    Waiting(Watch),
    /// The workload runs. Waits for the status that answers a `Query`.
    Answering(Watch),
    /// The workload runs. Waits for the status of the periodic poll.
    Polling(Watch),
    /// The workload is being stopped. Waits for a launcher report. `crashed`
    /// says that the stop was forced by a failure of supervision: such a
    /// stop kills the process without asking the workload to stop.
    Stopping { shutdown: Shutdown, crashed: bool },
}

/// The supervisor's state as a front-end thinks of it.
#[derive(Clone, Copy, Debug, PartialEq, Eq, Structural)]
pub enum State {
    Idle,
    Starting,
    Active,
}

/// Something that happened, as the driver saw it.
#[derive(Clone, Copy, Debug, PartialEq, Eq, Structural)]
pub enum Input {
    /// The inbox yielded a command.
    Command(ControlCmd),
    /// The inbox is closed: every sender is gone.
    InboxClosed,
    /// The bounded wait for a command ran out.
    Quiet,
    /// A status query ended: with the number of users online, or in failure.
    Status(Option<u32>),
    /// A piece of the launcher's work ended.
    Launcher(Report),
}

/// An input and the clock reading at which the driver received it.
#[derive(Clone, Copy, Debug, PartialEq, Eq, Structural)]
pub struct Arrival {
    pub input: Input,
    pub at: Moment,
}

/// What the driver is to do next. Its outcome is the next input.
#[derive(Clone, Copy, Debug, PartialEq, Eq, Structural)]
pub enum Request {
    /// Receive from the inbox, however long it takes.
    AwaitCommand,
    /// Receive from the inbox, giving up after the given time.
    AwaitCommandFor(Span),
    /// Query the workload's status.
    QueryStatus,
    /// Do a piece of the launcher's work.
    Launcher(Work),
}

/// The answer to a `Query`.
#[derive(Clone, Copy, Debug, PartialEq, Eq, Structural)]
pub enum Reply {
    /// No status can be had: nothing runs, or the query failed.
    Offline,
    /// The status that the query returned, with this many users online.
    Online(u32),
}

/// An error that the supervisor has recovered from.
#[derive(Clone, Copy, Debug, PartialEq, Eq, Structural)]
pub enum Fault {
    Start(StartError),
    Stop(StopError),
}

/// What the supervisor decided on an input.
#[derive(Clone, Debug, PartialEq, Eq)]
pub struct Output {
    /// The events to broadcast, in this order.
    pub events: Vec<ControlEvent>,
    /// The answer to give to the `Query` at hand, if there is one.
    pub reply: Option<Reply>,
    /// An error to put on record. The supervisor has already gone on.
    pub fault: Option<Fault>,
    /// The command at hand, where it asks for what cannot be done in this
    /// state and was set aside; to put on record.
    pub ignored: Option<ControlCmd>,
    /// What to do next.
    pub request: Request,
}

/// An [`Output`] as a value of mathematics.
pub struct Effects {
    pub events: Seq<ControlEvent>,
    pub reply: Option<Reply>,
    pub fault: Option<Fault>,
    pub ignored: Option<ControlCmd>,
    pub request: Request,
}

impl View for Output {
    type V = Effects;

    open spec fn view(&self) -> Effects {
        Effects {
            events: self.events@,
            reply: self.reply,
            fault: self.fault,
            ignored: self.ignored,
            request: self.request,
        }
    }
}

/// The supervisor of one workload.
#[derive(Clone, Copy, Debug, PartialEq, Eq, Structural)]
pub struct Supervisor {
    pub phase: Phase,
    /// How long the workload may stay empty before it is stopped.
    pub idle_timeout: Span,
}

/// The bound on one wait for a command while the workload runs.
pub open spec fn poll_period() -> Span {
    Span { nanos: (IDLE_QUERY_PERIOD_SEC * NANOS_PER_SEC) as u128 }
}

impl Effects {
    /// Nothing but a request.
    pub open spec fn only(request: Request) -> Effects {
        Effects { events: Seq::empty(), reply: None, fault: None, ignored: None, request }
    }
}

impl Watch {
    /// The watch of a workload that came up at `now`.
    pub open spec fn fresh(now: Moment) -> Watch {
        Watch { idle_begin: now, is_empty: false }
    }

    /// The watch after a poll at `now` found `online` users.
    pub open spec fn after_poll(self, online: u32, now: Moment) -> Watch {
        if online > 0 {
            Watch { idle_begin: now, is_empty: false }
        } else {
            Watch { idle_begin: self.idle_begin, is_empty: true }
        }
    }

    /// The events that a poll which found `online` users gives rise to: one
    /// where the workload has become empty or occupied, none otherwise.
    pub open spec fn announcement(self, online: u32) -> Seq<ControlEvent> {
        if online > 0 && self.is_empty {
            seq![ControlEvent::Occupied]
        } else if online == 0 && !self.is_empty {
            seq![ControlEvent::Empty]
        } else {
            Seq::empty()
        }
    }

    /// Whether at `now` the workload has been idle for longer than `timeout`.
    pub open spec fn expired(self, now: Moment, timeout: Span) -> bool {
        now.elapsed_since(self.idle_begin).nanos > timeout.nanos
    }
}

impl Phase {
    pub open spec fn state(self) -> State {
        match self {
            Phase::Idle => State::Idle,
            Phase::Starting(_) => State::Starting,
            _ => State::Active,
        }
    }

    /// Whether a process of the workload exists in this phase.
    pub open spec fn owns_process(self) -> bool {
        match self {
            Phase::Idle => false,
            Phase::Starting(startup) => startup.owns_process(),
            _ => true,
        }
    }

    /// A stop that has just begun: a graceful one, which asks the workload
    /// to stop, or one forced by a failure of supervision, which kills the
    /// process at once.
    pub open spec fn stopping(crashed: bool) -> Phase {
        Phase::Stopping {
            shutdown: if crashed {
                Shutdown::Killing
            } else {
                Shutdown::Asking
            },
            crashed,
        }
    }
}

impl Supervisor {
    pub open spec fn idle(idle_timeout: Span) -> Supervisor {
        Supervisor { phase: Phase::Idle, idle_timeout }
    }

    pub open spec fn turned(self, phase: Phase) -> Supervisor {
        Supervisor { phase, ..self }
    }

    /// What a stop begins with: the stop command, or the kill where the stop
    /// is forced.
    pub open spec fn first_of_stop(crashed: bool) -> Effects {
        Effects::only(
            Request::Launcher(
                if crashed {
                    Work::Kill
                } else {
                    Work::SendStop
                },
            ),
        )
    }

    /// The events that close a stop.
    pub open spec fn farewell(crashed: bool) -> Seq<ControlEvent> {
        if crashed {
            seq![ControlEvent::Crashed, ControlEvent::Stopped]
        } else {
            seq![ControlEvent::Stopped]
        }
    }

    /// While idle: a command, or word that the inbox is closed.
    pub open spec fn react_idle(self, input: Input) -> Option<(Supervisor, Effects)> {
        match input {
            Input::Command(ControlCmd::StartServer) => Some(
                (
                    self.turned(Phase::Starting(Startup::Spawning)),
                    Effects {
                        events: seq![ControlEvent::Starting],
                        ..Effects::only(Request::Launcher(Work::Spawn))
                    },
                ),
            ),
            Input::Command(ControlCmd::Query) => Some(
                (self, Effects { reply: Some(Reply::Offline), ..Effects::only(Request::AwaitCommand) }),
            ),
            Input::Command(ControlCmd::StopServer) => Some(
                (
                    self,
                    Effects {
                        ignored: Some(ControlCmd::StopServer),
                        ..Effects::only(Request::AwaitCommand)
                    },
                ),
            ),
            Input::InboxClosed => Some((self, Effects::only(Request::AwaitCommand))),
            _ => None,
        }
    }

    /// While starting: a launcher report.
    pub open spec fn react_starting(self, startup: Startup, input: Input, now: Moment) -> Option<
        (Supervisor, Effects),
    > {
        match input {
            Input::Launcher(report) => match startup.step(report, now) {
                Some(StartStep::Continue(next, work)) => Some(
                    (self.turned(Phase::Starting(next)), Effects::only(Request::Launcher(work))),
                ),
                Some(StartStep::Started) => Some(
                    (
                        self.turned(Phase::Waiting(Watch::fresh(now))),
                        Effects {
                            events: seq![ControlEvent::Started],
                            ..Effects::only(Request::AwaitCommandFor(poll_period()))
                        },
                    ),
                ),
                Some(StartStep::Failed(error)) => Some(
                    (
                        self.turned(Phase::Idle),
                        Effects {
                            fault: Some(Fault::Start(error)),
                            ..Effects::only(Request::AwaitCommand)
                        },
                    ),
                ),
                None => None,
            },
            _ => None,
        }
    }

    /// While the workload runs and a command is waited for.
    pub open spec fn react_waiting(self, watch: Watch, input: Input) -> Option<
        (Supervisor, Effects),
    > {
        match input {
            Input::Command(ControlCmd::StopServer) => Some(
                (self.turned(Phase::stopping(false)), Supervisor::first_of_stop(false)),
            ),
            Input::Command(ControlCmd::Query) => Some(
                (self.turned(Phase::Answering(watch)), Effects::only(Request::QueryStatus)),
            ),
            Input::Command(ControlCmd::StartServer) => Some(
                (
                    self.turned(Phase::Polling(watch)),
                    Effects {
                        ignored: Some(ControlCmd::StartServer),
                        ..Effects::only(Request::QueryStatus)
                    },
                ),
            ),
            Input::Quiet => Some(
                (self.turned(Phase::Polling(watch)), Effects::only(Request::QueryStatus)),
            ),
            Input::InboxClosed => Some(
                (self.turned(Phase::stopping(true)), Supervisor::first_of_stop(true)),
            ),
            _ => None,
        }
    }

    /// While the status for a `Query` is waited for.
    pub open spec fn react_answering(self, watch: Watch, input: Input) -> Option<
        (Supervisor, Effects),
    > {
        match input {
            Input::Status(status) => Some(
                (
                    self.turned(Phase::Polling(watch)),
                    Effects {
                        reply: Some(
                            match status {
                                Some(online) => Reply::Online(online),
                                None => Reply::Offline,
                            },
                        ),
                        ..Effects::only(Request::QueryStatus)
                    },
                ),
            ),
            _ => None,
        }
    }

    /// While the status of the periodic poll is waited for.
    pub open spec fn react_polling(self, watch: Watch, input: Input, now: Moment) -> Option<
        (Supervisor, Effects),
    > {
        match input {
            Input::Status(Some(online)) => {
                let seen = watch.after_poll(online, now);
                let events = watch.announcement(online);
                if seen.expired(now, self.idle_timeout) {
                    Some(
                        (
                            self.turned(Phase::stopping(false)),
                            Effects { events, ..Supervisor::first_of_stop(false) },
                        ),
                    )
                } else {
                    Some(
                        (
                            self.turned(Phase::Waiting(seen)),
                            Effects {
                                events,
                                ..Effects::only(Request::AwaitCommandFor(poll_period()))
                            },
                        ),
                    )
                }
            },
            Input::Status(None) => Some(
                (self.turned(Phase::stopping(true)), Supervisor::first_of_stop(true)),
            ),
            _ => None,
        }
    }

    /// While stopping: a launcher report.
    pub open spec fn react_stopping(self, shutdown: Shutdown, crashed: bool, input: Input) -> Option<
        (Supervisor, Effects),
    > {
        match input {
            Input::Launcher(report) => match shutdown.step(report) {
                Some(StopStep::Continue(next, work)) => Some(
                    (
                        self.turned(Phase::Stopping { shutdown: next, crashed }),
                        Effects::only(Request::Launcher(work)),
                    ),
                ),
                Some(StopStep::Stopped) => Some(
                    (
                        self.turned(Phase::Idle),
                        Effects {
                            events: Supervisor::farewell(crashed),
                            ..Effects::only(Request::AwaitCommand)
                        },
                    ),
                ),
                Some(StopStep::Failed(error)) => Some(
                    (
                        self.turned(Phase::Idle),
                        Effects {
                            events: Supervisor::farewell(crashed),
                            fault: Some(Fault::Stop(error)),
                            ..Effects::only(Request::AwaitCommand)
                        },
                    ),
                ),
                None => None,
            },
            _ => None,
        }
    }

    /// The supervisor after it has taken `arrivals` one after another, or
    /// `None` where it refuses one of them.
    pub open spec fn run(self, arrivals: Seq<Arrival>) -> Option<Supervisor>
        decreases arrivals.len(),
    {
        if arrivals.len() == 0 {
            Some(self)
        } else {
            match self.react(arrivals[0].input, arrivals[0].at) {
                Some((next, _)) => next.run(arrivals.drop_first()),
                None => None,
            }
        }
    }

    /// What the supervisor decides on each of `arrivals` as it takes them
    /// one after another, up to the first that it refuses.
    pub open spec fn decisions(self, arrivals: Seq<Arrival>) -> Seq<Effects>
        decreases arrivals.len(),
    {
        if arrivals.len() == 0 {
            Seq::empty()
        } else {
            match self.react(arrivals[0].input, arrivals[0].at) {
                Some((next, effects)) => seq![effects] + next.decisions(arrivals.drop_first()),
                None => Seq::empty(),
            }
        }
    }

    /// The events that the supervisor broadcasts as it takes `arrivals` one
    /// after another, up to the first that it refuses.
    pub open spec fn broadcast(self, arrivals: Seq<Arrival>) -> Seq<ControlEvent>
        decreases arrivals.len(),
    {
        if arrivals.len() == 0 {
            Seq::empty()
        } else {
            match self.react(arrivals[0].input, arrivals[0].at) {
                Some((next, effects)) => effects.events + next.broadcast(arrivals.drop_first()),
                None => Seq::empty(),
            }
        }
    }

    /// Whether `after` and `output` are what `decided` asks of a supervisor
    /// that was `before`.
    pub open spec fn carried_out(
        before: Supervisor,
        decided: Option<(Supervisor, Effects)>,
        after: Supervisor,
        output: Option<Output>,
    ) -> bool {
        match decided {
            Some((next, effects)) => {
                &&& after == next
                &&& output matches Some(given)
                &&& given@ == effects
            },
            None => after == before && output is None,
        }
    }

    /// The supervisor after `input`, received at `now`, and what it decides;
    /// `None` where the input is not one that its phase waits for.
    pub open spec fn react(self, input: Input, now: Moment) -> Option<(Supervisor, Effects)> {
        match self.phase {
            Phase::Idle => self.react_idle(input),
            Phase::Starting(startup) => self.react_starting(startup, input, now),
            Phase::Waiting(watch) => self.react_waiting(watch, input),
            Phase::Answering(watch) => self.react_answering(watch, input),
            Phase::Polling(watch) => self.react_polling(watch, input, now),
            Phase::Stopping { shutdown, crashed } => self.react_stopping(shutdown, crashed, input),
        }
    }
}

impl Output {
    /// An output that only asks for `request`.
    fn ask(request: Request) -> (output: Output)
        ensures
            output@ == Effects::only(request),
    {
        Output { events: Vec::new(), reply: None, fault: None, ignored: None, request }
    }

    /// An output that broadcasts `event` and asks for `request`.
    fn announce(event: ControlEvent, request: Request) -> (output: Output)
        ensures
            output@ == (Effects { events: seq![event], ..Effects::only(request) }),
    {
        let mut output = Output::ask(request);
        output.events.push(event);
        assert(output.events@ =~= seq![event]);
        output
    }

    /// An output that closes a stop and asks for the next command.
    fn close(crashed: bool, fault: Option<Fault>) -> (output: Output)
        ensures
            output@ == (Effects {
                events: Supervisor::farewell(crashed),
                fault,
                ..Effects::only(Request::AwaitCommand)
            }),
    {
        let mut output = Output::ask(Request::AwaitCommand);
        if crashed {
            output.events.push(ControlEvent::Crashed);
        }
        output.events.push(ControlEvent::Stopped);
        output.fault = fault;
        assert(output.events@ =~= Supervisor::farewell(crashed));
        output
    }
}

impl Watch {
    /// Takes note of a poll at `now` that found `online` users. Returns the
    /// event to broadcast, if the workload has become empty or occupied.
    pub fn observe(&mut self, online: u32, now: Moment) -> (event: Option<ControlEvent>)
        ensures
            *final(self) == old(self).after_poll(online, now),
            match event {
                Some(event) => old(self).announcement(online) == seq![event],
                None => old(self).announcement(online) == Seq::<ControlEvent>::empty(),
            },
    {
        let was_empty = self.is_empty;
        if online > 0 {
            self.idle_begin = now;
            self.is_empty = false;
            if was_empty {
                Some(ControlEvent::Occupied)
            } else {
                None
            }
        } else {
            self.is_empty = true;
            if was_empty {
                None
            } else {
                Some(ControlEvent::Empty)
            }
        }
    }

    /// Whether at `now` the workload has been idle for longer than `timeout`.
    pub fn is_expired(&self, now: Moment, timeout: Span) -> (expired: bool)
        ensures
            expired == self.expired(now, timeout),
    {
        now.since(self.idle_begin).exceeds(timeout)
    }
}

impl Supervisor {
    /// An idle supervisor. Its driver's first request is
    /// [`Request::AwaitCommand`].
    pub fn new(idle_timeout: Span) -> (supervisor: Supervisor)
        ensures
            supervisor == Supervisor::idle(idle_timeout),
    {
        Supervisor { phase: Phase::Idle, idle_timeout }
    }

    pub fn state(&self) -> (state: State)
        ensures
            state == self.phase.state(),
    {
        match self.phase {
            Phase::Idle => State::Idle,
            Phase::Starting(_) => State::Starting,
            _ => State::Active,
        }
    }

    /// Takes an input, received at `now`, moves on and says what to do.
    ///
    /// An input that the current phase does not wait for is refused: the
    /// result is `None` and the supervisor stays as it is.
    pub fn handle(&mut self, input: Input, now: Moment) -> (output: Option<Output>)
        ensures
            match old(self).react(input, now) {
                Some((next, effects)) => {
                    &&& *final(self) == next
                    &&& output matches Some(decided)
                    &&& decided@ == effects
                },
                None => *final(self) == *old(self) && output is None,
            },
    {
        match self.phase {
            Phase::Idle => self.handle_idle(input),
            Phase::Starting(startup) => self.handle_starting(startup, input, now),
            Phase::Waiting(watch) => self.handle_waiting(watch, input),
            Phase::Answering(watch) => self.handle_answering(watch, input),
            Phase::Polling(watch) => self.handle_polling(watch, input, now),
            Phase::Stopping { shutdown, crashed } => self.handle_stopping(shutdown, crashed, input),
        }
    }

    fn handle_idle(&mut self, input: Input) -> (output: Option<Output>)
        requires
            old(self).phase is Idle,
        ensures
            Supervisor::carried_out(*old(self), old(self).react_idle(input), *final(self), output),
    {
        match input {
            Input::Command(ControlCmd::StartServer) => {
                self.phase = Phase::Starting(Startup::begin());
                Some(Output::announce(ControlEvent::Starting, Request::Launcher(Work::Spawn)))
            },
            Input::Command(ControlCmd::Query) => {
                let mut output = Output::ask(Request::AwaitCommand);
                output.reply = Some(Reply::Offline);
                Some(output)
            },
            Input::Command(ControlCmd::StopServer) => {
                let mut output = Output::ask(Request::AwaitCommand);
                output.ignored = Some(ControlCmd::StopServer);
                Some(output)
            },
            Input::InboxClosed => Some(Output::ask(Request::AwaitCommand)),
            _ => None,
        }
    }

    fn handle_starting(&mut self, startup: Startup, input: Input, now: Moment) -> (output: Option<
        Output,
    >)
        requires
            old(self).phase == Phase::Starting(startup),
        ensures
            Supervisor::carried_out(*old(self), old(self).react_starting(startup, input, now), *final(self), output),
    {
        let report = match input {
            Input::Launcher(report) => report,
            _ => { return None; },
        };
        match startup.advance(report, now) {
            Some(StartStep::Continue(next, work)) => {
                self.phase = Phase::Starting(next);
                Some(Output::ask(Request::Launcher(work)))
            },
            Some(StartStep::Started) => {
                self.phase = Phase::Waiting(Watch { idle_begin: now, is_empty: false });
                Some(Output::announce(ControlEvent::Started, Supervisor::next_wait()))
            },
            Some(StartStep::Failed(error)) => {
                self.phase = Phase::Idle;
                let mut output = Output::ask(Request::AwaitCommand);
                output.fault = Some(Fault::Start(error));
                Some(output)
            },
            None => None,
        }
    }

    fn handle_waiting(&mut self, watch: Watch, input: Input) -> (output: Option<Output>)
        requires
            old(self).phase == Phase::Waiting(watch),
        ensures
            Supervisor::carried_out(*old(self), old(self).react_waiting(watch, input), *final(self), output),
    {
        match input {
            Input::Command(ControlCmd::StopServer) => Some(self.stop(false)),
            Input::InboxClosed => Some(self.stop(true)),
            Input::Command(ControlCmd::Query) => {
                self.phase = Phase::Answering(watch);
                Some(Output::ask(Request::QueryStatus))
            },
            Input::Command(ControlCmd::StartServer) => {
                self.phase = Phase::Polling(watch);
                let mut output = Output::ask(Request::QueryStatus);
                output.ignored = Some(ControlCmd::StartServer);
                Some(output)
            },
            Input::Quiet => {
                self.phase = Phase::Polling(watch);
                Some(Output::ask(Request::QueryStatus))
            },
            _ => None,
        }
    }

    fn handle_answering(&mut self, watch: Watch, input: Input) -> (output: Option<Output>)
        requires
            old(self).phase == Phase::Answering(watch),
        ensures
            Supervisor::carried_out(*old(self), old(self).react_answering(watch, input), *final(self), output),
    {
        let reply = match input {
            Input::Status(Some(online)) => Reply::Online(online),
            Input::Status(None) => Reply::Offline,
            _ => { return None; },
        };
        self.phase = Phase::Polling(watch);
        let mut output = Output::ask(Request::QueryStatus);
        output.reply = Some(reply);
        Some(output)
    }

    fn handle_polling(&mut self, watch: Watch, input: Input, now: Moment) -> (output: Option<
        Output,
    >)
        requires
            old(self).phase == Phase::Polling(watch),
        ensures
            Supervisor::carried_out(*old(self), old(self).react_polling(watch, input, now), *final(self), output),
    {
        match input {
            Input::Status(Some(online)) => {
                let mut seen = watch;
                let event = seen.observe(online, now);
                let mut output = if seen.is_expired(now, self.idle_timeout) {
                    self.stop(false)
                } else {
                    self.phase = Phase::Waiting(seen);
                    Output::ask(Supervisor::next_wait())
                };
                if let Some(event) = event {
                    output.events.push(event);
                }
                assert(output.events@ =~= watch.announcement(online));
                Some(output)
            },
            Input::Status(None) => Some(self.stop(true)),
            _ => None,
        }
    }

    fn handle_stopping(&mut self, shutdown: Shutdown, crashed: bool, input: Input) -> (output:
        Option<Output>)
        requires
            old(self).phase == (Phase::Stopping { shutdown, crashed }),
        ensures
            Supervisor::carried_out(*old(self), old(self).react_stopping(shutdown, crashed, input), *final(self), output),
    {
        let report = match input {
            Input::Launcher(report) => report,
            _ => { return None; },
        };
        match shutdown.advance(report) {
            Some(StopStep::Continue(next, work)) => {
                self.phase = Phase::Stopping { shutdown: next, crashed };
                Some(Output::ask(Request::Launcher(work)))
            },
            Some(StopStep::Stopped) => {
                self.phase = Phase::Idle;
                Some(Output::close(crashed, None))
            },
            Some(StopStep::Failed(error)) => {
                self.phase = Phase::Idle;
                Some(Output::close(crashed, Some(Fault::Stop(error))))
            },
            None => None,
        }
    }

    /// Begins to stop the workload: by the stop command, or by the kill
    /// where supervision has failed.
    fn stop(&mut self, crashed: bool) -> (output: Output)
        ensures
            *final(self) == old(self).turned(Phase::stopping(crashed)),
            output@ == Supervisor::first_of_stop(crashed),
    {
        if crashed {
            self.phase = Phase::Stopping { shutdown: Shutdown::force(), crashed };
            Output::ask(Request::Launcher(Work::Kill))
        } else {
            self.phase = Phase::Stopping { shutdown: Shutdown::begin(), crashed };
            Output::ask(Request::Launcher(Work::SendStop))
        }
    }

    /// The request for the next bounded wait.
    fn next_wait() -> (request: Request)
        ensures
            request == Request::AwaitCommandFor(poll_period()),
    {
        Request::AwaitCommandFor(Span::from_secs(IDLE_QUERY_PERIOD_SEC))
    }
}

} // verus!

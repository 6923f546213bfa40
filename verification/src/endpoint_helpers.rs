//! What a front-end shows of the supervisor: the name under which each event
//! goes out to subscribers, and the result of a query.

use vstd::prelude::*;
use crate::control::{ControlEvent, Reply};

verus! {

/// How long, in seconds, a front-end waits for the reply to a `Query`.
pub const QUERY_TIMEOUT_SEC: u64 = 10;

/// The result of a query, as a front-end reports it.
#[derive(Clone, Copy, Debug, PartialEq, Eq)]
pub enum QueryResult {
    /// The workload answered, with this many users online.
    Success { online: u32 },
    Failure { message: &'static str },
}

/// The name under which `event` is sent to subscribers.
pub open spec fn name_of(event: ControlEvent) -> Seq<char> {
    match event {
        ControlEvent::Stopped => "offline"@,
        ControlEvent::Starting => "starting"@,
        ControlEvent::Started => "online"@,
        ControlEvent::Empty => "empty"@,
        ControlEvent::Occupied => "occupied"@,
        ControlEvent::Crashed => "crashed"@,
    }
}

/// What a front-end says where a query brought no status.
pub open spec fn failure_message() -> Seq<char> {
    "Unable to query Minecraft. Is the server online?"@
}

/// The result of a query whose reply slot yielded `reply`; `None` stands
/// for a slot that was dropped unanswered, or not answered in time.
pub open spec fn result_of(reply: Option<Reply>) -> QueryResult {
    match reply {
        Some(Reply::Online(online)) => QueryResult::Success { online },
        _ => QueryResult::Failure {
            message: "Unable to query Minecraft. Is the server online?",
        },
    }
}

pub fn to_event_name(event: ControlEvent) -> (name: &'static str)
    ensures
        name@ == name_of(event),
{
    match event {
        ControlEvent::Stopped => "offline",
        ControlEvent::Starting => "starting",
        ControlEvent::Started => "online",
        ControlEvent::Empty => "empty",
        ControlEvent::Occupied => "occupied",
        ControlEvent::Crashed => "crashed",
    }
}

/// Turns what the reply slot of a query yielded into the query's result:
/// success where a status came, failure in every other case.
pub fn query_result(reply: Option<Reply>) -> (result: QueryResult)
    ensures
        result == result_of(reply),
        result matches QueryResult::Failure { message } ==> message@ == failure_message(),
{
    match reply {
        Some(Reply::Online(online)) => QueryResult::Success { online },
        _ => QueryResult::Failure {
            message: "Unable to query Minecraft. Is the server online?",
        },
    }
}

/// No two events go out under the same name.
pub proof fn event_names_differ(one: ControlEvent, other: ControlEvent)
    requires
        one != other,
    ensures
        name_of(one) != name_of(other),
{
    reveal_strlit("offline");
    reveal_strlit("starting");
    reveal_strlit("online");
    reveal_strlit("empty");
    reveal_strlit("occupied");
    reveal_strlit("crashed");
    if name_of(one) == name_of(other) {
        assert(name_of(one).len() == name_of(other).len());
        assert(name_of(one)[1] == name_of(other)[1]);
    }
}

} // verus!

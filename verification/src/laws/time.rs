//! Laws on points in time and on the uptime of a server.
use crate::state::{OrchestratorState, RunnerState};
use crate::time::{minutes_between, rfc3339_utc, Timestamp};
use vstd::prelude::*;

verus! {

/// Whether `minutes` are the whole minutes from one point in time to a later one, and none if it
/// is not later; both points in seconds and nanoseconds since the Unix epoch.
pub open spec fn are_whole_minutes(minutes: int, from: Timestamp, to: Timestamp) -> bool {
    let elapsed = (to.spec_seconds() * 1_000_000_000 + to.spec_nanos()) - (from.spec_seconds()
        * 1_000_000_000 + from.spec_nanos());
    if elapsed <= 0 {
        minutes == 0
    } else {
        minutes * 60_000_000_000 <= elapsed < (minutes + 1) * 60_000_000_000
    }
}

/// The minutes between two points in time are the whole minutes that have passed, to the
/// nanosecond.
pub proof fn law_minutes_between(from: Timestamp, to: Timestamp)
    ensures
        are_whole_minutes(minutes_between(from, to), from, to),
{
}

/// What `minutes_since` returns are the whole minutes that have passed, to the nanosecond.
pub proof fn law_minutes_since(to: Timestamp, from: Timestamp, minutes: u64)
    requires
        call_ensures(Timestamp::minutes_since, (&to, &from), minutes),
    ensures
        are_whole_minutes(minutes as int, from, to),
{
    law_minutes_between(from, to);
}

/// Minutes never fall as time goes on: of two later points, the later one is at least as many
/// minutes away.
pub proof fn law_minutes_grow(from: Timestamp, to: Timestamp, later: Timestamp, m: u64, n: u64)
    requires
        call_ensures(Timestamp::minutes_since, (&to, &from), m),
        call_ensures(Timestamp::minutes_since, (&later, &from), n),
        to.spec_seconds() * 1_000_000_000 + to.spec_nanos() <= later.spec_seconds() * 1_000_000_000
            + later.spec_nanos(),
    ensures
        m <= n,
{
    law_minutes_between(from, to);
    law_minutes_between(from, later);
}

/// The calendar runs from the first second of the year -262143 to the last one of the year 262142;
/// a leap second can stand at the end of a minute. Exactly there a point in time can be had, and it
/// keeps its seconds and nanoseconds.
pub proof fn law_calendar(seconds: i64, nanos: u32, point: Option<Timestamp>)
    requires
        call_ensures(Timestamp::new, (seconds, nanos), point),
    ensures
        point is Some <==> -8334601228800 <= seconds <= 8210266876799 && (nanos < 1_000_000_000
            || nanos < 2_000_000_000 && seconds as int % 60 == 59),
        point matches Some(t) ==> t.spec_seconds() == seconds && t.spec_nanos() == nanos,
{
}

/// The notation of a point in time is that of its own seconds and nanoseconds.
pub proof fn law_notation(point: Timestamp, text: String)
    requires
        call_ensures(Timestamp::rfc3339, (&point,), text),
    ensures
        text@ == rfc3339_utc(point.spec_seconds(), point.spec_nanos()),
{
}

/// The uptime of a server are the whole minutes since its creation.
pub proof fn law_uptime(runner: RunnerState, now: Timestamp)
    ensures
        are_whole_minutes(runner.uptime(now), runner.created_at, now),
        runner.uptime(now) >= 0,
{
    law_minutes_between(runner.created_at, now);
}

/// What is reported as uptime are the whole minutes since the creation of the server.
pub proof fn law_uptime_minutes(runner: RunnerState, now: Timestamp, minutes: u64)
    requires
        call_ensures(RunnerState::uptime_minutes, (&runner, &now), minutes),
    ensures
        are_whole_minutes(minutes as int, runner.created_at, now),
{
    law_uptime(runner, now);
}

/// There is an uptime exactly if there is a runner, and it is that of the runner.
pub proof fn law_runner_uptime(state: OrchestratorState, now: Timestamp, minutes: Option<u64>)
    requires
        call_ensures(OrchestratorState::runner_uptime, (&state, &now), minutes),
    ensures
        minutes is Some <==> state.runner is Some,
        minutes matches Some(m) ==> are_whole_minutes(m as int, state.runner->0.created_at, now),
{
    if state.runner is Some {
        law_uptime(state.runner->0, now);
    }
}

/// The next billing cycle begins when the uptime reaches the next multiple of an hour; at such a
/// multiple it is a whole hour away.
pub proof fn law_until_billing(runner: RunnerState, now: Timestamp, minutes: u64)
    requires
        call_ensures(RunnerState::minutes_until_next_billing_cycle, (&runner, &now), minutes),
    ensures
        1 <= minutes <= 60,
        (runner.uptime(now) + minutes) % 60 == 0,
        minutes == runner.until_billing(now),
{
}

/// A server should be deleted once its minimum runtime is reached and its hour has at most `buffer`
/// minutes left; it can be deleted once its minimum runtime is reached.
pub proof fn law_time_to_delete(
    runner: RunnerState,
    min_lifetime: u64,
    buffer: u64,
    now: Timestamp,
    should: bool,
    can: bool,
)
    requires
        call_ensures(RunnerState::should_delete, (&runner, min_lifetime, buffer, &now), should),
        call_ensures(RunnerState::can_force_delete, (&runner, min_lifetime, &now), can),
    ensures
        can <==> runner.uptime(now) >= min_lifetime,
        should <==> can && runner.uptime(now) % 60 + buffer >= 60,
{
}

} // verus!

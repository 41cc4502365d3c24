//! What the orchestrator knows of the runner server.
use crate::time::{minutes_between, Timestamp};
use vstd::prelude::*;

verus! {

/// Minutes in a billing cycle: servers are billed by the hour from their creation on.
pub const BILLING_CYCLE_MINUTES: u64 = 60;

/// A runner server.
#[derive(Debug)]
pub struct RunnerState {
    /// Hetzner server ID
    pub server_id: u64,
    /// Server name
    pub server_name: String,
    /// When the server was created
    pub created_at: Timestamp,
}

impl RunnerState {
    /// Whole minutes that the server has run at `now`.
    pub open spec fn uptime(self, now: Timestamp) -> int {
        minutes_between(self.created_at, now)
    }

    /// Minutes from `now` to the start of the next billing cycle.
    pub open spec fn until_billing(self, now: Timestamp) -> int {
        BILLING_CYCLE_MINUTES - self.uptime(now) % BILLING_CYCLE_MINUTES as int
    }

    /// A server that was created at this time.
    pub fn new(server_id: u64, server_name: String, created_at: Timestamp) -> (runner: RunnerState)
        ensures
            runner.server_id == server_id,
            runner.server_name == server_name,
            runner.created_at == created_at,
    {
        RunnerState { server_id, server_name, created_at }
    }

    /// Whole minutes that the server has run at `now`.
    pub fn uptime_minutes(&self, now: &Timestamp) -> (minutes: u64)
        ensures
            minutes == self.uptime(*now),
    {
        now.minutes_since(&self.created_at)
    }

    /// Minutes from `now` to the start of the next billing cycle; at its very start, a whole cycle.
    pub fn minutes_until_next_billing_cycle(&self, now: &Timestamp) -> (minutes: u64)
        ensures
            minutes == self.until_billing(*now),
            1 <= minutes <= BILLING_CYCLE_MINUTES,
    {
        BILLING_CYCLE_MINUTES - self.uptime_minutes(now) % BILLING_CYCLE_MINUTES
    }

    /// Whether `now` is the best time to delete the server: the minimum runtime is reached, and the
    /// next billing cycle is at most `buffer` minutes away.
    pub fn should_delete(&self, min_lifetime: u64, buffer: u64, now: &Timestamp) -> (delete: bool)
        ensures
            delete == (min_lifetime <= self.uptime(*now) && self.until_billing(*now) <= buffer),
    {
        min_lifetime <= self.uptime_minutes(now) && self.minutes_until_next_billing_cycle(now)
            <= buffer
    }

    /// Whether the server may be deleted: the minimum runtime is reached.
    pub fn can_force_delete(&self, min_lifetime: u64, now: &Timestamp) -> (delete: bool)
        ensures
            delete == (min_lifetime <= self.uptime(*now)),
    {
        min_lifetime <= self.uptime_minutes(now)
    }
}

/// State of the orchestrator: the runner server, if there is one.
#[derive(Debug)]
pub struct OrchestratorState {
    pub runner: Option<RunnerState>,
}

impl OrchestratorState {
    /// Whether a runner server is recorded.
    pub fn has_runner(&self) -> (has: bool)
        ensures
            has == (self.runner is Some),
    {
        self.runner.is_some()
    }

    /// Whole minutes that the runner server has run at `now`, if there is one.
    pub fn runner_uptime(&self, now: &Timestamp) -> (minutes: Option<u64>)
        ensures
            minutes is Some <==> self.runner is Some,
            minutes matches Some(m) ==> m == self.runner->0.uptime(*now),
    {
        match &self.runner {
            Some(runner) => Some(runner.uptime_minutes(now)),
            None => None,
        }
    }

    /// Records the runner server.
    pub fn set_runner(&mut self, runner: RunnerState)
        ensures
            final(self).runner == Some(runner),
    {
        self.runner = Some(runner);
    }

    /// Records that there is no runner server.
    pub fn clear_runner(&mut self)
        ensures
            final(self).runner is None,
    {
        self.runner = None;
    }
}

} // verus!

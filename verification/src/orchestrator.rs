//! The decisions of the orchestrator: when a runner server is created, kept and deleted.
use crate::config::RunnerConfig;
use crate::forgejo::{ActiveJob, ForgejoError};
use crate::hetzner::{HetznerError, Server};
use crate::state::{OrchestratorState, RunnerState};
use crate::time::Timestamp;
use vstd::prelude::*;
use vstd::string::*;

verus! {

/// Buffer in minutes before billing cycle for optimal deletion.
pub const BILLING_BUFFER_MINUTES: u64 = 5;

/// With more minutes than this until the next billing cycle, the last one has only just begun.
pub const FRESH_CYCLE_MINUTES: u64 = 55;

/// Polling interval of a debug build in seconds.
pub const DEBUG_POLL_SECONDS: u64 = 5;

/// Reason of a server start in the log.
pub const START_REASON: &'static str = "pipeline_pending";

/// Why a runner server is deleted.
#[derive(Debug, Clone, Copy, PartialEq, Eq, Structural)]
pub enum DeleteReason {
    /// A debug build does not wait.
    DebugImmediate,
    /// The next billing cycle is about to begin.
    OptimalBillingTime,
    /// All pipelines are done, and the next billing cycle is almost a full one away.
    AllPipelinesDone,
}

impl DeleteReason {
    /// The reason as it stands in the log.
    pub open spec fn spec_name(self) -> Seq<char> {
        match self {
            DeleteReason::DebugImmediate => "debug_immediate_delete"@,
            DeleteReason::OptimalBillingTime => "optimal_billing_time"@,
            DeleteReason::AllPipelinesDone => "all_pipelines_done"@,
        }
    }

    /// The reason as it stands in the log.
    pub fn name(&self) -> (name: &'static str)
        ensures
            name@ == self.spec_name(),
    {
        match self {
            DeleteReason::DebugImmediate => "debug_immediate_delete",
            DeleteReason::OptimalBillingTime => "optimal_billing_time",
            DeleteReason::AllPipelinesDone => "all_pipelines_done",
        }
    }
}

/// What has ended a pass early.
#[derive(Debug)]
pub enum PassError {
    /// The active jobs could not be found.
    Jobs(ForgejoError),
    /// The server could not be created.
    Creation(HetznerError),
    /// The server could not be deleted.
    Deletion(HetznerError),
}

impl PassError {
    /// The characters of the message of this error.
    pub open spec fn spec_describe(self) -> Seq<char> {
        match self {
            PassError::Jobs(error) => error.spec_describe(),
            PassError::Creation(_) => "Error creating server"@,
            PassError::Deletion(_) => "Error deleting server"@,
        }
    }

    /// The message of this error. That of a failed creation or deletion says what was tried.
    pub fn describe(&self) -> (message: String)
        ensures
            message@ == self.spec_describe(),
    {
        match self {
            PassError::Jobs(error) => error.describe(),
            PassError::Creation(_) => "Error creating server".to_owned(),
            PassError::Deletion(_) => "Error deleting server".to_owned(),
        }
    }

    /// The characters of the message of the error behind a failed creation or deletion.
    pub open spec fn spec_cause(self) -> Option<Seq<char>> {
        match self {
            PassError::Jobs(_) => None,
            PassError::Creation(error) => Some(error.spec_describe()),
            PassError::Deletion(error) => Some(error.spec_describe()),
        }
    }

    /// The message of the error behind a failed creation or deletion.
    pub fn cause(&self) -> (message: Option<String>)
        ensures
            message is Some <==> self.spec_cause() is Some,
            message matches Some(m) ==> Some(m@) == self.spec_cause(),
    {
        match self {
            PassError::Jobs(_) => None,
            PassError::Creation(error) => Some(error.describe()),
            PassError::Deletion(error) => Some(error.describe()),
        }
    }
}

/// How the recorded runner compares with the server that Hetzner has.
#[derive(Debug, PartialEq, Eq, Structural)]
pub enum Verification {
    /// The recorded server exists.
    Verified,
    /// The recorded server exists no more; the record was cleared.
    Vanished { recorded_id: u64 },
    /// Another server exists than the recorded one; it took its place.
    Replaced { recorded_id: u64, found_id: u64 },
    /// No server was recorded, but one exists; it was taken over.
    Adopted { found_id: u64 },
    /// No server was recorded, and none exists.
    NoServer,
}

/// Whether `after` is what has to be recorded at `now`, when `before` was recorded and `found` is
/// the server that exists.
pub open spec fn reconciled(
    before: Option<RunnerState>,
    found: Option<Server>,
    now: Timestamp,
    after: Option<RunnerState>,
) -> bool {
    match found {
        None => after is None,
        Some(server) => if before is Some && before->0.server_id == server.id {
            after == before
        } else {
            &&& after is Some
            &&& after->0.server_id == server.id
            &&& after->0.server_name == server.name
            &&& after->0.created_at == now
        },
    }
}

/// How a recorded runner compares with the server that exists.
pub open spec fn comparison(before: Option<RunnerState>, found: Option<Server>) -> Verification {
    match (before, found) {
        (Some(runner), Some(server)) => if runner.server_id == server.id {
            Verification::Verified
        } else {
            Verification::Replaced { recorded_id: runner.server_id, found_id: server.id }
        },
        (Some(runner), None) => Verification::Vanished { recorded_id: runner.server_id },
        (None, Some(server)) => Verification::Adopted { found_id: server.id },
        (None, None) => Verification::NoServer,
    }
}

/// Brings the state in line with the server that Hetzner has under the runner's name.
///
/// - State says server exists, Hetzner too: the state is kept.
/// - State says server exists, Hetzner doesn't: the state is cleared.
/// - Hetzner has a server that the state does not know: the state takes it over, created `now`.
/// - Both say no server: nothing to do.
pub fn verify_state_with_hetzner(
    state: &mut OrchestratorState,
    hetzner_server: Result<Option<Server>, HetznerError>,
    now: Timestamp,
) -> (outcome: Result<Verification, HetznerError>)
    ensures
        match hetzner_server {
            Ok(found) => {
                &&& outcome == Ok::<_, HetznerError>(comparison(old(state).runner, found))
                &&& reconciled(old(state).runner, found, now, final(state).runner)
            },
            Err(error) => outcome == Err::<Verification, _>(error) && *final(state) == *old(state),
        },
{
    let found = match hetzner_server {
        Ok(found) => found,
        Err(error) => return Err(error),
    };
    let recorded_id = match &state.runner {
        Some(runner) => Some(runner.server_id),
        None => None,
    };
    match (recorded_id, found) {
        (Some(recorded_id), Some(server)) => {
            if recorded_id == server.id {
                Ok(Verification::Verified)
            } else {
                let found_id = server.id;
                state.set_runner(RunnerState::new(server.id, server.name, now));
                Ok(Verification::Replaced { recorded_id, found_id })
            }
        },
        (Some(recorded_id), None) => {
            state.clear_runner();
            Ok(Verification::Vanished { recorded_id })
        },
        (None, Some(server)) => {
            let found_id = server.id;
            state.set_runner(RunnerState::new(server.id, server.name, now));
            Ok(Verification::Adopted { found_id })
        },
        (None, None) => Ok(Verification::NoServer),
    }
}

/// A server that is to be deleted.
#[derive(Debug, PartialEq, Eq, Structural)]
pub struct DeleteOrder {
    pub server_id: u64,
    /// Minutes that the server has run
    pub uptime_minutes: u64,
    pub reason: DeleteReason,
}

impl DeleteOrder {
    /// Whether this is the order to delete this runner at `now`, for this reason.
    pub open spec fn is_for(self, runner: RunnerState, reason: DeleteReason, now: Timestamp) -> bool {
        &&& self.server_id == runner.server_id
        &&& self.uptime_minutes == runner.uptime(now)
        &&& self.reason == reason
    }
}

/// What is to be done about a runner server without work.
#[derive(Debug, PartialEq, Eq, Structural)]
pub enum DeletionPlan {
    /// There is no server.
    NoRunner,
    /// The server is to be deleted.
    Delete(DeleteOrder),
    /// The server is kept for now.
    Wait { uptime_minutes: u64, minutes_to_billing: u64 },
}

/// Why a server without work is to be deleted; none if it is kept for now. A debug build deletes it
/// at once. Else it goes when it should be deleted, or when it can be and the next billing cycle is
/// still far away.
pub open spec fn reason_to_delete(
    debug_build: bool,
    should_delete: bool,
    can_force_delete: bool,
    minutes_to_billing: int,
) -> Option<DeleteReason> {
    if debug_build {
        Some(DeleteReason::DebugImmediate)
    } else if should_delete {
        Some(DeleteReason::OptimalBillingTime)
    } else if can_force_delete && minutes_to_billing > FRESH_CYCLE_MINUTES {
        Some(DeleteReason::AllPipelinesDone)
    } else {
        None
    }
}

/// Why a server without work is to be deleted; none if it is kept for now.
pub fn delete_reason(
    debug_build: bool,
    should_delete: bool,
    can_force_delete: bool,
    minutes_to_billing: u64,
) -> (reason: Option<DeleteReason>)
    ensures
        reason == reason_to_delete(
            debug_build,
            should_delete,
            can_force_delete,
            minutes_to_billing as int,
        ),
{
    if debug_build {
        Some(DeleteReason::DebugImmediate)
    } else if should_delete {
        Some(DeleteReason::OptimalBillingTime)
    } else if can_force_delete && minutes_to_billing > FRESH_CYCLE_MINUTES {
        Some(DeleteReason::AllPipelinesDone)
    } else {
        None
    }
}

/// Why a runner without work is to be deleted at `now`; none if it is kept for now.
pub open spec fn runner_delete_reason(
    runner: RunnerState,
    debug_build: bool,
    min_lifetime: u64,
    now: Timestamp,
) -> Option<DeleteReason> {
    reason_to_delete(
        debug_build,
        min_lifetime <= runner.uptime(now) && runner.until_billing(now) <= BILLING_BUFFER_MINUTES,
        min_lifetime <= runner.uptime(now),
        runner.until_billing(now),
    )
}

/// Whether `plan` is what is to be done at `now` about a recorded runner without work.
pub open spec fn plans_deletion(
    recorded: Option<RunnerState>,
    debug_build: bool,
    min_lifetime: u64,
    now: Timestamp,
    plan: DeletionPlan,
) -> bool {
    match recorded {
        None => plan is NoRunner,
        Some(runner) => match runner_delete_reason(runner, debug_build, min_lifetime, now) {
            Some(reason) => plan is Delete && plan->Delete_0.is_for(runner, reason, now),
            None => {
                &&& plan is Wait
                &&& plan->uptime_minutes == runner.uptime(now)
                &&& plan->minutes_to_billing == runner.until_billing(now)
            },
        },
    }
}

/// Checks if the server should be deleted.
///
/// In a debug build, the server is deleted immediately. In a release build, it waits for optimal
/// billing time.
pub fn maybe_delete_runner(
    state: &OrchestratorState,
    min_lifetime: u64,
    debug_build: bool,
    now: &Timestamp,
) -> (plan: DeletionPlan)
    ensures
        plans_deletion(state.runner, debug_build, min_lifetime, *now, plan),
{
    let runner = match &state.runner {
        Some(runner) => runner,
        None => return DeletionPlan::NoRunner,
    };
    let uptime_minutes = runner.uptime_minutes(now);
    let minutes_to_billing = runner.minutes_until_next_billing_cycle(now);
    let should_delete = runner.should_delete(min_lifetime, BILLING_BUFFER_MINUTES, now);
    let can_force_delete = runner.can_force_delete(min_lifetime, now);
    match delete_reason(debug_build, should_delete, can_force_delete, minutes_to_billing) {
        Some(reason) => match delete_order(state, reason, now) {
            Some(order) => DeletionPlan::Delete(order),
            None => DeletionPlan::NoRunner,
        },
        None => DeletionPlan::Wait { uptime_minutes, minutes_to_billing },
    }
}

/// What one pass of the orchestration does.
#[derive(Debug)]
pub enum TickPlan {
    /// There is work, but no server: one is to be created for the first job.
    CreateRunner { project: String, pipeline_id: u64 },
    /// There is work, and a server for it.
    Running { uptime_minutes: u64, active_jobs: usize },
    /// There is no work, but a server.
    NoWork(DeletionPlan),
    /// There is no work, and no server.
    Idle,
}

/// One pass of the orchestration logic, for the jobs that are active: what is to be done.
pub fn orchestration_tick(
    state: &OrchestratorState,
    active_jobs: Result<Vec<ActiveJob>, ForgejoError>,
    config: &RunnerConfig,
    debug_build: bool,
    now: &Timestamp,
) -> (outcome: Result<TickPlan, ForgejoError>)
    ensures
        match active_jobs {
            Err(error) => outcome == Err::<TickPlan, _>(error),
            Ok(jobs) => {
                &&& outcome is Ok
                &&& match state.runner {
                    None => if jobs@.len() > 0 {
                        &&& outcome->Ok_0 is CreateRunner
                        &&& outcome->Ok_0->project@ == jobs@[0]@.project
                        &&& outcome->Ok_0->pipeline_id == jobs@[0]@.id
                    } else {
                        outcome->Ok_0 is Idle
                    },
                    Some(runner) => if jobs@.len() > 0 {
                        &&& outcome->Ok_0 is Running
                        &&& outcome->Ok_0->Running_uptime_minutes == runner.uptime(*now)
                        &&& outcome->Ok_0->active_jobs == jobs@.len()
                    } else {
                        &&& outcome->Ok_0 is NoWork
                        &&& plans_deletion(
                            state.runner,
                            debug_build,
                            config.min_lifetime_minutes,
                            *now,
                            outcome->Ok_0->NoWork_0,
                        )
                    },
                }
            },
        },
{
    let jobs = match active_jobs {
        Ok(jobs) => jobs,
        Err(error) => return Err(error),
    };
    if jobs.len() > 0 {
        match state.runner_uptime(now) {
            None => {
                let first = &jobs[0];
                Ok(
                    TickPlan::CreateRunner {
                        project: first.project.full_name.clone(),
                        pipeline_id: first.job.id,
                    },
                )
            },
            Some(uptime_minutes) => {
                Ok(TickPlan::Running { uptime_minutes, active_jobs: jobs.len() })
            },
        }
    } else if state.has_runner() {
        Ok(
            TickPlan::NoWork(
                maybe_delete_runner(state, config.min_lifetime_minutes, debug_build, now),
            ),
        )
    } else {
        Ok(TickPlan::Idle)
    }
}

/// What the log is told of a server start.
#[derive(Debug)]
pub struct StartRecord {
    pub server_id: u64,
    pub project: String,
    pub pipeline_id: u64,
    pub reason: &'static str,
}

/// What the log is told of a server stop.
#[derive(Debug)]
pub struct StopRecord {
    pub server_id: u64,
    pub reason: &'static str,
    pub duration_minutes: u64,
}

/// A change of the set of servers that exist.
pub enum Change {
    Created { server_id: u64 },
    Deleted { server_id: u64 },
}

/// Whether the record went from `before` to `after` as this change of the servers demands.
pub open spec fn records_change(
    before: Option<RunnerState>,
    change: Change,
    after: Option<RunnerState>,
) -> bool {
    match change {
        Change::Created { server_id } => {
            &&& before is None
            &&& after is Some
            &&& after->0.server_id == server_id
        },
        Change::Deleted { server_id } => {
            &&& before is Some
            &&& before->0.server_id == server_id
            &&& after is None
        },
    }
}

/// Takes the outcome of the server creation: a new server is recorded as created `now`, and the log
/// is told. An error leaves the state as it is.
pub fn create_runner(
    state: &mut OrchestratorState,
    created: Result<Server, HetznerError>,
    project: String,
    pipeline_id: u64,
    now: Timestamp,
) -> (outcome: Result<StartRecord, PassError>)
    ensures
        match created {
            Ok(server) => {
                &&& final(state).runner is Some
                &&& final(state).runner->0.server_id == server.id
                &&& final(state).runner->0.server_name == server.name
                &&& final(state).runner->0.created_at == now
                &&& old(state).runner is None ==> records_change(
                    old(state).runner,
                    Change::Created { server_id: server.id },
                    final(state).runner,
                )
                &&& outcome is Ok
                &&& outcome->Ok_0.server_id == server.id
                &&& outcome->Ok_0.project == project
                &&& outcome->Ok_0.pipeline_id == pipeline_id
                &&& outcome->Ok_0.reason@ == START_REASON@
            },
            Err(error) => {
                &&& outcome == Err::<StartRecord, _>(PassError::Creation(error))
                &&& *final(state) == *old(state)
            },
        },
{
    match created {
        Ok(server) => {
            let server_id = server.id;
            state.set_runner(RunnerState::new(server.id, server.name, now));
            Ok(StartRecord { server_id, project, pipeline_id, reason: START_REASON })
        },
        Err(error) => Err(PassError::Creation(error)),
    }
}

/// The order to delete the recorded server; none if there is no server.
pub fn delete_order(state: &OrchestratorState, reason: DeleteReason, now: &Timestamp) -> (order:
    Option<DeleteOrder>)
    ensures
        match state.runner {
            None => order is None,
            Some(runner) => order is Some && order->0.is_for(runner, reason, *now),
        },
{
    match &state.runner {
        Some(runner) => Some(
            DeleteOrder {
                server_id: runner.server_id,
                uptime_minutes: runner.uptime_minutes(now),
                reason,
            },
        ),
        None => None,
    }
}

/// Takes the outcome of the server deletion that was ordered: the record is cleared, and the log is
/// told. An error leaves the state as it is.
pub fn delete_runner(
    state: &mut OrchestratorState,
    order: &DeleteOrder,
    deleted: Result<(), HetznerError>,
) -> (outcome: Result<StopRecord, PassError>)
    ensures
        match deleted {
            Ok(()) => {
                &&& final(state).runner is None
                &&& old(state).runner is Some && old(state).runner->0.server_id == order.server_id
                    ==> records_change(
                    old(state).runner,
                    Change::Deleted { server_id: order.server_id },
                    final(state).runner,
                )
                &&& outcome is Ok
                &&& outcome->Ok_0.server_id == order.server_id
                &&& outcome->Ok_0.reason@ == order.reason.spec_name()
                &&& outcome->Ok_0.duration_minutes == order.uptime_minutes
            },
            Err(error) => {
                &&& outcome == Err::<StopRecord, _>(PassError::Deletion(error))
                &&& *final(state) == *old(state)
            },
        },
{
    match deleted {
        Ok(()) => {
            state.clear_runner();
            Ok(
                StopRecord {
                    server_id: order.server_id,
                    reason: order.reason.name(),
                    duration_minutes: order.uptime_minutes,
                },
            )
        },
        Err(error) => Err(PassError::Deletion(error)),
    }
}

/// Seconds between two passes: a debug build polls often.
pub fn poll_interval_seconds(debug_build: bool, config: &RunnerConfig) -> (seconds: u64)
    ensures
        seconds == if debug_build {
            DEBUG_POLL_SECONDS
        } else {
            config.poll_interval_seconds
        },
{
    if debug_build {
        DEBUG_POLL_SECONDS
    } else {
        config.poll_interval_seconds
    }
}

/// After verification the state agrees with Hetzner: a runner is recorded exactly if a server
/// exists, and it is that server.
pub proof fn law_verified_state_agrees(
    before: Option<RunnerState>,
    found: Option<Server>,
    now: Timestamp,
    after: Option<RunnerState>,
)
    requires
        reconciled(before, found, now, after),
    ensures
        after is Some <==> found is Some,
        after is Some ==> after->0.server_id == found->0.id,
{
}

/// Verifying once more against the same server changes nothing.
pub proof fn law_verification_is_idempotent(
    before: Option<RunnerState>,
    found: Option<Server>,
    now: Timestamp,
    after: Option<RunnerState>,
    later: Timestamp,
    again: Option<RunnerState>,
)
    requires
        reconciled(before, found, now, after),
        reconciled(after, found, later, again),
    ensures
        again == after,
        comparison(after, found) == if found is Some {
            Verification::Verified
        } else {
            Verification::NoServer
        },
{
}

/// A release build never deletes a server before its minimum runtime, and only in the last minutes
/// before a billing cycle or in the first ones of a new cycle; past the minimum runtime it always
/// deletes then.
pub proof fn law_release_deletes_around_billing(
    runner: RunnerState,
    min_lifetime: u64,
    now: Timestamp,
)
    ensures
        runner_delete_reason(runner, false, min_lifetime, now) is Some <==> {
            &&& min_lifetime <= runner.uptime(now)
            &&& runner.uptime(now) % 60 >= 55 || runner.uptime(now) % 60 < 5
        },
        runner_delete_reason(runner, false, min_lifetime, now) == Some(
            DeleteReason::OptimalBillingTime,
        ) <==> min_lifetime <= runner.uptime(now) && runner.uptime(now) % 60 >= 55,
{
}

/// Minutes from an uptime until the next time at which a release build deletes a server without
/// work, once the minimum runtime is reached.
pub open spec fn minutes_to_deletion(uptime: int) -> int {
    if uptime % 60 < 5 || uptime % 60 >= 55 {
        0
    } else {
        55 - uptime % 60
    }
}

/// A server without work does not stay long: past its minimum runtime, a release build finds a
/// reason to delete it within fifty minutes.
pub proof fn law_idle_server_goes(
    runner: RunnerState,
    min_lifetime: u64,
    now: Timestamp,
    later: Timestamp,
)
    requires
        min_lifetime <= runner.uptime(now),
        runner.uptime(later) == runner.uptime(now) + minutes_to_deletion(runner.uptime(now)),
    ensures
        0 <= minutes_to_deletion(runner.uptime(now)) <= 50,
        runner_delete_reason(runner, false, min_lifetime, later) is Some,
{
    law_release_deletes_around_billing(runner, min_lifetime, later);
}

/// A debug build deletes a server without work at once.
pub proof fn law_debug_deletes_at_once(runner: RunnerState, min_lifetime: u64, now: Timestamp)
    ensures
        runner_delete_reason(runner, true, min_lifetime, now) == Some(DeleteReason::DebugImmediate),
{
}

/// Whether the servers that exist are exactly the recorded one.
pub open spec fn tracks(recorded: Option<RunnerState>, servers: Set<u64>) -> bool {
    servers == match recorded {
        Some(runner) => set![runner.server_id],
        None => Set::empty(),
    }
}

/// The servers that exist after a change.
pub open spec fn servers_after(servers: Set<u64>, change: Change) -> Set<u64> {
    match change {
        Change::Created { server_id } => servers.insert(server_id),
        Change::Deleted { server_id } => servers.remove(server_id),
    }
}

/// Where the record and the servers that exist are in step, each change that is recorded keeps them
/// so, and leaves at most one server.
///
/// A change of which nothing is learned is not recorded: a server whose creation was answered by a
/// reply that was lost, or that could not be decoded, exists beside an empty record.
pub proof fn law_at_most_one_server(
    before: Option<RunnerState>,
    servers: Set<u64>,
    change: Change,
    after: Option<RunnerState>,
)
    requires
        tracks(before, servers),
        records_change(before, change, after),
    ensures
        tracks(after, servers_after(servers, change)),
        servers_after(servers, change).len() <= 1,
{
    match change {
        Change::Created { server_id } => {
            assert(servers_after(servers, change) =~= set![server_id]);
        },
        Change::Deleted { server_id } => {
            assert(servers_after(servers, change) =~= Set::<u64>::empty());
        },
    }
}

} // verus!

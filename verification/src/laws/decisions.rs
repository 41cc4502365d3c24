//! Laws on when a server is created, kept and deleted, and on the steps of a pass.
use crate::config::{ForgejoConfig, RunnerConfig};
use crate::csv_log::CsvLogger;
use crate::forgejo::{
    listed, names, ActiveJob, AdminRunnerJob, ForgejoError, ListedJob, RepoIndex, RepoInfo,
};
use crate::hetzner::{HetznerError, Server, SshKey};
use crate::http::{Method, Reply};
use crate::laws::api::{
    enters, is_forgejo_failure, is_forgejo_get, is_hetzner_failure, is_hetzner_request,
    is_server_order, lemma_enters, lemma_forgejo_urls, lemma_hetzner_urls, lemma_work, repository,
    work,
};
use crate::laws::log::{columns, lemma_start_text, lemma_stop_text, quoted_if_special};
use crate::laws::time::law_uptime;
use crate::orchestrator::{
    create_runner, delete_order, delete_reason, delete_runner, maybe_delete_runner,
    orchestration_tick, poll_interval_seconds, verify_state_with_hetzner, DeleteOrder,
    DeleteReason, DeletionPlan, PassError, StartRecord, StopRecord, TickPlan, Verification,
};
use crate::pass::{Orchestrator, Report, Step};
use crate::state::{OrchestratorState, RunnerState};
use crate::text::{decimal, law_decimal_appends_digit};
use crate::time::{rfc3339_utc, Timestamp};
use std::collections::HashMap;
use vstd::prelude::*;
use vstd::string::*;

verus! {

/// Whether it is time for a server without work to go: at once in a debug build; else past the
/// minimum runtime, in the last five minutes of a paid hour or in the first five of the next one.
pub open spec fn is_due(debug_build: bool, min_lifetime: int, uptime: int) -> bool {
    debug_build || (min_lifetime <= uptime && (uptime % 60 >= 55 || uptime % 60 < 5))
}

/// Why a server goes whose time has come.
pub open spec fn why_due(debug_build: bool, uptime: int) -> DeleteReason {
    if debug_build {
        DeleteReason::DebugImmediate
    } else if uptime % 60 >= 55 {
        DeleteReason::OptimalBillingTime
    } else {
        DeleteReason::AllPipelinesDone
    }
}

/// Whether these are the minutes until the next full hour of uptime.
pub open spec fn are_minutes_to_hour(minutes: int, uptime: int) -> bool {
    1 <= minutes <= 60 && (uptime + minutes) % 60 == 0
}

/// A debug build always has a reason. Else there is one where the server should be deleted, or where
/// it can be and more than 55 minutes are left.
pub proof fn law_delete_reason(
    debug_build: bool,
    should_delete: bool,
    can_force_delete: bool,
    minutes_to_billing: u64,
    reason: Option<DeleteReason>,
)
    requires
        call_ensures(
            delete_reason,
            (debug_build, should_delete, can_force_delete, minutes_to_billing),
            reason,
        ),
    ensures
        reason == Some(DeleteReason::DebugImmediate) <==> debug_build,
        reason == Some(DeleteReason::OptimalBillingTime) <==> !debug_build && should_delete,
        reason == Some(DeleteReason::AllPipelinesDone) <==> !debug_build && !should_delete
            && can_force_delete && minutes_to_billing > 55,
{
}

/// An order names the recorded server and its uptime; without a server there is none.
pub proof fn law_delete_order(
    state: OrchestratorState,
    reason: DeleteReason,
    now: Timestamp,
    order: Option<DeleteOrder>,
)
    requires
        call_ensures(delete_order, (&state, reason, &now), order),
    ensures
        order is Some <==> state.runner is Some,
        order matches Some(o) ==> o.server_id == state.runner->0.server_id && o.uptime_minutes
            == state.runner->0.uptime(now) && o.reason == reason,
{
}

/// A server without work is deleted exactly when its time has come, and else waits for the next
/// full hour.
pub proof fn law_maybe_delete(
    state: OrchestratorState,
    min_lifetime: u64,
    debug_build: bool,
    now: Timestamp,
    plan: DeletionPlan,
)
    requires
        call_ensures(maybe_delete_runner, (&state, min_lifetime, debug_build, &now), plan),
    ensures
        plan is NoRunner <==> state.runner is None,
        plan is Delete <==> state.runner is Some && is_due(
            debug_build,
            min_lifetime as int,
            state.runner->0.uptime(now),
        ),
        plan matches DeletionPlan::Delete(order) ==> order.server_id == state.runner->0.server_id
            && order.uptime_minutes == state.runner->0.uptime(now) && order.reason == why_due(
            debug_build,
            state.runner->0.uptime(now),
        ),
        plan matches DeletionPlan::Wait { uptime_minutes, minutes_to_billing } ==> uptime_minutes
            == state.runner->0.uptime(now) && are_minutes_to_hour(
            minutes_to_billing as int,
            uptime_minutes as int,
        ),
{
    if state.runner is Some {
        law_uptime(state.runner->0, now);
    }
}

/// With jobs a server is created for the first one unless there is a server; without jobs a server
/// is deleted exactly when its time has come.
pub proof fn law_tick(
    state: OrchestratorState,
    jobs: Result<Vec<ActiveJob>, ForgejoError>,
    config: RunnerConfig,
    debug_build: bool,
    now: Timestamp,
    outcome: Result<TickPlan, ForgejoError>,
)
    requires
        call_ensures(orchestration_tick, (&state, jobs, &config, debug_build, &now), outcome),
    ensures
        jobs matches Err(error) ==> outcome == Err::<TickPlan, _>(error),
        jobs is Ok ==> outcome is Ok,
        jobs is Ok ==> (outcome->Ok_0 is CreateRunner <==> state.runner is None && jobs->Ok_0@.len()
            > 0),
        jobs is Ok ==> (outcome->Ok_0 is Idle <==> state.runner is None && jobs->Ok_0@.len() == 0),
        jobs is Ok ==> (outcome->Ok_0 is Running <==> state.runner is Some && jobs->Ok_0@.len() > 0),
        outcome matches Ok(TickPlan::CreateRunner { project, pipeline_id }) ==> project@
            == jobs->Ok_0@[0].project.full_name@ && pipeline_id == jobs->Ok_0@[0].job.id,
        outcome matches Ok(TickPlan::Running { uptime_minutes, active_jobs }) ==> uptime_minutes
            == state.runner->0.uptime(now) && active_jobs == jobs->Ok_0@.len(),
        outcome matches Ok(TickPlan::NoWork(plan)) ==> (plan is Delete <==> is_due(
            debug_build,
            config.min_lifetime_minutes as int,
            state.runner->0.uptime(now),
        )),
        outcome matches Ok(TickPlan::NoWork(DeletionPlan::Delete(order))) ==> order.server_id
            == state.runner->0.server_id && order.uptime_minutes == state.runner->0.uptime(now)
            && order.reason == why_due(debug_build, state.runner->0.uptime(now)),
        outcome matches Ok(TickPlan::NoWork(DeletionPlan::Wait {
            uptime_minutes,
            minutes_to_billing,
        })) ==> uptime_minutes == state.runner->0.uptime(now) && are_minutes_to_hour(
            minutes_to_billing as int,
            uptime_minutes as int,
        ),
        !(outcome matches Ok(TickPlan::NoWork(DeletionPlan::NoRunner))),
{
    if state.runner is Some {
        law_uptime(state.runner->0, now);
    }
}

/// After verification the record is of the server that exists: kept if it was of that server, begun
/// anew if it was not, and cleared if there is no server. A failed lookup changes nothing.
pub proof fn law_verify_state(
    state: &mut OrchestratorState,
    found: Result<Option<Server>, HetznerError>,
    now: Timestamp,
    outcome: Result<Verification, HetznerError>,
)
    requires
        call_ensures(verify_state_with_hetzner, (state, found, now), outcome),
    ensures
        found matches Err(error) ==> outcome == Err::<Verification, _>(error) && *final(state)
            == *old(state),
        found matches Ok(None) ==> final(state).runner is None,
        found matches Ok(Some(server)) ==> final(state).runner is Some
            && final(state).runner->0.server_id == server.id,
        found matches Ok(Some(server)) ==> old(state).runner is Some
            && old(state).runner->0.server_id == server.id ==> final(state).runner
            == old(state).runner,
        found matches Ok(Some(server)) ==> !(old(state).runner is Some
            && old(state).runner->0.server_id == server.id) ==> final(state).runner->0.created_at
            == now && final(state).runner->0.server_name == server.name,
        found matches Ok(Some(server)) ==> match old(state).runner {
            Some(runner) => if runner.server_id == server.id {
                outcome == Ok::<_, HetznerError>(Verification::Verified)
            } else {
                outcome == Ok::<_, HetznerError>(
                    Verification::Replaced { recorded_id: runner.server_id, found_id: server.id },
                )
            },
            None => outcome == Ok::<_, HetznerError>(
                Verification::Adopted { found_id: server.id },
            ),
        },
        found matches Ok(None) ==> match old(state).runner {
            Some(runner) => outcome == Ok::<_, HetznerError>(
                Verification::Vanished { recorded_id: runner.server_id },
            ),
            None => outcome == Ok::<_, HetznerError>(Verification::NoServer),
        },
{
}

/// Whether a server is on record as created at this time.
pub open spec fn is_recorded(state: OrchestratorState, server: Server, now: Timestamp) -> bool {
    &&& state.runner is Some
    &&& state.runner->0.server_id == server.id
    &&& state.runner->0.server_name@ == server.name@
    &&& state.runner->0.created_at == now
}

/// A created server is put on record and logged for its job; an error changes nothing.
pub proof fn law_create_runner(
    state: &mut OrchestratorState,
    created: Result<Server, HetznerError>,
    project: String,
    pipeline_id: u64,
    now: Timestamp,
    outcome: Result<StartRecord, PassError>,
)
    requires
        call_ensures(create_runner, (state, created, project, pipeline_id, now), outcome),
    ensures
        created matches Ok(server) ==> is_recorded(*final(state), server, now) && outcome is Ok
            && outcome->Ok_0.server_id == server.id && outcome->Ok_0.project@ == project@
            && outcome->Ok_0.pipeline_id == pipeline_id && outcome->Ok_0.reason@
            == "pipeline_pending"@,
        created matches Err(error) ==> outcome == Err::<StartRecord, _>(PassError::Creation(error))
            && *final(state) == *old(state),
{
}

/// The word for a reason.
pub open spec fn reason_word(reason: DeleteReason) -> Seq<char> {
    if reason is DebugImmediate {
        "debug_immediate_delete"@
    } else if reason is OptimalBillingTime {
        "optimal_billing_time"@
    } else {
        "all_pipelines_done"@
    }
}

/// Reasons have their words.
pub proof fn law_reason_words(reason: DeleteReason, word: &'static str)
    requires
        call_ensures(DeleteReason::name, (&reason,), word),
    ensures
        word@ == reason_word(reason),
{
}

/// A deleted server is taken off the record and logged as ordered; an error changes nothing.
pub proof fn law_delete_runner(
    state: &mut OrchestratorState,
    order: DeleteOrder,
    deleted: Result<(), HetznerError>,
    outcome: Result<StopRecord, PassError>,
)
    requires
        call_ensures(delete_runner, (state, &order, deleted), outcome),
    ensures
        deleted is Ok ==> final(state).runner is None && outcome is Ok && outcome->Ok_0.server_id
            == order.server_id && outcome->Ok_0.duration_minutes == order.uptime_minutes
            && outcome->Ok_0.reason@ == reason_word(order.reason),
        deleted matches Err(error) ==> outcome == Err::<StopRecord, _>(PassError::Deletion(error))
            && *final(state) == *old(state),
{
}

/// A debug build polls every five seconds, any other one as configured.
pub proof fn law_poll_interval(debug_build: bool, config: RunnerConfig, seconds: u64)
    requires
        call_ensures(poll_interval_seconds, (debug_build, &config), seconds),
    ensures
        seconds == if debug_build {
            5
        } else {
            config.poll_interval_seconds
        },
{
}

/// The message of an error tells what failed, and its cause why.
pub proof fn law_pass_error_messages(error: PassError, message: String, cause: Option<String>)
    requires
        call_ensures(PassError::describe, (&error,), message),
        call_ensures(PassError::cause, (&error,), cause),
    ensures
        error is Creation ==> message@ == "Error creating server"@,
        error is Deletion ==> message@ == "Error deleting server"@,
        error matches PassError::Jobs(e) ==> message@ == e.spec_describe() && cause is None,
        error matches PassError::Creation(e) ==> cause is Some && cause->0@ == e.spec_describe(),
        error matches PassError::Deletion(e) ==> cause is Some && cause->0@ == e.spec_describe(),
{
}

/// A pass begins with the first page of repositories.
pub proof fn law_begin(o: Orchestrator, step: Step)
    requires
        call_ensures(Orchestrator::begin, (&o,), step),
    ensures
        step matches Step::Repos { index, request } && index.page == 1 && (forall|id: u64|
            !(#[trigger] index.repos@.contains_key(id))) && is_forgejo_get(
            request,
            o.forgejo,
            o.forgejo.base_url@ + "/api/v1/repos/search?limit=50&page="@ + seq!['1'],
        ),
{
    lemma_forgejo_urls(o.forgejo.base_url@, 1);
    law_decimal_appends_digit(0, 1);
    let index = step->index;
    assert forall|id: u64| !(#[trigger] index.repos@.contains_key(id)) by {
        assert(names(index.repos@).contains_key(id) == index.repos@.contains_key(id));
    }
}

/// A page is entered; with fifty repositories or more the next page is asked for, with fewer the
/// list of jobs. A reply without an answer ends the pass with its error.
pub proof fn law_on_repos(o: Orchestrator, index: RepoIndex, reply: Reply<Vec<RepoInfo>>, step: Step)
    requires
        call_ensures(Orchestrator::on_repos, (&o, index, reply), step),
    ensures
        match reply {
            Reply::Answered(Ok(data)) => if data@.len() >= 50 {
                step matches Step::Repos { index: next, request } && next.page == index.page + 1
                    && enters(index.repos@, data@, next.repos@) && is_forgejo_get(
                    request,
                    o.forgejo,
                    o.forgejo.base_url@ + "/api/v1/repos/search?limit=50&page="@ + decimal(
                        (index.page + 1) as nat,
                    ),
                )
            } else {
                step matches Step::Jobs { repos, request } && enters(index.repos@, data@, repos@)
                    && is_forgejo_get(
                    request,
                    o.forgejo,
                    o.forgejo.base_url@ + "/api/v1/admin/runners/jobs"@,
                )
            },
            _ => step matches Step::Failed(PassError::Jobs(error)) && is_forgejo_failure(
                reply,
                error,
            ),
        },
{
    lemma_forgejo_urls(o.forgejo.base_url@, (index.page + 1) as nat);
    if let Reply::Answered(Ok(data)) = reply {
        if data@.len() >= 50 {
            lemma_enters(index.repos@, data@, step->index.repos@);
        } else {
            lemma_enters(index.repos@, data@, step->repos@);
        }
    }
}

/// The configured tags; none if the list of them is absent or empty.
pub open spec fn configured_tags(config: ForgejoConfig) -> Option<Seq<String>> {
    if config.tag_filter is Some && config.tag_filter->0@.len() > 0 {
        Some(config.tag_filter->0@)
    } else {
        None
    }
}

/// The jobs that were listed; `null` lists none.
pub open spec fn listed_in(jobs: Option<Vec<AdminRunnerJob>>) -> Seq<AdminRunnerJob> {
    if jobs is Some {
        jobs->0@
    } else {
        Seq::empty()
    }
}

/// The work that an orchestrator sees in a list of jobs.
pub open spec fn work_for(o: Orchestrator, jobs: Option<Vec<AdminRunnerJob>>) -> Seq<AdminRunnerJob> {
    work(listed_in(jobs), configured_tags(o.config.forgejo))
}

proof fn lemma_work_for(
    o: Orchestrator,
    repos: Map<u64, String>,
    jobs: Option<Vec<AdminRunnerJob>>,
)
    ensures
        o.active(names(repos), jobs).len() == work_for(o, jobs).len(),
        work_for(o, jobs).len() > 0 ==> o.active(names(repos), jobs)[0].id == work_for(o, jobs)[0].id
            && o.active(names(repos), jobs)[0].project == repository(
            repos,
            work_for(o, jobs)[0].repo_id,
        ),
{
    let list = listed_in(jobs);
    let tags = configured_tags(o.config.forgejo);
    let filter = o.config.forgejo.spec_label_filter();
    if jobs is None {
        assert(listed(list) =~= Seq::<ListedJob>::empty());
    }
    lemma_work(names(repos), list, tags, filter);
    if work_for(o, jobs).len() > 0 {
        let id = work_for(o, jobs)[0].repo_id;
        assert(names(repos).contains_key(id) == repos.contains_key(id));
        if repos.contains_key(id) {
            assert(names(repos)[id] == repos[id]@);
        }
    }
}

/// A server is asked for exactly if there is work and no server: for the first job that is work, by
/// looking up the configured key.
pub proof fn law_jobs_lead_to_creation(
    o: Orchestrator,
    state: OrchestratorState,
    repos: HashMap<u64, String>,
    jobs: Option<Vec<AdminRunnerJob>>,
    now: Timestamp,
    step: Step,
)
    requires
        call_ensures(
            Orchestrator::on_jobs,
            (&o, &state, &repos, Reply::Answered(Ok(jobs)), &now),
            step,
        ),
    ensures
        step is SshKeys <==> state.runner is None && work_for(o, jobs).len() > 0,
        step matches Step::SshKeys { project, pipeline_id, request } ==> project@ == repository(
            repos@,
            work_for(o, jobs)[0].repo_id,
        ) && pipeline_id == work_for(o, jobs)[0].id && is_hetzner_request(
            request,
            o.hetzner,
            Method::Get,
            "https://api.hetzner.cloud/v1/ssh_keys?name="@ + o.hetzner.config.ssh_key_name@,
        ),
{
    lemma_work_for(o, repos@, jobs);
    lemma_hetzner_urls();
}

/// The server is deleted exactly if there is one, there is no work, and its time has come: at once
/// in a debug build, else past the minimum runtime in the last five minutes of a paid hour or in the
/// first five of the next one.
pub proof fn law_jobs_lead_to_deletion(
    o: Orchestrator,
    state: OrchestratorState,
    repos: HashMap<u64, String>,
    jobs: Option<Vec<AdminRunnerJob>>,
    now: Timestamp,
    step: Step,
)
    requires
        call_ensures(
            Orchestrator::on_jobs,
            (&o, &state, &repos, Reply::Answered(Ok(jobs)), &now),
            step,
        ),
    ensures
        step is Delete <==> state.runner is Some && work_for(o, jobs).len() == 0 && is_due(
            o.debug_build,
            o.config.runner.min_lifetime_minutes as int,
            state.runner->0.uptime(now),
        ),
        step matches Step::Delete { order, request } ==> order.server_id
            == state.runner->0.server_id && order.uptime_minutes == state.runner->0.uptime(now)
            && order.reason == why_due(o.debug_build, state.runner->0.uptime(now))
            && is_hetzner_request(
            request,
            o.hetzner,
            Method::Delete,
            "https://api.hetzner.cloud/v1/servers/"@ + decimal(state.runner->0.server_id as nat),
        ),
{
    lemma_work_for(o, repos@, jobs);
    lemma_hetzner_urls();
    if state.runner is Some {
        law_uptime(state.runner->0, now);
    }
}

/// Else nothing is asked for, and the report says why: the server works, it waits for the next full
/// hour, or there is neither work nor a server.
pub proof fn law_jobs_lead_to_nothing(
    o: Orchestrator,
    state: OrchestratorState,
    repos: HashMap<u64, String>,
    jobs: Option<Vec<AdminRunnerJob>>,
    now: Timestamp,
    step: Step,
)
    requires
        call_ensures(
            Orchestrator::on_jobs,
            (&o, &state, &repos, Reply::Answered(Ok(jobs)), &now),
            step,
        ),
    ensures
        step is SshKeys || step is Delete || step is Finished,
        step matches Step::Finished(report) ==> match report {
            Report::Running { uptime_minutes, active_jobs } => state.runner is Some && work_for(
                o,
                jobs,
            ).len() > 0 && uptime_minutes == state.runner->0.uptime(now) && active_jobs == work_for(
                o,
                jobs,
            ).len(),
            Report::Waiting { uptime_minutes, minutes_to_billing } => state.runner is Some
                && work_for(o, jobs).len() == 0 && uptime_minutes == state.runner->0.uptime(now)
                && are_minutes_to_hour(minutes_to_billing as int, uptime_minutes as int),
            Report::Idle => state.runner is None && work_for(o, jobs).len() == 0,
            _ => false,
        },
{
    lemma_work_for(o, repos@, jobs);
    if state.runner is Some {
        law_uptime(state.runner->0, now);
    }
}

/// A job list that was not answered ends the pass with its error.
pub proof fn law_jobs_unanswered(
    o: Orchestrator,
    state: OrchestratorState,
    repos: HashMap<u64, String>,
    reply: Reply<Option<Vec<AdminRunnerJob>>>,
    now: Timestamp,
    step: Step,
)
    requires
        call_ensures(Orchestrator::on_jobs, (&o, &state, &repos, reply, &now), step),
    ensures
        step is Failed <==> !(reply matches Reply::Answered(Ok(_))),
        step matches Step::Failed(error) ==> (error matches PassError::Jobs(cause)
            && is_forgejo_failure(reply, cause)),
{
}

/// With a key the server is ordered, for the same job, under the configured name and with the
/// cloud-init configuration; without one the pass ends.
pub proof fn law_on_ssh_keys(
    o: Orchestrator,
    project: String,
    pipeline_id: u64,
    reply: Reply<Vec<SshKey>>,
    step: Step,
)
    requires
        call_ensures(Orchestrator::on_ssh_keys, (&o, project, pipeline_id, reply), step),
    ensures
        match reply {
            Reply::Answered(Ok(keys)) => if keys@.len() > 0 {
                step matches Step::Create { project: p, pipeline_id: id, order } && p@ == project@
                    && id == pipeline_id && is_server_order(
                    order,
                    o.hetzner,
                    o.config.runner.name@,
                    o.cloud_init@,
                    keys@[0].id,
                )
            } else {
                step matches Step::Failed(PassError::Creation(error)) && error is SshKeyNotFound
                    && error->SshKeyNotFound_0@ == o.hetzner.config.ssh_key_name@
            },
            _ => step matches Step::Failed(PassError::Creation(error)) && is_hetzner_failure(
                reply,
                error,
            ),
        },
{
    lemma_hetzner_urls();
}

/// A created server is put on record and reported for its job; any other reply ends the pass and
/// changes nothing.
pub proof fn law_on_created(
    o: Orchestrator,
    state: &mut OrchestratorState,
    project: String,
    pipeline_id: u64,
    reply: Reply<Server>,
    now: Timestamp,
    step: Step,
)
    requires
        call_ensures(
            Orchestrator::on_created,
            (&o, state, project, pipeline_id, reply, now),
            step,
        ),
    ensures
        match reply {
            Reply::Answered(Ok(server)) => is_recorded(*final(state), server, now) && (
            step matches Step::Finished(Report::Started(record)) && record.server_id == server.id
                && record.project@ == project@ && record.pipeline_id == pipeline_id && record.reason@
                == "pipeline_pending"@),
            _ => *final(state) == *old(state) && (step matches Step::Failed(
                PassError::Creation(error),
            ) && is_hetzner_failure(reply, error)),
        },
{
}

/// A deletion with a success status takes the server off the record and is reported as ordered; any
/// other reply ends the pass and changes nothing.
pub proof fn law_on_deleted(
    o: Orchestrator,
    state: &mut OrchestratorState,
    order: DeleteOrder,
    reply: Reply<()>,
    step: Step,
)
    requires
        call_ensures(Orchestrator::on_deleted, (&o, state, order, reply), step),
    ensures
        if reply is Answered {
            final(state).runner is None && (step matches Step::Finished(Report::Stopped(record))
                && record.server_id == order.server_id && record.duration_minutes
                == order.uptime_minutes && record.reason@ == reason_word(order.reason))
        } else {
            *final(state) == *old(state) && (step matches Step::Failed(PassError::Deletion(error))
                && is_hetzner_failure(reply, error))
        },
{
}

/// A started and a stopped server are logged with their data, at the time that the clock shows;
/// nothing else is logged.
pub proof fn law_report_text(report: Report, logger: CsvLogger, text: Option<String>)
    requires
        call_ensures(Report::log_text, (&report, &logger), text),
    ensures
        text is Some <==> report is Started || report is Stopped,
        report matches Report::Started(record) ==> exists|now: Timestamp|
            call_ensures(Timestamp::now, (), now) && text->0@ == columns(
                #[trigger] rfc3339_utc(now.spec_seconds(), now.spec_nanos()),
                "START"@,
                decimal(record.server_id as nat),
                record.project@,
                decimal(record.pipeline_id as nat),
                quoted_if_special(record.reason@),
                Seq::empty(),
            ) + seq!['\n'],
        report matches Report::Stopped(record) ==> exists|now: Timestamp|
            call_ensures(Timestamp::now, (), now) && text->0@ == columns(
                #[trigger] rfc3339_utc(now.spec_seconds(), now.spec_nanos()),
                "STOP"@,
                decimal(record.server_id as nat),
                Seq::empty(),
                Seq::empty(),
                quoted_if_special(record.reason@),
                decimal(record.duration_minutes as nat),
            ) + seq!['\n'],
{
    match report {
        Report::Started(record) => lemma_start_text(
            text->0@,
            record.server_id,
            record.project@,
            record.pipeline_id,
            record.reason@,
        ),
        Report::Stopped(record) => lemma_stop_text(
            text->0@,
            record.server_id,
            record.reason@,
            record.duration_minutes,
        ),
        _ => {},
    }
}

/// A record holds what it is given, and is there exactly from the time it is set until it is
/// cleared.
pub proof fn law_record(
    server_id: u64,
    server_name: String,
    created_at: Timestamp,
    made: RunnerState,
    set: &mut OrchestratorState,
    runner: RunnerState,
    cleared: &mut OrchestratorState,
    state: OrchestratorState,
    has: bool,
)
    requires
        call_ensures(RunnerState::new, (server_id, server_name, created_at), made),
        call_ensures(OrchestratorState::set_runner, (set, runner), ()),
        call_ensures(OrchestratorState::clear_runner, (cleared,), ()),
        call_ensures(OrchestratorState::has_runner, (&state,), has),
    ensures
        made.server_id == server_id && made.server_name == server_name && made.created_at
            == created_at,
        final(set).runner == Some(runner),
        final(cleared).runner is None,
        has <==> state.runner is Some,
{
}

} // verus!

//! One pass of the orchestration, step by step: which request comes next, and what becomes of its
//! reply.
use crate::config::Config;
use crate::csv_log::{logs_start, logs_stop, CsvLogger};
use crate::forgejo::{
    active_jobs, indexed, listed, names, ActiveJobView, AdminRunnerJob, ForgejoClient, Indexing,
    ListedJob, RepoIndex, RepoInfo, PAGE_LIMIT,
};
use crate::hetzner::{HetznerClient, Server, ServerOrder, SshKey};
use crate::http::{ApiRequest, Method, Reply};
use crate::orchestrator::{
    create_runner, delete_runner, law_at_most_one_server, orchestration_tick, records_change,
    runner_delete_reason, servers_after, tracks, Change, DeleteOrder, DeletionPlan, PassError,
    StartRecord, StopRecord, TickPlan, START_REASON,
};
use crate::state::{OrchestratorState, RunnerState};
use crate::text::decimal;
use crate::time::Timestamp;
use std::collections::HashMap;
use vstd::prelude::*;

verus! {

/// What the orchestrator works with.
#[derive(Debug)]
pub struct Orchestrator {
    pub config: Config,
    pub forgejo: ForgejoClient,
    pub hetzner: HetznerClient,
    /// Cloud-init configuration of the servers
    pub cloud_init: String,
    /// Whether servers without work are deleted at once
    pub debug_build: bool,
}

/// How a pass has ended.
#[derive(Debug)]
pub enum Report {
    /// A server was created.
    Started(StartRecord),
    /// The server was deleted.
    Stopped(StopRecord),
    /// There is work, and a server for it.
    Running { uptime_minutes: u64, active_jobs: usize },
    /// There is no work, and the server is kept for now.
    Waiting { uptime_minutes: u64, minutes_to_billing: u64 },
    /// There is no work, and no server.
    Idle,
}

impl Report {
    /// The text that this report adds to the log file: a record for a server that was created or
    /// deleted, and nothing else.
    pub fn log_text(&self, logger: &CsvLogger) -> (text: Option<String>)
        ensures
            match *self {
                Report::Started(record) => {
                    &&& text is Some
                    &&& logs_start(
                        text->0@,
                        record.server_id,
                        record.project@,
                        record.pipeline_id,
                        record.reason@,
                    )
                },
                Report::Stopped(record) => {
                    &&& text is Some
                    &&& logs_stop(
                        text->0@,
                        record.server_id,
                        record.reason@,
                        record.duration_minutes,
                    )
                },
                _ => text is None,
            },
    {
        match self {
            Report::Started(record) => Some(
                logger.log_start(
                    record.server_id,
                    record.project.as_str(),
                    record.pipeline_id,
                    record.reason,
                ),
            ),
            Report::Stopped(record) => Some(
                logger.log_stop(record.server_id, record.reason, record.duration_minutes),
            ),
            _ => None,
        }
    }
}

/// Where a pass stands: the request whose reply is due, or its end.
#[derive(Debug)]
pub enum Step {
    /// The next page of repositories is due.
    Repos { index: RepoIndex, request: ApiRequest },
    /// The list of runner jobs is due.
    Jobs { repos: HashMap<u64, String>, request: ApiRequest },
    /// The SSH key of the server to create is due.
    SshKeys { project: String, pipeline_id: u64, request: ApiRequest },
    /// The server is being created.
    Create { project: String, pipeline_id: u64, order: ServerOrder },
    /// The server is being deleted.
    Delete { order: DeleteOrder, request: ApiRequest },
    /// The pass is over.
    Finished(Report),
    /// The pass was ended by an error.
    Failed(PassError),
}

impl Orchestrator {
    /// Whether `request` is the GET request for an endpoint of the Forgejo API.
    pub open spec fn asks_forgejo(self, request: ApiRequest, endpoint: Seq<char>) -> bool {
        request.is(
            Method::Get,
            self.forgejo.base_url@ + "/api/v1"@ + endpoint,
            "token "@ + self.forgejo.token@,
        )
    }

    /// Whether `step` asks for the page of repositories that comes next.
    pub open spec fn asks_for_repos(self, step: Step) -> bool {
        &&& step is Repos
        &&& step->index.well_formed()
        &&& self.asks_forgejo(step->Repos_request, step->index.spec_endpoint())
    }

    /// Whether `step` asks for the list of jobs.
    pub open spec fn asks_for_jobs(self, step: Step) -> bool {
        &&& step is Jobs
        &&& self.asks_forgejo(step->Jobs_request, "/admin/runners/jobs"@)
    }

    /// Begins a pass: the first page of repositories is due.
    pub fn begin(&self) -> (step: Step)
        ensures
            self.asks_for_repos(step),
            step->index.page == 1,
            names(step->index.repos@) == Map::<u64, Seq<char>>::empty(),
    {
        let index = RepoIndex::new();
        let request = self.forgejo.repos_request(&index);
        Step::Repos { index, request }
    }

    /// Takes a page of repositories: after a full page the next one is due, else the list of jobs.
    pub fn on_repos(&self, index: RepoIndex, reply: Reply<Vec<RepoInfo>>) -> (step: Step)
        requires
            index.well_formed(),
            reply matches Reply::Answered(Ok(data)) && data@.len() >= PAGE_LIMIT ==> index.page
                < i32::MAX,
        ensures
            match reply {
                Reply::Answered(Ok(data)) => if data@.len() >= PAGE_LIMIT {
                    &&& self.asks_for_repos(step)
                    &&& step->index.page == index.page + 1
                    &&& names(step->index.repos@) == indexed(names(index.repos@), data@)
                } else {
                    &&& self.asks_for_jobs(step)
                    &&& names(step->repos@) == indexed(names(index.repos@), data@)
                },
                _ => {
                    &&& step is Failed
                    &&& step->Failed_0 is Jobs
                    &&& ForgejoClient::outcome_of(reply, Err(step->Failed_0->Jobs_0))
                },
            },
    {
        match self.forgejo.repo_id_map(index, reply) {
            Ok(Indexing::MorePages(index)) => {
                let request = self.forgejo.repos_request(&index);
                Step::Repos { index, request }
            },
            Ok(Indexing::Complete(repos)) => {
                Step::Jobs { repos, request: self.forgejo.jobs_request() }
            },
            Err(error) => Step::Failed(PassError::Jobs(error)),
        }
    }

    /// The jobs that count as active among those listed.
    pub open spec fn active(
        self,
        repos: Map<u64, Seq<char>>,
        jobs: Option<Vec<AdminRunnerJob>>,
    ) -> Seq<ActiveJobView> {
        active_jobs(
            repos,
            match jobs {
                Some(list) => listed(list@),
                None => Seq::<ListedJob>::empty(),
            },
            self.config.forgejo.spec_label_filter(),
        )
    }

    /// Whether `step` is what follows once the active jobs are known: without a server, the SSH key
    /// for a new one is asked for on behalf of the first job; with a server and without jobs, the
    /// server is deleted if it is time; else nothing is done.
    pub open spec fn follows_jobs(
        self,
        recorded: Option<RunnerState>,
        active: Seq<ActiveJobView>,
        now: Timestamp,
        step: Step,
    ) -> bool {
        match recorded {
            None => if active.len() > 0 {
                &&& step is SshKeys
                &&& step->SshKeys_project@ == active[0].project
                &&& step->SshKeys_pipeline_id == active[0].id
                &&& self.hetzner.asks(
                    step->SshKeys_request,
                    Method::Get,
                    "/ssh_keys?name="@ + self.hetzner.config.ssh_key_name@,
                )
            } else {
                step == Step::Finished(Report::Idle)
            },
            Some(runner) => if active.len() > 0 {
                &&& step is Finished
                &&& step->Finished_0 is Running
                &&& step->Finished_0->Running_uptime_minutes == runner.uptime(now)
                &&& step->Finished_0->active_jobs == active.len()
            } else {
                match runner_delete_reason(
                    runner,
                    self.debug_build,
                    self.config.runner.min_lifetime_minutes,
                    now,
                ) {
                    Some(reason) => {
                        &&& step is Delete
                        &&& step->Delete_order.is_for(runner, reason, now)
                        &&& self.hetzner.asks(
                            step->Delete_request,
                            Method::Delete,
                            "/servers/"@ + decimal(runner.server_id as nat),
                        )
                    },
                    None => {
                        &&& step is Finished
                        &&& step->Finished_0 is Waiting
                        &&& step->Finished_0->Waiting_uptime_minutes == runner.uptime(now)
                        &&& step->Finished_0->minutes_to_billing == runner.until_billing(now)
                    },
                }
            },
        }
    }

    /// Takes the list of jobs: decides what is to be done.
    pub fn on_jobs(
        &self,
        state: &OrchestratorState,
        repos: &HashMap<u64, String>,
        reply: Reply<Option<Vec<AdminRunnerJob>>>,
        now: &Timestamp,
    ) -> (step: Step)
        ensures
            match reply {
                Reply::Answered(Ok(jobs)) => self.follows_jobs(
                    state.runner,
                    self.active(names(repos@), jobs),
                    *now,
                    step,
                ),
                _ => {
                    &&& step is Failed
                    &&& step->Failed_0 is Jobs
                    &&& ForgejoClient::outcome_of(reply, Err(step->Failed_0->Jobs_0))
                },
            },
    {
        let found = self.forgejo.find_active_jobs(repos, reply, self.config.forgejo.label_filter());
        let plan = orchestration_tick(state, found, &self.config.runner, self.debug_build, now);
        match plan {
            Err(error) => Step::Failed(PassError::Jobs(error)),
            Ok(TickPlan::CreateRunner { project, pipeline_id }) => {
                let request = self.hetzner.ssh_keys_request(
                    self.hetzner.config.ssh_key_name.as_str(),
                );
                Step::SshKeys { project, pipeline_id, request }
            },
            Ok(TickPlan::Running { uptime_minutes, active_jobs }) => {
                Step::Finished(Report::Running { uptime_minutes, active_jobs })
            },
            Ok(TickPlan::NoWork(DeletionPlan::Delete(order))) => {
                let request = self.hetzner.delete_server(order.server_id);
                Step::Delete { order, request }
            },
            Ok(TickPlan::NoWork(DeletionPlan::Wait { uptime_minutes, minutes_to_billing })) => {
                Step::Finished(Report::Waiting { uptime_minutes, minutes_to_billing })
            },
            Ok(TickPlan::NoWork(DeletionPlan::NoRunner)) => Step::Finished(Report::Idle),
            Ok(TickPlan::Idle) => Step::Finished(Report::Idle),
        }
    }

    /// Takes the SSH keys: orders a server with the first one.
    pub fn on_ssh_keys(&self, project: String, pipeline_id: u64, reply: Reply<Vec<SshKey>>) -> (step:
        Step)
        ensures
            match reply {
                Reply::Answered(Ok(keys)) => if keys@.len() > 0 {
                    &&& step is Create
                    &&& step->Create_project == project
                    &&& step->Create_pipeline_id == pipeline_id
                    &&& self.hetzner.orders(
                        step->Create_order,
                        self.config.runner.name@,
                        self.cloud_init@,
                        keys@[0].id,
                    )
                } else {
                    &&& step is Failed
                    &&& step->Failed_0 is Creation
                    &&& step->Failed_0->Creation_0 is SshKeyNotFound
                    &&& step->Failed_0->Creation_0->SshKeyNotFound_0@
                        == self.hetzner.config.ssh_key_name@
                },
                _ => {
                    &&& step is Failed
                    &&& step->Failed_0 is Creation
                    &&& HetznerClient::outcome_of(reply, Err(step->Failed_0->Creation_0))
                },
            },
    {
        match self.hetzner.create_server(
            self.config.runner.name.as_str(),
            self.cloud_init.as_str(),
            reply,
        ) {
            Ok(order) => Step::Create { project, pipeline_id, order },
            Err(error) => Step::Failed(PassError::Creation(error)),
        }
    }

    /// Takes the created server: records it.
    pub fn on_created(
        &self,
        state: &mut OrchestratorState,
        project: String,
        pipeline_id: u64,
        reply: Reply<Server>,
        now: Timestamp,
    ) -> (step: Step)
        ensures
            match reply {
                Reply::Answered(Ok(server)) => {
                    &&& final(state).runner is Some
                    &&& final(state).runner->0.server_id == server.id
                    &&& final(state).runner->0.server_name == server.name
                    &&& final(state).runner->0.created_at == now
                    &&& old(state).runner is None ==> records_change(
                        old(state).runner,
                        Change::Created { server_id: server.id },
                        final(state).runner,
                    )
                    &&& step is Finished
                    &&& step->Finished_0 is Started
                    &&& step->Finished_0->Started_0.server_id == server.id
                    &&& step->Finished_0->Started_0.project == project
                    &&& step->Finished_0->Started_0.pipeline_id == pipeline_id
                    &&& step->Finished_0->Started_0.reason@ == START_REASON@
                },
                _ => {
                    &&& *final(state) == *old(state)
                    &&& step is Failed
                    &&& step->Failed_0 is Creation
                    &&& HetznerClient::outcome_of(reply, Err(step->Failed_0->Creation_0))
                },
            },
    {
        let created = HetznerClient::receive(reply);
        match create_runner(state, created, project, pipeline_id, now) {
            Ok(record) => Step::Finished(Report::Started(record)),
            Err(error) => Step::Failed(error),
        }
    }

    /// Takes the reply to the deletion: with a success status, whatever the body holds, the server
    /// is gone, and the record is cleared.
    pub fn on_deleted(&self, state: &mut OrchestratorState, order: DeleteOrder, reply: Reply<()>)
        -> (step: Step)
        ensures
            match reply {
                Reply::Answered(_) => {
                    &&& final(state).runner is None
                    &&& old(state).runner is Some && old(state).runner->0.server_id
                        == order.server_id ==> records_change(
                        old(state).runner,
                        Change::Deleted { server_id: order.server_id },
                        final(state).runner,
                    )
                    &&& step is Finished
                    &&& step->Finished_0 is Stopped
                    &&& step->Finished_0->Stopped_0.server_id == order.server_id
                    &&& step->Finished_0->Stopped_0.reason@ == order.reason.spec_name()
                    &&& step->Finished_0->Stopped_0.duration_minutes == order.uptime_minutes
                },
                _ => {
                    &&& *final(state) == *old(state)
                    &&& step is Failed
                    &&& step->Failed_0 is Deletion
                    &&& HetznerClient::outcome_of(reply, Err(step->Failed_0->Deletion_0))
                },
            },
    {
        let deleted = HetznerClient::receive_deletion(reply);
        match delete_runner(state, &order, deleted) {
            Ok(record) => Step::Finished(Report::Stopped(record)),
            Err(error) => Step::Failed(error),
        }
    }
}

/// A server is only asked for when there is an active job and no server; and always then.
pub proof fn law_server_only_for_work(
    orchestrator: Orchestrator,
    recorded: Option<RunnerState>,
    active: Seq<ActiveJobView>,
    now: Timestamp,
    step: Step,
)
    requires
        orchestrator.follows_jobs(recorded, active, now, step),
    ensures
        step is SshKeys <==> recorded is None && active.len() > 0,
        !(step is Create),
{
}

/// Only the recorded server is ever deleted, and only when no job is active; by a release build not
/// before its minimum runtime.
pub proof fn law_only_idle_server_deleted(
    orchestrator: Orchestrator,
    recorded: Option<RunnerState>,
    active: Seq<ActiveJobView>,
    now: Timestamp,
    step: Step,
)
    requires
        orchestrator.follows_jobs(recorded, active, now, step),
        step is Delete,
    ensures
        recorded is Some,
        active.len() == 0,
        step->Delete_order.server_id == recorded->0.server_id,
        orchestrator.hetzner.asks(
            step->Delete_request,
            Method::Delete,
            "/servers/"@ + decimal(recorded->0.server_id as nat),
        ),
        !orchestrator.debug_build ==> orchestrator.config.runner.min_lifetime_minutes
            <= recorded->0.uptime(now),
{
}

/// Where the record and the servers that exist are in step, they stay so whether the pass creates a
/// server or deletes one, as long as the reply tells of it; and there is at most one server.
///
/// A reply that was lost, or of a creation one that could not be decoded, tells nothing and leaves
/// the record as it was. A server that was created all the same is then not on record, and the next
/// pass with work asks for another one.
pub proof fn law_pass_keeps_one_server(
    orchestrator: Orchestrator,
    recorded: Option<RunnerState>,
    servers: Set<u64>,
    active: Seq<ActiveJobView>,
    now: Timestamp,
    step: Step,
    change: Change,
    after: Option<RunnerState>,
)
    requires
        tracks(recorded, servers),
        orchestrator.follows_jobs(recorded, active, now, step),
        match change {
            Change::Created { server_id } => step is SshKeys && after is Some
                && after->0.server_id == server_id,
            Change::Deleted { server_id } => step is Delete && server_id
                == step->Delete_order.server_id && after is None,
        },
    ensures
        records_change(recorded, change, after),
        tracks(after, servers_after(servers, change)),
        servers_after(servers, change).len() <= 1,
{
    law_at_most_one_server(recorded, servers, change, after);
}

} // verus!

use std::collections::HashMap;

use runner_orchestrator::config::{Config, ForgejoConfig, HetznerConfig, RunnerConfig};
use runner_orchestrator::csv_log::CsvLogger;
use runner_orchestrator::forgejo::{
    ActiveJob, AdminRunnerJob, ForgejoClient, ForgejoError, Repo, RepoInfo, Task,
};
use runner_orchestrator::hetzner::{HetznerClient, HetznerError, PublicNet, Server, SshKey};
use runner_orchestrator::http::{Method, Reply};
use runner_orchestrator::orchestrator::{
    create_runner, delete_order, delete_reason, delete_runner, maybe_delete_runner,
    orchestration_tick, poll_interval_seconds, verify_state_with_hetzner, DeleteOrder,
    DeleteReason, DeletionPlan, PassError, TickPlan, Verification,
};
use runner_orchestrator::pass::{Orchestrator, Report, Step};
use runner_orchestrator::state::{OrchestratorState, RunnerState};
use runner_orchestrator::time::Timestamp;

fn minute(m: i64) -> Timestamp {
    Timestamp::new(m * 60, 0).unwrap()
}

fn empty() -> OrchestratorState {
    OrchestratorState { runner: None }
}

fn with_runner(id: u64) -> OrchestratorState {
    OrchestratorState {
        runner: Some(RunnerState::new(id, "flexi-runner".to_string(), minute(0))),
    }
}

fn server(id: u64) -> Server {
    Server {
        id,
        name: "flexi-runner".to_string(),
        status: "initializing".to_string(),
        public_net: PublicNet { ipv4: None },
    }
}

fn runner_config() -> RunnerConfig {
    RunnerConfig {
        name: "flexi-runner".to_string(),
        min_lifetime_minutes: 20,
        poll_interval_seconds: 30,
    }
}

fn active(id: u64) -> ActiveJob {
    ActiveJob {
        project: Repo {
            full_name: "o/r".to_string(),
        },
        job: Task {
            id,
            status: "waiting".to_string(),
            labels: vec![],
        },
    }
}

fn failure() -> HetznerError {
    HetznerError::Request("down".to_string())
}

#[test]
fn verification_keeps_what_matches() {
    let mut state = with_runner(5);
    let outcome = verify_state_with_hetzner(&mut state, Ok(Some(server(5))), minute(9));
    assert_eq!(outcome.unwrap(), Verification::Verified);
    let runner = state.runner.unwrap();
    assert_eq!(runner.server_id, 5);
    assert_eq!(runner.created_at.seconds(), 0);
}

#[test]
fn verification_clears_what_is_gone() {
    let mut state = with_runner(5);
    let outcome = verify_state_with_hetzner(&mut state, Ok(None), minute(9));
    assert_eq!(outcome.unwrap(), Verification::Vanished { recorded_id: 5 });
    assert!(!state.has_runner());
}

#[test]
fn verification_takes_over_what_is_there() {
    let mut state = with_runner(5);
    let outcome = verify_state_with_hetzner(&mut state, Ok(Some(server(6))), minute(9));
    assert_eq!(
        outcome.unwrap(),
        Verification::Replaced {
            recorded_id: 5,
            found_id: 6
        }
    );
    let mut state = empty();
    let outcome = verify_state_with_hetzner(&mut state, Ok(Some(server(6))), minute(9));
    assert_eq!(outcome.unwrap(), Verification::Adopted { found_id: 6 });
    assert_eq!(state.runner_uptime(&minute(12)), Some(3));
    let again = verify_state_with_hetzner(&mut state, Ok(Some(server(6))), minute(20));
    assert_eq!(again.unwrap(), Verification::Verified);
    assert_eq!(state.runner_uptime(&minute(20)), Some(11));
}

#[test]
fn verification_without_servers() {
    let mut state = empty();
    let outcome = verify_state_with_hetzner(&mut state, Ok(None), minute(0));
    assert_eq!(outcome.unwrap(), Verification::NoServer);
}

#[test]
fn failed_verification_changes_nothing() {
    let mut state = with_runner(5);
    assert!(verify_state_with_hetzner(&mut state, Err(failure()), minute(0)).is_err());
    assert_eq!(state.runner.unwrap().server_id, 5);
}

#[test]
fn billing_cycle() {
    let runner = RunnerState::new(1, "n".to_string(), minute(0));
    assert_eq!(runner.minutes_until_next_billing_cycle(&minute(0)), 60);
    assert_eq!(runner.minutes_until_next_billing_cycle(&minute(1)), 59);
    assert_eq!(runner.minutes_until_next_billing_cycle(&minute(59)), 1);
    assert_eq!(runner.minutes_until_next_billing_cycle(&minute(60)), 60);
    assert!(runner.should_delete(20, 5, &minute(55)));
    assert!(!runner.should_delete(20, 5, &minute(54)));
    assert!(!runner.should_delete(56, 5, &minute(55)));
    assert!(runner.can_force_delete(20, &minute(20)));
    assert!(!runner.can_force_delete(20, &minute(19)));
}

#[test]
fn reasons_to_delete() {
    assert_eq!(delete_reason(true, false, false, 30), Some(DeleteReason::DebugImmediate));
    assert_eq!(delete_reason(true, true, true, 3), Some(DeleteReason::DebugImmediate));
    assert_eq!(delete_reason(false, true, true, 60), Some(DeleteReason::OptimalBillingTime));
    assert_eq!(delete_reason(false, false, true, 56), Some(DeleteReason::AllPipelinesDone));
    assert_eq!(delete_reason(false, false, true, 55), None);
    assert_eq!(delete_reason(false, false, false, 60), None);
    assert_eq!(DeleteReason::DebugImmediate.name(), "debug_immediate_delete");
    assert_eq!(DeleteReason::OptimalBillingTime.name(), "optimal_billing_time");
    assert_eq!(DeleteReason::AllPipelinesDone.name(), "all_pipelines_done");
}

#[test]
fn release_deletes_around_billing() {
    let state = with_runner(5);
    for m in 0..200 {
        let plan = maybe_delete_runner(&state, 20, false, &minute(m));
        let expected = m >= 20 && (m % 60 >= 55 || m % 60 < 5);
        assert_eq!(matches!(plan, DeletionPlan::Delete(_)), expected, "{}", m);
    }
    assert_eq!(
        maybe_delete_runner(&state, 20, false, &minute(57)),
        DeletionPlan::Delete(DeleteOrder {
            server_id: 5,
            uptime_minutes: 57,
            reason: DeleteReason::OptimalBillingTime
        })
    );
    assert_eq!(
        maybe_delete_runner(&state, 20, false, &minute(30)),
        DeletionPlan::Wait {
            uptime_minutes: 30,
            minutes_to_billing: 30
        }
    );
    assert_eq!(
        maybe_delete_runner(&empty(), 20, true, &minute(30)),
        DeletionPlan::NoRunner
    );
}

#[test]
fn debug_deletes_at_once() {
    let plan = maybe_delete_runner(&with_runner(5), 20, true, &minute(1));
    assert_eq!(
        plan,
        DeletionPlan::Delete(DeleteOrder {
            server_id: 5,
            uptime_minutes: 1,
            reason: DeleteReason::DebugImmediate
        })
    );
}

#[test]
fn idle_server_goes_within_fifty_minutes() {
    let state = with_runner(5);
    for m in 20..140 {
        let soon = (0..=50).any(|wait| {
            let plan = maybe_delete_runner(&state, 20, false, &minute(m + wait));
            matches!(plan, DeletionPlan::Delete(_))
        });
        assert!(soon, "{}", m);
    }
}

#[test]
fn tick_plans() {
    let config = runner_config();
    let tick = |state: &OrchestratorState, jobs| {
        orchestration_tick(state, Ok(jobs), &config, false, &minute(30)).unwrap()
    };
    match tick(&empty(), vec![active(3), active(4)]) {
        TickPlan::CreateRunner {
            project,
            pipeline_id,
        } => {
            assert_eq!(project, "o/r");
            assert_eq!(pipeline_id, 3);
        }
        plan => panic!("{:?}", plan),
    }
    assert!(matches!(
        tick(&with_runner(5), vec![active(3), active(4)]),
        TickPlan::Running {
            uptime_minutes: 30,
            active_jobs: 2
        }
    ));
    assert!(matches!(
        tick(&with_runner(5), vec![]),
        TickPlan::NoWork(DeletionPlan::Wait { .. })
    ));
    assert!(matches!(tick(&empty(), vec![]), TickPlan::Idle));
    let error = Err(ForgejoError::Parse("x".to_string()));
    assert!(orchestration_tick(&empty(), error, &config, false, &minute(0)).is_err());
}

#[test]
fn created_server_is_recorded() {
    let mut state = empty();
    let record = create_runner(&mut state, Ok(server(8)), "o/r".to_string(), 3, minute(2)).unwrap();
    assert_eq!(record.server_id, 8);
    assert_eq!(record.project, "o/r");
    assert_eq!(record.pipeline_id, 3);
    assert_eq!(record.reason, "pipeline_pending");
    let order = delete_order(&state, DeleteReason::AllPipelinesDone, &minute(64)).unwrap();
    assert_eq!(order.server_id, 8);
    assert_eq!(order.uptime_minutes, 62);
    let record = delete_runner(&mut state, &order, Ok(())).unwrap();
    assert_eq!(record.server_id, 8);
    assert_eq!(record.reason, "all_pipelines_done");
    assert_eq!(record.duration_minutes, 62);
    assert!(!state.has_runner());
    assert!(delete_order(&state, DeleteReason::AllPipelinesDone, &minute(64)).is_none());
}

#[test]
fn failures_leave_the_state() {
    let mut state = empty();
    let outcome = create_runner(&mut state, Err(failure()), "o/r".to_string(), 3, minute(2));
    let error = outcome.unwrap_err();
    assert_eq!(error.describe(), "Error creating server");
    assert_eq!(error.cause().unwrap(), "HTTP request failed: down");
    assert!(!state.has_runner());
    let mut state = with_runner(5);
    let order = delete_order(&state, DeleteReason::DebugImmediate, &minute(1)).unwrap();
    let error = delete_runner(&mut state, &order, Err(failure())).unwrap_err();
    assert_eq!(error.describe(), "Error deleting server");
    assert_eq!(error.cause().unwrap(), "HTTP request failed: down");
    assert!(state.has_runner());
    let error = PassError::Jobs(ForgejoError::Parse("x".to_string()));
    assert_eq!(error.describe(), "Invalid API response: x");
    assert!(error.cause().is_none());
}

#[test]
fn polling_interval() {
    assert_eq!(poll_interval_seconds(true, &runner_config()), 5);
    assert_eq!(poll_interval_seconds(false, &runner_config()), 30);
}

fn orchestrator(tags: Option<Vec<String>>) -> Orchestrator {
    let config = Config {
        forgejo: ForgejoConfig {
            url: "https://forge.example".to_string(),
            token: "f".to_string(),
            tag_filter: tags,
        },
        hetzner: HetznerConfig {
            token: "h".to_string(),
            server_type: "ccx23".to_string(),
            location: "nbg1".to_string(),
            image: "ubuntu-24.04".to_string(),
            ssh_key_name: "my-key".to_string(),
        },
        runner: runner_config(),
    };
    Orchestrator {
        forgejo: ForgejoClient::new(&config.forgejo),
        hetzner: HetznerClient::new(&config.hetzner),
        cloud_init: "#cloud-config\n".to_string(),
        debug_build: false,
        config,
    }
}

fn listed(id: u64, status: &str, label: &str) -> AdminRunnerJob {
    AdminRunnerJob {
        id,
        repo_id: 1,
        runs_on: vec![label.to_string()],
        status: status.to_string(),
    }
}

#[test]
fn a_pass_creates_a_server() {
    let o = orchestrator(Some(vec![]));
    let mut state = empty();
    let (index, request) = match o.begin() {
        Step::Repos { index, request } => (index, request),
        step => panic!("{:?}", step),
    };
    assert!(request.url.ends_with("/api/v1/repos/search?limit=50&page=1"));
    let page = vec![RepoInfo {
        id: 1,
        full_name: "o/r".to_string(),
    }];
    let (repos, request) = match o.on_repos(index, Reply::Answered(Ok(page))) {
        Step::Jobs { repos, request } => (repos, request),
        step => panic!("{:?}", step),
    };
    assert!(request.url.ends_with("/api/v1/admin/runners/jobs"));
    let jobs = vec![listed(2, "success", "x"), listed(3, "waiting", "x")];
    let reply = Reply::Answered(Ok(Some(jobs)));
    let (project, pipeline_id, request) = match o.on_jobs(&state, &repos, reply, &minute(0)) {
        Step::SshKeys {
            project,
            pipeline_id,
            request,
        } => (project, pipeline_id, request),
        step => panic!("{:?}", step),
    };
    assert!(request.url.ends_with("/ssh_keys?name=my-key"));
    let keys = Reply::Answered(Ok(vec![SshKey { id: 77 }]));
    let (project, pipeline_id, order) = match o.on_ssh_keys(project, pipeline_id, keys) {
        Step::Create {
            project,
            pipeline_id,
            order,
        } => (project, pipeline_id, order),
        step => panic!("{:?}", step),
    };
    assert_eq!(order.body.name, "flexi-runner");
    assert_eq!(order.body.ssh_keys, vec![77]);
    assert_eq!(order.body.user_data, "#cloud-config\n");
    let reply = Reply::Answered(Ok(server(9)));
    let report = match o.on_created(&mut state, project, pipeline_id, reply, minute(1)) {
        Step::Finished(report) => report,
        step => panic!("{:?}", step),
    };
    match &report {
        Report::Started(record) => {
            assert_eq!(record.server_id, 9);
            assert_eq!(record.project, "o/r");
            assert_eq!(record.pipeline_id, 3);
        }
        report => panic!("{:?}", report),
    }
    let text = report.log_text(&CsvLogger::new("logs")).unwrap();
    assert!(text.ends_with("+00:00,START,9,o/r,3,pipeline_pending,\n"));
    assert_eq!(state.runner.unwrap().server_id, 9);
}

#[test]
fn a_pass_deletes_the_server() {
    let o = orchestrator(None);
    let mut state = with_runner(5);
    let repos = HashMap::new();
    let none = Reply::Answered(Ok(None));
    let (order, request) = match o.on_jobs(&state, &repos, none, &minute(56)) {
        Step::Delete { order, request } => (order, request),
        step => panic!("{:?}", step),
    };
    assert_eq!(request.method, Method::Delete);
    assert!(request.url.ends_with("/servers/5"));
    let report = match o.on_deleted(&mut state, order, Reply::Answered(Ok(()))) {
        Step::Finished(report) => report,
        step => panic!("{:?}", step),
    };
    match &report {
        Report::Stopped(record) => {
            assert_eq!(record.server_id, 5);
            assert_eq!(record.reason, "optimal_billing_time");
            assert_eq!(record.duration_minutes, 56);
        }
        report => panic!("{:?}", report),
    }
    let text = report.log_text(&CsvLogger::new("logs")).unwrap();
    assert!(text.ends_with("+00:00,STOP,5,,,optimal_billing_time,56\n"));
    assert!(!state.has_runner());
}

#[test]
fn a_pass_without_a_change() {
    let o = orchestrator(Some(vec!["mine".to_string()]));
    let repos = HashMap::new();
    let others = || Reply::Answered(Ok(Some(vec![listed(3, "waiting", "x")])));
    let mine = || Reply::Answered(Ok(Some(vec![listed(3, "waiting", "mine")])));
    assert!(matches!(
        o.on_jobs(&empty(), &repos, others(), &minute(0)),
        Step::Finished(Report::Idle)
    ));
    assert!(matches!(
        o.on_jobs(&with_runner(5), &repos, others(), &minute(30)),
        Step::Finished(Report::Waiting {
            uptime_minutes: 30,
            minutes_to_billing: 30
        })
    ));
    assert!(matches!(
        o.on_jobs(&with_runner(5), &repos, mine(), &minute(57)),
        Step::Finished(Report::Running {
            uptime_minutes: 57,
            active_jobs: 1
        })
    ));
    assert!(Report::Idle.log_text(&CsvLogger::new("logs")).is_none());
}

#[test]
fn there_is_never_more_than_one_server() {
    let o = orchestrator(None);
    let repos = HashMap::new();
    let mut state = empty();
    let mut servers: Vec<u64> = Vec::new();
    for m in 0..600 {
        let busy = m % 100 < 30;
        let jobs = if busy {
            vec![listed(m as u64, "waiting", "x")]
        } else {
            vec![]
        };
        let reply = Reply::Answered(Ok(Some(jobs)));
        match o.on_jobs(&state, &repos, reply, &minute(m)) {
            Step::SshKeys {
                project,
                pipeline_id,
                ..
            } => {
                let id = 1000 + m as u64;
                servers.push(id);
                let reply = Reply::Answered(Ok(server(id)));
                o.on_created(&mut state, project, pipeline_id, reply, minute(m));
            }
            Step::Delete { order, .. } => {
                servers.retain(|id| *id != order.server_id);
                o.on_deleted(&mut state, order, Reply::Answered(Ok(())));
            }
            _ => {}
        }
        let recorded: Vec<u64> = state.runner.iter().map(|r| r.server_id).collect();
        assert_eq!(recorded, servers);
        assert!(servers.len() <= 1);
    }
}

#[test]
fn errors_end_a_pass() {
    let o = orchestrator(None);
    let mut state = with_runner(5);
    let index = match o.begin() {
        Step::Repos { index, .. } => index,
        step => panic!("{:?}", step),
    };
    let down = || "down".to_string();
    assert!(matches!(
        o.on_repos(index, Reply::Failed(down())),
        Step::Failed(PassError::Jobs(ForgejoError::Request(_)))
    ));
    assert!(matches!(
        o.on_jobs(&state, &HashMap::new(), Reply::Failed(down()), &minute(0)),
        Step::Failed(PassError::Jobs(_))
    ));
    assert!(matches!(
        o.on_ssh_keys("o/r".to_string(), 1, Reply::Answered(Ok(vec![]))),
        Step::Failed(PassError::Creation(HetznerError::SshKeyNotFound(_)))
    ));
    let order = delete_order(&state, DeleteReason::DebugImmediate, &minute(0)).unwrap();
    assert!(matches!(
        o.on_deleted(&mut state, order, Reply::Failed(down())),
        Step::Failed(PassError::Deletion(_))
    ));
    assert!(matches!(
        o.on_created(&mut state, "o/r".to_string(), 1, Reply::Failed(down()), minute(3)),
        Step::Failed(PassError::Creation(_))
    ));
    assert_eq!(state.runner.unwrap().server_id, 5);
}

#[test]
fn a_deleted_server_is_not_kept_on_record() {
    let o = orchestrator(None);
    let mut state = with_runner(5);
    let order = delete_order(&state, DeleteReason::DebugImmediate, &minute(7)).unwrap();
    let undecodable = Reply::Answered(Err("EOF while parsing".to_string()));
    match o.on_deleted(&mut state, order, undecodable) {
        Step::Finished(Report::Stopped(record)) => {
            assert_eq!(record.server_id, 5);
            assert_eq!(record.duration_minutes, 7);
        }
        step => panic!("{:?}", step),
    }
    assert!(!state.has_runner());
}

use std::collections::HashMap;

use runner_orchestrator::config::ForgejoConfig;
use runner_orchestrator::forgejo::{
    select_active_jobs, AdminRunnerJob, ForgejoClient, ForgejoError, Indexing, RepoIndex, RepoInfo,
};
use runner_orchestrator::http::{next_read, Method, NextRead, Reply};

fn config(url: &str, tags: Option<Vec<&str>>) -> ForgejoConfig {
    ForgejoConfig {
        url: url.to_string(),
        token: "secret".to_string(),
        tag_filter: tags.map(|t| t.into_iter().map(String::from).collect()),
    }
}

fn job(id: u64, repo_id: u64, status: &str, labels: &[&str]) -> AdminRunnerJob {
    AdminRunnerJob {
        id,
        repo_id,
        runs_on: labels.iter().map(|l| l.to_string()).collect(),
        status: status.to_string(),
    }
}

fn repo(id: u64, name: &str) -> RepoInfo {
    RepoInfo {
        id,
        full_name: name.to_string(),
    }
}

fn client() -> ForgejoClient {
    ForgejoClient::new(&config("https://forge.example/", None))
}

fn jobs() -> Vec<AdminRunnerJob> {
    vec![
        job(1, 10, "waiting", &["docker"]),
        job(2, 10, "success", &["docker"]),
        job(3, 11, "running", &["arm", "big"]),
        job(4, 10, "blocked", &["big"]),
        job(5, 10, "running", &[]),
    ]
}

#[test]
fn base_url_has_no_slash_at_its_end() {
    assert_eq!(client().base_url, "https://forge.example");
    let many = ForgejoClient::new(&config("https://f/a//b///", None));
    assert_eq!(many.base_url, "https://f/a//b");
    assert_eq!(ForgejoClient::new(&config("///", None)).base_url, "");
    assert_eq!(ForgejoClient::new(&config("x", None)).base_url, "x");
}

#[test]
fn requests_are_authenticated() {
    let request = client().jobs_request();
    assert_eq!(request.method, Method::Get);
    assert_eq!(request.url, "https://forge.example/api/v1/admin/runners/jobs");
    assert_eq!(request.authorization, "token secret");
    let first = client().repos_request(&RepoIndex::new());
    assert_eq!(
        first.url,
        "https://forge.example/api/v1/repos/search?limit=50&page=1"
    );
}

#[test]
fn active_jobs_in_their_order() {
    let mut repos = HashMap::new();
    repos.insert(10, "o/r".to_string());
    let found = select_active_jobs(&repos, jobs(), None);
    let ids: Vec<u64> = found.iter().map(|j| j.job.id).collect();
    assert_eq!(ids, vec![1, 3, 5]);
    assert_eq!(found[0].project.full_name, "o/r");
    assert_eq!(found[1].project.full_name, "repo/11");
    assert_eq!(found[1].job.status, "running");
    assert_eq!(found[1].job.labels, vec!["arm", "big"]);
}

#[test]
fn filter_only_drops_jobs() {
    let tags = vec!["big".to_string(), "docker".to_string()];
    let found = select_active_jobs(&HashMap::new(), jobs(), Some(&tags));
    let ids: Vec<u64> = found.iter().map(|j| j.job.id).collect();
    assert_eq!(ids, vec![1, 3]);
    let none: Vec<String> = Vec::new();
    assert!(select_active_jobs(&HashMap::new(), jobs(), Some(&none)).is_empty());
}

#[test]
fn empty_label_list_is_no_filter() {
    assert!(config("x", None).label_filter().is_none());
    assert!(config("x", Some(vec![])).label_filter().is_none());
    let set = config("x", Some(vec!["a", "b"]));
    assert_eq!(set.label_filter().unwrap(), &["a".to_string(), "b".to_string()]);
}

#[test]
fn no_jobs_are_listed_as_null() {
    let found = client()
        .find_active_jobs(&HashMap::new(), Reply::Answered(Ok(None)), None)
        .unwrap();
    assert!(found.is_empty());
    let found = client()
        .find_active_jobs(&HashMap::new(), Reply::Answered(Ok(Some(jobs()))), None)
        .unwrap();
    assert_eq!(found.len(), 3);
}

#[test]
fn full_pages_go_on() {
    let page: Vec<RepoInfo> = (0..50).map(|i| repo(i, "first")).collect();
    let next = match client().repo_id_map(RepoIndex::new(), Reply::Answered(Ok(page))) {
        Ok(Indexing::MorePages(index)) => index,
        _ => panic!("a further page is due"),
    };
    assert_eq!(next.page, 2);
    assert_eq!(next.endpoint(), "/repos/search?limit=50&page=2");
    let last = vec![repo(49, "second"), repo(99, "new")];
    let repos = match client().repo_id_map(next, Reply::Answered(Ok(last))) {
        Ok(Indexing::Complete(repos)) => repos,
        _ => panic!("the index is complete"),
    };
    assert_eq!(repos.len(), 51);
    assert_eq!(repos[&48], "first");
    assert_eq!(repos[&49], "second");
    assert_eq!(repos[&99], "new");
}

#[test]
fn errors_end_the_search() {
    let outcome = client().repo_id_map(RepoIndex::new(), Reply::Failed("no route".to_string()));
    assert_eq!(
        outcome.unwrap_err().describe(),
        "HTTP request failed: no route"
    );
    let refused = Reply::Refused {
        status: 403,
        text: Some("forbidden".to_string()),
    };
    let outcome = client().find_active_jobs(&HashMap::new(), refused, None);
    assert_eq!(
        outcome.unwrap_err().describe(),
        "Forgejo API error (status 403): forbidden"
    );
    let outcome = client().admin_runner_jobs(Reply::Answered(Err("bad".to_string())));
    assert_eq!(
        outcome.unwrap_err().describe(),
        "Invalid API response: JSON parsing failed: bad"
    );
}

#[test]
fn unreadable_refusal_is_unknown() {
    let refused: Reply<u8> = Reply::Refused {
        status: 500,
        text: None,
    };
    match ForgejoClient::receive(refused) {
        Err(ForgejoError::Api { status, message }) => {
            assert_eq!(status, 500);
            assert_eq!(message, "Unknown error");
        }
        _ => panic!("an API error"),
    }
    assert_eq!(ForgejoClient::receive(Reply::Answered(Ok(5u8))).unwrap(), 5);
}

#[test]
fn only_success_has_an_answer() {
    assert_eq!(next_read(Method::Get, 199), NextRead::Message);
    assert_eq!(next_read(Method::Get, 200), NextRead::Answer);
    assert_eq!(next_read(Method::Post, 204), NextRead::Answer);
    assert_eq!(next_read(Method::Post, 299), NextRead::Answer);
    assert_eq!(next_read(Method::Get, 300), NextRead::Message);
    assert_eq!(next_read(Method::Get, 404), NextRead::Message);
}

#[test]
fn a_deletion_has_no_answer_to_decode() {
    assert_eq!(next_read(Method::Delete, 199), NextRead::Message);
    assert_eq!(next_read(Method::Delete, 200), NextRead::Nothing);
    assert_eq!(next_read(Method::Delete, 204), NextRead::Nothing);
    assert_eq!(next_read(Method::Delete, 299), NextRead::Nothing);
    assert_eq!(next_read(Method::Delete, 404), NextRead::Message);
}

#[test]
fn search_indexes_all_pages() {
    let mut index = RepoIndex::new();
    for page in 0..3u64 {
        assert_eq!(
            index.endpoint(),
            format!("/repos/search?limit=50&page={}", page + 1)
        );
        let data = (50 * page..50 * page + 50)
            .map(|i| repo(i, &format!("o/r{}", i)))
            .collect();
        index = match client().repo_id_map(index, Reply::Answered(Ok(data))) {
            Ok(Indexing::MorePages(index)) => index,
            _ => panic!("a further page is due"),
        };
    }
    let end = client().repo_id_map(index, Reply::Answered(Ok(vec![])));
    let repos = match end {
        Ok(Indexing::Complete(repos)) => repos,
        _ => panic!("the index is complete"),
    };
    assert_eq!(repos.len(), 150);
    assert_eq!(repos[&0], "o/r0");
    assert_eq!(repos[&149], "o/r149");
}

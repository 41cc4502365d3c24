//! Laws on the requests to the two APIs and on what becomes of the replies.
use crate::config::{ForgejoConfig, HetznerConfig};
use crate::forgejo::{
    active_jobs, active_views, filter_texts, indexed, is_active, listed, names, passes_filter,
    select_active_jobs, with_project, ActiveJob, AdminRunnerJob, ForgejoClient, ForgejoError,
    Indexing, ListedJob, RepoIndex, RepoInfo,
};
use crate::hetzner::{HetznerClient, HetznerError, Server, ServerOrder, SshKey};
use crate::http::{
    decoding_text, next_read, refusal_text, ApiRequest, Method, NextRead, Reply,
};
use crate::text::{decimal, law_decimal_appends_digit, law_trimmed, texts};
use std::collections::HashMap;
use vstd::prelude::*;
use vstd::string::*;

verus! {

broadcast use vstd::std_specs::hash::group_hash_axioms;

/// Any status from 200 to 299 is a success, and no other one. A success has an answer to decode,
/// except that of a deletion.
pub proof fn law_next_read(method: Method, status: u16, next: NextRead)
    requires
        call_ensures(next_read, (method, status), next),
    ensures
        next is Message <==> status < 200 || status > 299,
        next is Nothing <==> 200 <= status <= 299 && method is Delete,
        next is Answer <==> 200 <= status <= 299 && !(method is Delete),
{
}

/// The message of a refusal.
pub open spec fn message_of(text: Option<String>) -> Seq<char> {
    if text is Some {
        text->0@
    } else {
        "Unknown error"@
    }
}

/// A refusal speaks through its body, and a body that could not be decoded through the cause.
pub proof fn law_reply_texts(
    text: Option<String>,
    refusal: String,
    cause: &str,
    decoding: String,
)
    requires
        call_ensures(refusal_text, (text,), refusal),
        call_ensures(decoding_text, (cause,), decoding),
    ensures
        refusal@ == message_of(text),
        decoding@ == "JSON parsing failed: "@ + cause@,
{
}

/// Whether `error` is the Forgejo error that a reply without an answer stands for.
pub open spec fn is_forgejo_failure<T>(reply: Reply<T>, error: ForgejoError) -> bool {
    match reply {
        Reply::Failed(cause) => error == ForgejoError::Request(cause),
        Reply::Refused { status, text } => error is Api && error->status == status
            && error->message@ == message_of(text),
        Reply::Answered(Err(cause)) => error is Parse && error->Parse_0@
            == "JSON parsing failed: "@ + cause@,
        Reply::Answered(Ok(_)) => false,
    }
}

/// Whether `error` is the Hetzner error that a reply without an answer stands for.
pub open spec fn is_hetzner_failure<T>(reply: Reply<T>, error: HetznerError) -> bool {
    match reply {
        Reply::Failed(cause) => error == HetznerError::Request(cause),
        Reply::Refused { status, text } => error is Api && error->status == status
            && error->message@ == message_of(text),
        Reply::Answered(Err(cause)) => error is Parse && error->Parse_0@
            == "JSON parsing failed: "@ + cause@,
        Reply::Answered(Ok(_)) => false,
    }
}

/// Exactly a decoded answer is a success, and it is handed on as it is; any other reply is its
/// error.
pub proof fn law_forgejo_receive<T>(reply: Reply<T>, outcome: Result<T, ForgejoError>)
    requires
        call_ensures(ForgejoClient::receive::<T>, (reply,), outcome),
    ensures
        outcome is Ok <==> reply matches Reply::Answered(Ok(_)),
        outcome matches Ok(value) ==> reply == Reply::Answered(Ok::<T, String>(value)),
        outcome matches Err(error) ==> is_forgejo_failure(reply, error),
{
}

/// Exactly a decoded answer is a success, and it is handed on as it is; any other reply is its
/// error.
pub proof fn law_hetzner_receive<T>(reply: Reply<T>, outcome: Result<T, HetznerError>)
    requires
        call_ensures(HetznerClient::receive::<T>, (reply,), outcome),
    ensures
        outcome is Ok <==> reply matches Reply::Answered(Ok(_)),
        outcome matches Ok(value) ==> reply == Reply::Answered(Ok::<T, String>(value)),
        outcome matches Err(error) ==> is_hetzner_failure(reply, error),
{
}

/// A deletion succeeds by its status alone; any other reply is its error.
pub proof fn law_deletion_reply(reply: Reply<()>, outcome: Result<(), HetznerError>)
    requires
        call_ensures(HetznerClient::receive_deletion, (reply,), outcome),
    ensures
        outcome is Ok <==> reply is Answered,
        outcome matches Err(error) ==> is_hetzner_failure(reply, error),
{
}

/// The messages of Forgejo errors.
pub proof fn law_forgejo_messages(error: ForgejoError, message: String)
    requires
        call_ensures(ForgejoError::describe, (&error,), message),
    ensures
        error matches ForgejoError::Request(cause) ==> message@ == "HTTP request failed: "@ + cause@,
        error matches ForgejoError::Api { status, message: text } ==> message@
            == "Forgejo API error (status "@ + decimal(status as nat) + "): "@ + text@,
        error matches ForgejoError::Parse(cause) ==> message@ == "Invalid API response: "@ + cause@,
{
}

/// The messages of Hetzner errors.
pub proof fn law_hetzner_messages(error: HetznerError, message: String)
    requires
        call_ensures(HetznerError::describe, (&error,), message),
    ensures
        error matches HetznerError::Request(cause) ==> message@ == "HTTP request failed: "@ + cause@,
        error matches HetznerError::Api { status, message: text } ==> message@
            == "Hetzner API error (status "@ + decimal(status as nat) + "): "@ + text@,
        error matches HetznerError::SshKeyNotFound(name) ==> message@ == "SSH key not found: "@
            + name@,
        error matches HetznerError::Parse(cause) ==> message@ == "Invalid API response: "@ + cause@,
{
}

/// A client has the configured URL without the slashes at its end, and the configured token.
pub proof fn law_forgejo_client(config: ForgejoConfig, client: ForgejoClient)
    requires
        call_ensures(ForgejoClient::new, (&config,), client),
    ensures
        client.base_url@.len() <= config.url@.len(),
        client.base_url@ == config.url@.take(client.base_url@.len() as int),
        client.base_url@.len() > 0 ==> client.base_url@.last() != '/',
        forall|i: int| client.base_url@.len() <= i < config.url@.len() ==> config.url@[i] == '/',
        client.token@ == config.token@,
{
    law_trimmed(config.url@, '/');
}

pub(crate) proof fn lemma_forgejo_urls(base: Seq<char>, page: nat)
    ensures
        base + "/api/v1"@ + "/admin/runners/jobs"@ == base + "/api/v1/admin/runners/jobs"@,
        base + "/api/v1"@ + ("/repos/search?limit="@ + decimal(50) + "&page="@ + decimal(page))
            == base + "/api/v1/repos/search?limit=50&page="@ + decimal(page),
{
    reveal_strlit("/api/v1");
    reveal_strlit("/admin/runners/jobs");
    reveal_strlit("/api/v1/admin/runners/jobs");
    reveal_strlit("/repos/search?limit=");
    reveal_strlit("&page=");
    reveal_strlit("/api/v1/repos/search?limit=50&page=");
    law_decimal_appends_digit(5, 0);
    law_decimal_appends_digit(0, 5);
    assert(decimal(50) =~= seq!['5', '0']);
    assert("/api/v1"@ + "/admin/runners/jobs"@ =~= "/api/v1/admin/runners/jobs"@);
    assert(base + "/api/v1"@ + "/admin/runners/jobs"@ =~= base + ("/api/v1"@
        + "/admin/runners/jobs"@));
    assert("/api/v1"@ + "/repos/search?limit="@ + decimal(50) + "&page="@
        =~= "/api/v1/repos/search?limit=50&page="@);
    assert(base + "/api/v1"@ + ("/repos/search?limit="@ + decimal(50) + "&page="@ + decimal(page))
        =~= base + ("/api/v1"@ + "/repos/search?limit="@ + decimal(50) + "&page="@) + decimal(page));
}

/// Whether `request` is the GET request for this URL with the token of a Forgejo client.
pub open spec fn is_forgejo_get(request: ApiRequest, client: ForgejoClient, url: Seq<char>) -> bool {
    &&& request.method is Get
    &&& request.url@ == url
    &&& request.authorization@ == "token "@ + client.token@
}

/// Every request to Forgejo is a GET request with the token, below the versioned API of the
/// instance.
pub proof fn law_forgejo_requests(
    client: ForgejoClient,
    endpoint: &str,
    index: RepoIndex,
    get: ApiRequest,
    jobs: ApiRequest,
    repos: ApiRequest,
)
    requires
        call_ensures(ForgejoClient::get, (&client, endpoint), get),
        call_ensures(ForgejoClient::jobs_request, (&client,), jobs),
        call_ensures(ForgejoClient::repos_request, (&client, &index), repos),
    ensures
        is_forgejo_get(get, client, client.base_url@ + "/api/v1"@ + endpoint@),
        is_forgejo_get(jobs, client, client.base_url@ + "/api/v1/admin/runners/jobs"@),
        is_forgejo_get(
            repos,
            client,
            client.base_url@ + "/api/v1/repos/search?limit=50&page="@ + decimal(index.page as nat),
        ),
{
    lemma_forgejo_urls(client.base_url@, index.page as nat);
}

/// The endpoint of a page asks for fifty repositories and names the page.
pub proof fn law_endpoint(index: RepoIndex, endpoint: String)
    requires
        call_ensures(RepoIndex::endpoint, (&index,), endpoint),
    ensures
        endpoint@ == "/repos/search?limit=50&page="@ + decimal(index.page as nat),
{
    reveal_strlit("/repos/search?limit=");
    reveal_strlit("&page=");
    reveal_strlit("/repos/search?limit=50&page=");
    law_decimal_appends_digit(5, 0);
    law_decimal_appends_digit(0, 5);
    assert(decimal(50) =~= seq!['5', '0']);
    assert("/repos/search?limit="@ + decimal(50) + "&page="@ =~= "/repos/search?limit=50&page="@);
}

/// Whether a repository with this ID is on a page.
pub open spec fn mentions(data: Seq<RepoInfo>, id: u64) -> bool {
    exists|i: int| 0 <= i < data.len() && (#[trigger] data[i]).id == id
}

/// Whether `after` holds what `before` held and the repositories of a page, each under the name
/// that it has last there.
pub open spec fn enters(
    before: Map<u64, String>,
    data: Seq<RepoInfo>,
    after: Map<u64, String>,
) -> bool {
    &&& forall|id: u64| #[trigger]
        after.contains_key(id) <==> before.contains_key(id) || mentions(data, id)
    &&& forall|id: u64|
        before.contains_key(id) && !mentions(data, id) ==> (#[trigger] after[id])@ == before[id]@
    &&& forall|i: int|
        0 <= i < data.len() && (forall|j: int| i < j < data.len() ==> data[j].id != data[i].id)
            ==> after[(#[trigger] data[i]).id]@ == data[i].full_name@
}

proof fn lemma_indexed(repos: Map<u64, Seq<char>>, data: Seq<RepoInfo>)
    ensures
        forall|id: u64| #[trigger]
            indexed(repos, data).contains_key(id) <==> repos.contains_key(id) || mentions(data, id),
        forall|id: u64|
            repos.contains_key(id) && !mentions(data, id) ==> #[trigger] indexed(repos, data)[id]
                == repos[id],
        forall|i: int|
            0 <= i < data.len() && (forall|j: int| i < j < data.len() ==> data[j].id != data[i].id)
                ==> indexed(repos, data)[(#[trigger] data[i]).id] == data[i].full_name@,
    decreases data.len(),
{
    if data.len() > 0 {
        let init = data.drop_last();
        let last = data.last();
        lemma_indexed(repos, init);
        assert(data[data.len() - 1] == last);
        assert forall|id: u64| #[trigger]
            mentions(data, id) <==> mentions(init, id) || last.id == id by {
            if mentions(init, id) {
                let i = choose|i: int| 0 <= i < init.len() && (#[trigger] init[i]).id == id;
                assert(data[i].id == id);
            }
            if mentions(data, id) {
                let i = choose|i: int| 0 <= i < data.len() && (#[trigger] data[i]).id == id;
                if i < init.len() {
                    assert(init[i].id == id);
                }
            }
        }
        assert forall|id: u64| #[trigger]
            indexed(repos, data).contains_key(id) <==> repos.contains_key(id) || mentions(
                data,
                id,
            ) by {
            assert(indexed(repos, init).contains_key(id) <==> repos.contains_key(id) || mentions(
                init,
                id,
            ));
        }
        assert forall|id: u64| repos.contains_key(id) && !mentions(data, id) implies #[trigger]
        indexed(repos, data)[id] == repos[id] by {
            assert(indexed(repos, init)[id] == repos[id]);
        }
        assert forall|i: int|
            0 <= i < data.len() && (forall|j: int|
                i < j < data.len() ==> data[j].id != data[i].id) implies indexed(repos, data)[(
        #[trigger] data[i]).id] == data[i].full_name@ by {
            if i < init.len() {
                assert(init[i] == data[i]);
                assert(data[data.len() - 1].id != data[i].id);
                assert forall|j: int| i < j < init.len() implies init[j].id != init[i].id by {
                    assert(data[j].id != data[i].id);
                }
            }
        }
    }
}

pub(crate) proof fn lemma_enters(before: Map<u64, String>, data: Seq<RepoInfo>, after: Map<u64, String>)
    requires
        names(after) == indexed(names(before), data),
    ensures
        enters(before, data, after),
{
    lemma_indexed(names(before), data);
    assert forall|id: u64| #[trigger]
        after.contains_key(id) <==> before.contains_key(id) || mentions(data, id) by {
        assert(names(after).contains_key(id) == after.contains_key(id));
        assert(names(before).contains_key(id) == before.contains_key(id));
    }
    assert forall|id: u64| before.contains_key(id) && !mentions(data, id) implies (#[trigger]
    after[id])@ == before[id]@ by {
        assert(after.contains_key(id));
        assert(names(after)[id] == after[id]@);
        assert(names(before)[id] == before[id]@);
    }
    assert forall|i: int|
        0 <= i < data.len() && (forall|j: int|
            i < j < data.len() ==> data[j].id != data[i].id) implies after[(
    #[trigger] data[i]).id]@ == data[i].full_name@ by {
        let id = data[i].id;
        assert(mentions(data, id));
        assert(after.contains_key(id));
        assert(names(after)[id] == after[id]@);
    }
}

/// The search begins before the first page, with nothing known.
pub proof fn law_new_index(index: RepoIndex)
    requires
        call_ensures(RepoIndex::new, (), index),
    ensures
        index.page == 1,
        forall|id: u64| !(#[trigger] index.repos@.contains_key(id)),
{
    assert forall|id: u64| !(#[trigger] index.repos@.contains_key(id)) by {
        assert(names(index.repos@).contains_key(id) == index.repos@.contains_key(id));
    }
}

/// A page is entered as it is. With fifty repositories or more the next page is due; with fewer
/// the search is over. A reply without an answer is its error.
pub proof fn law_page(
    client: ForgejoClient,
    index: RepoIndex,
    reply: Reply<Vec<RepoInfo>>,
    outcome: Result<Indexing, ForgejoError>,
)
    requires
        call_ensures(ForgejoClient::repo_id_map, (&client, index, reply), outcome),
    ensures
        outcome is Ok <==> reply matches Reply::Answered(Ok(_)),
        outcome matches Err(error) ==> is_forgejo_failure(reply, error),
        reply matches Reply::Answered(Ok(data)) ==> match outcome->Ok_0 {
            Indexing::MorePages(next) => data@.len() >= 50 && next.page == index.page + 1 && enters(
                index.repos@,
                data@,
                next.repos@,
            ),
            Indexing::Complete(repos) => data@.len() < 50 && enters(index.repos@, data@, repos@),
        },
{
    if let Reply::Answered(Ok(data)) = reply {
        match outcome->Ok_0 {
            Indexing::MorePages(next) => lemma_enters(index.repos@, data@, next.repos@),
            Indexing::Complete(repos) => lemma_enters(index.repos@, data@, repos@),
        }
    }
}

/// A page is the last one exactly if it has fewer than fifty repositories; it is entered in either
/// case.
pub proof fn law_add_page(index: &mut RepoIndex, data: Vec<RepoInfo>, last: bool)
    requires
        call_ensures(RepoIndex::add_page, (index, data), last),
    ensures
        last <==> data@.len() < 50,
        final(index).page == old(index).page + if last {
            0int
        } else {
            1int
        },
        enters(old(index).repos@, data@, final(index).repos@),
{
    lemma_enters(old(index).repos@, data@, final(index).repos@);
}

/// Whether one of the labels is among the tags.
pub open spec fn share_label(labels: Seq<String>, tags: Seq<String>) -> bool {
    exists|a: int, b: int|
        0 <= a < labels.len() && 0 <= b < tags.len() && (#[trigger] labels[a])@ == (
        #[trigger] tags[b])@
}

/// Whether a listed job is work: it waits or runs and, where there are tags, has one of them as a
/// label.
pub open spec fn is_work(job: AdminRunnerJob, tags: Option<Seq<String>>) -> bool {
    &&& job.status@ == "waiting"@ || job.status@ == "running"@
    &&& tags is Some ==> share_label(job.runs_on@, tags->0)
}

/// The work among listed jobs, in their order.
pub open spec fn work(jobs: Seq<AdminRunnerJob>, tags: Option<Seq<String>>) -> Seq<AdminRunnerJob> {
    jobs.filter(|j: AdminRunnerJob| is_work(j, tags))
}

/// The name under which a repository is known, or else its number.
pub open spec fn repository(repos: Map<u64, String>, id: u64) -> Seq<char> {
    if repos.contains_key(id) {
        repos[id]@
    } else {
        "repo/"@ + decimal(id as nat)
    }
}

/// Whether an active job is a listed one, with the name of its repository.
pub open spec fn is_same_job(
    found: ActiveJob,
    job: AdminRunnerJob,
    repos: Map<u64, String>,
) -> bool {
    &&& found.job.id == job.id
    &&& found.job.status@ == job.status@
    &&& found.job.labels@.len() == job.runs_on@.len()
    &&& forall|i: int|
        0 <= i < job.runs_on@.len() ==> (#[trigger] found.job.labels@[i])@ == job.runs_on@[i]@
    &&& found.project.full_name@ == repository(repos, job.repo_id)
}

/// The tags of a filter.
pub open spec fn tags_of(filter: Option<&[String]>) -> Option<Seq<String>> {
    if filter is Some {
        Some(filter->0@)
    } else {
        None
    }
}

pub(crate) proof fn lemma_is_work(
    job: AdminRunnerJob,
    tags: Option<Seq<String>>,
    filter: Option<Seq<Seq<char>>>,
)
    requires
        filter is Some <==> tags is Some,
        tags is Some ==> filter->0 == texts(tags->0),
    ensures
        is_work(job, tags) <==> is_active(job@) && passes_filter(job@, filter),
{
    if tags is Some {
        let labels = job.runs_on@;
        let t = tags->0;
        if share_label(labels, t) {
            let (a, b) = choose|a: int, b: int|
                0 <= a < labels.len() && 0 <= b < t.len() && (#[trigger] labels[a])@ == (
                #[trigger] t[b])@;
            assert(texts(t)[b] == t[b]@);
            assert(job@.runs_on[a] == labels[a]@);
            assert(filter->0.contains(job@.runs_on[a]));
        }
        if passes_filter(job@, filter) {
            let a = choose|i: int|
                0 <= i < job@.runs_on.len() && filter->0.contains(#[trigger] job@.runs_on[i]);
            let b = filter->0.index_of(job@.runs_on[a]);
            assert(texts(t)[b] == t[b]@);
            assert(labels[a]@ == t[b]@);
        }
    }
}

/// What is found is the work among the listed jobs, one for one and in their order.
pub(crate) proof fn lemma_work(
    repos: Map<u64, Seq<char>>,
    jobs: Seq<AdminRunnerJob>,
    tags: Option<Seq<String>>,
    filter: Option<Seq<Seq<char>>>,
)
    requires
        filter is Some <==> tags is Some,
        tags is Some ==> filter->0 == texts(tags->0),
    ensures
        active_jobs(repos, listed(jobs), filter).len() == work(jobs, tags).len(),
        forall|k: int|
            0 <= k < work(jobs, tags).len() ==> #[trigger] active_jobs(
                repos,
                listed(jobs),
                filter,
            )[k] == with_project(repos, work(jobs, tags)[k]@),
        forall|k: int|
            0 <= k < work(jobs, tags).len() ==> is_work(#[trigger] work(jobs, tags)[k], tags),
    decreases jobs.len(),
{
    reveal(Seq::filter);
    let wanted = |j: ListedJob| is_active(j) && passes_filter(j, filter);
    let is_wanted = |j: AdminRunnerJob| is_work(j, tags);
    if jobs.len() > 0 {
        let init = jobs.drop_last();
        let last = jobs.last();
        lemma_work(repos, init, tags, filter);
        lemma_is_work(last, tags, filter);
        assert(listed(jobs).drop_last() =~= listed(init));
        assert(listed(jobs).last() == last@);
        assert(listed(jobs).filter(wanted) == if wanted(last@) {
            listed(init).filter(wanted).push(last@)
        } else {
            listed(init).filter(wanted)
        });
        assert(work(jobs, tags) == if is_wanted(last) {
            work(init, tags).push(last)
        } else {
            work(init, tags)
        });
        let all = active_jobs(repos, listed(jobs), filter);
        let fewer = active_jobs(repos, listed(init), filter);
        if is_work(last, tags) {
            assert(all =~= fewer.push(with_project(repos, last@)));
        } else {
            assert(all =~= fewer);
        }
    } else {
        assert(listed(jobs).filter(wanted).len() == 0);
        assert(work(jobs, tags).len() == 0);
    }
}

pub(crate) proof fn lemma_same_job(
    found: ActiveJob,
    job: AdminRunnerJob,
    repos: Map<u64, String>,
)
    requires
        found@ == with_project(names(repos), job@),
    ensures
        is_same_job(found, job, repos),
{
    assert(found@.labels == job@.runs_on);
    assert(found@.labels.len() == job@.runs_on.len());
    assert forall|i: int| 0 <= i < job.runs_on@.len() implies (
    #[trigger] found.job.labels@[i])@ == job.runs_on@[i]@ by {
        assert(found@.labels[i] == job@.runs_on[i]);
    }
    assert(names(repos).contains_key(job.repo_id) == repos.contains_key(job.repo_id));
    if repos.contains_key(job.repo_id) {
        assert(names(repos)[job.repo_id] == repos[job.repo_id]@);
    }
}

proof fn lemma_found(
    repos: Map<u64, String>,
    jobs: Seq<AdminRunnerJob>,
    filter: Option<&[String]>,
    found: Seq<ActiveJob>,
)
    requires
        active_views(found) == active_jobs(names(repos), listed(jobs), filter_texts(filter)),
    ensures
        are_work(repos, jobs, tags_of(filter), found),
{
    let tags = tags_of(filter);
    lemma_work(names(repos), jobs, tags, filter_texts(filter));
    assert(active_views(found).len() == found.len());
    assert forall|k: int| 0 <= k < found.len() implies is_same_job(
        #[trigger] found[k],
        work(jobs, tags)[k],
        repos,
    ) && (found[k].job.status@ == "waiting"@ || found[k].job.status@ == "running"@) by {
        assert(active_views(found)[k] == found[k]@);
        lemma_same_job(found[k], work(jobs, tags)[k], repos);
        assert(is_work(work(jobs, tags)[k], tags));
    }
}

/// Whether what was found is the work among the listed jobs, one for one and in their order; so
/// that each waits or runs.
pub open spec fn are_work(
    repos: Map<u64, String>,
    jobs: Seq<AdminRunnerJob>,
    tags: Option<Seq<String>>,
    found: Seq<ActiveJob>,
) -> bool {
    &&& found.len() == work(jobs, tags).len()
    &&& forall|k: int|
        0 <= k < found.len() ==> is_same_job(#[trigger] found[k], work(jobs, tags)[k], repos) && (
        found[k].job.status@ == "waiting"@ || found[k].job.status@ == "running"@)
}

/// Every job that is found waits or runs, and every listed job that does, and has one of the tags
/// where there are tags, is found: in the order of the list, with its own ID, status and labels and
/// the name of its repository.
pub proof fn law_active_jobs(
    repos: HashMap<u64, String>,
    jobs: Vec<AdminRunnerJob>,
    filter: Option<&[String]>,
    found: Vec<ActiveJob>,
)
    requires
        call_ensures(select_active_jobs, (&repos, jobs, filter), found),
    ensures
        are_work(repos@, jobs@, tags_of(filter), found@),
        forall|i: int|
            0 <= i < jobs@.len() && is_work(jobs@[i], tags_of(filter)) ==> exists|k: int|
                0 <= k < found@.len() && is_same_job(
                    #[trigger] found@[k],
                    #[trigger] jobs@[i],
                    repos@,
                ),
{
    let tags = tags_of(filter);
    lemma_found(repos@, jobs@, filter, found@);
    assert forall|i: int| 0 <= i < jobs@.len() && is_work(jobs@[i], tags) implies exists|k: int|
        0 <= k < found@.len() && is_same_job(
            #[trigger] found@[k],
            #[trigger] jobs@[i],
            repos@,
        ) by {
        let wanted = |j: AdminRunnerJob| is_work(j, tags);
        jobs@.filter_lemma(wanted);
        assert(wanted(jobs@[i]));
        assert(work(jobs@, tags).contains(jobs@[i]));
        let k = work(jobs@, tags).index_of(jobs@[i]);
        assert(is_same_job(found@[k], jobs@[i], repos@));
    }
}

/// Jobs are found in the list that was answered, `null` being an empty one; a reply without an
/// answer is its error.
pub proof fn law_find_active_jobs(
    client: ForgejoClient,
    repos: HashMap<u64, String>,
    reply: Reply<Option<Vec<AdminRunnerJob>>>,
    filter: Option<&[String]>,
    outcome: Result<Vec<ActiveJob>, ForgejoError>,
)
    requires
        call_ensures(ForgejoClient::find_active_jobs, (&client, &repos, reply, filter), outcome),
    ensures
        outcome is Ok <==> reply matches Reply::Answered(Ok(_)),
        outcome matches Err(error) ==> is_forgejo_failure(reply, error),
        reply matches Reply::Answered(Ok(Some(jobs))) ==> are_work(
            repos@,
            jobs@,
            tags_of(filter),
            outcome->Ok_0@,
        ),
        reply matches Reply::Answered(Ok(None)) ==> outcome->Ok_0@.len() == 0,
{
    if let Reply::Answered(Ok(answer)) = reply {
        let found = outcome->Ok_0@;
        match answer {
            Some(jobs) => lemma_found(repos@, jobs@, filter, found),
            None => {
                let none = Seq::<AdminRunnerJob>::empty();
                assert(listed(none) =~= Seq::<ListedJob>::empty());
                lemma_found(repos@, none, filter, found);
                reveal(Seq::filter);
                assert(work(none, tags_of(filter)).len() == 0);
            },
        }
    }
}

/// The listed jobs are handed on as they are, `null` being an empty list; a reply without an answer
/// is its error.
pub proof fn law_listed_jobs(
    client: ForgejoClient,
    reply: Reply<Option<Vec<AdminRunnerJob>>>,
    outcome: Result<Vec<AdminRunnerJob>, ForgejoError>,
)
    requires
        call_ensures(ForgejoClient::admin_runner_jobs, (&client, reply), outcome),
    ensures
        outcome is Ok <==> reply matches Reply::Answered(Ok(_)),
        outcome matches Err(error) ==> is_forgejo_failure(reply, error),
        reply matches Reply::Answered(Ok(Some(jobs))) ==> outcome->Ok_0 == jobs,
        reply matches Reply::Answered(Ok(None)) ==> outcome->Ok_0@.len() == 0,
{
}

/// There is a filter exactly if labels are configured, and it holds these labels.
pub proof fn law_label_filter(config: ForgejoConfig, filter: Option<&[String]>)
    requires
        call_ensures(ForgejoConfig::label_filter, (&config,), filter),
    ensures
        filter is Some <==> config.tag_filter is Some && config.tag_filter->0@.len() > 0,
        filter is Some ==> filter->0@.len() == config.tag_filter->0@.len(),
        filter is Some ==> forall|i: int|
            0 <= i < filter->0@.len() ==> (#[trigger] filter->0@[i])@ == config.tag_filter->0@[i]@,
{
    if filter is Some {
        let ours = filter->0@;
        let theirs = config.tag_filter->0@;
        assert(texts(ours).len() == texts(theirs).len());
        assert forall|i: int| 0 <= i < ours.len() implies (#[trigger] ours[i])@ == theirs[i]@ by {
            assert(texts(ours)[i] == texts(theirs)[i]);
        }
    }
}

/// A client has the configured settings.
pub proof fn law_hetzner_client(config: HetznerConfig, client: HetznerClient, copied: HetznerConfig)
    requires
        call_ensures(HetznerClient::new, (&config,), client),
        call_ensures(HetznerConfig::copy, (&config,), copied),
    ensures
        client.token@ == config.token@,
        client.config == config,
        copied == config,
{
}

/// Whether `request` has this method and URL and carries the token of a Hetzner client.
pub open spec fn is_hetzner_request(
    request: ApiRequest,
    client: HetznerClient,
    method: Method,
    url: Seq<char>,
) -> bool {
    &&& request.method == method
    &&& request.url@ == url
    &&& request.authorization@ == "Bearer "@ + client.token@
}

pub(crate) proof fn lemma_hetzner_urls()
    ensures
        crate::hetzner::HETZNER_API_URL@ == "https://api.hetzner.cloud/v1"@,
        forall|rest: Seq<char>|
            "https://api.hetzner.cloud/v1"@ + #[trigger] ("/ssh_keys?name="@ + rest)
                == "https://api.hetzner.cloud/v1/ssh_keys?name="@ + rest,
        forall|rest: Seq<char>|
            "https://api.hetzner.cloud/v1"@ + #[trigger] ("/servers?name="@ + rest)
                == "https://api.hetzner.cloud/v1/servers?name="@ + rest,
        forall|rest: Seq<char>|
            "https://api.hetzner.cloud/v1"@ + #[trigger] ("/servers/"@ + rest)
                == "https://api.hetzner.cloud/v1/servers/"@ + rest,
        "https://api.hetzner.cloud/v1"@ + "/servers"@ == "https://api.hetzner.cloud/v1/servers"@,
{
    reveal_strlit("https://api.hetzner.cloud/v1");
    reveal_strlit("/ssh_keys?name=");
    reveal_strlit("/servers?name=");
    reveal_strlit("/servers/");
    reveal_strlit("/servers");
    reveal_strlit("https://api.hetzner.cloud/v1/ssh_keys?name=");
    reveal_strlit("https://api.hetzner.cloud/v1/servers?name=");
    reveal_strlit("https://api.hetzner.cloud/v1/servers/");
    reveal_strlit("https://api.hetzner.cloud/v1/servers");
    let base = "https://api.hetzner.cloud/v1"@;
    assert(base + "/ssh_keys?name="@ =~= "https://api.hetzner.cloud/v1/ssh_keys?name="@);
    assert(base + "/servers?name="@ =~= "https://api.hetzner.cloud/v1/servers?name="@);
    assert(base + "/servers/"@ =~= "https://api.hetzner.cloud/v1/servers/"@);
    assert(base + "/servers"@ =~= "https://api.hetzner.cloud/v1/servers"@);
    assert forall|rest: Seq<char>| base + #[trigger] ("/ssh_keys?name="@ + rest)
        == "https://api.hetzner.cloud/v1/ssh_keys?name="@ + rest by {
        assert(base + ("/ssh_keys?name="@ + rest) =~= base + "/ssh_keys?name="@ + rest);
    }
    assert forall|rest: Seq<char>| base + #[trigger] ("/servers?name="@ + rest)
        == "https://api.hetzner.cloud/v1/servers?name="@ + rest by {
        assert(base + ("/servers?name="@ + rest) =~= base + "/servers?name="@ + rest);
    }
    assert forall|rest: Seq<char>| base + #[trigger] ("/servers/"@ + rest)
        == "https://api.hetzner.cloud/v1/servers/"@ + rest by {
        assert(base + ("/servers/"@ + rest) =~= base + "/servers/"@ + rest);
    }
}

/// Every request to Hetzner, of whichever method, goes to the API and carries the bearer token.
pub proof fn law_hetzner_requests(
    client: HetznerClient,
    endpoint: &str,
    get: ApiRequest,
    post: ApiRequest,
    delete: ApiRequest,
)
    requires
        call_ensures(HetznerClient::get, (&client, endpoint), get),
        call_ensures(HetznerClient::post, (&client, endpoint), post),
        call_ensures(HetznerClient::delete, (&client, endpoint), delete),
    ensures
        is_hetzner_request(
            get,
            client,
            Method::Get,
            "https://api.hetzner.cloud/v1"@ + endpoint@,
        ),
        is_hetzner_request(
            post,
            client,
            Method::Post,
            "https://api.hetzner.cloud/v1"@ + endpoint@,
        ),
        is_hetzner_request(
            delete,
            client,
            Method::Delete,
            "https://api.hetzner.cloud/v1"@ + endpoint@,
        ),
{
}

/// SSH keys and servers are looked up by their name, and a server is deleted by its ID.
pub proof fn law_hetzner_lookups(
    client: HetznerClient,
    name: &str,
    server_id: u64,
    keys: ApiRequest,
    servers: ApiRequest,
    deletion: ApiRequest,
)
    requires
        call_ensures(HetznerClient::ssh_keys_request, (&client, name), keys),
        call_ensures(HetznerClient::servers_request, (&client, name), servers),
        call_ensures(HetznerClient::delete_server, (&client, server_id), deletion),
    ensures
        is_hetzner_request(
            keys,
            client,
            Method::Get,
            "https://api.hetzner.cloud/v1/ssh_keys?name="@ + name@,
        ),
        is_hetzner_request(
            servers,
            client,
            Method::Get,
            "https://api.hetzner.cloud/v1/servers?name="@ + name@,
        ),
        is_hetzner_request(
            deletion,
            client,
            Method::Delete,
            "https://api.hetzner.cloud/v1/servers/"@ + decimal(server_id as nat),
        ),
{
    lemma_hetzner_urls();
}

/// The first key is the one, and without any key the name is reported; a reply without an answer is
/// its error.
pub proof fn law_ssh_key(
    client: HetznerClient,
    name: &str,
    reply: Reply<Vec<SshKey>>,
    outcome: Result<u64, HetznerError>,
)
    requires
        call_ensures(HetznerClient::get_ssh_key_id, (&client, name, reply), outcome),
    ensures
        outcome matches Ok(id) ==> (reply matches Reply::Answered(Ok(keys)) && keys@.len() > 0
            && id == keys@[0].id),
        outcome matches Err(error) ==> match reply {
            Reply::Answered(Ok(keys)) => keys@.len() == 0 && error is SshKeyNotFound
                && error->SshKeyNotFound_0@ == name@,
            _ => is_hetzner_failure(reply, error),
        },
{
}

/// The first server is the one, and there need not be any; a reply without an answer is its error.
pub proof fn law_found_server(
    client: HetznerClient,
    reply: Reply<Vec<Server>>,
    outcome: Result<Option<Server>, HetznerError>,
)
    requires
        call_ensures(HetznerClient::find_server_by_name, (&client, reply), outcome),
    ensures
        outcome is Ok <==> reply matches Reply::Answered(Ok(_)),
        outcome matches Err(error) ==> is_hetzner_failure(reply, error),
        reply matches Reply::Answered(Ok(servers)) ==> (outcome->Ok_0 is Some <==> servers@.len()
            > 0),
        reply matches Reply::Answered(Ok(servers)) ==> servers@.len() > 0 ==> outcome->Ok_0->0
            == servers@[0],
{
}

/// Whether an order is an authorized POST request for a server with this name, configuration and
/// key, of the configured kind.
pub open spec fn is_server_order(
    order: ServerOrder,
    client: HetznerClient,
    name: Seq<char>,
    user_data: Seq<char>,
    ssh_key_id: u64,
) -> bool {
    &&& is_hetzner_request(
        order.request,
        client,
        Method::Post,
        "https://api.hetzner.cloud/v1/servers"@,
    )
    &&& order.body.name@ == name
    &&& order.body.server_type@ == client.config.server_type@
    &&& order.body.image@ == client.config.image@
    &&& order.body.location@ == client.config.location@
    &&& order.body.ssh_keys@.len() == 1
    &&& order.body.ssh_keys@[0] == ssh_key_id
    &&& order.body.user_data@ == user_data
}

/// A server is ordered with the first key; without any key the configured name is reported, and a
/// reply without an answer is its error.
pub proof fn law_server_order(
    client: HetznerClient,
    name: &str,
    user_data: &str,
    keys: Reply<Vec<SshKey>>,
    outcome: Result<ServerOrder, HetznerError>,
)
    requires
        call_ensures(HetznerClient::create_server, (&client, name, user_data, keys), outcome),
    ensures
        outcome matches Ok(order) ==> (keys matches Reply::Answered(Ok(found)) && found@.len() > 0
            && is_server_order(order, client, name@, user_data@, found@[0].id)),
        outcome matches Err(error) ==> match keys {
            Reply::Answered(Ok(found)) => found@.len() == 0 && error is SshKeyNotFound
                && error->SshKeyNotFound_0@ == client.config.ssh_key_name@,
            _ => is_hetzner_failure(keys, error),
        },
{
    lemma_hetzner_urls();
}

} // verus!

//! The Forgejo API: which Actions jobs wait or run.
use crate::config::ForgejoConfig;
use crate::http::{
    decoding_message, decoding_text, refusal_message, refusal_text, ApiRequest, Method, Reply,
};
use crate::text::{decimal, decimal_text, texts, trim_trailing, without_trailing};
use std::collections::HashMap;
use vstd::prelude::*;
use vstd::string::*;

verus! {

broadcast use vstd::std_specs::hash::group_hash_axioms;

/// Errors that can occur during Forgejo API calls.
#[derive(Debug)]
pub enum ForgejoError {
    /// The HTTP exchange failed.
    Request(String),
    /// The API answered with a status that is no success.
    Api { status: u16, message: String },
    /// The body of the answer could not be decoded.
    Parse(String),
}

impl ForgejoError {
    /// The characters of the message of this error.
    pub open spec fn spec_describe(self) -> Seq<char> {
        match self {
            ForgejoError::Request(cause) => "HTTP request failed: "@ + cause@,
            ForgejoError::Api { status, message } => "Forgejo API error (status "@ + decimal(
                status as nat,
            ) + "): "@ + message@,
            ForgejoError::Parse(cause) => "Invalid API response: "@ + cause@,
        }
    }

    /// The message of this error.
    pub fn describe(&self) -> (message: String)
        ensures
            message@ == self.spec_describe(),
    {
        match self {
            ForgejoError::Request(cause) => {
                String::from_str("HTTP request failed: ").concat(cause.as_str())
            },
            ForgejoError::Api { status, message } => {
                String::from_str("Forgejo API error (status ").concat(
                    decimal_text(*status as u64).as_str(),
                ).concat("): ").concat(message.as_str())
            },
            ForgejoError::Parse(cause) => {
                String::from_str("Invalid API response: ").concat(cause.as_str())
            },
        }
    }
}

/// A Forgejo repository with its numeric ID and full name.
#[derive(Debug, Clone)]
pub struct RepoInfo {
    pub id: u64,
    pub full_name: String,
}

/// A job as the runner jobs endpoint lists it.
#[derive(Debug)]
pub struct AdminRunnerJob {
    pub id: u64,
    pub repo_id: u64,
    /// Labels from `runs-on` in the workflow file.
    pub runs_on: Vec<String>,
    pub status: String,
}

/// What a listed job says.
#[verifier::ext_equal]
pub struct ListedJob {
    pub id: u64,
    pub repo_id: u64,
    pub runs_on: Seq<Seq<char>>,
    pub status: Seq<char>,
}

impl View for AdminRunnerJob {
    type V = ListedJob;

    open spec fn view(&self) -> ListedJob {
        ListedJob {
            id: self.id,
            repo_id: self.repo_id,
            runs_on: texts(self.runs_on@),
            status: self.status@,
        }
    }
}

/// A repository.
#[derive(Debug, Clone)]
pub struct Repo {
    pub full_name: String,
}

/// A job of a repository.
#[derive(Debug, Clone)]
pub struct Task {
    pub id: u64,
    pub status: String,
    pub labels: Vec<String>,
}

/// A job that waits or runs, and its repository.
#[derive(Debug, Clone)]
pub struct ActiveJob {
    pub project: Repo,
    pub job: Task,
}

/// What an active job says.
#[verifier::ext_equal]
pub struct ActiveJobView {
    pub project: Seq<char>,
    pub id: u64,
    pub status: Seq<char>,
    pub labels: Seq<Seq<char>>,
}

impl View for ActiveJob {
    type V = ActiveJobView;

    open spec fn view(&self) -> ActiveJobView {
        ActiveJobView {
            project: self.project.full_name@,
            id: self.job.id,
            status: self.job.status@,
            labels: texts(self.job.labels@),
        }
    }
}

/// The views of listed jobs.
pub open spec fn listed(jobs: Seq<AdminRunnerJob>) -> Seq<ListedJob> {
    jobs.map_values(|j: AdminRunnerJob| j@)
}

/// The views of active jobs.
pub open spec fn active_views(jobs: Seq<ActiveJob>) -> Seq<ActiveJobView> {
    jobs.map_values(|j: ActiveJob| j@)
}

/// The names of repositories by their ID.
pub open spec fn names(repos: Map<u64, String>) -> Map<u64, Seq<char>> {
    repos.map_values(|name: String| name@)
}

/// `repos` with the repositories of `data` entered one after the other.
pub open spec fn indexed(repos: Map<u64, Seq<char>>, data: Seq<RepoInfo>) -> Map<u64, Seq<char>>
    decreases data.len(),
{
    if data.len() == 0 {
        repos
    } else {
        indexed(repos, data.drop_last()).insert(data.last().id, data.last().full_name@)
    }
}

/// Whether a job waits or runs.
pub open spec fn is_active(job: ListedJob) -> bool {
    job.status == "waiting"@ || job.status == "running"@
}

/// Whether a job has one of the labels in the filter, where there is a filter.
pub open spec fn passes_filter(job: ListedJob, filter: Option<Seq<Seq<char>>>) -> bool {
    match filter {
        Some(tags) => exists|i: int|
            0 <= i < job.runs_on.len() && tags.contains(#[trigger] job.runs_on[i]),
        None => true,
    }
}

/// The name of a job's repository; one that is not in the index goes by its number.
pub open spec fn project_name(repos: Map<u64, Seq<char>>, repo_id: u64) -> Seq<char> {
    if repos.contains_key(repo_id) {
        repos[repo_id]
    } else {
        "repo/"@ + decimal(repo_id as nat)
    }
}

/// A listed job together with the name of its repository.
pub open spec fn with_project(repos: Map<u64, Seq<char>>, job: ListedJob) -> ActiveJobView {
    ActiveJobView {
        project: project_name(repos, job.repo_id),
        id: job.id,
        status: job.status,
        labels: job.runs_on,
    }
}

/// The active jobs among `jobs` that pass the filter, in their order.
pub open spec fn active_jobs(
    repos: Map<u64, Seq<char>>,
    jobs: Seq<ListedJob>,
    filter: Option<Seq<Seq<char>>>,
) -> Seq<ActiveJobView> {
    jobs.filter(|j: ListedJob| is_active(j) && passes_filter(j, filter)).map_values(
        |j: ListedJob| with_project(repos, j),
    )
}

/// The filter of an optional slice of labels.
pub open spec fn filter_texts(tag_filter: Option<&[String]>) -> Option<Seq<Seq<char>>> {
    match tag_filter {
        Some(tags) => Some(texts(tags@)),
        None => None,
    }
}

/// Whether one of `labels` is among `tags`.
fn shares_label(labels: &Vec<String>, tags: &[String]) -> (shares: bool)
    ensures
        shares == exists|i: int|
            0 <= i < texts(labels@).len() && texts(tags@).contains(#[trigger] texts(labels@)[i]),
{
    for i in 0..labels.len()
        invariant
            forall|k: int|
                0 <= k < i ==> !texts(tags@).contains(#[trigger] texts(labels@)[k]),
    {
        for j in 0..tags.len()
            invariant
                i < labels@.len(),
                forall|k: int| 0 <= k < j ==> #[trigger] texts(tags@)[k] != labels@[i as int]@,
        {
            if labels[i] == tags[j] {
                assert(texts(tags@)[j as int] == texts(labels@)[i as int]);
                return true;
            }
        }
    }
    false
}

/// The jobs that wait or run, each with the name of its repository, in the order in which they
/// are listed. With a filter, only jobs that have at least one of its labels.
pub fn select_active_jobs(
    repos: &HashMap<u64, String>,
    all_jobs: Vec<AdminRunnerJob>,
    tag_filter: Option<&[String]>,
) -> (found: Vec<ActiveJob>)
    ensures
        active_views(found@) == active_jobs(
            names(repos@),
            listed(all_jobs@),
            filter_texts(tag_filter),
        ),
{
    let waiting = String::from_str("waiting");
    let running = String::from_str("running");
    let mut found: Vec<ActiveJob> = Vec::new();
    let ghost filter = filter_texts(tag_filter);
    let ghost wanted = |j: ListedJob| is_active(j) && passes_filter(j, filter);
    let ghost named = |j: ListedJob| with_project(names(repos@), j);
    let ghost jobs = listed(all_jobs@);
    assert(active_views(found@) =~= jobs.take(0).filter(wanted).map_values(named));
    for job in iter: all_jobs
        invariant
            jobs == listed(all_jobs@),
            iter.seq() == all_jobs@,
            waiting@ == "waiting"@,
            running@ == "running"@,
            filter == filter_texts(tag_filter),
            wanted == (|j: ListedJob| is_active(j) && passes_filter(j, filter)),
            named == (|j: ListedJob| with_project(names(repos@), j)),
            active_views(found@) == jobs.take(iter.index() as int).filter(wanted).map_values(
                named,
            ),
    {
        proof {
            let before = jobs.take(iter.index() as int);
            let after = jobs.take(iter.index() + 1);
            assert(after =~= before.push(job@));
            assert(after.drop_last() =~= before);
            reveal(Seq::filter);
            assert(after.filter(wanted) == if wanted(job@) {
                before.filter(wanted).push(job@)
            } else {
                before.filter(wanted)
            });
        }
        let active = job.status == waiting || job.status == running;
        let passes = match tag_filter {
            Some(tags) => shares_label(&job.runs_on, tags),
            None => true,
        };
        if active && passes {
            let full_name = match repos.get(&job.repo_id) {
                Some(name) => name.clone(),
                None => String::from_str("repo/").concat(decimal_text(job.repo_id).as_str()),
            };
            let ghost earlier = found@;
            let next = ActiveJob {
                project: Repo { full_name },
                job: Task { id: job.id, status: job.status, labels: job.runs_on },
            };
            assert(next@ == named(job@));
            found.push(next);
            assert(active_views(found@) =~= active_views(earlier).push(next@));
            assert(jobs.take(iter.index() as int).filter(wanted).push(job@).map_values(named)
                =~= active_views(found@));
        }
    }
    assert(jobs.take(jobs.len() as int) =~= jobs);
    found
}

/// Forgejo API client: what it asks for, and what it makes of the answers.
#[derive(Debug)]
pub struct ForgejoClient {
    /// URL of the instance, without a slash at its end
    pub base_url: String,
    /// API token
    pub token: String,
}

impl ForgejoClient {
    /// Creates a client for the configured instance.
    pub fn new(config: &ForgejoConfig) -> (client: ForgejoClient)
        ensures
            client.base_url@ == without_trailing(config.url@, '/'),
            client.token@ == config.token@,
    {
        ForgejoClient { base_url: trim_trailing(config.url.as_str(), '/'), token: config.token.clone() }
    }

    /// The GET request for an endpoint of the API.
    pub fn get(&self, endpoint: &str) -> (request: ApiRequest)
        ensures
            request.is(
                Method::Get,
                self.base_url@ + "/api/v1"@ + endpoint@,
                "token "@ + self.token@,
            ),
    {
        ApiRequest {
            method: Method::Get,
            url: self.base_url.clone().concat("/api/v1").concat(endpoint),
            authorization: String::from_str("token ").concat(self.token.as_str()),
        }
    }

    /// Whether `outcome` is what becomes of `reply`.
    pub open spec fn outcome_of<T>(reply: Reply<T>, outcome: Result<T, ForgejoError>) -> bool {
        match reply {
            Reply::Failed(cause) => outcome == Err::<T, _>(ForgejoError::Request(cause)),
            Reply::Refused { status, text } => {
                &&& outcome is Err
                &&& outcome->Err_0 is Api
                &&& outcome->Err_0->status == status
                &&& outcome->Err_0->message@ == refusal_message(text)
            },
            Reply::Answered(Ok(value)) => outcome == Ok::<T, ForgejoError>(value),
            Reply::Answered(Err(cause)) => {
                &&& outcome is Err
                &&& outcome->Err_0 is Parse
                &&& outcome->Err_0->Parse_0@ == decoding_message(cause@)
            },
        }
    }

    /// What becomes of the reply to a request: the decoded answer, or the error that it is.
    pub fn receive<T>(reply: Reply<T>) -> (outcome: Result<T, ForgejoError>)
        ensures
            ForgejoClient::outcome_of(reply, outcome),
    {
        match reply {
            Reply::Failed(cause) => Err(ForgejoError::Request(cause)),
            Reply::Refused { status, text } => {
                Err(ForgejoError::Api { status, message: refusal_text(text) })
            },
            Reply::Answered(Ok(value)) => Ok(value),
            Reply::Answered(Err(cause)) => {
                Err(ForgejoError::Parse(decoding_text(cause.as_str())))
            },
        }
    }

    /// The request for the list of runner jobs.
    pub fn jobs_request(&self) -> (request: ApiRequest)
        ensures
            request.is(
                Method::Get,
                self.base_url@ + "/api/v1"@ + "/admin/runners/jobs"@,
                "token "@ + self.token@,
            ),
    {
        self.get("/admin/runners/jobs")
    }

    /// The request for the next page of repositories.
    pub fn repos_request(&self, index: &RepoIndex) -> (request: ApiRequest)
        requires
            index.well_formed(),
        ensures
            request.is(
                Method::Get,
                self.base_url@ + "/api/v1"@ + index.spec_endpoint(),
                "token "@ + self.token@,
            ),
    {
        self.get(index.endpoint().as_str())
    }

    /// Takes the reply to the request for a page of repositories. The index is complete once a page
    /// was not full; an error ends the search.
    pub fn repo_id_map(&self, index: RepoIndex, reply: Reply<Vec<RepoInfo>>) -> (outcome: Result<
        Indexing,
        ForgejoError,
    >)
        requires
            index.well_formed(),
            reply matches Reply::Answered(Ok(data)) && data@.len() >= PAGE_LIMIT ==> index.page
                < i32::MAX,
        ensures
            match reply {
                Reply::Answered(Ok(data)) => outcome is Ok && outcome->Ok_0.follows(index, data@),
                _ => outcome is Err && ForgejoClient::outcome_of(reply, Err(outcome->Err_0)),
            },
    {
        let mut index = index;
        match ForgejoClient::receive(reply) {
            Ok(data) => {
                let last = index.add_page(data);
                if last {
                    Ok(Indexing::Complete(index.repos))
                } else {
                    Ok(Indexing::MorePages(index))
                }
            },
            Err(error) => Err(error),
        }
    }

    /// The runner jobs that the API has listed; it answers `null` when there are none.
    pub fn admin_runner_jobs(&self, reply: Reply<Option<Vec<AdminRunnerJob>>>) -> (outcome: Result<
        Vec<AdminRunnerJob>,
        ForgejoError,
    >)
        ensures
            match reply {
                Reply::Answered(Ok(Some(jobs))) => outcome == Ok::<_, ForgejoError>(jobs),
                Reply::Answered(Ok(None)) => outcome is Ok && outcome->Ok_0@.len() == 0,
                _ => outcome is Err && ForgejoClient::outcome_of(reply, Err(outcome->Err_0)),
            },
    {
        match ForgejoClient::receive(reply) {
            Ok(Some(jobs)) => Ok(jobs),
            Ok(None) => Ok(Vec::new()),
            Err(error) => Err(error),
        }
    }

    /// Takes the reply to the request for the list of runner jobs: the active (waiting or running)
    /// jobs of every repository.
    ///
    /// When `tag_filter` is set, only jobs whose `runs_on` labels hold at least one of the tags are
    /// returned.
    pub fn find_active_jobs(
        &self,
        repos: &HashMap<u64, String>,
        reply: Reply<Option<Vec<AdminRunnerJob>>>,
        tag_filter: Option<&[String]>,
    ) -> (outcome: Result<Vec<ActiveJob>, ForgejoError>)
        ensures
            match reply {
                Reply::Answered(Ok(jobs)) => {
                    &&& outcome is Ok
                    &&& active_views(outcome->Ok_0@) == active_jobs(
                        names(repos@),
                        match jobs {
                            Some(list) => listed(list@),
                            None => Seq::empty(),
                        },
                        filter_texts(tag_filter),
                    )
                },
                _ => outcome is Err && ForgejoClient::outcome_of(reply, Err(outcome->Err_0)),
            },
    {
        match self.admin_runner_jobs(reply) {
            Ok(jobs) => {
                assert(jobs@.len() == 0 ==> listed(jobs@) =~= Seq::<ListedJob>::empty());
                Ok(select_active_jobs(repos, jobs, tag_filter))
            },
            Err(error) => Err(error),
        }
    }
}

/// Repositories per page of the repository search.
pub const PAGE_LIMIT: usize = 50;

/// The index of repositories by their ID, built from the pages of the repository search.
#[derive(Debug)]
pub struct RepoIndex {
    /// Names of the repositories on the pages so far
    pub repos: HashMap<u64, String>,
    /// Number of the page that comes next
    pub page: i32,
}

impl RepoIndex {
    /// Pages are counted from one.
    pub open spec fn well_formed(self) -> bool {
        1 <= self.page
    }

    /// The index before the first page.
    pub fn new() -> (index: RepoIndex)
        ensures
            index.well_formed(),
            index.page == 1,
            names(index.repos@) == Map::<u64, Seq<char>>::empty(),
    {
        let repos: HashMap<u64, String> = HashMap::new();
        assert(names(repos@) =~= Map::<u64, Seq<char>>::empty());
        RepoIndex { repos, page: 1 }
    }

    /// The endpoint of the next page.
    pub open spec fn spec_endpoint(self) -> Seq<char> {
        "/repos/search?limit="@ + decimal(PAGE_LIMIT as nat) + "&page="@ + decimal(self.page as nat)
    }

    /// The endpoint of the next page.
    pub fn endpoint(&self) -> (endpoint: String)
        requires
            self.well_formed(),
        ensures
            endpoint@ == self.spec_endpoint(),
    {
        String::from_str("/repos/search?limit=").concat(
            decimal_text(PAGE_LIMIT as u64).as_str(),
        ).concat("&page=").concat(decimal_text(self.page as u64).as_str())
    }

    /// Enters the repositories of a page; of two with the same ID the later one stays. A page that
    /// is not full is the last one.
    pub fn add_page(&mut self, data: Vec<RepoInfo>) -> (last: bool)
        requires
            old(self).well_formed(),
            data@.len() >= PAGE_LIMIT ==> old(self).page < i32::MAX,
        ensures
            final(self).well_formed(),
            last == (data@.len() < PAGE_LIMIT),
            names(final(self).repos@) == indexed(names(old(self).repos@), data@),
            final(self).page == old(self).page + if last { 0int } else { 1int },
    {
        let count = data.len();
        let ghost all = data@;
        let ghost earlier = names(self.repos@);
        assert(all.take(0) =~= Seq::<RepoInfo>::empty());
        for repo in iter: data
            invariant
                iter.seq() == all,
                names(self.repos@) == indexed(earlier, all.take(iter.index() as int)),
                self.page == old(self).page,
        {
            let ghost before = self.repos@;
            assert(all.take(iter.index() + 1).drop_last() =~= all.take(iter.index() as int));
            self.repos.insert(repo.id, repo.full_name);
            assert(names(self.repos@) =~= names(before).insert(repo.id, repo.full_name@));
        }
        assert(all.take(all.len() as int) =~= all);
        if count < PAGE_LIMIT {
            true
        } else {
            self.page = self.page + 1;
            false
        }
    }
}

/// How far the index of repositories has come.
#[derive(Debug)]
pub enum Indexing {
    /// A further page is due.
    MorePages(RepoIndex),
    /// All repositories are known.
    Complete(HashMap<u64, String>),
}

impl Indexing {
    /// The names of the repositories found so far.
    pub open spec fn known(self) -> Map<u64, Seq<char>> {
        match self {
            Indexing::MorePages(index) => names(index.repos@),
            Indexing::Complete(repos) => names(repos@),
        }
    }

    /// Whether the search has come this far once the page `data` is entered into `index`: its
    /// repositories are known, and after a full page the next one is due.
    pub open spec fn follows(self, index: RepoIndex, data: Seq<RepoInfo>) -> bool {
        &&& self.known() == indexed(names(index.repos@), data)
        &&& match self {
            Indexing::Complete(_) => data.len() < PAGE_LIMIT,
            Indexing::MorePages(next) => data.len() >= PAGE_LIMIT && next.well_formed() && next.page
                == index.page + 1,
        }
    }
}

/// Entering two pages one after the other is entering the repositories of both in one go.
pub proof fn law_pages_add_up(repos: Map<u64, Seq<char>>, a: Seq<RepoInfo>, b: Seq<RepoInfo>)
    ensures
        indexed(repos, a + b) == indexed(indexed(repos, a), b),
    decreases b.len(),
{
    if b.len() == 0 {
        assert(a + b =~= a);
    } else {
        assert((a + b).drop_last() =~= a + b.drop_last());
        law_pages_add_up(repos, a, b.drop_last());
    }
}

/// Where a search that begins at page one has come after `count` full pages.
proof fn lemma_full_pages(pages: Seq<Seq<RepoInfo>>, indexes: Seq<RepoIndex>, count: int)
    requires
        0 <= count < pages.len(),
        indexes.len() == pages.len(),
        indexes[0].page == 1,
        names(indexes[0].repos@) == Map::<u64, Seq<char>>::empty(),
        forall|i: int|
            0 <= i < pages.len() - 1 ==> Indexing::MorePages(indexes[i + 1]).follows(
                indexes[i],
                #[trigger] pages[i],
            ),
    ensures
        indexes[count].page == count + 1,
        names(indexes[count].repos@) == indexed(Map::empty(), pages.take(count).flatten()),
    decreases count,
{
    if count == 0 {
        assert(pages.take(0).flatten() =~= Seq::<RepoInfo>::empty());
    } else {
        let page = pages[count - 1];
        lemma_full_pages(pages, indexes, count - 1);
        assert(pages.take(count) =~= pages.take(count - 1).push(page));
        pages.take(count - 1).lemma_flatten_push(page);
        law_pages_add_up(Map::empty(), pages.take(count - 1).flatten(), page);
    }
}

/// A search that gets full pages and then one that is not full asks for the pages one, two, three
/// and so on, ends with the page that is not full, and then knows the repositories of all pages.
pub proof fn law_search_indexes_all_pages(
    pages: Seq<Seq<RepoInfo>>,
    indexes: Seq<RepoIndex>,
    end: Indexing,
)
    requires
        pages.len() > 0,
        indexes.len() == pages.len(),
        indexes[0].page == 1,
        names(indexes[0].repos@) == Map::<u64, Seq<char>>::empty(),
        forall|i: int|
            0 <= i < pages.len() - 1 ==> Indexing::MorePages(indexes[i + 1]).follows(
                indexes[i],
                #[trigger] pages[i],
            ),
        pages.last().len() < PAGE_LIMIT,
        end.follows(indexes.last(), pages.last()),
    ensures
        forall|i: int| 0 <= i < pages.len() ==> (#[trigger] indexes[i]).page == i + 1,
        end is Complete,
        end.known() == indexed(Map::empty(), pages.flatten()),
{
    assert forall|i: int| 0 <= i < pages.len() implies (#[trigger] indexes[i]).page == i + 1 by {
        lemma_full_pages(pages, indexes, i);
    }
    let full = pages.drop_last();
    lemma_full_pages(pages, indexes, pages.len() - 1);
    assert(pages.take(pages.len() - 1) =~= full);
    assert(pages =~= full.push(pages.last()));
    full.lemma_flatten_push(pages.last());
    law_pages_add_up(Map::empty(), full.flatten(), pages.last());
}

/// The index holds exactly the repositories that were entered.
pub proof fn law_index_is_complete(data: Seq<RepoInfo>, id: u64)
    ensures
        indexed(Map::empty(), data).contains_key(id) <==> exists|i: int|
            0 <= i < data.len() && (#[trigger] data[i]).id == id,
    decreases data.len(),
{
    if data.len() > 0 {
        let init = data.drop_last();
        law_index_is_complete(init, id);
        assert(forall|i: int| 0 <= i < init.len() ==> init[i] == data[i]);
        assert(data[data.len() - 1] == data.last());
        if exists|i: int| 0 <= i < data.len() && (#[trigger] data[i]).id == id {
            let i = choose|i: int| 0 <= i < data.len() && (#[trigger] data[i]).id == id;
            if i < init.len() {
                assert(init[i].id == id);
            }
        }
    }
}

/// The index has each repository under the name with which it was entered last.
pub proof fn law_index_keeps_latest(repos: Map<u64, Seq<char>>, data: Seq<RepoInfo>, i: int)
    requires
        0 <= i < data.len(),
        forall|j: int| i < j < data.len() ==> (#[trigger] data[j]).id != data[i].id,
    ensures
        indexed(repos, data).contains_key(data[i].id),
        indexed(repos, data)[data[i].id] == data[i].full_name@,
    decreases data.len(),
{
    if i < data.len() - 1 {
        let init = data.drop_last();
        assert(forall|j: int| 0 <= j < init.len() ==> init[j] == data[j]);
        assert(data[data.len() - 1].id != data[i].id);
        law_index_keeps_latest(repos, init, i);
    }
}

/// Whatever is found is a listed job that waits or runs and passes the filter; and every such job
/// is found.
pub proof fn law_found_iff_active(
    repos: Map<u64, Seq<char>>,
    jobs: Seq<ListedJob>,
    filter: Option<Seq<Seq<char>>>,
    found: ActiveJobView,
)
    ensures
        active_jobs(repos, jobs, filter).contains(found) <==> exists|i: int|
            0 <= i < jobs.len() && is_active(#[trigger] jobs[i]) && passes_filter(jobs[i], filter)
                && with_project(repos, jobs[i]) == found,
    decreases jobs.len(),
{
    let all = active_jobs(repos, jobs, filter);
    if jobs.len() == 0 {
        reveal(Seq::filter);
        assert(all.len() == 0);
    } else {
        let init = jobs.drop_last();
        law_found_iff_active(repos, init, filter, found);
        lemma_active_jobs_push(repos, init, jobs.last(), filter);
        assert(init.push(jobs.last()) =~= jobs);
        let fewer = active_jobs(repos, init, filter);
        let last = jobs.last();
        assert(jobs[jobs.len() - 1] == last);
        assert(forall|i: int| 0 <= i < init.len() ==> init[i] == jobs[i]);
        if is_active(last) && passes_filter(last, filter) {
            let shown = with_project(repos, last);
            assert(all == fewer.push(shown));
            assert(all[all.len() - 1] == shown);
            if fewer.contains(found) {
                let k = fewer.index_of(found);
                assert(all[k] == found);
            }
            if all.contains(found) && !fewer.contains(found) {
                let k = all.index_of(found);
                assert(k < fewer.len() ==> fewer[k] == found);
            }
        }
        if exists|i: int|
            0 <= i < jobs.len() && is_active(#[trigger] jobs[i]) && passes_filter(jobs[i], filter)
                && with_project(repos, jobs[i]) == found {
            let i = choose|i: int|
                0 <= i < jobs.len() && is_active(#[trigger] jobs[i]) && passes_filter(
                    jobs[i],
                    filter,
                ) && with_project(repos, jobs[i]) == found;
            if i < init.len() {
                assert(is_active(init[i]));
            }
        }
    }
}

proof fn lemma_active_jobs_push(
    repos: Map<u64, Seq<char>>,
    jobs: Seq<ListedJob>,
    job: ListedJob,
    filter: Option<Seq<Seq<char>>>,
)
    ensures
        active_jobs(repos, jobs.push(job), filter) == if is_active(job) && passes_filter(
            job,
            filter,
        ) {
            active_jobs(repos, jobs, filter).push(with_project(repos, job))
        } else {
            active_jobs(repos, jobs, filter)
        },
{
    reveal(Seq::filter);
    assert(jobs.push(job).drop_last() =~= jobs);
    let all = active_jobs(repos, jobs.push(job), filter);
    if is_active(job) && passes_filter(job, filter) {
        assert(all =~= active_jobs(repos, jobs, filter).push(with_project(repos, job)));
    }
}

/// A filter only leaves jobs out: what passes it is found, in the same order, without it too.
pub proof fn law_filter_only_drops(
    repos: Map<u64, Seq<char>>,
    jobs: Seq<ListedJob>,
    tags: Seq<Seq<char>>,
)
    ensures
        active_jobs(repos, jobs, Some(tags)) == active_jobs(repos, jobs, None).filter(
            |v: ActiveJobView| has_label(v, tags),
        ),
    decreases jobs.len(),
{
    let kept = |v: ActiveJobView| has_label(v, tags);
    if jobs.len() == 0 {
        reveal(Seq::filter);
        assert(active_jobs(repos, jobs, Some(tags)) =~= active_jobs(repos, jobs, None).filter(
            kept,
        ));
    } else {
        let init = jobs.drop_last();
        let last = jobs.last();
        law_filter_only_drops(repos, init, tags);
        lemma_active_jobs_push(repos, init, last, Some(tags));
        lemma_active_jobs_push(repos, init, last, None);
        assert(init.push(last) =~= jobs);
        let unfiltered = active_jobs(repos, init, None);
        let shown = with_project(repos, last);
        assert(shown.labels == last.runs_on);
        assert(has_label(shown, tags) == passes_filter(last, Some(tags)));
        assert(unfiltered.push(shown).drop_last() =~= unfiltered);
        reveal(Seq::filter);
    }
}

/// A configuration that names no labels, or an empty list of them, lets every job pass.
pub proof fn law_no_labels_admit_all(config: ForgejoConfig, job: ListedJob)
    requires
        config.tag_filter is None || config.tag_filter->0@.len() == 0,
    ensures
        passes_filter(job, config.spec_label_filter()),
{
}

/// Whether an active job has one of the labels.
pub open spec fn has_label(job: ActiveJobView, tags: Seq<Seq<char>>) -> bool {
    exists|i: int| 0 <= i < job.labels.len() && tags.contains(#[trigger] job.labels[i])
}

} // verus!

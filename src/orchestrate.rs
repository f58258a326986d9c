//! Running searches: assembling a search result, bounded detail expansion
//! with per-item failures, and batches of independent searches.
//!
//! The upstream calls themselves are made by the caller; the functions here
//! take what those calls returned and decide what comes next.

use vstd::prelude::*;
use crate::project::{
    apply_optional_filter, filtered, is_summary_of, project_summary, FieldFilter,
    GetJobDetailsResult, JobSummary, SearchRecord,
};
use crate::query::SearchJobsParams;
use crate::text::{clone_opt_text, clone_opt_texts, concat, opt_texts};

verus! {

/// Details fetched after a search when the caller names no count.
pub const DEFAULT_DETAILS: u64 = 5;

/// The most details fetched after one search.
pub const MAX_DETAILS: u64 = 20;

/// Details fetched per batch item when the caller names no count.
pub const DEFAULT_DETAILS_PER_SEARCH: u64 = 3;

/// The most details fetched per batch item.
pub const MAX_DETAILS_PER_SEARCH: u64 = 10;

/// The most searches of one batch; further ones are left out.
pub const MAX_BATCH_SEARCHES: usize = 10;

/// Parameters of a detail lookup.
#[derive(Debug, Clone)]
pub struct GetJobDetailsParams {
    /// Reference number from a search result.
    pub reference_number: String,
}

/// What the upstream search returned, as the orchestration reads it.
pub struct SearchResponse {
    pub total_results: Option<u64>,
    pub page: Option<u64>,
    pub page_size: Option<u64>,
    pub records: Vec<SearchRecord>,
}

/// Result of one search.
#[derive(Debug, Clone)]
pub struct SearchJobsResult {
    /// Total number of results found.
    pub total_results: Option<u64>,
    /// Current page number.
    pub current_page: Option<u64>,
    /// Page size used.
    pub page_size: Option<u64>,
    /// Number of jobs in this response.
    pub jobs_count: usize,
    /// Job listings, in upstream order.
    pub jobs: Vec<JobSummary>,
    /// Time the upstream search took.
    pub search_duration_ms: u64,
}

/// A requested count, or `default` when none is given, never above `cap`.
pub open spec fn capped(requested: Option<u64>, default: u64, cap: u64) -> u64 {
    let n = match requested {
        Some(n) => n,
        None => default,
    };
    if n < cap {
        n
    } else {
        cap
    }
}

/// How many of `n` items the first `limit` of them are.
pub open spec fn first_count(limit: u64, n: nat) -> nat {
    if (limit as nat) < n {
        limit as nat
    } else {
        n
    }
}

/// The details that a run of lookups yields: the successful ones, in the
/// order of the lookups, each under the filter; failed lookups leave no entry.
pub open spec fn fetched_details(
    outcomes: Seq<Result<GetJobDetailsResult, String>>,
    filter: Option<FieldFilter>,
) -> Seq<GetJobDetailsResult>
    decreases outcomes.len(),
{
    if outcomes.len() == 0 {
        Seq::empty()
    } else {
        let rest = fetched_details(outcomes.drop_first(), filter);
        match outcomes[0] {
            Ok(d) => seq![filtered(d, filter)] + rest,
            Err(_) => rest,
        }
    }
}

/// `refs` are the reference numbers of the first `limit` jobs, in order.
pub open spec fn are_first_references(refs: Seq<String>, jobs: Seq<JobSummary>, limit: u64) -> bool {
    &&& refs.len() == first_count(limit, jobs.len())
    &&& forall|i: int| 0 <= i < refs.len() ==> #[trigger] refs[i]@ == jobs[i].reference_number@
}

fn capped_count(requested: Option<u64>, default: u64, cap: u64) -> (r: u64)
    ensures
        r == capped(requested, default, cap),
{
    let n = match requested {
        Some(n) => n,
        None => default,
    };
    if n < cap {
        n
    } else {
        cap
    }
}

/// The result of a search from the upstream response: every record is
/// projected to a summary, in upstream order.
pub fn search_result(response: &SearchResponse, search_duration_ms: u64) -> (r: SearchJobsResult)
    ensures
        r.total_results == response.total_results,
        r.current_page == response.page,
        r.page_size == response.page_size,
        r.jobs@.len() == response.records@.len(),
        forall|i: int| 0 <= i < r.jobs@.len() ==> is_summary_of(#[trigger] r.jobs@[i], response.records@[i]),
        r.jobs_count == r.jobs@.len(),
        r.search_duration_ms == search_duration_ms,
{
    let mut jobs: Vec<JobSummary> = Vec::new();
    let mut i: usize = 0;
    while i < response.records.len()
        invariant
            i <= response.records@.len(),
            jobs@.len() == i,
            forall|j: int| 0 <= j < i ==> is_summary_of(#[trigger] jobs@[j], response.records@[j]),
        decreases response.records@.len() - i,
    {
        jobs.push(project_summary(&response.records[i]));
        i = i + 1;
    }
    SearchJobsResult {
        total_results: response.total_results,
        current_page: response.page,
        page_size: response.page_size,
        jobs_count: jobs.len(),
        jobs,
        search_duration_ms,
    }
}

/// The reference numbers to look up: those of the first `limit` jobs, in
/// upstream order (earlier results are preferred).
pub fn detail_references(jobs: &Vec<JobSummary>, limit: u64) -> (r: Vec<String>)
    ensures
        are_first_references(r@, jobs@, limit),
{
    let mut r: Vec<String> = Vec::new();
    let mut i: usize = 0;
    while i < jobs.len() && (i as u64) < limit
        invariant
            i <= jobs@.len(),
            i <= limit,
            r@.len() == i,
            forall|j: int| 0 <= j < i ==> #[trigger] r@[j]@ == jobs@[j].reference_number@,
        decreases jobs@.len() - i,
    {
        r.push(jobs[i].reference_number.clone());
        i = i + 1;
    }
    r
}

/// Keeps the successful lookups, in order and under the filter; failures are dropped.
pub fn collect_details(
    outcomes: Vec<Result<GetJobDetailsResult, String>>,
    filter: &Option<FieldFilter>,
) -> (r: Vec<GetJobDetailsResult>)
    ensures
        r@ == fetched_details(outcomes@, *filter),
{
    let ghost all = outcomes@;
    let mut rest = outcomes;
    let mut r: Vec<GetJobDetailsResult> = Vec::new();
    while rest.len() > 0
        invariant
            r@ + fetched_details(rest@, *filter) == fetched_details(all, *filter),
        decreases rest@.len(),
    {
        let ghost before = rest@;
        let outcome = rest.remove(0);
        assert(before.drop_first() == rest@);
        match outcome {
            Ok(d) => {
                let ghost r0 = r@;
                r.push(apply_optional_filter(d, filter));
                assert(r@ + fetched_details(rest@, *filter) == r0 + (seq![filtered(d, *filter)]
                    + fetched_details(rest@, *filter)));
            },
            Err(_) => {},
        }
    }
    assert(r@ + fetched_details(rest@, *filter) == r@);
    r
}

/// Where each fetched detail came from: strictly increasing positions of
/// successful lookups, one per detail.
pub open spec fn is_source_map(
    idx: Seq<int>,
    outcomes: Seq<Result<GetJobDetailsResult, String>>,
    filter: Option<FieldFilter>,
) -> bool {
    let details = fetched_details(outcomes, filter);
    &&& idx.len() == details.len()
    &&& forall|k: int|
        0 <= k < idx.len() ==> {
            &&& 0 <= #[trigger] idx[k] < outcomes.len()
            &&& outcomes[idx[k]] is Ok
            &&& details[k] == filtered(outcomes[idx[k]]->Ok_0, filter)
        }
    &&& forall|k: int, l: int| 0 <= k < l < idx.len() ==> idx[k] < idx[l]
    &&& forall|j: int|
        0 <= j < outcomes.len() && (#[trigger] outcomes[j]) is Ok ==> exists|k: int|
            0 <= k < idx.len() && idx[k] == j
}

proof fn lemma_fetched_sources(
    outcomes: Seq<Result<GetJobDetailsResult, String>>,
    filter: Option<FieldFilter>,
) -> (idx: Seq<int>)
    ensures
        is_source_map(idx, outcomes, filter),
        fetched_details(outcomes, filter).len() <= outcomes.len(),
    decreases outcomes.len(),
{
    if outcomes.len() == 0 {
        Seq::empty()
    } else {
        let tail = outcomes.drop_first();
        let rest = lemma_fetched_sources(tail, filter);
        let shifted = Seq::new(rest.len(), |k: int| rest[k] + 1);
        let details = fetched_details(outcomes, filter);
        let tail_details = fetched_details(tail, filter);
        match outcomes[0] {
            Ok(d) => {
                let idx = seq![0int] + shifted;
                assert forall|j: int|
                    0 <= j < outcomes.len() && (#[trigger] outcomes[j]) is Ok implies exists|k: int|
                        0 <= k < idx.len() && idx[k] == j by {
                    if j > 0 {
                        assert(tail[j - 1] == outcomes[j]);
                        let k0 = choose|k: int| 0 <= k < rest.len() && rest[k] == j - 1;
                        assert(idx[k0 + 1] == j);
                    } else {
                        assert(idx[0] == j);
                    }
                }
                assert forall|k: int| 0 <= k < idx.len() implies {
                    &&& 0 <= #[trigger] idx[k] < outcomes.len()
                    &&& outcomes[idx[k]] is Ok
                    &&& details[k] == filtered(outcomes[idx[k]]->Ok_0, filter)
                } by {
                    if k > 0 {
                        assert(idx[k] == rest[k - 1] + 1);
                        assert(outcomes[idx[k]] == tail[rest[k - 1]]);
                        assert(details[k] == tail_details[k - 1]);
                    }
                }
                assert forall|k: int, l: int| 0 <= k < l < idx.len() implies idx[k] < idx[l] by {
                    if k > 0 {
                        assert(rest[k - 1] < rest[l - 1]);
                    } else {
                        assert(rest[l - 1] >= 0);
                    }
                }
                idx
            },
            Err(_) => {
                assert forall|j: int|
                    0 <= j < outcomes.len() && (#[trigger] outcomes[j]) is Ok implies exists|k: int|
                        0 <= k < shifted.len() && shifted[k] == j by {
                    assert(j > 0);
                    assert(tail[j - 1] == outcomes[j]);
                    let k0 = choose|k: int| 0 <= k < rest.len() && rest[k] == j - 1;
                    assert(shifted[k0] == j);
                }
                assert forall|k: int| 0 <= k < shifted.len() implies {
                    &&& 0 <= #[trigger] shifted[k] < outcomes.len()
                    &&& outcomes[shifted[k]] is Ok
                    &&& details[k] == filtered(outcomes[shifted[k]]->Ok_0, filter)
                } by {
                    assert(outcomes[shifted[k]] == tail[rest[k]]);
                }
                assert forall|k: int, l: int| 0 <= k < l < shifted.len() implies shifted[k] < shifted[l] by {
                    assert(rest[k] < rest[l]);
                }
                shifted
            },
        }
    }
}

/// Detail expansion is bounded and best-effort: looking up the first
/// `limit` references of a result list yields at most `limit` details; each
/// comes from a successful lookup, in the order of the lookups, and every
/// successful lookup contributes one. Failed lookups only leave gaps.
pub proof fn lemma_detail_expansion(
    jobs: Seq<JobSummary>,
    limit: u64,
    refs: Seq<String>,
    outcomes: Seq<Result<GetJobDetailsResult, String>>,
    filter: Option<FieldFilter>,
) -> (idx: Seq<int>)
    requires
        are_first_references(refs, jobs, limit),
        outcomes.len() == refs.len(),
    ensures
        fetched_details(outcomes, filter).len() <= limit,
        is_source_map(idx, outcomes, filter),
{
    lemma_fetched_sources(outcomes, filter)
}

/// Parameters of a search followed by detail lookups for its top results.
#[derive(Debug, Clone)]
pub struct SearchJobsWithDetailsParams {
    pub job_title: Option<String>,
    pub location: Option<String>,
    pub radius_km: Option<u64>,
    pub employment_type: Option<Vec<String>>,
    pub contract_type: Option<Vec<String>>,
    pub published_since_days: Option<u64>,
    pub page_size: Option<u64>,
    pub page: Option<u64>,
    pub employer: Option<String>,
    pub branch: Option<String>,
    /// Details to fetch for the top results (default 5, at most 20).
    pub max_details: Option<u64>,
    /// Optional field filtering of the details.
    pub fields: Option<FieldFilter>,
}

/// Result of a search with details.
#[derive(Debug)]
pub struct SearchJobsWithDetailsResult {
    pub total_results: Option<u64>,
    pub current_page: Option<u64>,
    pub page_size: Option<u64>,
    /// Number of details returned.
    pub jobs_count: usize,
    /// The details fetched, in search order.
    pub jobs: Vec<GetJobDetailsResult>,
    /// Time of the search phase.
    pub search_duration_ms: u64,
    /// Time of the detail phase.
    pub details_duration_ms: u64,
}

impl SearchJobsWithDetailsParams {
    /// The search part of these parameters.
    pub fn search_params(&self) -> (r: SearchJobsParams)
        ensures
            r.job_title == self.job_title,
            r.location == self.location,
            r.radius_km == self.radius_km,
            opt_texts(r.employment_type) == opt_texts(self.employment_type),
            opt_texts(r.contract_type) == opt_texts(self.contract_type),
            r.published_since_days == self.published_since_days,
            r.page_size == self.page_size,
            r.page == self.page,
            r.employer == self.employer,
            r.branch == self.branch,
    {
        SearchJobsParams {
            job_title: clone_opt_text(&self.job_title),
            location: clone_opt_text(&self.location),
            radius_km: self.radius_km,
            employment_type: clone_opt_texts(&self.employment_type),
            contract_type: clone_opt_texts(&self.contract_type),
            published_since_days: self.published_since_days,
            page_size: self.page_size,
            page: self.page,
            employer: clone_opt_text(&self.employer),
            branch: clone_opt_text(&self.branch),
        }
    }

    /// How many top results get a detail lookup: `min(max_details.unwrap_or(5), 20)`.
    pub fn detail_limit(&self) -> (r: u64)
        ensures
            r == capped(self.max_details, DEFAULT_DETAILS, MAX_DETAILS),
            r <= MAX_DETAILS,
    {
        capped_count(self.max_details, DEFAULT_DETAILS, MAX_DETAILS)
    }
}

/// Combines a search result with the outcomes of the detail lookups made
/// for it: failed lookups are dropped, the others are filtered.
pub fn with_details_result(
    search: &SearchJobsResult,
    outcomes: Vec<Result<GetJobDetailsResult, String>>,
    filter: &Option<FieldFilter>,
    search_duration_ms: u64,
    details_duration_ms: u64,
) -> (r: SearchJobsWithDetailsResult)
    ensures
        r.total_results == search.total_results,
        r.current_page == search.current_page,
        r.page_size == search.page_size,
        r.jobs@ == fetched_details(outcomes@, *filter),
        r.jobs_count == r.jobs@.len(),
        r.search_duration_ms == search_duration_ms,
        r.details_duration_ms == details_duration_ms,
{
    let jobs = collect_details(outcomes, filter);
    SearchJobsWithDetailsResult {
        total_results: search.total_results,
        current_page: search.current_page,
        page_size: search.page_size,
        jobs_count: jobs.len(),
        jobs,
        search_duration_ms,
        details_duration_ms,
    }
}

/// One named search of a batch.
#[derive(Debug, Clone)]
pub struct BatchSearchItem {
    /// Name of this search, to find it in the results.
    pub name: String,
    pub job_title: Option<String>,
    pub location: Option<String>,
    pub radius_km: Option<u64>,
    pub employment_type: Option<Vec<String>>,
    pub contract_type: Option<Vec<String>>,
    pub published_since_days: Option<u64>,
    pub employer: Option<String>,
    pub branch: Option<String>,
}

/// Parameters of a batch of searches.
#[derive(Debug, Clone)]
pub struct BatchSearchJobsParams {
    /// The searches (at most 10 are run).
    pub searches: Vec<BatchSearchItem>,
    /// Details per search (default 3, at most 10).
    pub max_details_per_search: Option<u64>,
    /// Optional field filtering of the details.
    pub fields: Option<FieldFilter>,
}

/// Result of one search of a batch.
#[derive(Debug)]
pub struct BatchSearchItemResult {
    /// Name of the search.
    pub search_name: String,
    /// Total number of results found; absent when the search failed.
    pub total_results: Option<u64>,
    /// Number of details returned.
    pub jobs_count: usize,
    /// The details fetched.
    pub jobs: Vec<GetJobDetailsResult>,
    /// Why the search failed, if it did.
    pub error: Option<String>,
}

/// Result of a batch.
#[derive(Debug)]
pub struct BatchSearchJobsResult {
    /// Number of searches performed.
    pub searches_count: usize,
    /// One result per search, in the order of the searches.
    pub results: Vec<BatchSearchItemResult>,
    /// Wall-clock time of the whole batch.
    pub total_duration_ms: u64,
}

/// `r` records a failed search named `name`: no total, no details, and the error.
pub open spec fn is_failed_item(r: BatchSearchItemResult, name: Seq<char>, error: Seq<char>) -> bool {
    &&& r.search_name@ == name
    &&& r.total_results is None
    &&& r.jobs@.len() == 0
    &&& r.jobs_count == 0
    &&& opt_text_is(r.error, "Search failed: "@ + error)
}

/// `r` records a successful search named `name`: its total and the details
/// that the lookups yielded.
pub open spec fn is_succeeded_item(
    r: BatchSearchItemResult,
    name: Seq<char>,
    search: SearchJobsResult,
    outcomes: Seq<Result<GetJobDetailsResult, String>>,
    filter: Option<FieldFilter>,
) -> bool {
    &&& r.search_name@ == name
    &&& r.total_results == search.total_results
    &&& r.jobs@ == fetched_details(outcomes, filter)
    &&& r.jobs_count == r.jobs@.len()
    &&& r.error is None
}

/// An optional string that holds the text `t`.
pub open spec fn opt_text_is(o: Option<String>, t: Seq<char>) -> bool {
    o is Some && o->0@ == t
}

impl BatchSearchItem {
    /// The search of this item, asking for `page_size` results.
    pub fn search_params(&self, page_size: u64) -> (r: SearchJobsParams)
        ensures
            r.job_title == self.job_title,
            r.location == self.location,
            r.radius_km == self.radius_km,
            opt_texts(r.employment_type) == opt_texts(self.employment_type),
            opt_texts(r.contract_type) == opt_texts(self.contract_type),
            r.published_since_days == self.published_since_days,
            r.page_size == Some(page_size),
            r.page is None,
            r.employer == self.employer,
            r.branch == self.branch,
    {
        SearchJobsParams {
            job_title: clone_opt_text(&self.job_title),
            location: clone_opt_text(&self.location),
            radius_km: self.radius_km,
            employment_type: clone_opt_texts(&self.employment_type),
            contract_type: clone_opt_texts(&self.contract_type),
            published_since_days: self.published_since_days,
            page_size: Some(page_size),
            page: None,
            employer: clone_opt_text(&self.employer),
            branch: clone_opt_text(&self.branch),
        }
    }
}

/// A batch in progress. The searches run one after the other: the caller
/// asks for the next search, runs it upstream, and records its outcome; a
/// failed search is recorded in its own slot and the batch goes on.
pub struct BatchSearch {
    /// The searches that run, the first ten of the request.
    pub items: Vec<BatchSearchItem>,
    /// Details fetched per successful search.
    pub max_details: u64,
    /// Filter applied to every detail.
    pub fields: Option<FieldFilter>,
    /// One result per finished search, in the order of `items`.
    pub results: Vec<BatchSearchItemResult>,
}

impl BatchSearch {
    /// The results so far belong to the first searches, in order.
    pub open spec fn wf(&self) -> bool {
        &&& self.results@.len() <= self.items@.len() <= MAX_BATCH_SEARCHES
        &&& self.max_details <= MAX_DETAILS_PER_SEARCH
        &&& forall|i: int|
            0 <= i < self.results@.len() ==> (#[trigger] self.results@[i]).search_name@
                == self.items@[i].name@
    }

    /// The search whose outcome is recorded next.
    pub open spec fn current(&self) -> BatchSearchItem {
        self.items@[self.results@.len() as int]
    }

    /// Starts a batch: at most ten searches are kept, further ones are left out.
    pub fn new(params: BatchSearchJobsParams) -> (r: BatchSearch)
        ensures
            r.wf(),
            r.items@ == params.searches@.subrange(
                0,
                first_count(MAX_BATCH_SEARCHES as u64, params.searches@.len()) as int,
            ),
            r.max_details == capped(
                params.max_details_per_search,
                DEFAULT_DETAILS_PER_SEARCH,
                MAX_DETAILS_PER_SEARCH,
            ),
            r.fields == params.fields,
            r.results@.len() == 0,
    {
        let mut items = params.searches;
        items.truncate(MAX_BATCH_SEARCHES);
        BatchSearch {
            items,
            max_details: capped_count(
                params.max_details_per_search,
                DEFAULT_DETAILS_PER_SEARCH,
                MAX_DETAILS_PER_SEARCH,
            ),
            fields: params.fields,
            results: Vec::new(),
        }
    }

    /// Whether every search has its result.
    pub fn is_done(&self) -> (r: bool)
        requires
            self.wf(),
        ensures
            r == (self.results@.len() == self.items@.len()),
    {
        self.results.len() == self.items.len()
    }

    /// The next search to run: the current item, with a page as large as
    /// the number of details wanted.
    pub fn next_search(&self) -> (r: SearchJobsParams)
        requires
            self.wf(),
            self.results@.len() < self.items@.len(),
        ensures
            r.job_title == self.current().job_title,
            r.location == self.current().location,
            r.radius_km == self.current().radius_km,
            opt_texts(r.employment_type) == opt_texts(self.current().employment_type),
            opt_texts(r.contract_type) == opt_texts(self.current().contract_type),
            r.published_since_days == self.current().published_since_days,
            r.page_size == Some(self.max_details),
            r.page is None,
            r.employer == self.current().employer,
            r.branch == self.current().branch,
    {
        self.items[self.results.len()].search_params(self.max_details)
    }

    /// The reference numbers to look up after the current search succeeded.
    pub fn detail_references(&self, search: &SearchJobsResult) -> (r: Vec<String>)
        ensures
            are_first_references(r@, search.jobs@, self.max_details),
    {
        detail_references(&search.jobs, self.max_details)
    }

    /// Records that the current search failed with `error`.
    pub fn record_failure(&mut self, error: &str)
        requires
            old(self).wf(),
            old(self).results@.len() < old(self).items@.len(),
        ensures
            final(self).wf(),
            final(self).items == old(self).items,
            final(self).max_details == old(self).max_details,
            final(self).fields == old(self).fields,
            final(self).results@.len() == old(self).results@.len() + 1,
            final(self).results@.drop_last() == old(self).results@,
            is_failed_item(final(self).results@.last(), old(self).current().name@, error@),
    {
        let name = self.items[self.results.len()].name.clone();
        let item = BatchSearchItemResult {
            search_name: name,
            total_results: None,
            jobs_count: 0,
            jobs: Vec::new(),
            error: Some(concat("Search failed: ", error)),
        };
        self.results.push(item);
        assert(self.results@.drop_last() == old(self).results@);
    }

    /// Records that the current search returned `search`, and that the
    /// detail lookups made for it gave `outcomes`.
    pub fn record_success(
        &mut self,
        search: &SearchJobsResult,
        outcomes: Vec<Result<GetJobDetailsResult, String>>,
    )
        requires
            old(self).wf(),
            old(self).results@.len() < old(self).items@.len(),
        ensures
            final(self).wf(),
            final(self).items == old(self).items,
            final(self).max_details == old(self).max_details,
            final(self).fields == old(self).fields,
            final(self).results@.len() == old(self).results@.len() + 1,
            final(self).results@.drop_last() == old(self).results@,
            is_succeeded_item(
                final(self).results@.last(),
                old(self).current().name@,
                *search,
                outcomes@,
                old(self).fields,
            ),
    {
        let name = self.items[self.results.len()].name.clone();
        let jobs = collect_details(outcomes, &self.fields);
        let item = BatchSearchItemResult {
            search_name: name,
            total_results: search.total_results,
            jobs_count: jobs.len(),
            jobs,
            error: None,
        };
        self.results.push(item);
        assert(self.results@.drop_last() == old(self).results@);
    }

    /// The result of the finished batch.
    pub fn finish(self, total_duration_ms: u64) -> (r: BatchSearchJobsResult)
        requires
            self.wf(),
            self.results@.len() == self.items@.len(),
        ensures
            r.results@ == self.results@,
            r.searches_count == self.items@.len(),
            r.total_duration_ms == total_duration_ms,
    {
        BatchSearchJobsResult {
            searches_count: self.results.len(),
            results: self.results,
            total_duration_ms,
        }
    }
}

} // verus!

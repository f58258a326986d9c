//! From semantic search parameters to the upstream query.

use vstd::prelude::*;
use vstd::math::min;
use crate::config::{valid_page_sizes, JobsucheConfig};
use crate::text::{ascii_lower, concat3, opt_text, to_ascii_lowercase};

verus! {

/// Working-time categories that the upstream search filters by.
#[derive(Debug, Clone, Copy, PartialEq, Eq, Structural)]
pub enum EmploymentType {
    FullTime,
    PartTime,
    MiniJob,
    HomeOffice,
    ShiftWork,
}

/// The synonym table, over lower-case text: the category a word names, if any.
pub open spec fn employment_type_of(word: Seq<char>) -> Option<EmploymentType> {
    if word == "fulltime"@ || word == "full"@ || word == "vollzeit"@ || word == "vz"@ {
        Some(EmploymentType::FullTime)
    } else if word == "parttime"@ || word == "part"@ || word == "teilzeit"@ || word == "tz"@ {
        Some(EmploymentType::PartTime)
    } else if word == "mini"@ || word == "minijob"@ || word == "mini_job"@ {
        Some(EmploymentType::MiniJob)
    } else if word == "home"@ || word == "homeoffice"@ || word == "home_office"@ || word == "ho"@ {
        Some(EmploymentType::HomeOffice)
    } else if word == "shift"@ || word == "schicht"@ || word == "snw"@ {
        Some(EmploymentType::ShiftWork)
    } else {
        None
    }
}

/// The category a tag names, ignoring ASCII case.
pub open spec fn normalized_employment_type(tag: Seq<char>) -> Option<EmploymentType> {
    employment_type_of(ascii_lower(tag))
}

/// The categories that a list of tags names, in order; unknown tags are left out.
pub open spec fn employment_types_of(tags: Seq<String>) -> Seq<EmploymentType>
    decreases tags.len(),
{
    if tags.len() == 0 {
        Seq::empty()
    } else {
        let rest = employment_types_of(tags.drop_last());
        match normalized_employment_type(tags.last()@) {
            Some(e) => rest.push(e),
            None => rest,
        }
    }
}

/// One more search term joined to the free text: absent and empty terms add nothing.
pub open spec fn add_term(text: Option<Seq<char>>, term: Option<Seq<char>>) -> Option<Seq<char>> {
    match term {
        Some(t) => if t.len() == 0 {
            text
        } else {
            match text {
                Some(a) => Some(a + " "@ + t),
                None => Some(t),
            }
        },
        None => text,
    }
}

/// The free-text clause: title, employer and branch joined by spaces, in that order.
pub open spec fn free_text_of(
    title: Option<Seq<char>>,
    employer: Option<Seq<char>>,
    branch: Option<Seq<char>>,
) -> Option<Seq<char>> {
    add_term(add_term(add_term(None, title), employer), branch)
}

/// The page size sent upstream: the requested one or the default, never above the maximum.
pub open spec fn resolved_page_size(requested: Option<u64>, default_page_size: u64, max_page_size: u64) -> u64 {
    let p = match requested {
        Some(p) => p,
        None => default_page_size,
    };
    if p < max_page_size {
        p
    } else {
        max_page_size
    }
}

/// Parameters of one search.
#[derive(Debug, Clone)]
pub struct SearchJobsParams {
    /// Job title or keywords.
    pub job_title: Option<String>,
    /// Location name.
    pub location: Option<String>,
    /// Search radius around the location, in kilometres.
    pub radius_km: Option<u64>,
    /// Employment-type tags such as "fulltime" or "teilzeit".
    pub employment_type: Option<Vec<String>>,
    /// Contract-type tags; accepted, not sent upstream.
    pub contract_type: Option<Vec<String>>,
    /// Only postings published within this many days.
    pub published_since_days: Option<u64>,
    /// Results per page.
    pub page_size: Option<u64>,
    /// Page number, starting from 1.
    pub page: Option<u64>,
    /// Employer name, joined to the free text.
    pub employer: Option<String>,
    /// Branch or industry, joined to the free text.
    pub branch: Option<String>,
}

/// The query as the upstream search takes it; absent clauses are not sent.
#[derive(Debug, Clone)]
pub struct UpstreamQuery {
    pub free_text: Option<String>,
    pub location: Option<String>,
    pub radius_km: Option<u64>,
    pub employment_types: Option<Vec<EmploymentType>>,
    pub published_since_days: Option<u64>,
    pub page_size: u64,
    pub page: Option<u64>,
}

/// Maps a tag to its category, ignoring ASCII case; unknown tags map to nothing.
pub fn parse_employment_type(tag: &str) -> (r: Option<EmploymentType>)
    ensures
        r == normalized_employment_type(tag@),
{
    let w = to_ascii_lowercase(tag);
    if is_word(&w, "fulltime") || is_word(&w, "full") || is_word(&w, "vollzeit") || is_word(&w, "vz") {
        Some(EmploymentType::FullTime)
    } else if is_word(&w, "parttime") || is_word(&w, "part") || is_word(&w, "teilzeit")
        || is_word(&w, "tz") {
        Some(EmploymentType::PartTime)
    } else if is_word(&w, "mini") || is_word(&w, "minijob") || is_word(&w, "mini_job") {
        Some(EmploymentType::MiniJob)
    } else if is_word(&w, "home") || is_word(&w, "homeoffice") || is_word(&w, "home_office")
        || is_word(&w, "ho") {
        Some(EmploymentType::HomeOffice)
    } else if is_word(&w, "shift") || is_word(&w, "schicht") || is_word(&w, "snw") {
        Some(EmploymentType::ShiftWork)
    } else {
        None
    }
}

fn is_word(w: &String, word: &str) -> (r: bool)
    ensures
        r == (w@ == word@),
{
    let other = String::from_str(word);
    w.eq(&other)
}

/// The categories named by `tags`, in order; unknown tags are dropped.
pub fn parse_employment_types(tags: &Vec<String>) -> (r: Vec<EmploymentType>)
    ensures
        r@ == employment_types_of(tags@),
{
    let mut r: Vec<EmploymentType> = Vec::new();
    let mut i: usize = 0;
    while i < tags.len()
        invariant
            i <= tags@.len(),
            r@ == employment_types_of(tags@.subrange(0, i as int)),
        decreases tags@.len() - i,
    {
        assert(tags@.subrange(0, i + 1).drop_last() == tags@.subrange(0, i as int));
        match parse_employment_type(tags[i].as_str()) {
            Some(e) => r.push(e),
            None => {},
        }
        i = i + 1;
    }
    assert(tags@.subrange(0, tags@.len() as int) == tags@);
    r
}

fn join_term(text: Option<String>, term: &Option<String>) -> (r: Option<String>)
    ensures
        opt_text(r) == add_term(opt_text(text), opt_text(*term)),
{
    match term {
        Some(t) => if t.as_str().is_empty() {
            text
        } else {
            match text {
                Some(a) => Some(concat3(a.as_str(), " ", t.as_str())),
                None => Some(t.clone()),
            }
        },
        None => text,
    }
}

/// The page size sent upstream: `min(requested.unwrap_or(default), max)`.
pub fn resolve_page_size(requested: Option<u64>, default_page_size: u64, max_page_size: u64) -> (r: u64)
    ensures
        r == resolved_page_size(requested, default_page_size, max_page_size),
{
    let p = match requested {
        Some(p) => p,
        None => default_page_size,
    };
    if p < max_page_size {
        p
    } else {
        max_page_size
    }
}

/// Builds the upstream query for a search.
pub fn build_query(params: &SearchJobsParams, config: &JobsucheConfig) -> (r: UpstreamQuery)
    ensures
        opt_text(r.free_text) == free_text_of(
            opt_text(params.job_title),
            opt_text(params.employer),
            opt_text(params.branch),
        ),
        r.location == params.location,
        r.radius_km == params.radius_km,
        r.published_since_days == params.published_since_days,
        r.page == params.page,
        r.page_size == resolved_page_size(
            params.page_size,
            config.default_page_size,
            config.max_page_size,
        ),
        match params.employment_type {
            Some(tags) => {
                let e = employment_types_of(tags@);
                if e.len() == 0 {
                    r.employment_types is None
                } else {
                    r.employment_types is Some && r.employment_types->0@ == e
                }
            },
            None => r.employment_types is None,
        },
{
    let text = join_term(None, &params.job_title);
    let text = join_term(text, &params.employer);
    let free_text = join_term(text, &params.branch);
    let employment_types = match &params.employment_type {
        Some(tags) => {
            let e = parse_employment_types(tags);
            if e.len() == 0 {
                None
            } else {
                Some(e)
            }
        },
        None => None,
    };
    let location = match &params.location {
        Some(l) => Some(l.clone()),
        None => None,
    };
    UpstreamQuery {
        free_text,
        location,
        radius_km: params.radius_km,
        employment_types,
        published_since_days: params.published_since_days,
        page_size: resolve_page_size(
            params.page_size,
            config.default_page_size,
            config.max_page_size,
        ),
        page: params.page,
    }
}

proof fn lemma_table_words_are_lower(word: Seq<char>)
    requires
        employment_type_of(word) is Some,
    ensures
        ascii_lower(word) == word,
{
    reveal_strlit("fulltime");
    reveal_strlit("full");
    reveal_strlit("vollzeit");
    reveal_strlit("vz");
    reveal_strlit("parttime");
    reveal_strlit("part");
    reveal_strlit("teilzeit");
    reveal_strlit("tz");
    reveal_strlit("mini");
    reveal_strlit("minijob");
    reveal_strlit("mini_job");
    reveal_strlit("home");
    reveal_strlit("homeoffice");
    reveal_strlit("home_office");
    reveal_strlit("ho");
    reveal_strlit("shift");
    reveal_strlit("schicht");
    reveal_strlit("snw");
    if word == "fulltime"@ {
        assert(ascii_lower(word) =~= word);
    }
    if word == "full"@ {
        assert(ascii_lower(word) =~= word);
    }
    if word == "vollzeit"@ {
        assert(ascii_lower(word) =~= word);
    }
    if word == "vz"@ {
        assert(ascii_lower(word) =~= word);
    }
    if word == "parttime"@ {
        assert(ascii_lower(word) =~= word);
    }
    if word == "part"@ {
        assert(ascii_lower(word) =~= word);
    }
    if word == "teilzeit"@ {
        assert(ascii_lower(word) =~= word);
    }
    if word == "tz"@ {
        assert(ascii_lower(word) =~= word);
    }
    if word == "mini"@ {
        assert(ascii_lower(word) =~= word);
    }
    if word == "minijob"@ {
        assert(ascii_lower(word) =~= word);
    }
    if word == "mini_job"@ {
        assert(ascii_lower(word) =~= word);
    }
    if word == "home"@ {
        assert(ascii_lower(word) =~= word);
    }
    if word == "homeoffice"@ {
        assert(ascii_lower(word) =~= word);
    }
    if word == "home_office"@ {
        assert(ascii_lower(word) =~= word);
    }
    if word == "ho"@ {
        assert(ascii_lower(word) =~= word);
    }
    if word == "shift"@ {
        assert(ascii_lower(word) =~= word);
    }
    if word == "schicht"@ {
        assert(ascii_lower(word) =~= word);
    }
    if word == "snw"@ {
        assert(ascii_lower(word) =~= word);
    }
}

/// Normalising a tag ignores ASCII case: a tag that equals a word of the
/// synonym table up to the case of its letters maps to that word's category.
pub proof fn lemma_synonyms_ignore_case(tag: Seq<char>, word: Seq<char>)
    requires
        employment_type_of(word) is Some,
        ascii_lower(tag) == ascii_lower(word),
    ensures
        normalized_employment_type(tag) == employment_type_of(word),
{
    lemma_table_words_are_lower(word);
}

/// Normalising is total: a tag that is no word of the synonym table, in
/// any case, maps to no category.
pub proof fn lemma_unknown_tags_unmapped(tag: Seq<char>)
    requires
        forall|word: Seq<char>| #[trigger] employment_type_of(word) is Some ==> ascii_lower(tag) != word,
    ensures
        normalized_employment_type(tag) is None,
{
    if normalized_employment_type(tag) is Some {
        assert(employment_type_of(ascii_lower(tag)) is Some);
    }
}

/// The page size sent is `min(requested.unwrap_or(default), max)`; with
/// valid bounds and a request other than zero it lies in `[1, max]`.
pub proof fn lemma_page_size_in_bounds(requested: Option<u64>, default_page_size: u64, max_page_size: u64)
    requires
        valid_page_sizes(default_page_size, max_page_size),
        requested != Some(0u64),
    ensures
        resolved_page_size(requested, default_page_size, max_page_size) == min(
            match requested {
                Some(p) => p as int,
                None => default_page_size as int,
            },
            max_page_size as int,
        ),
        1 <= resolved_page_size(requested, default_page_size, max_page_size) <= max_page_size,
{
}

} // verus!

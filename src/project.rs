//! From upstream records to the stable output shapes: summaries, details,
//! derived texts and field filtering.

use vstd::prelude::*;
use crate::text::{clone_opt_text, concat, concat3, opt_text};

verus! {

/// The upstream's JSON value, carried through unchanged.
#[verifier::external_type_specification]
#[verifier::external_body]
pub struct ExValue(serde_json::Value);

/// One record of an upstream search response, as the projection reads it.
#[derive(Debug, Clone)]
pub struct SearchRecord {
    /// Reference number, the key for detail lookups.
    pub reference_number: String,
    /// Posting title, when the upstream gives one.
    pub title: Option<String>,
    /// Occupation, the title when the posting has none.
    pub occupation: String,
    /// Employer name.
    pub employer: String,
    /// City of the place of work.
    pub city: Option<String>,
    /// Postal code of the place of work.
    pub postal_code: Option<String>,
    /// Current publication date.
    pub published_date: Option<String>,
    /// External URL.
    pub external_url: Option<String>,
}

/// Summary of one job posting.
#[derive(Debug, Clone)]
pub struct JobSummary {
    /// Reference number (use this to get job details).
    pub reference_number: String,
    /// Job title.
    pub title: String,
    /// Employer name.
    pub employer: String,
    /// Location text.
    pub location: String,
    /// Publication date.
    pub published_date: Option<String>,
    /// External URL, if available.
    pub external_url: Option<String>,
}

/// A period given by its optional ends.
#[derive(Debug, Clone)]
pub struct DateRange {
    pub from: Option<String>,
    pub to: Option<String>,
}

/// One upstream detail record, as the projection reads it.
pub struct DetailRecord {
    pub title: Option<String>,
    pub job_type: Option<String>,
    pub employer: Option<String>,
    pub description: Option<String>,
    /// City of the first place of work's address.
    pub city: Option<String>,
    /// Postal code of the first place of work's address.
    pub postal_code: Option<String>,
    pub fulltime: Option<bool>,
    pub salary: Option<String>,
    pub contract_duration: Option<String>,
    pub entry_period: Option<DateRange>,
    pub publication_period: Option<DateRange>,
    pub first_published: Option<String>,
    pub only_for_disabled: Option<bool>,
    pub is_minor_employment: Option<bool>,
    pub is_temp_agency: Option<bool>,
    pub is_private_agency: Option<bool>,
    pub career_changer_suitable: Option<bool>,
    pub partner_url: Option<String>,
    pub cipher_number: Option<String>,
    /// The whole record as JSON.
    pub raw_data: serde_json::Value,
}

/// Detailed information about one job posting; every attribute may be absent.
#[derive(Debug)]
pub struct GetJobDetailsResult {
    /// Reference number.
    pub reference_number: String,
    /// Job title.
    pub title: Option<String>,
    /// Job description.
    pub description: Option<String>,
    /// Employer name.
    pub employer: Option<String>,
    /// Place of work.
    pub location: Option<String>,
    /// "Vollzeit" or "Teilzeit".
    pub employment_type: Option<String>,
    /// Contract type.
    pub contract_type: Option<String>,
    /// Start of the entry period.
    pub start_date: Option<String>,
    /// Application deadline.
    pub application_deadline: Option<String>,
    /// Contact information.
    pub contact_info: Option<String>,
    /// External application URL.
    pub external_url: Option<String>,
    /// Employer profile URL.
    pub employer_profile_url: Option<String>,
    /// Partner URL.
    pub partner_url: Option<String>,
    /// Salary or compensation.
    pub salary: Option<String>,
    /// Contract duration.
    pub contract_duration: Option<String>,
    /// Takeover after the contract.
    pub takeover_opportunity: Option<bool>,
    /// Kind of offer, such as "arbeitsstelle".
    pub job_type: Option<String>,
    /// Number of open positions.
    pub open_positions: Option<u32>,
    /// Company size.
    pub company_size: Option<String>,
    /// Employer description.
    pub employer_description: Option<String>,
    /// Industry or branch.
    pub branch: Option<String>,
    /// Publication date.
    pub published_date: Option<String>,
    /// First publication date.
    pub first_published: Option<String>,
    /// Open only to severely disabled persons.
    pub only_for_disabled: Option<bool>,
    /// Full-time employment.
    pub fulltime: Option<bool>,
    /// Entry period as text.
    pub entry_period: Option<String>,
    /// Publication period as text.
    pub publication_period: Option<String>,
    /// Minor employment.
    pub is_minor_employment: Option<bool>,
    /// Temporary employment agency.
    pub is_temp_agency: Option<bool>,
    /// Private employment agency.
    pub is_private_agency: Option<bool>,
    /// Suitable for career changers.
    pub career_changer_suitable: Option<bool>,
    /// Cipher number of an anonymous posting.
    pub cipher_number: Option<String>,
    /// The upstream record as JSON.
    pub raw_data: serde_json::Value,
}

/// Which attributes a response keeps.
#[derive(Debug, Clone)]
pub struct FieldFilter {
    /// When given, only these attributes are kept.
    pub include_fields: Option<Vec<String>>,
    /// These attributes are dropped.
    pub exclude_fields: Option<Vec<String>>,
}

/// The text a possibly absent string stands for: itself, or nothing.
pub open spec fn text_or_empty(o: Option<Seq<char>>) -> Seq<char> {
    match o {
        Some(t) => t,
        None => Seq::empty(),
    }
}

/// A location: the city, then the postal code in parentheses after a space.
pub open spec fn location_text(city: Option<Seq<char>>, postal_code: Option<Seq<char>>) -> Seq<char> {
    text_or_empty(city) + match postal_code {
        Some(p) => " ("@ + p + ")"@,
        None => Seq::empty(),
    }
}

/// A period as text: "a - b", "ab a", "bis b", or nothing.
pub open spec fn date_range_text(from: Option<Seq<char>>, to: Option<Seq<char>>) -> Seq<char> {
    match (from, to) {
        (Some(a), Some(b)) => a + " - "@ + b,
        (Some(a), None) => "ab "@ + a,
        (None, Some(b)) => "bis "@ + b,
        (None, None) => Seq::empty(),
    }
}

/// The text of an optional period.
pub open spec fn period_text(p: Option<DateRange>) -> Option<Seq<char>> {
    match p {
        Some(r) => Some(date_range_text(opt_text(r.from), opt_text(r.to))),
        None => None,
    }
}

/// The location of a detail: present when the city is.
pub open spec fn detail_location_text(city: Option<Seq<char>>, postal_code: Option<Seq<char>>) -> Option<Seq<char>> {
    match city {
        Some(c) => Some(location_text(Some(c), postal_code)),
        None => None,
    }
}

/// The employment type a full-time flag stands for.
pub open spec fn employment_type_text(fulltime: Option<bool>) -> Option<Seq<char>> {
    match fulltime {
        Some(true) => Some("Vollzeit"@),
        Some(false) => Some("Teilzeit"@),
        None => None,
    }
}

/// Some name in `names` has the text `name`.
pub open spec fn names_contain(names: Seq<String>, name: Seq<char>) -> bool {
    exists|i: int| 0 <= i < names.len() && #[trigger] names[i]@ == name
}

/// Whether a filter keeps the attribute `name`: named by the include list
/// when there is one, and not named by the exclude list.
pub open spec fn field_kept(filter: FieldFilter, name: Seq<char>) -> bool {
    &&& match filter.include_fields {
        Some(v) => names_contain(v@, name),
        None => true,
    }
    &&& match filter.exclude_fields {
        Some(v) => !names_contain(v@, name),
        None => true,
    }
}

/// A value, or nothing when it is not kept.
pub open spec fn kept<T>(keep: bool, v: Option<T>) -> Option<T> {
    if keep {
        v
    } else {
        None
    }
}

/// A detail with only the attributes that `filter` keeps.
pub open spec fn filter_detail(detail: GetJobDetailsResult, filter: FieldFilter) -> GetJobDetailsResult {
    GetJobDetailsResult {
        reference_number: detail.reference_number,
        title: kept(field_kept(filter, "title"@), detail.title),
        description: kept(field_kept(filter, "description"@), detail.description),
        employer: kept(field_kept(filter, "employer"@), detail.employer),
        location: kept(field_kept(filter, "location"@), detail.location),
        employment_type: kept(field_kept(filter, "employment_type"@), detail.employment_type),
        contract_type: kept(field_kept(filter, "contract_type"@), detail.contract_type),
        start_date: kept(field_kept(filter, "start_date"@), detail.start_date),
        application_deadline: kept(field_kept(filter, "application_deadline"@), detail.application_deadline),
        contact_info: kept(field_kept(filter, "contact_info"@), detail.contact_info),
        external_url: kept(field_kept(filter, "external_url"@), detail.external_url),
        employer_profile_url: kept(field_kept(filter, "employer_profile_url"@), detail.employer_profile_url),
        partner_url: kept(field_kept(filter, "partner_url"@), detail.partner_url),
        salary: kept(field_kept(filter, "salary"@), detail.salary),
        contract_duration: kept(field_kept(filter, "contract_duration"@), detail.contract_duration),
        takeover_opportunity: kept(field_kept(filter, "takeover_opportunity"@), detail.takeover_opportunity),
        job_type: kept(field_kept(filter, "job_type"@), detail.job_type),
        open_positions: kept(field_kept(filter, "open_positions"@), detail.open_positions),
        company_size: kept(field_kept(filter, "company_size"@), detail.company_size),
        employer_description: kept(field_kept(filter, "employer_description"@), detail.employer_description),
        branch: kept(field_kept(filter, "branch"@), detail.branch),
        published_date: kept(field_kept(filter, "published_date"@), detail.published_date),
        first_published: kept(field_kept(filter, "first_published"@), detail.first_published),
        only_for_disabled: kept(field_kept(filter, "only_for_disabled"@), detail.only_for_disabled),
        fulltime: kept(field_kept(filter, "fulltime"@), detail.fulltime),
        entry_period: kept(field_kept(filter, "entry_period"@), detail.entry_period),
        publication_period: kept(field_kept(filter, "publication_period"@), detail.publication_period),
        is_minor_employment: kept(field_kept(filter, "is_minor_employment"@), detail.is_minor_employment),
        is_temp_agency: kept(field_kept(filter, "is_temp_agency"@), detail.is_temp_agency),
        is_private_agency: kept(field_kept(filter, "is_private_agency"@), detail.is_private_agency),
        career_changer_suitable: kept(field_kept(filter, "career_changer_suitable"@), detail.career_changer_suitable),
        cipher_number: kept(field_kept(filter, "cipher_number"@), detail.cipher_number),
        raw_data: detail.raw_data,
    }
}

/// A detail under an optional filter.
pub open spec fn filtered(detail: GetJobDetailsResult, filter: Option<FieldFilter>) -> GetJobDetailsResult {
    match filter {
        Some(f) => filter_detail(detail, f),
        None => detail,
    }
}

/// The location text of a city and a postal code; never fails on missing parts.
pub fn compose_location(city: &Option<String>, postal_code: &Option<String>) -> (r: String)
    ensures
        r@ == location_text(opt_text(*city), opt_text(*postal_code)),
{
    let head = match city {
        Some(c) => c.clone(),
        None => String::new(),
    };
    match postal_code {
        Some(p) => {
            let tail = concat3(" (", p.as_str(), ")");
            concat(head.as_str(), tail.as_str())
        },
        None => head,
    }
}

/// A period as text: "a - b", "ab a", "bis b", or the empty text.
pub fn format_date_range(from: &Option<String>, to: &Option<String>) -> (r: String)
    ensures
        r@ == date_range_text(opt_text(*from), opt_text(*to)),
{
    match (from, to) {
        (Some(a), Some(b)) => concat3(a.as_str(), " - ", b.as_str()),
        (Some(a), None) => concat("ab ", a.as_str()),
        (None, Some(b)) => concat("bis ", b.as_str()),
        (None, None) => String::new(),
    }
}

fn format_period(p: &Option<DateRange>) -> (r: Option<String>)
    ensures
        opt_text(r) == period_text(*p),
{
    match p {
        Some(range) => Some(format_date_range(&range.from, &range.to)),
        None => None,
    }
}

/// `s` is the summary of `record`: its fields are taken over, the title
/// falls back to the occupation, and the location is composed.
pub open spec fn is_summary_of(s: JobSummary, record: SearchRecord) -> bool {
    &&& s.reference_number@ == record.reference_number@
    &&& s.title@ == (match record.title {
        Some(t) => t@,
        None => record.occupation@,
    })
    &&& s.employer@ == record.employer@
    &&& s.location@ == location_text(opt_text(record.city), opt_text(record.postal_code))
    &&& opt_text(s.published_date) == opt_text(record.published_date)
    &&& opt_text(s.external_url) == opt_text(record.external_url)
}

/// The summary of one search record.
pub fn project_summary(record: &SearchRecord) -> (r: JobSummary)
    ensures
        is_summary_of(r, *record),
{
    JobSummary {
        reference_number: record.reference_number.clone(),
        title: match &record.title {
            Some(t) => t.clone(),
            None => record.occupation.clone(),
        },
        employer: record.employer.clone(),
        location: compose_location(&record.city, &record.postal_code),
        published_date: clone_opt_text(&record.published_date),
        external_url: clone_opt_text(&record.external_url),
    }
}

/// The detail of one posting from its upstream record.
pub fn project_detail(reference_number: String, record: DetailRecord) -> (r: GetJobDetailsResult)
    ensures
        r.reference_number == reference_number,
        r.title == record.title,
        r.description == record.description,
        r.employer == record.employer,
        opt_text(r.location) == detail_location_text(opt_text(record.city), opt_text(record.postal_code)),
        opt_text(r.employment_type) == employment_type_text(record.fulltime),
        r.contract_type is None,
        opt_text(r.start_date) == period_text(record.entry_period),
        r.application_deadline is None,
        r.contact_info is None,
        r.external_url is None,
        r.employer_profile_url is None,
        r.partner_url == record.partner_url,
        r.salary == record.salary,
        r.contract_duration == record.contract_duration,
        r.takeover_opportunity is None,
        r.job_type == record.job_type,
        r.open_positions is None,
        r.company_size is None,
        r.employer_description is None,
        r.branch is None,
        r.published_date is None,
        r.first_published == record.first_published,
        r.only_for_disabled == record.only_for_disabled,
        r.fulltime == record.fulltime,
        opt_text(r.entry_period) == period_text(record.entry_period),
        opt_text(r.publication_period) == period_text(record.publication_period),
        r.is_minor_employment == record.is_minor_employment,
        r.is_temp_agency == record.is_temp_agency,
        r.is_private_agency == record.is_private_agency,
        r.career_changer_suitable == record.career_changer_suitable,
        r.cipher_number == record.cipher_number,
        r.raw_data == record.raw_data,
{
    let location = match &record.city {
        Some(_) => Some(compose_location(&record.city, &record.postal_code)),
        None => None,
    };
    let employment_type = match record.fulltime {
        Some(true) => Some(String::from_str("Vollzeit")),
        Some(false) => Some(String::from_str("Teilzeit")),
        None => None,
    };
    let start_date = format_period(&record.entry_period);
    let entry_period = format_period(&record.entry_period);
    let publication_period = format_period(&record.publication_period);
    GetJobDetailsResult {
        reference_number,
        title: record.title,
        description: record.description,
        employer: record.employer,
        location,
        employment_type,
        contract_type: None,
        start_date,
        application_deadline: None,
        contact_info: None,
        external_url: None,
        employer_profile_url: None,
        partner_url: record.partner_url,
        salary: record.salary,
        contract_duration: record.contract_duration,
        takeover_opportunity: None,
        job_type: record.job_type,
        open_positions: None,
        company_size: None,
        employer_description: None,
        branch: None,
        published_date: None,
        first_published: record.first_published,
        only_for_disabled: record.only_for_disabled,
        fulltime: record.fulltime,
        entry_period,
        publication_period,
        is_minor_employment: record.is_minor_employment,
        is_temp_agency: record.is_temp_agency,
        is_private_agency: record.is_private_agency,
        career_changer_suitable: record.career_changer_suitable,
        cipher_number: record.cipher_number,
        raw_data: record.raw_data,
    }
}

fn contains_name(names: &Vec<String>, name: &str) -> (r: bool)
    ensures
        r == names_contain(names@, name@),
{
    let mut i: usize = 0;
    while i < names.len()
        invariant
            i <= names@.len(),
            forall|j: int| 0 <= j < i ==> names@[j]@ != name@,
        decreases names@.len() - i,
    {
        let candidate = String::from_str(name);
        if names[i].eq(&candidate) {
            return true;
        }
        i = i + 1;
    }
    false
}

/// Whether `filter` keeps the attribute `name`.
pub fn keeps(filter: &FieldFilter, name: &str) -> (r: bool)
    ensures
        r == field_kept(*filter, name@),
{
    let included = match &filter.include_fields {
        Some(v) => contains_name(v, name),
        None => true,
    };
    let excluded = match &filter.exclude_fields {
        Some(v) => contains_name(v, name),
        None => false,
    };
    included && !excluded
}

/// Keeps the attributes that `filter` selects: include first, then exclude
/// over what is left; unknown names are ignored. The reference number and
/// the raw record always stay.
pub fn apply_filter(detail: GetJobDetailsResult, filter: &FieldFilter) -> (r: GetJobDetailsResult)
    ensures
        r == filter_detail(detail, *filter),
{
    GetJobDetailsResult {
        reference_number: detail.reference_number,
        title: if keeps(filter, "title") { detail.title } else { None },
        description: if keeps(filter, "description") { detail.description } else { None },
        employer: if keeps(filter, "employer") { detail.employer } else { None },
        location: if keeps(filter, "location") { detail.location } else { None },
        employment_type: if keeps(filter, "employment_type") { detail.employment_type } else { None },
        contract_type: if keeps(filter, "contract_type") { detail.contract_type } else { None },
        start_date: if keeps(filter, "start_date") { detail.start_date } else { None },
        application_deadline: if keeps(filter, "application_deadline") { detail.application_deadline } else { None },
        contact_info: if keeps(filter, "contact_info") { detail.contact_info } else { None },
        external_url: if keeps(filter, "external_url") { detail.external_url } else { None },
        employer_profile_url: if keeps(filter, "employer_profile_url") { detail.employer_profile_url } else { None },
        partner_url: if keeps(filter, "partner_url") { detail.partner_url } else { None },
        salary: if keeps(filter, "salary") { detail.salary } else { None },
        contract_duration: if keeps(filter, "contract_duration") { detail.contract_duration } else { None },
        takeover_opportunity: if keeps(filter, "takeover_opportunity") { detail.takeover_opportunity } else { None },
        job_type: if keeps(filter, "job_type") { detail.job_type } else { None },
        open_positions: if keeps(filter, "open_positions") { detail.open_positions } else { None },
        company_size: if keeps(filter, "company_size") { detail.company_size } else { None },
        employer_description: if keeps(filter, "employer_description") { detail.employer_description } else { None },
        branch: if keeps(filter, "branch") { detail.branch } else { None },
        published_date: if keeps(filter, "published_date") { detail.published_date } else { None },
        first_published: if keeps(filter, "first_published") { detail.first_published } else { None },
        only_for_disabled: if keeps(filter, "only_for_disabled") { detail.only_for_disabled } else { None },
        fulltime: if keeps(filter, "fulltime") { detail.fulltime } else { None },
        entry_period: if keeps(filter, "entry_period") { detail.entry_period } else { None },
        publication_period: if keeps(filter, "publication_period") { detail.publication_period } else { None },
        is_minor_employment: if keeps(filter, "is_minor_employment") { detail.is_minor_employment } else { None },
        is_temp_agency: if keeps(filter, "is_temp_agency") { detail.is_temp_agency } else { None },
        is_private_agency: if keeps(filter, "is_private_agency") { detail.is_private_agency } else { None },
        career_changer_suitable: if keeps(filter, "career_changer_suitable") { detail.career_changer_suitable } else { None },
        cipher_number: if keeps(filter, "cipher_number") { detail.cipher_number } else { None },
        raw_data: detail.raw_data,
    }
}

/// Applies an optional filter; without one the detail is returned as it is.
pub fn apply_optional_filter(detail: GetJobDetailsResult, filter: &Option<FieldFilter>) -> (r: GetJobDetailsResult)
    ensures
        r == filtered(detail, *filter),
{
    match filter {
        Some(f) => apply_filter(detail, f),
        None => detail,
    }
}

/// An include list of "title" and "salary" keeps exactly those two
/// attributes, whatever the detail held: both stay as they were and every
/// other optional attribute becomes absent.
pub proof fn lemma_include_title_and_salary(detail: GetJobDetailsResult, filter: FieldFilter)
    requires
        filter.include_fields is Some,
        filter.include_fields->0@.len() == 2,
        filter.include_fields->0@[0]@ == "title"@,
        filter.include_fields->0@[1]@ == "salary"@,
        filter.exclude_fields is None,
    ensures
        filter_detail(detail, filter).title == detail.title,
        filter_detail(detail, filter).salary == detail.salary,
        filter_detail(detail, filter).description is None,
        filter_detail(detail, filter).employer is None,
        filter_detail(detail, filter).location is None,
        filter_detail(detail, filter).employment_type is None,
        filter_detail(detail, filter).contract_type is None,
        filter_detail(detail, filter).start_date is None,
        filter_detail(detail, filter).application_deadline is None,
        filter_detail(detail, filter).contact_info is None,
        filter_detail(detail, filter).external_url is None,
        filter_detail(detail, filter).employer_profile_url is None,
        filter_detail(detail, filter).partner_url is None,
        filter_detail(detail, filter).contract_duration is None,
        filter_detail(detail, filter).takeover_opportunity is None,
        filter_detail(detail, filter).job_type is None,
        filter_detail(detail, filter).open_positions is None,
        filter_detail(detail, filter).company_size is None,
        filter_detail(detail, filter).employer_description is None,
        filter_detail(detail, filter).branch is None,
        filter_detail(detail, filter).published_date is None,
        filter_detail(detail, filter).first_published is None,
        filter_detail(detail, filter).only_for_disabled is None,
        filter_detail(detail, filter).fulltime is None,
        filter_detail(detail, filter).entry_period is None,
        filter_detail(detail, filter).publication_period is None,
        filter_detail(detail, filter).is_minor_employment is None,
        filter_detail(detail, filter).is_temp_agency is None,
        filter_detail(detail, filter).is_private_agency is None,
        filter_detail(detail, filter).career_changer_suitable is None,
        filter_detail(detail, filter).cipher_number is None,
        filter_detail(detail, filter).reference_number == detail.reference_number,
{
    reveal_strlit("title");
    reveal_strlit("description");
    reveal_strlit("employer");
    reveal_strlit("location");
    reveal_strlit("employment_type");
    reveal_strlit("contract_type");
    reveal_strlit("start_date");
    reveal_strlit("application_deadline");
    reveal_strlit("contact_info");
    reveal_strlit("external_url");
    reveal_strlit("employer_profile_url");
    reveal_strlit("partner_url");
    reveal_strlit("salary");
    reveal_strlit("contract_duration");
    reveal_strlit("takeover_opportunity");
    reveal_strlit("job_type");
    reveal_strlit("open_positions");
    reveal_strlit("company_size");
    reveal_strlit("employer_description");
    reveal_strlit("branch");
    reveal_strlit("published_date");
    reveal_strlit("first_published");
    reveal_strlit("only_for_disabled");
    reveal_strlit("fulltime");
    reveal_strlit("entry_period");
    reveal_strlit("publication_period");
    reveal_strlit("is_minor_employment");
    reveal_strlit("is_temp_agency");
    reveal_strlit("is_private_agency");
    reveal_strlit("career_changer_suitable");
    reveal_strlit("cipher_number");
    let v = filter.include_fields->0@;
    assert(names_contain(v, "title"@));
    assert(names_contain(v, "salary"@));
    assert("description"@.len() != "title"@.len());
    assert("description"@.len() != "salary"@.len());
    assert("employer"@.len() != "title"@.len());
    assert("employer"@.len() != "salary"@.len());
    assert("location"@.len() != "title"@.len());
    assert("location"@.len() != "salary"@.len());
    assert("employment_type"@.len() != "title"@.len());
    assert("employment_type"@.len() != "salary"@.len());
    assert("contract_type"@.len() != "title"@.len());
    assert("contract_type"@.len() != "salary"@.len());
    assert("start_date"@.len() != "title"@.len());
    assert("start_date"@.len() != "salary"@.len());
    assert("application_deadline"@.len() != "title"@.len());
    assert("application_deadline"@.len() != "salary"@.len());
    assert("contact_info"@.len() != "title"@.len());
    assert("contact_info"@.len() != "salary"@.len());
    assert("external_url"@.len() != "title"@.len());
    assert("external_url"@.len() != "salary"@.len());
    assert("employer_profile_url"@.len() != "title"@.len());
    assert("employer_profile_url"@.len() != "salary"@.len());
    assert("partner_url"@.len() != "title"@.len());
    assert("partner_url"@.len() != "salary"@.len());
    assert("contract_duration"@.len() != "title"@.len());
    assert("contract_duration"@.len() != "salary"@.len());
    assert("takeover_opportunity"@.len() != "title"@.len());
    assert("takeover_opportunity"@.len() != "salary"@.len());
    assert("job_type"@.len() != "title"@.len());
    assert("job_type"@.len() != "salary"@.len());
    assert("open_positions"@.len() != "title"@.len());
    assert("open_positions"@.len() != "salary"@.len());
    assert("company_size"@.len() != "title"@.len());
    assert("company_size"@.len() != "salary"@.len());
    assert("employer_description"@.len() != "title"@.len());
    assert("employer_description"@.len() != "salary"@.len());
    assert("branch"@.len() != "title"@.len());
    assert("branch"@[0] != "salary"@[0]);
    assert("published_date"@.len() != "title"@.len());
    assert("published_date"@.len() != "salary"@.len());
    assert("first_published"@.len() != "title"@.len());
    assert("first_published"@.len() != "salary"@.len());
    assert("only_for_disabled"@.len() != "title"@.len());
    assert("only_for_disabled"@.len() != "salary"@.len());
    assert("fulltime"@.len() != "title"@.len());
    assert("fulltime"@.len() != "salary"@.len());
    assert("entry_period"@.len() != "title"@.len());
    assert("entry_period"@.len() != "salary"@.len());
    assert("publication_period"@.len() != "title"@.len());
    assert("publication_period"@.len() != "salary"@.len());
    assert("is_minor_employment"@.len() != "title"@.len());
    assert("is_minor_employment"@.len() != "salary"@.len());
    assert("is_temp_agency"@.len() != "title"@.len());
    assert("is_temp_agency"@.len() != "salary"@.len());
    assert("is_private_agency"@.len() != "title"@.len());
    assert("is_private_agency"@.len() != "salary"@.len());
    assert("career_changer_suitable"@.len() != "title"@.len());
    assert("career_changer_suitable"@.len() != "salary"@.len());
    assert("cipher_number"@.len() != "title"@.len());
    assert("cipher_number"@.len() != "salary"@.len());
}

} // verus!

use jobsuche_mcp_server::config::JobsucheConfig;
use jobsuche_mcp_server::query::{
    build_query, parse_employment_type, parse_employment_types, resolve_page_size,
    EmploymentType, SearchJobsParams,
};

fn empty_params() -> SearchJobsParams {
    SearchJobsParams {
        job_title: None,
        location: None,
        radius_km: None,
        employment_type: None,
        contract_type: None,
        published_since_days: None,
        page_size: None,
        page: None,
        employer: None,
        branch: None,
    }
}

#[test]
fn test_parse_employment_type_fulltime() {
    assert_eq!(parse_employment_type("fulltime"), Some(EmploymentType::FullTime));
    assert_eq!(parse_employment_type("VOLLZEIT"), Some(EmploymentType::FullTime));
    assert_eq!(parse_employment_type("vz"), Some(EmploymentType::FullTime));
}

#[test]
fn test_parse_employment_type_parttime() {
    assert_eq!(parse_employment_type("parttime"), Some(EmploymentType::PartTime));
    assert_eq!(parse_employment_type("teilzeit"), Some(EmploymentType::PartTime));
}

#[test]
fn test_parse_employment_type_minijob() {
    assert_eq!(parse_employment_type("mini"), Some(EmploymentType::MiniJob));
    assert_eq!(parse_employment_type("mini_job"), Some(EmploymentType::MiniJob));
}

#[test]
fn test_parse_employment_type_homeoffice() {
    assert_eq!(parse_employment_type("home"), Some(EmploymentType::HomeOffice));
    assert_eq!(parse_employment_type("homeoffice"), Some(EmploymentType::HomeOffice));
}

#[test]
fn test_parse_employment_type_shift() {
    assert_eq!(parse_employment_type("shift"), Some(EmploymentType::ShiftWork));
    assert_eq!(parse_employment_type("schicht"), Some(EmploymentType::ShiftWork));
}

#[test]
fn test_parse_employment_type_invalid() {
    assert_eq!(parse_employment_type("invalid"), None);
    assert_eq!(parse_employment_type(""), None);
}

#[test]
fn test_search_jobs_params_defaults() {
    let params = empty_params();
    assert!(params.job_title.is_none());
    assert!(params.location.is_none());
    assert!(params.radius_km.is_none());
    assert!(params.employer.is_none());
    assert!(params.branch.is_none());
}

#[test]
fn every_synonym_maps_in_any_case() {
    let table = [
        ("fulltime", EmploymentType::FullTime),
        ("full", EmploymentType::FullTime),
        ("vollzeit", EmploymentType::FullTime),
        ("vz", EmploymentType::FullTime),
        ("parttime", EmploymentType::PartTime),
        ("part", EmploymentType::PartTime),
        ("teilzeit", EmploymentType::PartTime),
        ("tz", EmploymentType::PartTime),
        ("mini", EmploymentType::MiniJob),
        ("minijob", EmploymentType::MiniJob),
        ("mini_job", EmploymentType::MiniJob),
        ("home", EmploymentType::HomeOffice),
        ("homeoffice", EmploymentType::HomeOffice),
        ("home_office", EmploymentType::HomeOffice),
        ("ho", EmploymentType::HomeOffice),
        ("shift", EmploymentType::ShiftWork),
        ("schicht", EmploymentType::ShiftWork),
        ("snw", EmploymentType::ShiftWork),
    ];
    for (word, kind) in table.iter() {
        assert_eq!(parse_employment_type(word), Some(*kind));
        assert_eq!(parse_employment_type(&word.to_uppercase()), Some(*kind));
    }
    assert_eq!(parse_employment_type("HoMe_OfFiCe"), Some(EmploymentType::HomeOffice));
}

#[test]
fn unknown_tags_map_to_nothing() {
    assert_eq!(parse_employment_type("full time"), None);
    assert_eq!(parse_employment_type(" vz"), None);
    assert_eq!(parse_employment_type("vollzeitt"), None);
}

#[test]
fn parse_employment_types_drops_unknown_and_keeps_order() {
    let tags = vec![
        "Teilzeit".to_string(),
        "nonsense".to_string(),
        "VZ".to_string(),
    ];
    assert_eq!(
        parse_employment_types(&tags),
        vec![EmploymentType::PartTime, EmploymentType::FullTime]
    );
}

#[test]
fn resolve_page_size_examples() {
    assert_eq!(resolve_page_size(None, 25, 100), 25);
    assert_eq!(resolve_page_size(Some(50), 25, 100), 50);
    assert_eq!(resolve_page_size(Some(500), 25, 100), 100);
    assert_eq!(resolve_page_size(Some(1), 25, 100), 1);
    assert_eq!(resolve_page_size(None, 80, 60), 60);
}

#[test]
fn end_to_end_query_for_software_engineer_in_berlin() {
    let config = JobsucheConfig::default();
    let mut params = empty_params();
    params.job_title = Some("Software Engineer".to_string());
    params.location = Some("Berlin".to_string());
    params.employment_type = Some(vec!["fulltime".to_string()]);
    let query = build_query(&params, &config);
    assert_eq!(query.free_text, Some("Software Engineer".to_string()));
    assert_eq!(query.location, Some("Berlin".to_string()));
    assert_eq!(query.employment_types, Some(vec![EmploymentType::FullTime]));
    assert_eq!(query.page_size, 25);
    assert_eq!(query.radius_km, None);
    assert_eq!(query.published_since_days, None);
    assert_eq!(query.page, None);
}

#[test]
fn query_joins_title_employer_and_branch() {
    let config = JobsucheConfig::default();
    let mut params = empty_params();
    params.job_title = Some("Kundenberaterin".to_string());
    params.employer = Some("BARMER".to_string());
    params.branch = Some("Gesundheitswesen".to_string());
    params.radius_km = Some(25);
    params.published_since_days = Some(14);
    params.page = Some(2);
    params.page_size = Some(500);
    let query = build_query(&params, &config);
    assert_eq!(
        query.free_text,
        Some("Kundenberaterin BARMER Gesundheitswesen".to_string())
    );
    assert_eq!(query.radius_km, Some(25));
    assert_eq!(query.published_since_days, Some(14));
    assert_eq!(query.page, Some(2));
    assert_eq!(query.page_size, 100);
}

#[test]
fn query_omits_absent_and_empty_terms() {
    let config = JobsucheConfig::default();
    let mut params = empty_params();
    let query = build_query(&params, &config);
    assert_eq!(query.free_text, None);
    assert_eq!(query.employment_types, None);
    params.job_title = Some("".to_string());
    params.branch = Some("IT".to_string());
    params.employment_type = Some(vec!["invalid".to_string()]);
    let query = build_query(&params, &config);
    assert_eq!(query.free_text, Some("IT".to_string()));
    assert_eq!(query.employment_types, None);
}

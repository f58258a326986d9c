use jobsuche_mcp_server::orchestrate::{
    collect_details, detail_references, search_result, with_details_result, BatchSearch,
    BatchSearchItem, BatchSearchJobsParams, SearchJobsResult, SearchJobsWithDetailsParams,
    SearchResponse,
};
use jobsuche_mcp_server::project::{FieldFilter, GetJobDetailsResult, JobSummary, SearchRecord};

fn summary(reference: &str, title: &str) -> JobSummary {
    JobSummary {
        reference_number: reference.to_string(),
        title: title.to_string(),
        employer: "Company".to_string(),
        location: "Berlin".to_string(),
        published_date: None,
        external_url: None,
    }
}

fn detail(reference: &str) -> GetJobDetailsResult {
    GetJobDetailsResult {
        reference_number: reference.to_string(),
        title: Some(format!("Title {}", reference)),
        description: Some("Description".to_string()),
        employer: None,
        location: None,
        employment_type: None,
        contract_type: None,
        start_date: None,
        application_deadline: None,
        contact_info: None,
        external_url: None,
        employer_profile_url: None,
        partner_url: None,
        salary: Some("40.000 EUR".to_string()),
        contract_duration: None,
        takeover_opportunity: None,
        job_type: None,
        open_positions: None,
        company_size: None,
        employer_description: None,
        branch: None,
        published_date: None,
        first_published: None,
        only_for_disabled: None,
        fulltime: None,
        entry_period: None,
        publication_period: None,
        is_minor_employment: None,
        is_temp_agency: None,
        is_private_agency: None,
        career_changer_suitable: None,
        cipher_number: None,
        raw_data: serde_json::Value::Null,
    }
}

fn item(name: &str) -> BatchSearchItem {
    BatchSearchItem {
        name: name.to_string(),
        job_title: Some(name.to_string()),
        location: Some("Wuppertal".to_string()),
        radius_km: None,
        employment_type: None,
        contract_type: None,
        published_since_days: None,
        employer: None,
        branch: None,
    }
}

fn search_of(references: &[&str], total: u64) -> SearchJobsResult {
    let jobs: Vec<JobSummary> = references.iter().map(|r| summary(r, "Job")).collect();
    SearchJobsResult {
        total_results: Some(total),
        current_page: Some(1),
        page_size: Some(3),
        jobs_count: jobs.len(),
        jobs,
        search_duration_ms: 10,
    }
}

#[test]
fn test_search_results_empty() {
    let result = SearchJobsResult {
        total_results: Some(0),
        current_page: Some(1),
        page_size: Some(25),
        jobs_count: 0,
        jobs: vec![],
        search_duration_ms: 100,
    };

    assert_eq!(result.jobs_count, 0);
    assert_eq!(result.jobs.len(), 0);
}

#[test]
fn test_search_results_with_jobs() {
    let jobs = vec![
        JobSummary {
            reference_number: "JOB-1".to_string(),
            title: "Job 1".to_string(),
            employer: "Company 1".to_string(),
            location: "Berlin".to_string(),
            published_date: Some("2025-01-01".to_string()),
            external_url: None,
        },
        JobSummary {
            reference_number: "JOB-2".to_string(),
            title: "Job 2".to_string(),
            employer: "Company 2".to_string(),
            location: "München".to_string(),
            published_date: Some("2025-01-02".to_string()),
            external_url: Some("https://example.com".to_string()),
        },
    ];

    let result = SearchJobsResult {
        total_results: Some(2),
        current_page: Some(1),
        page_size: Some(25),
        jobs_count: 2,
        jobs: jobs.clone(),
        search_duration_ms: 150,
    };

    assert_eq!(result.jobs_count, 2);
    assert_eq!(result.jobs.len(), 2);
    assert_eq!(result.jobs[0].reference_number, "JOB-1");
    assert_eq!(result.jobs[1].title, "Job 2");
    assert_eq!(
        result.jobs[1].external_url,
        Some("https://example.com".to_string())
    );
}

#[test]
fn search_result_projects_records_in_order() {
    let response = SearchResponse {
        total_results: Some(150),
        page: Some(1),
        page_size: Some(25),
        records: vec![
            SearchRecord {
                reference_number: "JOB-1".to_string(),
                title: Some("Job 1".to_string()),
                occupation: "Occupation 1".to_string(),
                employer: "Company 1".to_string(),
                city: Some("Berlin".to_string()),
                postal_code: Some("10115".to_string()),
                published_date: Some("2025-01-01".to_string()),
                external_url: None,
            },
            SearchRecord {
                reference_number: "JOB-2".to_string(),
                title: None,
                occupation: "Occupation 2".to_string(),
                employer: "Company 2".to_string(),
                city: Some("München".to_string()),
                postal_code: None,
                published_date: None,
                external_url: Some("https://example.com".to_string()),
            },
        ],
    };
    let result = search_result(&response, 42);
    assert_eq!(result.total_results, Some(150));
    assert_eq!(result.current_page, Some(1));
    assert_eq!(result.page_size, Some(25));
    assert_eq!(result.jobs_count, 2);
    assert_eq!(result.jobs[0].location, "Berlin (10115)");
    assert_eq!(result.jobs[1].title, "Occupation 2");
    assert_eq!(result.jobs[1].location, "München");
    assert_eq!(result.search_duration_ms, 42);
}

#[test]
fn detail_references_take_the_first_ones() {
    let jobs = vec![summary("A", "a"), summary("B", "b"), summary("C", "c")];
    assert_eq!(detail_references(&jobs, 2), vec!["A".to_string(), "B".to_string()]);
    assert_eq!(detail_references(&jobs, 5).len(), 3);
    assert!(detail_references(&jobs, 0).is_empty());
}

#[test]
fn failed_lookups_are_skipped_and_order_kept() {
    let outcomes = vec![
        Ok(detail("A")),
        Err("timeout".to_string()),
        Ok(detail("C")),
        Err("not found".to_string()),
    ];
    let details = collect_details(outcomes, &None);
    assert_eq!(details.len(), 2);
    assert_eq!(details[0].reference_number, "A");
    assert_eq!(details[1].reference_number, "C");
    let none: Vec<Result<GetJobDetailsResult, String>> = vec![Err("down".to_string())];
    assert!(collect_details(none, &None).is_empty());
}

#[test]
fn with_details_filters_and_counts() {
    let params = SearchJobsWithDetailsParams {
        job_title: None,
        location: Some("Wuppertal".to_string()),
        radius_km: None,
        employment_type: Some(vec!["parttime".to_string()]),
        contract_type: None,
        published_since_days: None,
        page_size: None,
        page: None,
        employer: Some("BARMER".to_string()),
        branch: None,
        max_details: Some(50),
        fields: Some(FieldFilter {
            include_fields: Some(vec!["title".to_string()]),
            exclude_fields: None,
        }),
    };
    assert_eq!(params.detail_limit(), 20);
    let search_params = params.search_params();
    assert_eq!(search_params.employer, Some("BARMER".to_string()));
    assert_eq!(search_params.employment_type, Some(vec!["parttime".to_string()]));

    let search = search_of(&["A", "B"], 2);
    let outcomes = vec![Err("boom".to_string()), Ok(detail("B"))];
    let result = with_details_result(&search, outcomes, &params.fields, 7, 9);
    assert_eq!(result.total_results, Some(2));
    assert_eq!(result.jobs_count, 1);
    assert_eq!(result.jobs[0].reference_number, "B");
    assert_eq!(result.jobs[0].title, Some("Title B".to_string()));
    assert_eq!(result.jobs[0].salary, None);
    assert_eq!(result.search_duration_ms, 7);
    assert_eq!(result.details_duration_ms, 9);
}

#[test]
fn detail_limit_defaults_to_five() {
    let params = SearchJobsWithDetailsParams {
        job_title: None,
        location: None,
        radius_km: None,
        employment_type: None,
        contract_type: None,
        published_since_days: None,
        page_size: None,
        page: None,
        employer: None,
        branch: None,
        max_details: None,
        fields: None,
    };
    assert_eq!(params.detail_limit(), 5);
}

#[test]
fn batch_with_failed_second_search() {
    let params = BatchSearchJobsParams {
        searches: vec![item("first"), item("second"), item("third")],
        max_details_per_search: None,
        fields: None,
    };
    let mut batch = BatchSearch::new(params);
    assert_eq!(batch.max_details, 3);

    assert!(!batch.is_done());
    let p = batch.next_search();
    assert_eq!(p.job_title, Some("first".to_string()));
    assert_eq!(p.page_size, Some(3));
    let s1 = search_of(&["A", "B"], 12);
    assert_eq!(batch.detail_references(&s1), vec!["A".to_string(), "B".to_string()]);
    batch.record_success(&s1, vec![Ok(detail("A")), Ok(detail("B"))]);

    let p = batch.next_search();
    assert_eq!(p.job_title, Some("second".to_string()));
    batch.record_failure("connection refused");

    let p = batch.next_search();
    assert_eq!(p.job_title, Some("third".to_string()));
    let s3 = search_of(&["C"], 1);
    batch.record_success(&s3, vec![Ok(detail("C"))]);

    assert!(batch.is_done());
    let result = batch.finish(99);
    assert_eq!(result.searches_count, 3);
    assert_eq!(result.results.len(), 3);
    assert_eq!(result.total_duration_ms, 99);

    let first = &result.results[0];
    assert_eq!(first.search_name, "first");
    assert_eq!(first.total_results, Some(12));
    assert_eq!(first.jobs_count, 2);
    assert_eq!(first.error, None);

    let second = &result.results[1];
    assert_eq!(second.search_name, "second");
    assert_eq!(second.total_results, None);
    assert_eq!(second.jobs_count, 0);
    assert!(second.jobs.is_empty());
    assert_eq!(
        second.error,
        Some("Search failed: connection refused".to_string())
    );

    let third = &result.results[2];
    assert_eq!(third.search_name, "third");
    assert_eq!(third.jobs_count, 1);
    assert_eq!(third.jobs[0].reference_number, "C");
}

#[test]
fn batch_keeps_at_most_ten_searches() {
    let searches: Vec<BatchSearchItem> = (0..13).map(|i| item(&format!("s{}", i))).collect();
    let params = BatchSearchJobsParams {
        searches,
        max_details_per_search: Some(40),
        fields: None,
    };
    let mut batch = BatchSearch::new(params);
    assert_eq!(batch.items.len(), 10);
    assert_eq!(batch.items[9].name, "s9");
    assert_eq!(batch.max_details, 10);
    while !batch.is_done() {
        batch.record_failure("down");
    }
    let result = batch.finish(1);
    assert_eq!(result.searches_count, 10);
    assert_eq!(result.results[4].search_name, "s4");
}

#[test]
fn batch_with_no_details_requested() {
    let params = BatchSearchJobsParams {
        searches: vec![item("only")],
        max_details_per_search: Some(0),
        fields: None,
    };
    let mut batch = BatchSearch::new(params);
    let s = search_of(&["A", "B"], 2);
    assert!(batch.detail_references(&s).is_empty());
    batch.record_success(&s, vec![]);
    let result = batch.finish(5);
    assert_eq!(result.results[0].total_results, Some(2));
    assert_eq!(result.results[0].jobs_count, 0);
}

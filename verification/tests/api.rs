use corgea::utils::api::{
    blocking_rules_url, check_for_warnings, chunk_url, get_all_issues, get_scan_issues, issue_url,
    scan_issues_url, scan_list_query, scan_url, scans_url, start_scan_url, verify_token,
    verify_url, AutoTriage, Classification, CorgeaFile, FalsePositiveDetection, Issue, IssuePager,
    Location, PagerStep, Project, ProjectIssuesResponse, PAGE_SIZE,
};

fn issue(id: &str) -> Issue {
    Issue {
        id: id.to_string(),
        scan_id: None,
        status: "open".to_string(),
        urgency: "HI".to_string(),
        created_at: "2024-01-01".to_string(),
        classification: Classification {
            id: "CWE-79".to_string(),
            name: "XSS".to_string(),
            description: None,
        },
        location: Location {
            file: CorgeaFile {
                name: "a.js".to_string(),
                language: "js".to_string(),
                path: "web/a.js".to_string(),
            },
            line_number: 1,
            project: Project { name: "demo".to_string(), branch: None, git_sha: None },
        },
        details: None,
        auto_triage: AutoTriage {
            false_positive_detection: FalsePositiveDetection {
                status: "valid".to_string(),
                reasoning: None,
            },
        },
        auto_fix_suggestion: None,
    }
}

fn page(ids: Option<&[&str]>, total_pages: Option<u32>) -> ProjectIssuesResponse {
    ProjectIssuesResponse {
        status: "ok".to_string(),
        issues: ids.map(|ids| ids.iter().map(|id| issue(id)).collect()),
        page: None,
        total_pages,
        total_issues: None,
    }
}

fn ids(issues: &[Issue]) -> Vec<String> {
    issues.iter().map(|i| i.id.clone()).collect()
}

#[test]
fn issues_are_gathered_page_by_page() {
    let pager = IssuePager::new();
    assert_eq!(pager.page(), 1);
    assert_eq!(PAGE_SIZE, 30);
    let pager = match get_all_issues(pager, Ok(page(Some(&["1", "2"]), Some(3)))) {
        PagerStep::Fetch(pager) => pager,
        _ => panic!("the second page is asked for"),
    };
    assert_eq!(pager.page(), 2);
    let pager = match get_all_issues(pager, Ok(page(Some(&["3"]), None))) {
        PagerStep::Fetch(pager) => pager,
        _ => panic!("the third page is asked for"),
    };
    assert_eq!(pager.page(), 3);
    match get_all_issues(pager, Ok(page(Some(&["4"]), Some(3)))) {
        PagerStep::Done(issues) => assert_eq!(ids(&issues), vec!["1", "2", "3", "4"]),
        _ => panic!("the third page is the last"),
    }
}

#[test]
fn an_empty_page_ends_the_gathering() {
    let pager = match get_all_issues(IssuePager::new(), Ok(page(Some(&["1"]), Some(9)))) {
        PagerStep::Fetch(pager) => pager,
        _ => panic!("the second page is asked for"),
    };
    match get_all_issues(pager, Ok(page(Some(&[]), Some(9)))) {
        PagerStep::Done(issues) => assert_eq!(ids(&issues), vec!["1"]),
        _ => panic!("an empty page is the last"),
    }
    match get_all_issues(IssuePager::new(), Ok(page(Some(&[]), None))) {
        PagerStep::Done(issues) => assert!(issues.is_empty()),
        _ => panic!("an empty page is the last"),
    }
}

#[test]
fn gathering_fails_on_an_error_or_a_page_without_issues() {
    match get_all_issues(IssuePager::new(), Err("Server error 500".to_string())) {
        PagerStep::Failed(message) => {
            assert_eq!(message, "Failed to get scan issues: Server error 500")
        },
        _ => panic!("the gathering fails"),
    }
    match get_all_issues(IssuePager::new(), Ok(page(None, Some(1)))) {
        PagerStep::Failed(message) => assert_eq!(message, "No issues found in response"),
        _ => panic!("the gathering fails"),
    }
}

#[test]
fn addresses_of_the_interface() {
    assert_eq!(start_scan_url("https://x.io"), "https://x.io/api/v1/start-scan");
    assert_eq!(chunk_url("https://x.io", "t-1"), "https://x.io/api/v1/start-scan/t-1/");
    assert_eq!(scan_url("https://x.io", "s-1"), "https://x.io/api/v1/scan/s-1");
    assert_eq!(issue_url("https://x.io", "i-1"), "https://x.io/api/v1/issue/i-1");
    assert_eq!(scans_url("https://x.io"), "https://x.io/api/v1/scans");
    assert_eq!(verify_url("https://x.io"), "https://x.io/api/v1/verify");
    assert_eq!(
        blocking_rules_url("https://x.io", "s-1"),
        "https://x.io/api/v1/scan/s-1/check_blocking_rules"
    );
}

#[test]
fn addresses_of_issue_lists() {
    assert_eq!(
        scan_issues_url("https://x.io", "demo", Some(2), Some(50), None),
        "https://x.io/api/v1/issues?project=demo&page=2&page_size=50"
    );
    assert_eq!(
        scan_issues_url("https://x.io", "demo", Some(1), None, Some("s-1")),
        "https://x.io/api/v1/scan/s-1/issues?page=1&page_size=30"
    );
    assert_eq!(
        scan_issues_url("https://x.io", "demo", None, None, None),
        "https://x.io/api/v1/issues?project=demo&page_size=30"
    );
    assert_eq!(
        scan_issues_url("https://x.io", "demo", None, Some(65535), Some("s-1")),
        "https://x.io/api/v1/scan/s-1/issues&page_size=65535"
    );
}

#[test]
fn parameters_of_the_scan_list() {
    let pairs = |project, page, size| -> Vec<(String, String)> {
        scan_list_query(project, page, size).into_iter().map(|p| (p.name, p.value)).collect()
    };
    assert_eq!(
        pairs(Some("demo"), Some(4), Some(10)),
        vec![
            ("page".to_string(), "4".to_string()),
            ("page_size".to_string(), "10".to_string()),
            ("project".to_string(), "demo".to_string()),
        ]
    );
    assert_eq!(
        pairs(None, None, None),
        vec![("page".to_string(), "1".to_string()), ("page_size".to_string(), "30".to_string())]
    );
}

#[test]
fn a_list_of_issues_is_held_to_its_status() {
    assert!(get_scan_issues(page(Some(&["1"]), None)).is_ok());
    let mut missing = page(None, None);
    missing.status = "no_project_found".to_string();
    assert_eq!(get_scan_issues(missing).err().unwrap(), "Project not found 404");
    let mut broken = page(None, None);
    broken.status = "error".to_string();
    assert_eq!(get_scan_issues(broken).err().unwrap(), "Server error 500");
}

#[test]
fn a_token_is_valid_when_the_server_says_ok() {
    assert!(verify_token(Some("ok")));
    assert!(!verify_token(Some("OK")));
    assert!(!verify_token(Some("invalid")));
    assert!(!verify_token(None));
}

#[test]
fn warnings_of_the_server_are_recognised() {
    let notice = check_for_warnings(Some("299 - \"Deprecated\""), 200);
    assert!(notice.deprecated);
    assert!(!notice.unsupported);
    assert!(check_for_warnings(Some("199 x, 299 corgea \"old\""), 200).deprecated);
    assert!(check_for_warnings(Some("  299"), 200).deprecated);
    assert!(check_for_warnings(Some("110 a,\t299\t"), 200).deprecated);
    assert!(!check_for_warnings(Some("2999 x"), 200).deprecated);
    assert!(!check_for_warnings(Some("199 299"), 200).deprecated);
    assert!(!check_for_warnings(Some("299\tx"), 200).deprecated);
    assert!(!check_for_warnings(Some(""), 200).deprecated);
    assert!(!check_for_warnings(None, 200).deprecated);
    let gone = check_for_warnings(None, 410);
    assert!(gone.unsupported);
    assert!(!gone.deprecated);
    assert!(!check_for_warnings(None, 404).unsupported);
}

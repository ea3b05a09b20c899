//! The server's interface: the shapes of its replies and the rules of the
//! chunked upload.

use vstd::prelude::*;
use vstd::string::StringExecFns;
use crate::text::{
    join, lemma_pieces_nonempty, numeral, pieces, push_decimal, same, split, strings, trim,
    trimmed,
};

verus! {

#[derive(Debug)]
pub struct ScanResponse {
    pub id: String,
    pub project: String,
    pub repo: Option<String>,
    pub branch: Option<String>,
    pub status: String,
    pub engine: String,
    pub created_at: String,
}

#[derive(Debug)]
pub struct ProjectIssuesResponse {
    pub status: String,
    pub issues: Option<Vec<Issue>>,
    pub page: Option<u32>,
    pub total_pages: Option<u32>,
    pub total_issues: Option<u32>,
}

#[derive(Debug)]
pub struct ScansResponse {
    pub status: String,
    pub page: Option<u32>,
    pub total_pages: Option<u32>,
    pub scans: Option<Vec<ScanResponse>>,
}

#[derive(Debug)]
pub struct FullIssueResponse {
    pub status: String,
    pub issue: Issue,
}

#[derive(Debug)]
pub struct Issue {
    pub id: String,
    pub scan_id: Option<String>,
    pub status: String,
    pub urgency: String,
    pub created_at: String,
    pub classification: Classification,
    pub location: Location,
    pub details: Option<Details>,
    pub auto_triage: AutoTriage,
    pub auto_fix_suggestion: Option<AutoFixSuggestion>,
}

#[derive(Debug)]
pub struct IssueWithBlockingRules {
    pub id: String,
    pub scan_id: Option<String>,
    pub status: String,
    pub urgency: String,
    pub created_at: String,
    pub classification: Classification,
    pub location: Location,
    pub details: Option<Details>,
    pub auto_triage: AutoTriage,
    pub auto_fix_suggestion: Option<AutoFixSuggestion>,
    pub blocked: bool,
    pub blocking_rules: Option<Vec<String>>,
}

#[derive(Debug, Clone)]
pub struct Classification {
    pub id: String,
    pub name: String,
    pub description: Option<String>,
}

#[derive(Debug, Clone)]
pub struct Location {
    pub file: CorgeaFile,
    pub line_number: u32,
    pub project: Project,
}

#[derive(Debug, Clone)]
pub struct CorgeaFile {
    pub name: String,
    pub language: String,
    pub path: String,
}

#[derive(Debug, Clone)]
pub struct Project {
    pub name: String,
    pub branch: Option<String>,
    pub git_sha: Option<String>,
}

#[derive(Debug, Clone)]
pub struct Details {
    pub explanation: Option<String>,
}

#[derive(Debug, Clone)]
pub struct AutoFixSuggestion {
    pub id: Option<String>,
    pub status: String,
    pub patch: Option<Patch>,
    pub full_code: Option<FullCode>,
}

#[derive(Debug, Clone)]
pub struct Patch {
    pub diff: String,
    pub explanation: String,
}

#[derive(Debug, Clone)]
pub struct FullCode {
    pub before: String,
    pub after: String,
}

#[derive(Debug, Clone)]
pub struct AutoTriage {
    pub false_positive_detection: FalsePositiveDetection,
}

#[derive(Debug, Clone)]
pub struct FalsePositiveDetection {
    pub status: String,
    pub reasoning: Option<String>,
}

#[derive(Debug, Clone)]
pub struct BlockingRuleResponse {
    pub block: bool,
    pub blocking_issues: Vec<BlockingIssue>,
    pub total_pages: u32,
}

#[derive(Debug, Clone)]
pub struct BlockingIssue {
    pub id: String,
    pub triggered_by_rules: Vec<String>,
}

/// The path under which every endpoint of the interface lives.
pub open spec fn api_base() -> Seq<char> {
    "/api/v1"@
}

/// The number of issues asked for with each page.
pub const PAGE_SIZE: u16 = 30;

/// The address at which an upload is negotiated.
pub fn start_scan_url(url: &str) -> (address: String)
    ensures
        address@ == url@ + api_base() + "/start-scan"@,
{
    let mut address = String::from_str(url);
    address.append("/api/v1");
    address.append("/start-scan");
    address
}

/// The address to which the chunks of a transfer go.
pub fn chunk_url(url: &str, transfer_id: &str) -> (address: String)
    ensures
        address@ == url@ + api_base() + "/start-scan/"@ + transfer_id@ + "/"@,
{
    let mut address = String::from_str(url);
    address.append("/api/v1");
    address.append("/start-scan/");
    address.append(transfer_id);
    address.append("/");
    address
}

/// The address of a scan.
pub fn scan_url(url: &str, scan_id: &str) -> (address: String)
    ensures
        address@ == url@ + api_base() + "/scan/"@ + scan_id@,
{
    let mut address = String::from_str(url);
    address.append("/api/v1");
    address.append("/scan/");
    address.append(scan_id);
    address
}

/// The address of an issue.
pub fn issue_url(url: &str, issue: &str) -> (address: String)
    ensures
        address@ == url@ + api_base() + "/issue/"@ + issue@,
{
    let mut address = String::from_str(url);
    address.append("/api/v1");
    address.append("/issue/");
    address.append(issue);
    address
}

/// The address of the list of scans.
pub fn scans_url(url: &str) -> (address: String)
    ensures
        address@ == url@ + api_base() + "/scans"@,
{
    let mut address = String::from_str(url);
    address.append("/api/v1");
    address.append("/scans");
    address
}

/// The address at which a token is verified.
pub fn verify_url(url: &str) -> (address: String)
    ensures
        address@ == url@ + api_base() + "/verify"@,
{
    let mut address = String::from_str(url);
    address.append("/api/v1");
    address.append("/verify");
    address
}

/// The address at which a scan is held against the project's blocking
/// rules.
pub fn blocking_rules_url(url: &str, scan_id: &str) -> (address: String)
    ensures
        address@ == url@ + api_base() + "/scan/"@ + scan_id@ + "/check_blocking_rules"@,
{
    let mut address = String::from_str(url);
    address.append("/api/v1");
    address.append("/scan/");
    address.append(scan_id);
    address.append("/check_blocking_rules");
    address
}

/// The address of a list of issues before its page is named: the issues of
/// a scan, or those of a project.
pub open spec fn issues_address(url: Seq<char>, project: Seq<char>, scan_id: Option<Seq<char>>) -> Seq<
    char,
> {
    match scan_id {
        Some(id) => url + api_base() + "/scan/"@ + id + "/issues"@,
        None => url + api_base() + "/issues?project="@ + project,
    }
}

/// The address of one page of a list of issues. The page, where one is
/// asked for, is the first parameter of a scan's address and a further one
/// of a project's; the page size follows, 30 where none is asked for.
pub open spec fn issues_page_address(
    url: Seq<char>,
    project: Seq<char>,
    page: Option<u16>,
    page_size: Option<u16>,
    scan_id: Option<Seq<char>>,
) -> Seq<char> {
    let address = issues_address(url, project, scan_id);
    let paged = match page {
        Some(p) => address + (if scan_id is Some {
            "?"@
        } else {
            "&"@
        }) + "page="@ + numeral(p as nat),
        None => address,
    };
    match page_size {
        Some(n) => paged + "&page_size="@ + numeral(n as nat),
        None => paged + "&page_size=30"@,
    }
}

/// The address of one page of a list of issues.
pub fn scan_issues_url(
    url: &str,
    project: &str,
    page: Option<u16>,
    page_size: Option<u16>,
    scan_id: Option<&str>,
) -> (address: String)
    ensures
        address@ == issues_page_address(
            url@,
            project@,
            page,
            page_size,
            match scan_id {
                Some(id) => Some(id@),
                None => None,
            },
        ),
{
    let mut address = String::from_str(url);
    address.append("/api/v1");
    let separator = match scan_id {
        Some(id) => {
            address.append("/scan/");
            address.append(id);
            address.append("/issues");
            "?"
        },
        None => {
            address.append("/issues?project=");
            address.append(project);
            "&"
        },
    };
    if let Some(p) = page {
        address.append(separator);
        address.append("page=");
        push_decimal(p as u64, &mut address);
    }
    match page_size {
        Some(n) => {
            address.append("&page_size=");
            push_decimal(n as u64, &mut address);
        },
        None => {
            address.append("&page_size=30");
        },
    }
    address
}

/// One parameter of a query.
pub struct QueryParam {
    pub name: String,
    pub value: String,
}

/// The parameters with which a page of the list of scans is asked for: the
/// page, the first where none is named; the page size, 30 where none is
/// named; and the project, where one is named.
pub fn scan_list_query(project: Option<&str>, page: Option<u16>, page_size: Option<u16>) -> (query:
    Vec<QueryParam>)
    ensures
        query@.len() == (if project is Some {
            3nat
        } else {
            2nat
        }),
        query@[0].name@ == "page"@,
        query@[0].value@ == numeral(
            match page {
                Some(p) => p as nat,
                None => 1,
            },
        ),
        query@[1].name@ == "page_size"@,
        query@[1].value@ == numeral(
            match page_size {
                Some(n) => n as nat,
                None => 30,
            },
        ),
        project matches Some(p) ==> query@[2].name@ == "project"@ && query@[2].value@ == p@,
{
    let mut query: Vec<QueryParam> = Vec::new();
    let page = match page {
        Some(p) => p,
        None => 1,
    };
    let page_size = match page_size {
        Some(n) => n,
        None => PAGE_SIZE,
    };
    query.push(
        QueryParam { name: String::from_str("page"), value: crate::text::decimal(page as u64) },
    );
    query.push(
        QueryParam {
            name: String::from_str("page_size"),
            value: crate::text::decimal(page_size as u64),
        },
    );
    if let Some(p) = project {
        query.push(QueryParam { name: String::from_str("project"), value: String::from_str(p) });
    }
    query
}

/// What the status of a list of issues says: nothing where it is `ok`, and
/// else the failure it stands for.
pub open spec fn issues_failure(status: Seq<char>) -> Option<Seq<char>> {
    if status == "ok"@ {
        None
    } else if status == "no_project_found"@ {
        Some("Project not found 404"@)
    } else {
        Some("Server error 500"@)
    }
}

/// Takes a list of issues as the server sent it and hands it on where its
/// status is `ok`; any other status is a failure.
pub fn get_scan_issues(response: ProjectIssuesResponse) -> (checked: Result<
    ProjectIssuesResponse,
    String,
>)
    ensures
        match checked {
            Ok(r) => r == response && issues_failure(response.status@) is None,
            Err(message) => issues_failure(response.status@) == Some(message@),
        },
{
    if same(response.status.as_str(), "ok") {
        Ok(response)
    } else if same(response.status.as_str(), "no_project_found") {
        Err(String::from_str("Project not found 404"))
    } else {
        Err(String::from_str("Server error 500"))
    }
}

/// Whether the server vouches for a token: the `status` of its reply is
/// `ok`.
pub fn verify_token(status: Option<&str>) -> (valid: bool)
    ensures
        valid == (status matches Some(s) && s@ == "ok"@),
{
    match status {
        Some(s) => same(s, "ok"),
        None => false,
    }
}

/// The issues gathered so far, and the page that is asked for next.
pub struct IssuePager {
    issues: Vec<Issue>,
    page: u16,
}

/// The content of an [`IssuePager`].
pub struct PagerView {
    pub issues: Seq<Issue>,
    pub page: u16,
}

impl View for IssuePager {
    type V = PagerView;

    closed spec fn view(&self) -> PagerView {
        PagerView { issues: self.issues@, page: self.page }
    }
}

/// How the gathering of issues goes on.
pub enum PagerStep {
    /// Ask for the page that the pager names.
    Fetch(IssuePager),
    /// These are all the issues.
    Done(Vec<Issue>),
    /// The issues cannot be had.
    Failed(String),
}

/// The content of a [`PagerStep`].
pub enum PagerStepView {
    Fetch(PagerView),
    Done(Seq<Issue>),
    Failed(Seq<char>),
}

impl View for PagerStep {
    type V = PagerStepView;

    open spec fn view(&self) -> PagerStepView {
        match self {
            PagerStep::Fetch(pager) => PagerStepView::Fetch(pager@),
            PagerStep::Done(issues) => PagerStepView::Done(issues@),
            PagerStep::Failed(message) => PagerStepView::Failed(message@),
        }
    }
}

/// The page was the last: the server says that there are no more, or no
/// further page can be named.
pub open spec fn is_last_page(page: u16, total_pages: Option<u32>) -> bool {
    (total_pages matches Some(total) && page >= total) || page == u16::MAX
}

/// How the gathering goes on after the reply to the request for the
/// pager's page. A page without issues ends it, and so does the last page;
/// a reply that is an error, or that holds no list of issues, fails it.
pub open spec fn pager_step(pager: PagerView, reply: Result<ProjectIssuesResponse, String>) -> PagerStepView {
    match reply {
        Err(e) => PagerStepView::Failed("Failed to get scan issues: "@ + e@),
        Ok(response) => match response.issues {
            None => PagerStepView::Failed("No issues found in response"@),
            Some(issues) => if issues@.len() == 0 {
                PagerStepView::Done(pager.issues)
            } else if is_last_page(pager.page, response.total_pages) {
                PagerStepView::Done(pager.issues + issues@)
            } else {
                PagerStepView::Fetch(
                    PagerView { issues: pager.issues + issues@, page: (pager.page + 1) as u16 },
                )
            },
        },
    }
}

impl IssuePager {
    /// A pager that has gathered nothing and asks for the first page.
    pub fn new() -> (pager: IssuePager)
        ensures
            pager@.issues.len() == 0,
            pager@.page == 1,
    {
        IssuePager { issues: Vec::new(), page: 1 }
    }

    /// The page to ask for.
    pub fn page(&self) -> (page: u16)
        ensures
            page == self@.page,
    {
        self.page
    }
}

/// Takes the reply to the request for the pager's page and says how the
/// gathering of issues goes on.
pub fn get_all_issues(pager: IssuePager, reply: Result<ProjectIssuesResponse, String>) -> (step:
    PagerStep)
    ensures
        step@ == pager_step(pager@, reply),
{
    let mut pager = pager;
    match reply {
        Err(e) => PagerStep::Failed(join("Failed to get scan issues: ", e.as_str())),
        Ok(response) => match response.issues {
            None => PagerStep::Failed(String::from_str("No issues found in response")),
            Some(issues) => {
                let mut issues = issues;
                if issues.len() == 0 {
                    return PagerStep::Done(pager.issues);
                }
                pager.issues.append(&mut issues);
                let last = match response.total_pages {
                    Some(total) => pager.page as u32 >= total,
                    None => false,
                };
                if last || pager.page == u16::MAX {
                    PagerStep::Done(pager.issues)
                } else {
                    pager.page = pager.page + 1;
                    PagerStep::Fetch(pager)
                }
            },
        },
    }
}

/// What the server says of the client's version.
pub struct VersionNotice {
    /// The version is deprecated: the user is told to upgrade.
    pub deprecated: bool,
    /// The version is no longer supported: the client stops.
    pub unsupported: bool,
}

/// The code that one warning carries: its first word.
pub open spec fn warning_code(warning: Seq<char>) -> Seq<char> {
    pieces(trimmed(warning), ' ')[0]
}

/// One of the warnings carries the code 299.
pub open spec fn any_deprecation(warnings: Seq<Seq<char>>) -> bool {
    exists|i: int| 0 <= i < warnings.len() && warning_code(#[trigger] warnings[i]) == "299"@
}

/// The `Warning` header, a list of warnings separated by commas, carries
/// the code 299.
pub open spec fn warns_of_deprecation(header: Option<Seq<char>>) -> bool {
    match header {
        Some(h) => any_deprecation(pieces(h, ',')),
        None => false,
    }
}

/// What a reply says of the client's version, given its `Warning` header
/// and its status: a warning with the code 299 deprecates the version, the
/// status 410 ends its support.
pub fn check_for_warnings(warning: Option<&str>, status: u16) -> (notice: VersionNotice)
    ensures
        notice.deprecated == warns_of_deprecation(
            match warning {
                Some(w) => Some(w@),
                None => None,
            },
        ),
        notice.unsupported == (status == 410),
{
    let mut deprecated = false;
    if let Some(header) = warning {
        let warnings = split(header, ',');
        let mut i: usize = 0;
        while i < warnings.len()
            invariant
                i <= warnings@.len(),
                strings(warnings@) == pieces(header@, ','),
                deprecated == any_deprecation(strings(warnings@).take(i as int)),
            decreases warnings@.len() - i,
        {
            let ghost all = strings(warnings@);
            let words = split(trim(warnings[i].as_str()), ' ');
            proof {
                lemma_pieces_nonempty(trimmed(warnings@[i as int]@), ' ');
                assert(all[i as int] == warnings@[i as int]@);
            }
            let hit = same(words[0].as_str(), "299");
            assert(hit == (warning_code(all[i as int]) == "299"@)) by {
                assert(strings(words@)[0] == words@[0]@);
            }
            proof {
                let before = all.take(i as int);
                let after = all.take(i as int + 1);
                if any_deprecation(after) {
                    let k = choose|k: int|
                        0 <= k < after.len() && warning_code(#[trigger] after[k]) == "299"@;
                    if k < i {
                        assert(before[k] == after[k]);
                    }
                }
                if any_deprecation(before) {
                    let k = choose|k: int|
                        0 <= k < before.len() && warning_code(#[trigger] before[k]) == "299"@;
                    assert(after[k] == before[k]);
                }
                if hit {
                    assert(after[i as int] == all[i as int]);
                }
            }
            if hit {
                deprecated = true;
            }
            i = i + 1;
        }
        assert(strings(warnings@).take(i as int) =~= strings(warnings@));
    }
    VersionNotice { deprecated, unsupported: status == 410 }
}

} // verus!

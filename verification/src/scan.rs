//! Submitting a scanner's report: what to do with it, and the upload of the
//! files it refers to.
//!
//! The files go up one by one. A file that the server refuses is tried again,
//! three times in all with a second between the attempts, and then given up;
//! the batch goes on with the next file. The caller looks for each file and
//! talks to the server; what follows from each finding is decided here.

use vstd::prelude::*;
use vstd::string::StrSliceExecFns;
use vstd::string::StringExecFns;
use crate::json::{parse, view_of_ref, Json, JsonValue};
use crate::scanners::parsers::{
    first_result, priority_order, unsupported_message, ParseResult, ScanParserFactory,
};
use crate::text::{
    contains, contains_text, has_substring, lemma_strings_push, same, signed_decimal,
    signed_numeral, strings, trim, trim_start_matches, trimmed, without_leading,
};

verus! {

/// The number of attempts that one file gets.
pub const MAX_ATTEMPTS: u8 = 3;

/// The seconds between two attempts on one file.
pub const RETRY_DELAY_SECONDS: u64 = 1;

/// What is to be done with a report.
pub enum ScanPlan {
    /// The report refers to no file: there are no issues, and nothing is
    /// uploaded.
    NoIssues,
    /// The report is uploaded, with the files it refers to.
    Upload { result: ParseResult, report: String },
    /// The report is of no supported format.
    Unsupported(String),
}

/// A report as it is read and sent: without the byte order mark it may begin
/// with, and without white space at its ends.
pub open spec fn cleaned(input: Seq<char>) -> Seq<char> {
    trimmed(without_leading(input, '\u{feff}'))
}

impl ScanPlan {
    /// The code with which the client exits at once, where the plan is to
    /// stop: 0 where there is nothing to report, 1 where the report cannot be
    /// read.
    pub fn exit_code(&self) -> (code: Option<i32>)
        ensures
            code == (match self {
                ScanPlan::NoIssues => Some(0i32),
                ScanPlan::Upload { .. } => None,
                ScanPlan::Unsupported(_) => Some(1i32),
            }),
    {
        match self {
            ScanPlan::NoIssues => Some(0),
            ScanPlan::Upload { .. } => None,
            ScanPlan::Unsupported(_) => Some(1),
        }
    }
}

/// Reads a report and says what is to be done with it. A report that no
/// format yields a result for is unsupported; one whose result names no file
/// means that there are no issues; any other is uploaded as cleaned.
pub fn parse_scan(input: &str) -> (plan: ScanPlan)
    ensures
        match first_result(priority_order(), cleaned(input@)) {
            Some(found) => if found.paths.len() == 0 {
                plan is NoIssues
            } else {
                plan matches ScanPlan::Upload { result, report } && result@ == found && report@
                    == cleaned(input@)
            },
            None => plan matches ScanPlan::Unsupported(message) && message@
                == unsupported_message(),
        },
{
    let cleaned_input = trim(trim_start_matches(input, '\u{feff}'));
    let factory = ScanParserFactory::new();
    match factory.parse_scan_data(cleaned_input) {
        Ok(result) => {
            if result.paths.len() == 0 {
                ScanPlan::NoIssues
            } else {
                ScanPlan::Upload { result, report: cleaned_input.to_owned() }
            }
        },
        Err(message) => ScanPlan::Unsupported(message),
    }
}

/// The accounts of a batch.
pub struct BatchView {
    /// The files to upload, as the report names them.
    pub paths: Seq<Seq<char>>,
    /// How many of them have been dealt with.
    pub next: nat,
    /// How often the server has refused the file at hand.
    pub failed_attempts: nat,
    /// The files that the server has taken.
    pub uploaded_paths: Seq<Seq<char>>,
    /// How many files the server has taken.
    pub uploaded_count: nat,
    /// How many files were given up.
    pub upload_error_count: nat,
}

impl BatchView {
    /// The accounts add up: no file is counted before it has been dealt
    /// with, and a file is given up before it is tried a fourth time.
    pub open spec fn wf(self) -> bool {
        &&& self.next <= self.paths.len()
        &&& self.failed_attempts < MAX_ATTEMPTS
        &&& self.uploaded_count == self.uploaded_paths.len()
        &&& self.uploaded_count + self.upload_error_count <= self.next
        &&& forall|i: int|
            0 <= i < self.uploaded_paths.len() ==> self.paths.take(self.next as int).contains(
                #[trigger] self.uploaded_paths[i],
            )
    }

    /// A file is at hand.
    pub open spec fn busy(self) -> bool {
        self.wf() && self.next < self.paths.len()
    }

    /// The file at hand.
    pub open spec fn current(self) -> Seq<char> {
        self.paths[self.next as int]
    }

    /// The accounts once the file at hand is dealt with.
    pub open spec fn moved_on(self) -> BatchView {
        BatchView { next: self.next + 1, failed_attempts: 0, ..self }
    }
}

/// Why a batch is abandoned.
pub enum BatchFault {
    /// A file that the report refers to is not there.
    MissingFile(Seq<char>),
    /// A request had no reply.
    RequestFailed(Seq<char>),
    /// The server took none of the files.
    NothingUploaded,
}

/// What the caller does next, with the accounts as they then stand.
pub enum StepView {
    /// Look whether the file at hand is there.
    CheckFile(BatchView),
    /// Wait for so many seconds, then send the file at hand.
    SendFile(BatchView, nat),
    /// Every file has been dealt with and at least one was taken: upload the
    /// report.
    UploadReport(BatchView),
    /// Give up.
    Fail(BatchFault),
}

/// What follows once a file has been dealt with: the next file is looked
/// for; after the last, the report is uploaded where a file was taken, and
/// the batch has failed where none was.
pub open spec fn step_on(batch: BatchView) -> StepView {
    if batch.next < batch.paths.len() {
        StepView::CheckFile(batch)
    } else if batch.uploaded_count == 0 {
        StepView::Fail(BatchFault::NothingUploaded)
    } else {
        StepView::UploadReport(batch)
    }
}

/// What follows once the file at hand was looked for: a missing file ends
/// the batch, one that the server has taken before is passed over, any other
/// is sent at once.
pub open spec fn step_after_check(batch: BatchView, exists: bool) -> StepView {
    if !exists {
        StepView::Fail(BatchFault::MissingFile(batch.current()))
    } else if batch.uploaded_paths.contains(batch.current()) {
        step_on(batch.moved_on())
    } else {
        StepView::SendFile(batch, 0)
    }
}

/// What came of sending a file.
pub enum SendOutcome {
    /// The server replied; `true` where its status says success.
    Replied(bool),
    /// No reply was had; the text says why.
    Failed(String),
}

/// What follows once the file at hand was sent: a request without reply ends
/// the batch; a file that the server took is counted and the batch moves on;
/// one that it refused is sent again after a delay, unless that was the last
/// attempt, whereupon the file is given up and the batch moves on.
pub open spec fn step_after_send(batch: BatchView, outcome: SendOutcome) -> StepView {
    match outcome {
        SendOutcome::Failed(e) => StepView::Fail(BatchFault::RequestFailed(e@)),
        SendOutcome::Replied(true) => step_on(
            BatchView {
                uploaded_paths: batch.uploaded_paths.push(batch.current()),
                uploaded_count: batch.uploaded_count + 1,
                ..batch.moved_on()
            },
        ),
        SendOutcome::Replied(false) => if batch.failed_attempts + 1 < MAX_ATTEMPTS {
            StepView::SendFile(
                BatchView { failed_attempts: batch.failed_attempts + 1, ..batch },
                RETRY_DELAY_SECONDS as nat,
            )
        } else {
            step_on(
                BatchView { upload_error_count: batch.upload_error_count + 1, ..batch.moved_on() },
            )
        },
    }
}

/// The file at hand is given up with this sending: the server has refused
/// it, and that was the last attempt.
pub open spec fn gives_up(batch: BatchView, outcome: SendOutcome) -> bool {
    outcome == SendOutcome::Replied(false) && batch.failed_attempts + 1 >= MAX_ATTEMPTS
}

/// The accounts of a batch.
struct Batch {
    paths: Vec<String>,
    next: usize,
    failed_attempts: u8,
    uploaded_paths: Vec<String>,
    uploaded_count: usize,
    upload_error_count: usize,
}

impl View for Batch {
    type V = BatchView;

    closed spec fn view(&self) -> BatchView {
        BatchView {
            paths: strings(self.paths@),
            next: self.next as nat,
            failed_attempts: self.failed_attempts as nat,
            uploaded_paths: strings(self.uploaded_paths@),
            uploaded_count: self.uploaded_count as nat,
            upload_error_count: self.upload_error_count as nat,
        }
    }
}

/// A batch that waits to hear whether the file at hand is there.
pub struct PendingCheck {
    batch: Batch,
}

/// A batch that waits to hear what came of sending the file at hand.
pub struct PendingSend {
    batch: Batch,
}

/// The accounts of a batch whose files have all been dealt with.
pub struct BatchSummary {
    pub uploaded_count: usize,
    pub upload_error_count: usize,
}

/// Why a batch is abandoned.
#[derive(Debug)]
pub enum BatchError {
    /// A file that the report refers to is not there.
    MissingFile(String),
    /// A request had no reply.
    RequestFailed(String),
    /// The server took none of the files.
    NothingUploaded,
}

impl View for BatchError {
    type V = BatchFault;

    open spec fn view(&self) -> BatchFault {
        match self {
            BatchError::MissingFile(path) => BatchFault::MissingFile(path@),
            BatchError::RequestFailed(e) => BatchFault::RequestFailed(e@),
            BatchError::NothingUploaded => BatchFault::NothingUploaded,
        }
    }
}

impl BatchFault {
    /// The words in which the failure is reported.
    pub open spec fn message(self) -> Seq<char> {
        match self {
            BatchFault::MissingFile(path) => "Required file "@ + path
                + " not found which is required for the scan, exiting."@,
            BatchFault::RequestFailed(e) => "Failed to send request: "@ + e,
            BatchFault::NothingUploaded => "Failed to upload any files for the scan, exiting."@,
        }
    }
}

impl BatchError {
    /// The words in which the failure is reported.
    pub fn message(&self) -> (text: String)
        ensures
            text@ == self@.message(),
    {
        match self {
            BatchError::MissingFile(path) => {
                let mut text = String::from_str("Required file ");
                text.append(path.as_str());
                text.append(" not found which is required for the scan, exiting.");
                text
            },
            BatchError::RequestFailed(e) => {
                let mut text = String::from_str("Failed to send request: ");
                text.append(e.as_str());
                text
            },
            BatchError::NothingUploaded => String::from_str(
                "Failed to upload any files for the scan, exiting.",
            ),
        }
    }
}

/// What came of sending a file, for the batch.
pub struct Sent {
    /// The file was refused for the last time and is given up.
    pub given_up: bool,
    /// What the caller does next.
    pub step: BatchStep,
}

/// What the caller does next.
pub enum BatchStep {
    /// Look whether the file at hand is there, and say so.
    CheckFile(PendingCheck),
    /// Wait for so many seconds, send the file at hand, and say what came of
    /// it.
    SendFile(PendingSend, u64),
    /// Every file has been dealt with and at least one was taken: upload the
    /// report.
    UploadReport(BatchSummary),
    /// Give up.
    Fail(BatchError),
}

impl View for PendingCheck {
    type V = BatchView;

    closed spec fn view(&self) -> BatchView {
        self.batch@
    }
}

impl View for PendingSend {
    type V = BatchView;

    closed spec fn view(&self) -> BatchView {
        self.batch@
    }
}

impl BatchSummary {
    /// The summary of these accounts.
    pub open spec fn sums_up(&self, batch: BatchView) -> bool {
        self.uploaded_count == batch.uploaded_count && self.upload_error_count
            == batch.upload_error_count
    }
}

impl BatchStep {
    /// This step is the step `step`.
    pub open spec fn is_step(&self, step: StepView) -> bool {
        match (self, step) {
            (BatchStep::CheckFile(pending), StepView::CheckFile(batch)) => pending@ == batch
                && batch.busy(),
            (BatchStep::SendFile(pending, delay), StepView::SendFile(batch, seconds)) => pending@
                == batch && batch.busy() && delay == seconds,
            (BatchStep::UploadReport(summary), StepView::UploadReport(batch)) => summary.sums_up(
                batch,
            ) && batch.wf() && batch.next == batch.paths.len(),
            (BatchStep::Fail(error), StepView::Fail(fault)) => error@ == fault,
            _ => false,
        }
    }
}

impl Batch {
    /// Goes on once a file has been dealt with.
    fn step_on(self) -> (step: BatchStep)
        requires
            self@.wf(),
        ensures
            step.is_step(step_on(self@)),
    {
        if self.next < self.paths.len() {
            BatchStep::CheckFile(PendingCheck { batch: self })
        } else if self.uploaded_count == 0 {
            BatchStep::Fail(BatchError::NothingUploaded)
        } else {
            BatchStep::UploadReport(
                BatchSummary {
                    uploaded_count: self.uploaded_count,
                    upload_error_count: self.upload_error_count,
                },
            )
        }
    }
}

/// The accounts of a batch that has dealt with no file yet.
pub open spec fn fresh_batch(paths: Seq<Seq<char>>) -> BatchView {
    BatchView {
        paths,
        next: 0,
        failed_attempts: 0,
        uploaded_paths: Seq::empty(),
        uploaded_count: 0,
        upload_error_count: 0,
    }
}

/// Begins the upload of the files that a report refers to.
pub fn upload_scan(paths: Vec<String>) -> (step: BatchStep)
    ensures
        step.is_step(step_on(fresh_batch(strings(paths@)))),
{
    let batch = Batch {
        paths,
        next: 0,
        failed_attempts: 0,
        uploaded_paths: Vec::new(),
        uploaded_count: 0,
        upload_error_count: 0,
    };
    assert(batch@ =~= fresh_batch(strings(paths@))) by {
        assert(strings(batch.uploaded_paths@) =~= Seq::<Seq<char>>::empty());
    }
    batch.step_on()
}

impl PendingCheck {
    /// The file to look for.
    pub fn path(&self) -> (path: &str)
        requires
            self@.busy(),
        ensures
            path@ == self@.current(),
    {
        self.batch.paths[self.batch.next].as_str()
    }

    /// Takes whether the file at hand is there and says what follows.
    pub fn file_checked(self, exists: bool) -> (step: BatchStep)
        requires
            self@.busy(),
        ensures
            step.is_step(step_after_check(self@, exists)),
    {
        let mut batch = self.batch;
        let count = batch.paths.len();
        assert(batch.next < count) by {
            assert(batch@.paths.len() == batch.paths@.len());
        }
        if !exists {
            return BatchStep::Fail(BatchError::MissingFile(batch.paths[batch.next].clone()));
        }
        if contains_text(&batch.uploaded_paths, batch.paths[batch.next].as_str()) {
            proof {
                lemma_take_grows(strings(batch.paths@), batch.next as int);
            }
            batch.next = batch.next + 1;
            batch.failed_attempts = 0;
            batch.step_on()
        } else {
            BatchStep::SendFile(PendingSend { batch }, 0)
        }
    }
}

/// What the first `n` of `list` contain, the first `n + 1` contain too, and
/// also the item at `n`.
pub proof fn lemma_take_grows<A>(list: Seq<A>, n: int)
    requires
        0 <= n < list.len(),
    ensures
        list.take(n + 1).contains(list[n]),
        forall|x: A| list.take(n).contains(x) ==> #[trigger] list.take(n + 1).contains(x),
{
    assert(list.take(n + 1)[n] == list[n]);
    assert forall|x: A| list.take(n).contains(x) implies #[trigger] list.take(n + 1).contains(
        x,
    ) by {
        let i = choose|i: int| 0 <= i < list.take(n).len() && list.take(n)[i] == x;
        assert(list.take(n + 1)[i] == x);
    }
}

impl PendingSend {
    /// The file to send.
    pub fn path(&self) -> (path: &str)
        requires
            self@.busy(),
        ensures
            path@ == self@.current(),
    {
        self.batch.paths[self.batch.next].as_str()
    }

    /// Takes what came of sending the file at hand and says what follows,
    /// and whether the file was given up.
    pub fn file_sent(self, outcome: SendOutcome) -> (sent: Sent)
        requires
            self@.busy(),
        ensures
            sent.step.is_step(step_after_send(self@, outcome)),
            sent.given_up == gives_up(self@, outcome),
    {
        let mut batch = self.batch;
        let ghost old_view = batch@;
        let count = batch.paths.len();
        assert(batch.next < count) by {
            assert(batch@.paths.len() == batch.paths@.len());
        }
        assert(batch.uploaded_count + batch.upload_error_count <= batch.next);
        proof {
            lemma_take_grows(strings(batch.paths@), batch.next as int);
        }
        match outcome {
            SendOutcome::Failed(e) => Sent {
                given_up: false,
                step: BatchStep::Fail(BatchError::RequestFailed(e)),
            },
            SendOutcome::Replied(true) => {
                let path = batch.paths[batch.next].clone();
                proof {
                    lemma_strings_push(batch.uploaded_paths@, path);
                }
                batch.uploaded_paths.push(path);
                batch.uploaded_count = batch.uploaded_count + 1;
                batch.next = batch.next + 1;
                batch.failed_attempts = 0;
                proof {
                    let pushed = old_view.uploaded_paths.push(old_view.current());
                    assert forall|i: int| 0 <= i < pushed.len() implies old_view.paths.take(
                        old_view.next as int + 1,
                    ).contains(#[trigger] pushed[i]) by {
                        if i < old_view.uploaded_paths.len() {
                            assert(pushed[i] == old_view.uploaded_paths[i]);
                        }
                    }
                }
                Sent { given_up: false, step: batch.step_on() }
            },
            SendOutcome::Replied(false) => {
                if batch.failed_attempts + 1 < MAX_ATTEMPTS {
                    batch.failed_attempts = batch.failed_attempts + 1;
                    Sent {
                        given_up: false,
                        step: BatchStep::SendFile(PendingSend { batch }, RETRY_DELAY_SECONDS),
                    }
                } else {
                    batch.upload_error_count = batch.upload_error_count + 1;
                    batch.next = batch.next + 1;
                    batch.failed_attempts = 0;
                    Sent { given_up: true, step: batch.step_on() }
                }
            },
        }
    }
}

/// A file that the server refuses is sent again until it has been sent
/// three times; the third refusal gives the file up, counts it as an error,
/// and does not end the batch unless it was the last file and none was
/// taken.
pub proof fn lemma_refusals_give_up_after_three(batch: BatchView)
    requires
        batch.busy(),
    ensures
        batch.failed_attempts < 2 ==> step_after_send(batch, SendOutcome::Replied(false))
            == StepView::SendFile(
            BatchView { failed_attempts: batch.failed_attempts + 1, ..batch },
            RETRY_DELAY_SECONDS as nat,
        ),
        batch.failed_attempts == 2 ==> step_after_send(batch, SendOutcome::Replied(false))
            == step_on(
            BatchView { upload_error_count: batch.upload_error_count + 1, ..batch.moved_on() },
        ),
        batch.failed_attempts == 2 && (batch.next + 1 < batch.paths.len() || batch.uploaded_count
            > 0) ==> !(step_after_send(batch, SendOutcome::Replied(false)) is Fail),
        gives_up(batch, SendOutcome::Replied(false)) <==> batch.failed_attempts == 2,
        !gives_up(batch, SendOutcome::Replied(true)),
{
}

/// A file that the server takes is counted as uploaded, whatever was
/// refused before, and the batch cannot fail for want of an upload any more.
pub proof fn lemma_taken_file_counts(batch: BatchView)
    requires
        batch.busy(),
    ensures
        ({
            let after = BatchView {
                uploaded_paths: batch.uploaded_paths.push(batch.current()),
                uploaded_count: batch.uploaded_count + 1,
                ..batch.moved_on()
            };
            &&& step_after_send(batch, SendOutcome::Replied(true)) == step_on(after)
            &&& after.upload_error_count == batch.upload_error_count
            &&& !(step_on(after) is Fail)
        }),
{
}

/// The batch ends in the upload of the report exactly where a file was
/// taken, and it fails for want of an upload exactly where none was.
pub proof fn lemma_report_needs_an_upload(batch: BatchView)
    requires
        batch.wf(),
        batch.next == batch.paths.len(),
    ensures
        step_on(batch) is UploadReport <==> batch.uploaded_count > 0,
        step_on(batch) is Fail <==> batch.uploaded_count == 0,
{
}

/// The address to which one file of a report goes.
pub fn code_upload_url(base_url: &str, token: &str, run_id: &str, path: &str) -> (address: String)
    ensures
        address@ == base_url@ + "/api/cli/code-upload?token="@ + token@ + "&run_id="@ + run_id@
            + "&path="@ + path@,
{
    let mut address = String::from_str(base_url);
    address.append("/api/cli/code-upload?token=");
    address.append(token);
    address.append("&run_id=");
    address.append(run_id);
    address.append("&path=");
    address.append(path);
    address
}

/// The words for a truth value in an address.
pub open spec fn truth(value: bool) -> Seq<char> {
    if value {
        "true"@
    } else {
        "false"@
    }
}

/// The address to which the report itself goes. Data that the environment
/// asks to be forwarded is appended where there is any.
pub open spec fn report_address(
    base_url: Seq<char>,
    token: Seq<char>,
    scanner: Seq<char>,
    run_id: Seq<char>,
    project: Seq<char>,
    in_ci: bool,
    ci_platform: Seq<char>,
    repo_data: Seq<char>,
) -> Seq<char> {
    let address = base_url + "/api/cli/scan-upload?token="@ + token + "&engine="@ + scanner
        + "&run_id="@ + run_id + "&project="@ + project + "&ci="@ + truth(in_ci)
        + "&ci_platform="@ + ci_platform;
    if repo_data.len() == 0 {
        address
    } else {
        address + "&repo_data="@ + repo_data
    }
}

/// The address to which the report itself goes.
pub fn scan_upload_url(
    base_url: &str,
    token: &str,
    scanner: &str,
    run_id: &str,
    project: &str,
    in_ci: bool,
    ci_platform: &str,
    repo_data: &str,
) -> (address: String)
    ensures
        address@ == report_address(
            base_url@,
            token@,
            scanner@,
            run_id@,
            project@,
            in_ci,
            ci_platform@,
            repo_data@,
        ),
{
    let mut address = String::from_str(base_url);
    address.append("/api/cli/scan-upload?token=");
    address.append(token);
    address.append("&engine=");
    address.append(scanner);
    address.append("&run_id=");
    address.append(run_id);
    address.append("&project=");
    address.append(project);
    address.append("&ci=");
    if in_ci {
        address.append("true");
    } else {
        address.append("false");
    }
    address.append("&ci_platform=");
    address.append(ci_platform);
    if repo_data.unicode_len() > 0 {
        address.append("&repo_data=");
        address.append(repo_data);
    }
    address
}

/// The address to which the project's git configuration goes.
pub fn git_config_upload_url(base_url: &str, token: &str, run_id: &str) -> (address: String)
    ensures
        address@ == base_url@ + "/api/cli/git-config-upload?token="@ + token@ + "&run_id="@
            + run_id@,
{
    let mut address = String::from_str(base_url);
    address.append("/api/cli/git-config-upload?token=");
    address.append(token);
    address.append("&run_id=");
    address.append(run_id);
    address
}

/// The address to which the data of the continuous integration goes.
pub fn ci_data_upload_url(base_url: &str, token: &str, run_id: &str, platform: &str) -> (address:
    String)
    ensures
        address@ == base_url@ + "/api/cli/ci-data-upload?token="@ + token@ + "&run_id="@ + run_id@
            + "&platform="@ + platform@,
{
    let mut address = String::from_str(base_url);
    address.append("/api/cli/ci-data-upload?token=");
    address.append(token);
    address.append("&run_id=");
    address.append(run_id);
    address.append("&platform=");
    address.append(platform);
    address
}

/// The name of the file in which a report is kept.
pub fn report_file_name(scanner: &str, run_id: &str) -> (name: String)
    ensures
        name@ == "corgea_"@ + scanner@ + "_"@ + run_id@ + "_report.json"@,
{
    let mut name = String::from_str("corgea_");
    name.append(scanner);
    name.append("_");
    name.append(run_id);
    name.append("_report.json");
    name
}

/// The name under which a project is reported: in continuous integration
/// the repository and the pull request, joined by a hyphen, and nothing
/// where either is unknown; elsewhere the name of the directory.
pub fn project_name(
    in_ci: bool,
    repository: Option<&str>,
    pull_request: Option<&str>,
    directory: &str,
) -> (name: Option<String>)
    ensures
        match name {
            Some(n) => if in_ci {
                repository matches Some(r) && pull_request matches Some(p) && n@ == r@ + "-"@
                    + p@
            } else {
                n@ == directory@
            },
            None => in_ci && (repository is None || pull_request is None),
        },
{
    if in_ci {
        match (repository, pull_request) {
            (Some(r), Some(p)) => {
                let mut name = String::from_str(r);
                name.append("-");
                name.append(p);
                Some(name)
            },
            _ => None,
        }
    } else {
        Some(String::from_str(directory))
    }
}

/// The scan that a reply to the report names under `sast_scan_id`: the
/// string, or the numeral of the integer.
pub open spec fn scan_id_in(body: Option<JsonValue>) -> Option<Seq<char>> {
    match body {
        Some(doc) => match doc.member("sast_scan_id"@) {
            Some(id) => match id.text() {
                Some(text) => Some(text),
                None => match id.integer() {
                    Some(n) => Some(signed_numeral(n as int)),
                    None => None,
                },
            },
            None => None,
        },
        None => None,
    }
}

/// The scan that a reply to the report names, given the reply read as JSON.
pub fn scan_id_of(body: Option<&Json>) -> (id: Option<String>)
    ensures
        match id {
            Some(text) => scan_id_in(view_of_ref(body)) == Some(text@),
            None => scan_id_in(view_of_ref(body)) is None,
        },
{
    match body {
        Some(doc) => match doc.get("sast_scan_id") {
            Some(id) => match id.as_str() {
                Some(text) => Some(String::from_str(text)),
                None => match id.as_i64() {
                    Some(n) => Some(signed_decimal(n)),
                    None => None,
                },
            },
            None => None,
        },
        None => None,
    }
}

/// The scan that a reply to the report names. A reply without a body names
/// none.
pub fn scan_id_from_reply(body: &str) -> (id: Option<String>)
    ensures
        match id {
            Some(text) => body@.len() > 0 && scan_id_in(crate::json::document(body@)) == Some(
                text@,
            ),
            None => body@.len() == 0 || scan_id_in(crate::json::document(body@)) is None,
        },
{
    if body.unicode_len() == 0 {
        return None;
    }
    let doc = parse(body);
    scan_id_of(doc.as_ref())
}

/// What came of running a scanner.
pub enum CommandOutcome {
    /// The scanner wrote this report.
    Report(String),
    /// The scanner asks the user to log in first.
    NotAuthenticated,
    /// The scanner failed.
    Failed,
}

/// A scanner ended well: it says so, or it is Snyk and ended with the code
/// 1, with which it reports that it has found issues.
pub open spec fn ended_well(base_cmd: Seq<char>, success: bool, exit_code: Option<i32>) -> bool {
    success || (exit_code == Some(1i32) && base_cmd == "snyk"@)
}

/// What came of running the scanner `base_cmd`, given how it ended and what
/// it wrote.
pub fn run_command(base_cmd: &str, success: bool, exit_code: Option<i32>, stdout: String) -> (outcome:
    CommandOutcome)
    ensures
        match outcome {
            CommandOutcome::Report(report) => ended_well(base_cmd@, success, exit_code)
                && !has_substring(stdout@, "run `semgrep login`"@) && report == stdout,
            CommandOutcome::NotAuthenticated => ended_well(base_cmd@, success, exit_code)
                && has_substring(stdout@, "run `semgrep login`"@),
            CommandOutcome::Failed => !ended_well(base_cmd@, success, exit_code),
        },
{
    let snyk_found_issues = match exit_code {
        Some(code) => code == 1 && same(base_cmd, "snyk"),
        None => false,
    };
    if success || snyk_found_issues {
        if contains(stdout.as_str(), "run `semgrep login`") {
            CommandOutcome::NotAuthenticated
        } else {
            CommandOutcome::Report(stdout)
        }
    } else {
        CommandOutcome::Failed
    }
}

} // verus!

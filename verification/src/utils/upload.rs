//! The chunked upload of a packaged project.
//!
//! An upload is negotiated once, which yields a transfer id, and then the
//! file travels in chunks of [`CHUNK_SIZE`] bytes, each announced with the
//! number of bytes sent before it. The server answers the last chunk with the
//! id of the scan it has started. The caller reads the file and talks to the
//! server; what to make of each reading and each reply is decided here.

use vstd::prelude::*;
use vstd::string::StringExecFns;
use crate::json::{document, parse, view_of_ref, Json, JsonValue};
use crate::text::{contains, decimal, has_substring, join, numeral};
use crate::utils::generic::RepoInfo;

verus! {

/// The size of every chunk but the last: 50 MiB.
pub const CHUNK_SIZE: u64 = 52428800;

/// What came of one request.
pub enum Exchange {
    /// The server replied.
    Reply(HttpReply),
    /// No reply was had; the text says why.
    Failed(String),
}

/// A reply of the server.
pub struct HttpReply {
    pub status: u16,
    /// The status as it is shown to the user, such as `404 Not Found`.
    pub status_text: String,
    pub body: String,
}

/// The status says that the request succeeded.
pub open spec fn is_success(status: u16) -> bool {
    200 <= status <= 299
}

/// The status blames the request.
pub open spec fn is_client_error(status: u16) -> bool {
    400 <= status <= 499
}

/// Why an upload failed.
#[derive(Debug)]
pub enum UploadError {
    /// The negotiation request had no reply.
    Unreachable(String),
    /// The reply to the negotiation is no JSON object.
    BadReply,
    /// The server refused the negotiation, with this message.
    Rejected(String),
    /// The server accepted the negotiation and named no transfer.
    NoTransferId,
    /// A chunk request had no reply.
    SendFailed(String),
    /// The server knows none of the policies asked for.
    InvalidPolicy,
    /// The server refused a chunk, with this status.
    ChunkRejected(String),
    /// The reply to the last chunk names no scan.
    NoScanId,
    /// The file ended before the upload was complete, or went on beyond its
    /// size.
    Incomplete,
}

/// The content of an [`UploadError`].
pub enum UploadFault {
    Unreachable(Seq<char>),
    BadReply,
    Rejected(Seq<char>),
    NoTransferId,
    SendFailed(Seq<char>),
    InvalidPolicy,
    ChunkRejected(Seq<char>),
    NoScanId,
    Incomplete,
}

impl View for UploadError {
    type V = UploadFault;

    open spec fn view(&self) -> UploadFault {
        match self {
            UploadError::Unreachable(e) => UploadFault::Unreachable(e@),
            UploadError::BadReply => UploadFault::BadReply,
            UploadError::Rejected(m) => UploadFault::Rejected(m@),
            UploadError::NoTransferId => UploadFault::NoTransferId,
            UploadError::SendFailed(e) => UploadFault::SendFailed(e@),
            UploadError::InvalidPolicy => UploadFault::InvalidPolicy,
            UploadError::ChunkRejected(s) => UploadFault::ChunkRejected(s@),
            UploadError::NoScanId => UploadFault::NoScanId,
            UploadError::Incomplete => UploadFault::Incomplete,
        }
    }
}

impl UploadFault {
    /// The words in which the failure is reported.
    pub open spec fn message(self) -> Seq<char> {
        match self {
            UploadFault::Unreachable(e) =>
                "Network error: Unable to reach the server. Please try again later. Error: "@ + e,
            UploadFault::BadReply => "Error getting server response, Please try again later."@,
            UploadFault::Rejected(m) => "Request failed: "@ + m,
            UploadFault::NoTransferId =>
                "Failed to retrieve transfer ID. Please check the request parameters and try again."@,
            UploadFault::SendFailed(e) => "Failed to send request: "@ + e,
            UploadFault::InvalidPolicy =>
                "Invalid policy ids passed. Please check the policy ids and try again."@,
            UploadFault::ChunkRejected(s) => "Failed to upload file: "@ + s,
            UploadFault::NoScanId => "Failed to get scan_id from response"@,
            UploadFault::Incomplete => "Failed to upload file"@,
        }
    }
}

impl UploadError {
    /// The words in which the failure is reported.
    pub fn message(&self) -> (text: String)
        ensures
            text@ == self@.message(),
    {
        match self {
            UploadError::Unreachable(e) => join(
                "Network error: Unable to reach the server. Please try again later. Error: ",
                e.as_str(),
            ),
            UploadError::BadReply => String::from_str(
                "Error getting server response, Please try again later.",
            ),
            UploadError::Rejected(m) => join("Request failed: ", m.as_str()),
            UploadError::NoTransferId => String::from_str(
                "Failed to retrieve transfer ID. Please check the request parameters and try again.",
            ),
            UploadError::SendFailed(e) => join("Failed to send request: ", e.as_str()),
            UploadError::InvalidPolicy => String::from_str(
                "Invalid policy ids passed. Please check the policy ids and try again.",
            ),
            UploadError::ChunkRejected(s) => join("Failed to upload file: ", s.as_str()),
            UploadError::NoScanId => String::from_str("Failed to get scan_id from response"),
            UploadError::Incomplete => String::from_str("Failed to upload file"),
        }
    }
}

/// The content of a text or a failure.
pub open spec fn outcome_view(out: Result<String, UploadError>) -> Result<Seq<char>, UploadFault> {
    match out {
        Ok(text) => Ok(text@),
        Err(e) => Err(e@),
    }
}

/// What is said where the server refuses without a message of its own.
pub open spec fn unknown_refusal() -> Seq<char> {
    "An unknown error occurred. Please try again or contact support."@
}

/// What the reply to a negotiation grants, given its status and its body read
/// as JSON: the transfer id of a reply with status 200, and else the failure.
pub open spec fn granted(status: u16, body: Option<JsonValue>) -> Result<Seq<char>, UploadFault> {
    match body {
        Some(doc) => if !(doc is Object) {
            Err(UploadFault::BadReply)
        } else if status != 200 {
            Err(
                UploadFault::Rejected(
                    match doc.text_member("message"@) {
                        Some(message) => message,
                        None => unknown_refusal(),
                    },
                ),
            )
        } else {
            match doc.text_member("transfer_id"@) {
                Some(id) => Ok(id),
                None => Err(UploadFault::NoTransferId),
            }
        },
        None => Err(UploadFault::BadReply),
    }
}

/// What a negotiation yields.
pub open spec fn negotiated(exchange: Exchange) -> Result<Seq<char>, UploadFault> {
    match exchange {
        Exchange::Failed(e) => Err(UploadFault::Unreachable(e@)),
        Exchange::Reply(reply) => granted(reply.status, document(reply.body@)),
    }
}

/// The scan that the reply to the last chunk names, given its body read as
/// JSON.
pub open spec fn scan_named(body: Option<JsonValue>) -> Result<Seq<char>, UploadFault> {
    match body {
        Some(doc) => match doc.text_member("scan_id"@) {
            Some(id) => Ok(id),
            None => Err(UploadFault::NoScanId),
        },
        None => Err(UploadFault::NoScanId),
    }
}

/// What the reply to a negotiation grants, given its status and its body read
/// as JSON.
pub fn transfer_granted(status: u16, body: Option<&Json>) -> (out: Result<String, UploadError>)
    ensures
        outcome_view(out) == granted(status, view_of_ref(body)),
{
    match body {
        Some(doc) => {
            if !doc.is_object() {
                Err(UploadError::BadReply)
            } else if status != 200 {
                match doc.get_str("message") {
                    Some(message) => Err(UploadError::Rejected(message.to_owned())),
                    None => Err(
                        UploadError::Rejected(
                            String::from_str(
                                "An unknown error occurred. Please try again or contact support.",
                            ),
                        ),
                    ),
                }
            } else {
                match doc.get_str("transfer_id") {
                    Some(id) => Ok(id.to_owned()),
                    None => Err(UploadError::NoTransferId),
                }
            }
        },
        None => Err(UploadError::BadReply),
    }
}

/// The scan that the reply to the last chunk names, given its body read as
/// JSON.
pub fn scan_started(body: Option<&Json>) -> (out: Result<String, UploadError>)
    ensures
        outcome_view(out) == scan_named(view_of_ref(body)),
{
    match body {
        Some(doc) => match doc.get_str("scan_id") {
            Some(id) => Ok(id.to_owned()),
            None => Err(UploadError::NoScanId),
        },
        None => Err(UploadError::NoScanId),
    }
}

/// The state of one upload.
pub struct UploadSession {
    transfer_id: String,
    offset: u64,
    file_size: u64,
}

/// The content of an [`UploadSession`].
pub struct SessionView {
    /// The id under which the server knows the transfer.
    pub transfer_id: Seq<char>,
    /// The number of bytes that the server has acknowledged.
    pub offset: nat,
    /// The size of the file, fixed when the upload begins.
    pub file_size: nat,
}

impl SessionView {
    /// The bytes still to be sent.
    pub open spec fn remaining(self) -> int {
        self.file_size - self.offset
    }

    /// A reading of `bytes_read` bytes is one that can be sent: it holds
    /// something, and no more than the file has left.
    pub open spec fn can_send(self, bytes_read: nat) -> bool {
        0 < bytes_read <= self.remaining()
    }

    /// A chunk of `bytes_read` bytes is the last: it falls short of a full
    /// chunk, or it completes the file.
    pub open spec fn is_last(self, bytes_read: nat) -> bool {
        bytes_read < CHUNK_SIZE || self.offset + bytes_read == self.file_size
    }

    /// The number of bytes that a reader hands over where the file is all
    /// there: a full chunk, or what is left of the file.
    pub open spec fn full_read(self) -> nat {
        if self.remaining() < CHUNK_SIZE {
            self.remaining() as nat
        } else {
            CHUNK_SIZE as nat
        }
    }
}

/// What is to be done after a chunk.
pub enum ChunkOutcome {
    /// Send the next chunk.
    Continue,
    /// The upload is complete, and the server has started this scan.
    Finished(String),
    /// The upload is abandoned.
    Failed(UploadError),
}

/// The content of a [`ChunkOutcome`].
pub enum ChunkVerdict {
    Continue,
    Finished(Seq<char>),
    Failed(UploadFault),
}

impl View for ChunkOutcome {
    type V = ChunkVerdict;

    open spec fn view(&self) -> ChunkVerdict {
        match self {
            ChunkOutcome::Continue => ChunkVerdict::Continue,
            ChunkOutcome::Finished(id) => ChunkVerdict::Finished(id@),
            ChunkOutcome::Failed(e) => ChunkVerdict::Failed(e@),
        }
    }
}

/// The server took the chunk.
pub open spec fn acknowledged(exchange: Exchange) -> bool {
    exchange matches Exchange::Reply(reply) && is_success(reply.status)
}

/// What is to be done after a chunk of `bytes_read` bytes, sent from the state
/// `session`, came to `exchange`.
pub open spec fn chunk_verdict(session: SessionView, bytes_read: nat, exchange: Exchange) -> ChunkVerdict {
    if !session.can_send(bytes_read) {
        ChunkVerdict::Failed(UploadFault::Incomplete)
    } else {
        match exchange {
            Exchange::Failed(e) => ChunkVerdict::Failed(UploadFault::SendFailed(e@)),
            Exchange::Reply(reply) => if !is_success(reply.status) {
                if is_client_error(reply.status) && has_substring(
                    reply.body@,
                    "Invalid policy ids"@,
                ) {
                    ChunkVerdict::Failed(UploadFault::InvalidPolicy)
                } else {
                    ChunkVerdict::Failed(UploadFault::ChunkRejected(reply.status_text@))
                }
            } else if session.is_last(bytes_read) {
                match scan_named(document(reply.body@)) {
                    Ok(id) => ChunkVerdict::Finished(id),
                    Err(fault) => ChunkVerdict::Failed(fault),
                }
            } else {
                ChunkVerdict::Continue
            },
        }
    }
}

/// The state after a chunk of `bytes_read` bytes, sent from the state
/// `session`, came to `exchange`: the offset moves on by the chunk where the
/// server took it, and nothing changes otherwise.
pub open spec fn session_after(session: SessionView, bytes_read: nat, exchange: Exchange) -> SessionView {
    if session.can_send(bytes_read) && acknowledged(exchange) {
        SessionView { offset: session.offset + bytes_read, ..session }
    } else {
        session
    }
}

/// What a request for one chunk announces.
pub struct ChunkHeaders {
    /// `Upload-Offset`: the number of bytes sent before this chunk.
    pub upload_offset: u64,
    /// `Upload-Length`: the size of the whole file.
    pub upload_length: u64,
}

impl View for UploadSession {
    type V = SessionView;

    closed spec fn view(&self) -> SessionView {
        SessionView {
            transfer_id: self.transfer_id@,
            offset: self.offset as nat,
            file_size: self.file_size as nat,
        }
    }
}

impl UploadSession {
    /// The offset never lies beyond the end of the file, and the size is one
    /// that a file can have.
    pub open spec fn wf(&self) -> bool {
        self@.offset <= self@.file_size <= u64::MAX
    }

    /// Begins an upload of `file_size` bytes with the reply to the
    /// negotiation.
    pub fn begin(exchange: &Exchange, file_size: u64) -> (out: Result<UploadSession, UploadError>)
        ensures
            match out {
                Ok(session) => negotiated(*exchange) == Ok::<Seq<char>, UploadFault>(
                    session@.transfer_id,
                ) && session@.offset == 0 && session@.file_size == file_size && session.wf(),
                Err(e) => negotiated(*exchange) == Err::<Seq<char>, UploadFault>(e@),
            },
    {
        let granted = match exchange {
            Exchange::Failed(e) => Err(UploadError::Unreachable(e.clone())),
            Exchange::Reply(reply) => {
                let doc = parse(reply.body.as_str());
                transfer_granted(reply.status, doc.as_ref())
            },
        };
        match granted {
            Ok(transfer_id) => Ok(UploadSession { transfer_id, offset: 0, file_size }),
            Err(e) => Err(e),
        }
    }

    /// The id under which the server knows the transfer.
    pub fn transfer_id(&self) -> (id: &str)
        ensures
            id@ == self@.transfer_id,
    {
        self.transfer_id.as_str()
    }

    /// The number of bytes that the server has acknowledged.
    pub fn offset(&self) -> (offset: u64)
        ensures
            offset == self@.offset,
    {
        self.offset
    }

    /// The size of the file.
    pub fn file_size(&self) -> (size: u64)
        ensures
            size == self@.file_size,
    {
        self.file_size
    }

    /// What the request for a chunk of `bytes_read` bytes announces, or the
    /// failure where such a chunk cannot be sent: where nothing was read, or
    /// more than the file has left.
    pub fn chunk_read(&self, bytes_read: usize) -> (out: Result<ChunkHeaders, UploadError>)
        requires
            self.wf(),
        ensures
            match out {
                Ok(headers) => self@.can_send(bytes_read as nat) && headers.upload_offset
                    == self@.offset && headers.upload_length == self@.file_size,
                Err(e) => !self@.can_send(bytes_read as nat) && e@ == UploadFault::Incomplete,
            },
    {
        if bytes_read == 0 || bytes_read as u64 > self.file_size - self.offset {
            Err(UploadError::Incomplete)
        } else {
            Ok(ChunkHeaders { upload_offset: self.offset, upload_length: self.file_size })
        }
    }
}

/// Takes what came of sending a chunk of `bytes_read` bytes and says how the
/// upload goes on.
pub fn upload_zip(session: &mut UploadSession, bytes_read: usize, exchange: &Exchange) -> (outcome:
    ChunkOutcome)
    requires
        old(session).wf(),
    ensures
        final(session).wf(),
        final(session)@ == session_after(old(session)@, bytes_read as nat, *exchange),
        outcome@ == chunk_verdict(old(session)@, bytes_read as nat, *exchange),
        final(session)@.offset >= old(session)@.offset,
        outcome is Continue ==> final(session)@.offset > old(session)@.offset,
{
    if bytes_read == 0 || bytes_read as u64 > session.file_size - session.offset {
        return ChunkOutcome::Failed(UploadError::Incomplete);
    }
    match exchange {
        Exchange::Failed(e) => ChunkOutcome::Failed(UploadError::SendFailed(e.clone())),
        Exchange::Reply(reply) => {
            if !(200 <= reply.status && reply.status <= 299) {
                if 400 <= reply.status && reply.status <= 499 && contains(
                    reply.body.as_str(),
                    "Invalid policy ids",
                ) {
                    ChunkOutcome::Failed(UploadError::InvalidPolicy)
                } else {
                    ChunkOutcome::Failed(UploadError::ChunkRejected(reply.status_text.clone()))
                }
            } else {
                let last = (bytes_read as u64) < CHUNK_SIZE || session.offset + bytes_read as u64
                    == session.file_size;
                session.offset = session.offset + bytes_read as u64;
                if last {
                    let doc = parse(reply.body.as_str());
                    match scan_started(doc.as_ref()) {
                        Ok(id) => ChunkOutcome::Finished(id),
                        Err(e) => ChunkOutcome::Failed(e),
                    }
                } else {
                    ChunkOutcome::Continue
                }
            }
        },
    }
}

/// The offset never moves back, and it moves on with every chunk that the
/// server takes.
pub proof fn lemma_offset_grows(session: SessionView, bytes_read: nat, exchange: Exchange)
    requires
        session.offset <= session.file_size,
    ensures
        session_after(session, bytes_read, exchange).offset >= session.offset,
        session_after(session, bytes_read, exchange).offset <= session.file_size,
        session.can_send(bytes_read) && acknowledged(exchange) ==> session_after(
            session,
            bytes_read,
            exchange,
        ).offset > session.offset,
        chunk_verdict(session, bytes_read, exchange) is Continue ==> session_after(
            session,
            bytes_read,
            exchange,
        ).offset < session.file_size,
{
}

/// Where the file is all there, so that every reading fills the chunk or
/// takes what is left, the chunk after `k` full ones starts at `k` times the
/// chunk size. It is the last exactly when it reaches the end of the file,
/// and otherwise the next starts one chunk size further on.
pub proof fn lemma_chunks_in_order(session: SessionView, k: nat, exchange: Exchange)
    requires
        session.offset == k * CHUNK_SIZE,
        session.offset < session.file_size,
        acknowledged(exchange),
    ensures
        session.can_send(session.full_read()),
        session.is_last(session.full_read()) <==> (k + 1) * CHUNK_SIZE >= session.file_size,
        session.is_last(session.full_read()) ==> session_after(
            session,
            session.full_read(),
            exchange,
        ).offset == session.file_size,
        !session.is_last(session.full_read()) ==> session_after(
            session,
            session.full_read(),
            exchange,
        ).offset == (k + 1) * CHUNK_SIZE && chunk_verdict(session, session.full_read(), exchange)
            is Continue,
{
    assert((k + 1) * CHUNK_SIZE == k * CHUNK_SIZE + CHUNK_SIZE) by (nonlinear_arith);
}

/// The number of chunks in which a file of `file_size` bytes travels where
/// it is all there: as many full chunks as fit, and one more for what is
/// left. A file that is empty does not travel at all.
pub open spec fn chunk_count(file_size: nat) -> nat {
    if file_size % (CHUNK_SIZE as nat) == 0 {
        file_size / (CHUNK_SIZE as nat)
    } else {
        file_size / (CHUNK_SIZE as nat) + 1
    }
}

/// The chunk that ends a file which is all there is the one that
/// `chunk_count` counts last.
pub proof fn lemma_last_chunk_is_counted(session: SessionView, k: nat)
    requires
        session.offset == k * CHUNK_SIZE,
        session.offset < session.file_size,
    ensures
        session.is_last(session.full_read()) <==> k + 1 == chunk_count(session.file_size),
        k + 1 <= chunk_count(session.file_size),
{
    let c = CHUNK_SIZE as nat;
    let size = session.file_size;
    assert((k + 1) * c == k * c + c) by (nonlinear_arith);
    vstd::arithmetic::div_mod::lemma_fundamental_div_mod(size as int, c as int);
    let q = size / c;
    assert(size == c * q + size % c);
    assert(0 <= size % c < c);
    if k >= q {
        assert(k * c >= q * c) by (nonlinear_arith)
            requires
                k >= q,
        ;
        assert(c * q == q * c) by (nonlinear_arith);
        // Then the offset is at or behind the last full chunk's end.
        assert(size % c != 0);
        assert(k * c < c * q + c);
        assert(k < q + 1) by (nonlinear_arith)
            requires
                k * c < c * q + c,
                c > 0,
        ;
    } else {
        assert((k + 1) * c <= q * c) by (nonlinear_arith)
            requires
                k + 1 <= q,
        ;
        assert(c * q == q * c) by (nonlinear_arith);
        if k + 1 == q {
            assert((k + 1) * c == q * c);
        } else {
            assert((k + 2) * c <= q * c) by (nonlinear_arith)
                requires
                    k + 2 <= q,
            ;
            assert((k + 2) * c == (k + 1) * c + c) by (nonlinear_arith);
        }
    }
}

/// One text part of a form.
pub struct FormField {
    pub name: String,
    pub value: String,
}

/// The names and values of a list of text parts.
pub open spec fn form_view(fields: Seq<FormField>) -> Seq<(Seq<char>, Seq<char>)> {
    Seq::new(fields.len(), |i: int| (fields[i].name@, fields[i].value@))
}

/// The part that a value makes, where there is one.
pub open spec fn optional_part(name: Seq<char>, value: Option<String>) -> Seq<
    (Seq<char>, Seq<char>),
> {
    match value {
        Some(v) => seq![(name, v@)],
        None => Seq::empty(),
    }
}

/// The configuration that the kinds of scan asked for stand for: `base`
/// where the client's own scanner is among them, and else the kinds as
/// they are.
pub open spec fn scan_configs(scan_type: Seq<char>) -> Seq<char> {
    if has_substring(scan_type, "blast"@) {
        "base"@
    } else {
        scan_type
    }
}

/// What version control knows of the project, as parts of a form: branch,
/// address and commit, each where it is known.
pub open spec fn repo_parts(repo_info: Option<RepoInfo>) -> Seq<(Seq<char>, Seq<char>)> {
    match repo_info {
        Some(info) => optional_part("branch"@, info.branch) + optional_part(
            "repo_url"@,
            info.repo_url,
        ) + optional_part("sha"@, info.sha),
        None => Seq::empty(),
    }
}

/// The text parts that go with every chunk, in order: the project's name
/// and the file's size, what version control knows, the scan's
/// configuration and the policies, each where there is one.
pub open spec fn chunk_form(
    project_name: Seq<char>,
    file_size: u64,
    repo_info: Option<RepoInfo>,
    scan_type: Option<String>,
    policy: Option<String>,
) -> Seq<(Seq<char>, Seq<char>)> {
    seq![("project_name"@, project_name), ("file_size"@, numeral(file_size as nat))] + repo_parts(
        repo_info,
    ) + (match scan_type {
        Some(kinds) => seq![("scan_configs"@, scan_configs(kinds@))],
        None => Seq::empty(),
    }) + optional_part("target_policies"@, policy)
}

/// Appends a part to a form.
fn push_part(fields: &mut Vec<FormField>, name: &str, value: String)
    ensures
        form_view(final(fields)@) == form_view(old(fields)@) + seq![(name@, value@)],
{
    let ghost before = fields@;
    let field = FormField { name: String::from_str(name), value };
    fields.push(field);
    assert(form_view(before.push(field)) =~= form_view(before) + seq![(name@, value@)]);
}

/// Appends a part to a form, where there is a value for it.
fn push_optional_part(fields: &mut Vec<FormField>, name: &str, value: &Option<String>)
    ensures
        form_view(final(fields)@) == form_view(old(fields)@) + optional_part(name@, *value),
{
    match value {
        Some(v) => {
            push_part(fields, name, v.clone());
        },
        None => {
            assert(form_view(fields@) + Seq::<(Seq<char>, Seq<char>)>::empty() =~= form_view(
                fields@,
            ));
        },
    }
}

/// The text parts that go with every chunk.
pub fn chunk_fields(
    project_name: &str,
    file_size: u64,
    repo_info: &Option<RepoInfo>,
    scan_type: &Option<String>,
    policy: &Option<String>,
) -> (fields: Vec<FormField>)
    ensures
        form_view(fields@) == chunk_form(project_name@, file_size, *repo_info, *scan_type, *policy),
{
    let mut fields: Vec<FormField> = Vec::new();
    let ghost empty = Seq::<(Seq<char>, Seq<char>)>::empty();
    assert(form_view(fields@) =~= empty);
    push_part(&mut fields, "project_name", String::from_str(project_name));
    push_part(&mut fields, "file_size", decimal(file_size));
    let ghost head = seq![
        ("project_name"@, project_name@),
        ("file_size"@, numeral(file_size as nat)),
    ];
    assert(form_view(fields@) =~= head);
    match repo_info {
        Some(info) => {
            push_optional_part(&mut fields, "branch", &info.branch);
            push_optional_part(&mut fields, "repo_url", &info.repo_url);
            push_optional_part(&mut fields, "sha", &info.sha);
            assert(form_view(fields@) =~= head + repo_parts(*repo_info));
        },
        None => {
            assert(form_view(fields@) =~= head + repo_parts(*repo_info));
        },
    }
    let ghost with_repo = form_view(fields@);
    match scan_type {
        Some(kinds) => {
            if contains(kinds.as_str(), "blast") {
                push_part(&mut fields, "scan_configs", String::from_str("base"));
            } else {
                push_part(&mut fields, "scan_configs", kinds.clone());
            }
        },
        None => {
            assert(with_repo + empty =~= with_repo);
        },
    }
    push_optional_part(&mut fields, "target_policies", policy);
    fields
}

} // verus!

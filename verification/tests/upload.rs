use corgea::utils::generic::RepoInfo;
use corgea::utils::upload::{
    chunk_fields, scan_started, transfer_granted, upload_zip, ChunkOutcome, Exchange, HttpReply,
    UploadError, UploadSession, CHUNK_SIZE,
};

fn reply(status: u16, body: &str) -> Exchange {
    Exchange::Reply(HttpReply {
        status,
        status_text: format!("{} Status", status),
        body: body.to_string(),
    })
}

fn session(file_size: u64) -> UploadSession {
    UploadSession::begin(&reply(200, r#"{"transfer_id":"t-1"}"#), file_size).unwrap()
}

fn failure(outcome: ChunkOutcome) -> UploadError {
    match outcome {
        ChunkOutcome::Failed(e) => e,
        ChunkOutcome::Continue => panic!("the upload goes on"),
        ChunkOutcome::Finished(id) => panic!("the upload finished with {}", id),
    }
}

#[test]
fn negotiation_yields_the_transfer_id() {
    let session = session(10);
    assert_eq!(session.transfer_id(), "t-1");
    assert_eq!(session.offset(), 0);
    assert_eq!(session.file_size(), 10);
}

#[test]
fn negotiation_without_a_reply_is_a_network_error() {
    let error = UploadSession::begin(&Exchange::Failed("dns failure".to_string()), 1).err().unwrap();
    assert!(matches!(&error, UploadError::Unreachable(cause) if cause == "dns failure"));
    assert_eq!(
        error.message(),
        "Network error: Unable to reach the server. Please try again later. Error: dns failure"
    );
}

#[test]
fn negotiation_needs_a_json_object() {
    for body in ["", "not json", "[1,2]", "\"text\"", "3"] {
        let error = UploadSession::begin(&reply(200, body), 1).err().unwrap();
        assert!(matches!(error, UploadError::BadReply));
        assert_eq!(error.message(), "Error getting server response, Please try again later.");
    }
}

#[test]
fn a_refusal_carries_the_servers_message() {
    let error = UploadSession::begin(&reply(403, r#"{"message":"Blast is not enabled"}"#), 1)
        .err()
        .unwrap();
    assert!(matches!(&error, UploadError::Rejected(m) if m == "Blast is not enabled"));
    assert_eq!(error.message(), "Request failed: Blast is not enabled");
    let silent = UploadSession::begin(&reply(500, r#"{"transfer_id":"t"}"#), 1).err().unwrap();
    assert_eq!(
        silent.message(),
        "Request failed: An unknown error occurred. Please try again or contact support."
    );
    let created = UploadSession::begin(&reply(201, r#"{"transfer_id":"t"}"#), 1).err().unwrap();
    assert!(matches!(created, UploadError::Rejected(_)));
}

#[test]
fn a_reply_without_transfer_id_is_a_protocol_error() {
    for body in [r#"{}"#, r#"{"transfer_id":5}"#, r#"{"transfer_id":null}"#] {
        let error = UploadSession::begin(&reply(200, body), 1).err().unwrap();
        assert!(matches!(error, UploadError::NoTransferId));
        assert_eq!(
            error.message(),
            "Failed to retrieve transfer ID. Please check the request parameters and try again."
        );
    }
}

#[test]
fn five_full_chunks_and_one_byte_travel_in_six_calls() {
    let chunk = CHUNK_SIZE as usize;
    let mut session = session(5 * CHUNK_SIZE + 1);
    let mut offsets = Vec::new();
    let mut calls = 0;
    let mut scan_id = None;
    for read in [chunk, chunk, chunk, chunk, chunk, 1] {
        let headers = session.chunk_read(read).ok().unwrap();
        assert_eq!(headers.upload_length, 5 * CHUNK_SIZE + 1);
        offsets.push(headers.upload_offset);
        calls += 1;
        match upload_zip(&mut session, read, &reply(200, r#"{"scan_id":"scan-9"}"#)) {
            ChunkOutcome::Continue => assert!(calls < 6),
            ChunkOutcome::Finished(id) => {
                assert_eq!(calls, 6);
                scan_id = Some(id);
            },
            ChunkOutcome::Failed(e) => panic!("{}", e.message()),
        }
    }
    assert_eq!(calls, 6);
    assert_eq!(
        offsets,
        vec![0, CHUNK_SIZE, 2 * CHUNK_SIZE, 3 * CHUNK_SIZE, 4 * CHUNK_SIZE, 5 * CHUNK_SIZE]
    );
    assert_eq!(scan_id, Some("scan-9".to_string()));
    assert_eq!(session.offset(), session.file_size());
}

#[test]
fn a_file_of_full_chunks_ends_with_its_last_chunk() {
    let chunk = CHUNK_SIZE as usize;
    let mut session = session(2 * CHUNK_SIZE);
    assert!(matches!(
        upload_zip(&mut session, chunk, &reply(200, r#"{"scan_id":"early"}"#)),
        ChunkOutcome::Continue
    ));
    assert_eq!(session.offset(), CHUNK_SIZE);
    match upload_zip(&mut session, chunk, &reply(200, r#"{"scan_id":"done"}"#)) {
        ChunkOutcome::Finished(id) => assert_eq!(id, "done"),
        _ => panic!("the last full chunk ends the upload"),
    }
    assert_eq!(session.offset(), 2 * CHUNK_SIZE);
}

#[test]
fn a_short_read_ends_the_upload() {
    let mut session = session(100);
    match upload_zip(&mut session, 40, &reply(200, r#"{"scan_id":"s"}"#)) {
        ChunkOutcome::Finished(id) => assert_eq!(id, "s"),
        _ => panic!("a short read is the last chunk"),
    }
    assert_eq!(session.offset(), 40);
}

#[test]
fn an_empty_or_overlong_read_fails_the_upload() {
    let mut session = session(10);
    assert!(matches!(session.chunk_read(0), Err(UploadError::Incomplete)));
    assert!(matches!(session.chunk_read(11), Err(UploadError::Incomplete)));
    assert!(session.chunk_read(10).is_ok());
    let error = failure(upload_zip(&mut session, 0, &reply(200, r#"{"scan_id":"s"}"#)));
    assert_eq!(error.message(), "Failed to upload file");
    let error = failure(upload_zip(&mut session, 11, &reply(200, r#"{"scan_id":"s"}"#)));
    assert!(matches!(error, UploadError::Incomplete));
    assert_eq!(session.offset(), 0);
    let mut empty = UploadSession::begin(&reply(200, r#"{"transfer_id":"t"}"#), 0).unwrap();
    assert!(matches!(empty.chunk_read(0), Err(UploadError::Incomplete)));
    assert!(matches!(
        upload_zip(&mut empty, 1, &reply(200, "{}")),
        ChunkOutcome::Failed(UploadError::Incomplete)
    ));
}

#[test]
fn a_chunk_without_reply_abandons_the_upload() {
    let mut session = session(10);
    let error = failure(upload_zip(&mut session, 10, &Exchange::Failed("timeout".to_string())));
    assert!(matches!(&error, UploadError::SendFailed(cause) if cause == "timeout"));
    assert_eq!(error.message(), "Failed to send request: timeout");
    assert_eq!(session.offset(), 0);
}

#[test]
fn a_refused_chunk_abandons_the_upload() {
    let mut session = session(10);
    let error = failure(upload_zip(&mut session, 10, &reply(400, "Invalid policy ids: 7")));
    assert!(matches!(error, UploadError::InvalidPolicy));
    assert_eq!(
        error.message(),
        "Invalid policy ids passed. Please check the policy ids and try again."
    );
    let error = failure(upload_zip(&mut session, 10, &reply(500, "Invalid policy ids: 7")));
    assert!(matches!(&error, UploadError::ChunkRejected(status) if status == "500 Status"));
    assert_eq!(error.message(), "Failed to upload file: 500 Status");
    let error = failure(upload_zip(&mut session, 10, &reply(404, "no such transfer")));
    assert_eq!(error.message(), "Failed to upload file: 404 Status");
    let error = failure(upload_zip(&mut session, 10, &reply(302, "")));
    assert!(matches!(error, UploadError::ChunkRejected(_)));
    assert_eq!(session.offset(), 0);
}

#[test]
fn the_last_reply_must_name_the_scan() {
    for body in ["{}", "", "[]", r#"{"scan_id":12}"#, r#"{"scan":"x"}"#] {
        let mut session = session(10);
        let error = failure(upload_zip(&mut session, 10, &reply(200, body)));
        assert!(matches!(error, UploadError::NoScanId));
        assert_eq!(error.message(), "Failed to get scan_id from response");
        assert_eq!(session.offset(), 10);
    }
}

#[test]
fn replies_are_judged_as_parsed() {
    assert!(matches!(transfer_granted(200, None), Err(UploadError::BadReply)));
    assert!(matches!(scan_started(None), Err(UploadError::NoScanId)));
    let doc = corgea::json::parse(r#"{"transfer_id":"t","scan_id":"s","message":"m"}"#).unwrap();
    assert_eq!(transfer_granted(200, Some(&doc)).ok(), Some("t".to_string()));
    assert!(matches!(transfer_granted(404, Some(&doc)), Err(UploadError::Rejected(m)) if m == "m"));
    assert_eq!(scan_started(Some(&doc)).ok(), Some("s".to_string()));
}

fn field_pairs(
    repo_info: Option<RepoInfo>,
    scan_type: Option<&str>,
    policy: Option<&str>,
) -> Vec<(String, String)> {
    chunk_fields(
        "demo",
        1234,
        &repo_info,
        &scan_type.map(|s| s.to_string()),
        &policy.map(|s| s.to_string()),
    )
    .into_iter()
    .map(|f| (f.name, f.value))
    .collect()
}

fn pairs(values: &[(&str, &str)]) -> Vec<(String, String)> {
    values.iter().map(|(a, b)| (a.to_string(), b.to_string())).collect()
}

#[test]
fn every_chunk_carries_project_and_size() {
    assert_eq!(
        field_pairs(None, None, None),
        pairs(&[("project_name", "demo"), ("file_size", "1234")])
    );
}

#[test]
fn a_chunk_carries_what_is_known_of_the_repository() {
    let info = RepoInfo {
        branch: Some("main".to_string()),
        repo_url: None,
        sha: Some("abc123".to_string()),
    };
    assert_eq!(
        field_pairs(Some(info), Some("policy,secrets"), Some("1,2")),
        pairs(&[
            ("project_name", "demo"),
            ("file_size", "1234"),
            ("branch", "main"),
            ("sha", "abc123"),
            ("scan_configs", "policy,secrets"),
            ("target_policies", "1,2"),
        ])
    );
    let full = RepoInfo {
        branch: Some("dev".to_string()),
        repo_url: Some("https://example.org/r.git".to_string()),
        sha: None,
    };
    assert_eq!(
        field_pairs(Some(full), Some("blast,pii"), None),
        pairs(&[
            ("project_name", "demo"),
            ("file_size", "1234"),
            ("branch", "dev"),
            ("repo_url", "https://example.org/r.git"),
            ("scan_configs", "base"),
        ])
    );
}

use lanshare::client::{
    file_field_name, file_name_from, message_outcome, message_path, message_url,
    outgoing_message, ping_path, ping_reply, republish, size_field, size_field_name,
    upload_outcome, upload_path, upload_url, MessagePayload, SendError, SendProgress,
    REQUEST_TIMEOUT_SECS,
};
use lanshare::events::{EventName, UiEvent};
use lanshare::pending::{delivery_outcome, respond, PendingTransfers, RespondError};
use lanshare::upload::{
    confirmation_of, is_progress_due, is_size_field, make_transfer_id, receive_name, received_name_for,
    Confirmation, Stage, UploadSession, CONFIRMATION_TIMEOUT_SECS, PROGRESS_INTERVAL_MS,
};

fn apk_chunk() -> Vec<u8> {
    let mut data = vec![0x50, 0x4B, 0x03, 0x04];
    data.extend_from_slice(&[0u8; 30]);
    data.extend_from_slice(b"AndroidManifest.xml");
    data.extend_from_slice(&[0u8; 16]);
    data
}

fn accepted_session(name: &str, size: Option<&str>) -> (UploadSession, PendingTransfers<u32>) {
    let mut session = UploadSession::new();
    let mut pending = PendingTransfers::new();
    if let Some(text) = size {
        session.declare_size(text);
    }
    session.begin_part(&mut pending, 1, Some(name), 1000);
    let slot = respond(&mut pending, session.transfer_id().as_str());
    assert_eq!(slot, Ok(1));
    session.confirm(&mut pending, Confirmation::Accepted, 0);
    (session, pending)
}

#[test]
fn registry_round_trip() {
    let mut pending: PendingTransfers<&str> = PendingTransfers::new();
    assert!(!pending.contains("t1"));
    assert_eq!(pending.register("t1".to_string(), "slot-1"), None);
    assert_eq!(pending.register("t2".to_string(), "slot-2"), None);
    assert!(pending.contains("t1"));
    assert_eq!(respond(&mut pending, "t1"), Ok("slot-1"));
    assert!(!pending.contains("t1"));
    assert!(pending.contains("t2"));
    assert_eq!(respond(&mut pending, "t1"), Err(RespondError::NotFound("t1".to_string())));
    assert_eq!(respond(&mut pending, "t2"), Ok("slot-2"));
}

#[test]
fn registry_second_response_is_not_found() {
    let mut pending: PendingTransfers<bool> = PendingTransfers::new();
    pending.register("photo.jpg_17".to_string(), true);
    assert_eq!(pending.claim("photo.jpg_17"), Some(true));
    assert_eq!(pending.claim("photo.jpg_17"), None);
    let error = respond(&mut pending, "photo.jpg_17").unwrap_err();
    assert_eq!(error.message(), "Transfer photo.jpg_17 not found");
}

#[test]
fn registry_replaces_slot_of_same_id() {
    let mut pending: PendingTransfers<u8> = PendingTransfers::new();
    assert_eq!(pending.register("t".to_string(), 1), None);
    assert_eq!(pending.register("t".to_string(), 2), Some(1));
    assert_eq!(pending.claim("t"), Some(2));
    assert_eq!(pending.claim("t"), None);
}

#[test]
fn respond_error_texts() {
    assert_eq!(RespondError::NotDelivered.message(), "Failed to send response");
    assert_eq!(RespondError::NotFound("x_1".to_string()).message(), "Transfer x_1 not found");
    assert_eq!(delivery_outcome(true), Ok(()));
    assert_eq!(delivery_outcome(false), Err(RespondError::NotDelivered));
}

#[test]
fn received_name_is_decoded_and_sanitized() {
    assert_eq!(receive_name("image%3A1000.jpg"), "image_1000.jpg");
    assert_eq!(receive_name("image:1000.jpg"), "image_1000.jpg");
    assert_eq!(receive_name("a%2Fb%5Cc.txt"), "a_b_c.txt");
    assert_eq!(receive_name("hello%20world.txt"), "hello world.txt");
    assert_eq!(receive_name("plain.txt"), "plain.txt");
    assert_eq!(receive_name("a+b.txt"), "a+b.txt");
}

#[test]
fn received_name_falls_back_to_raw() {
    assert_eq!(receive_name("bad%FFname:1"), "bad%FFname_1");
    assert_eq!(received_name_for("raw:name", None), "raw_name");
    assert_eq!(received_name_for("raw:name", Some("de/coded".to_string())), "de_coded");
}

#[test]
fn transfer_id_joins_name_and_time() {
    assert_eq!(make_transfer_id("image_1000.jpg", 1700000000123), "image_1000.jpg_1700000000123");
    assert_eq!(make_transfer_id("", 0), "_0");
}

#[test]
fn confirmation_reads_the_wait() {
    assert_eq!(confirmation_of(None), Confirmation::TimedOut);
    assert_eq!(confirmation_of(Some(None)), Confirmation::ChannelClosed);
    assert_eq!(confirmation_of(Some(Some(true))), Confirmation::Accepted);
    assert_eq!(confirmation_of(Some(Some(false))), Confirmation::Rejected);
    assert_eq!(CONFIRMATION_TIMEOUT_SECS, 60);
}

#[test]
fn progress_throttle() {
    assert_eq!(PROGRESS_INTERVAL_MS, 100);
    assert!(!is_progress_due(1000, 1000));
    assert!(!is_progress_due(1000, 1100));
    assert!(is_progress_due(1000, 1101));
    assert!(!is_progress_due(1000, 900));
    assert!(is_progress_due(0, u64::MAX));
}

#[test]
fn session_announces_a_file_part() {
    let mut session = UploadSession::new();
    let mut pending: PendingTransfers<u32> = PendingTransfers::new();
    assert_eq!(session.stage(), Stage::Idle);
    session.declare_size("2048");
    assert_eq!(session.declared_size(), Some(2048));
    let request = session.begin_part(&mut pending, 5, Some("image%3A1000.jpg"), 1700000000123);
    assert_eq!(
        request,
        Some(UiEvent::TransferRequest {
            transfer_id: "image_1000.jpg_1700000000123".to_string(),
            file_name: "image_1000.jpg".to_string(),
            file_size: Some(2048),
        })
    );
    assert_eq!(session.stage(), Stage::Confirming);
    assert_eq!(session.transfer_id(), "image_1000.jpg_1700000000123");
    assert_eq!(session.file_name(), "image_1000.jpg");
    assert!(pending.contains("image_1000.jpg_1700000000123"));
}

#[test]
fn session_skips_part_without_file_name() {
    let mut session = UploadSession::new();
    let mut pending: PendingTransfers<u32> = PendingTransfers::new();
    assert_eq!(session.begin_part(&mut pending, 5, None, 1), None);
    assert_eq!(session.stage(), Stage::Idle);
    assert!(!pending.contains("_1"));
}

#[test]
fn session_size_field_without_number() {
    let mut session = UploadSession::new();
    session.declare_size("12");
    session.declare_size("twelve");
    assert_eq!(session.declared_size(), None);
}

#[test]
fn session_fails_closed_when_request_cannot_be_published() {
    let mut session = UploadSession::new();
    let mut pending: PendingTransfers<u32> = PendingTransfers::new();
    session.begin_part(&mut pending, 5, Some("a.txt"), 9);
    assert!(pending.contains("a.txt_9"));
    session.request_failed(&mut pending);
    assert_eq!(session.stage(), Stage::Idle);
    assert!(!pending.contains("a.txt_9"));
}

#[test]
fn session_timeout_rejects_and_forgets() {
    let mut session = UploadSession::new();
    let mut pending: PendingTransfers<u32> = PendingTransfers::new();
    session.begin_part(&mut pending, 5, Some("a.txt"), 9);
    let events = session.confirm(&mut pending, confirmation_of(None), 70_000);
    assert_eq!(
        events,
        vec![
            UiEvent::Timeout { transfer_id: "a.txt_9".to_string() },
            UiEvent::Rejected { file_name: "a.txt".to_string() },
        ]
    );
    assert_eq!(session.stage(), Stage::Closed);
    assert!(!pending.contains("a.txt_9"));
    assert_eq!(respond(&mut pending, "a.txt_9"), Err(RespondError::NotFound("a.txt_9".to_string())));
}

#[test]
fn session_rejection_closes_the_request() {
    for outcome in [Confirmation::Rejected, Confirmation::ChannelClosed] {
        let mut session = UploadSession::new();
        let mut pending: PendingTransfers<u32> = PendingTransfers::new();
        session.begin_part(&mut pending, 5, Some("a.txt"), 9);
        let events = session.confirm(&mut pending, outcome, 0);
        assert_eq!(events, vec![UiEvent::Rejected { file_name: "a.txt".to_string() }]);
        assert_eq!(session.stage(), Stage::Closed);
        assert_eq!(session.on_chunk(&[1, 2, 3], 500), None);
        assert!(!session.end_of_part());
        assert!(session.written(true).is_empty());
        assert_eq!(session.begin_part(&mut pending, 6, Some("b.txt"), 10), None);
    }
}

#[test]
fn session_stores_apk_under_apk_name() {
    let mut session = UploadSession::new();
    let mut pending: PendingTransfers<u32> = PendingTransfers::new();
    let request = session.begin_part(&mut pending, 5, Some("msf_1000"), 42);
    assert_eq!(
        request,
        Some(UiEvent::TransferRequest {
            transfer_id: "msf_1000_42".to_string(),
            file_name: "msf_1000".to_string(),
            file_size: None,
        })
    );
    assert_eq!(session.on_chunk(&apk_chunk(), 10), None);
    assert!(!session.end_of_part());
    assert!(session.written(true).is_empty());
    assert_eq!(session.stage(), Stage::Confirming);

    assert_eq!(respond(&mut pending, "msf_1000_42"), Ok(5));
    let events = session.confirm(&mut pending, confirmation_of(Some(Some(true))), 0);
    assert_eq!(
        events,
        vec![UiEvent::ReceiveStart {
            transfer_id: "msf_1000_42".to_string(),
            file_name: "msf_1000".to_string(),
        }]
    );
    let chunk = apk_chunk();
    assert_eq!(session.on_chunk(&chunk, 50), None);
    assert_eq!(session.file_name(), "msf_1000.apk");
    assert_eq!(session.on_chunk(&[9, 9, 9], 60), None);
    assert!(session.end_of_part());
    assert_eq!(session.stage(), Stage::Writing);
    let mut expected = chunk.clone();
    expected.extend_from_slice(&[9, 9, 9]);
    assert_eq!(session.data(), &expected);
    assert_eq!(session.received(), expected.len() as u64);
    let events = session.written(true);
    assert_eq!(
        events,
        vec![
            UiEvent::Progress {
                transfer_id: "msf_1000_42".to_string(),
                current_bytes: expected.len() as u64,
                total_bytes: Some(expected.len() as u64),
            },
            UiEvent::ReceiveComplete {
                transfer_id: "msf_1000_42".to_string(),
                file_name: "msf_1000.apk".to_string(),
            },
        ]
    );
    assert_eq!(session.stage(), Stage::Idle);
}

#[test]
fn session_names_file_on_first_chunk_only() {
    let (mut session, _pending) = accepted_session("blob", None);
    assert_eq!(session.on_chunk(&[0u8; 8], 10), None);
    assert_eq!(session.file_name(), "blob");
    let png = [0x89, 0x50, 0x4E, 0x47, 0x0D, 0x0A, 0x1A, 0x0A, 0, 0, 0, 0];
    assert_eq!(session.on_chunk(&png, 20), None);
    assert_eq!(session.file_name(), "blob");

    let (mut session, _pending) = accepted_session("pic", None);
    session.on_chunk(&png, 10);
    assert_eq!(session.file_name(), "pic.png");
}

#[test]
fn session_throttles_progress() {
    let (mut session, _pending) = accepted_session("a.bin", Some("1000"));
    assert_eq!(session.on_chunk(&[0u8; 10], 100), None);
    assert_eq!(
        session.on_chunk(&[0u8; 10], 101),
        Some(UiEvent::Progress {
            transfer_id: "a.bin_1000".to_string(),
            current_bytes: 20,
            total_bytes: Some(1000),
        })
    );
    assert_eq!(session.on_chunk(&[0u8; 10], 201), None);
    assert_eq!(
        session.on_chunk(&[0u8; 5], 202),
        Some(UiEvent::Progress {
            transfer_id: "a.bin_1000".to_string(),
            current_bytes: 35,
            total_bytes: Some(1000),
        })
    );
    assert_eq!(session.received(), 35);
}

#[test]
fn session_read_failure_gives_up_the_part() {
    let (mut session, mut pending) = accepted_session("a.bin", Some("1000"));
    session.on_chunk(&[1, 2, 3], 10);
    assert_eq!(session.read_failed(), Some(UiEvent::ReceiveError { file_name: "a.bin".to_string() }));
    assert_eq!(session.stage(), Stage::Idle);
    assert_eq!(session.declared_size(), Some(1000));
    assert_eq!(session.read_failed(), None);
    assert!(session.begin_part(&mut pending, 2, Some("b.bin"), 2000).is_some());
}

#[test]
fn session_write_failure_gives_up_the_part() {
    let (mut session, _pending) = accepted_session("a.bin", Some("1000"));
    session.on_chunk(&[1, 2, 3], 10);
    assert!(session.end_of_part());
    assert_eq!(session.written(false), vec![UiEvent::ReceiveError { file_name: "a.bin".to_string() }]);
    assert_eq!(session.stage(), Stage::Idle);
    assert_eq!(session.declared_size(), Some(1000));
}

#[test]
fn session_forgets_size_after_a_stored_file() {
    let (mut session, mut pending) = accepted_session("a.bin", Some("3"));
    session.on_chunk(&[1, 2, 3], 10);
    session.end_of_part();
    session.written(true);
    assert_eq!(session.declared_size(), None);
    let request = session.begin_part(&mut pending, 2, Some("b.bin"), 2000);
    assert_eq!(
        request,
        Some(UiEvent::TransferRequest {
            transfer_id: "b.bin_2000".to_string(),
            file_name: "b.bin".to_string(),
            file_size: None,
        })
    );
    respond(&mut pending, "b.bin_2000").unwrap();
    session.confirm(&mut pending, Confirmation::Accepted, 0);
    assert_eq!(session.received(), 0);
    assert!(session.data().is_empty());
}

#[test]
fn event_names_on_the_wire() {
    assert_eq!(EventName::PeersUpdate.as_str(), "peers-update");
    assert_eq!(EventName::AliasChanged.as_str(), "alias-changed");
    assert_eq!(EventName::FileTransferRequest.as_str(), "file-transfer-request");
    assert_eq!(EventName::TransferProgress.as_str(), "transfer-progress");
    assert_eq!(EventName::FileReceiveStart.as_str(), "file-receive-start");
    assert_eq!(EventName::FileReceiveComplete.as_str(), "file-receive-complete");
    assert_eq!(EventName::FileReceiveError.as_str(), "file-receive-error");
    assert_eq!(EventName::FileTransferRejected.as_str(), "file-transfer-rejected");
    assert_eq!(EventName::FileTransferTimeout.as_str(), "file-transfer-timeout");
    assert_eq!(EventName::MessageReceived.as_str(), "message-received");
}

#[test]
fn events_know_their_names() {
    let id = || "t".to_string();
    let name = || "f".to_string();
    assert_eq!(UiEvent::TransferRequest { transfer_id: id(), file_name: name(), file_size: None }.name(), EventName::FileTransferRequest);
    assert_eq!(UiEvent::Progress { transfer_id: id(), current_bytes: 1, total_bytes: None }.name(), EventName::TransferProgress);
    assert_eq!(UiEvent::ReceiveStart { transfer_id: id(), file_name: name() }.name(), EventName::FileReceiveStart);
    assert_eq!(UiEvent::ReceiveComplete { transfer_id: id(), file_name: name() }.name(), EventName::FileReceiveComplete);
    assert_eq!(UiEvent::ReceiveError { file_name: name() }.name(), EventName::FileReceiveError);
    assert_eq!(UiEvent::Rejected { file_name: name() }.name(), EventName::FileTransferRejected);
    assert_eq!(UiEvent::Timeout { transfer_id: id() }.name(), EventName::FileTransferTimeout);
}

#[test]
fn message_is_republished_verbatim() {
    let message = outgoing_message("hello".to_string(), "Bob".to_string());
    assert_eq!(message, MessagePayload { sender_alias: "Bob".to_string(), content: "hello".to_string() });
    let (name, payload) = republish(message);
    assert_eq!(name.as_str(), "message-received");
    assert_eq!(payload, MessagePayload { sender_alias: "Bob".to_string(), content: "hello".to_string() });
}

#[test]
fn endpoints() {
    assert_eq!(upload_url("192.168.1.20", 3030), "http://192.168.1.20:3030/upload");
    assert_eq!(message_url("192.168.1.20", 3030), "http://192.168.1.20:3030/message");
    assert_eq!(upload_url("host", 0), "http://host:0/upload");
    assert_eq!(message_url("10.0.0.1", 65535), "http://10.0.0.1:65535/message");
    assert_eq!(REQUEST_TIMEOUT_SECS, 300);
}

#[test]
fn size_field_is_decimal() {
    assert_eq!(size_field(0), "0");
    assert_eq!(size_field(1048576), "1048576");
    assert_eq!(size_field(u64::MAX), "18446744073709551615");
}

#[test]
fn outcomes_follow_the_status() {
    assert_eq!(upload_outcome(true, "200 OK".to_string()), Ok(()));
    assert_eq!(
        upload_outcome(false, "500 Internal Server Error".to_string()),
        Err(SendError::UploadStatus("500 Internal Server Error".to_string()))
    );
    assert_eq!(message_outcome(true, "200 OK".to_string()), Ok(()));
    assert_eq!(
        message_outcome(false, "404 Not Found".to_string()),
        Err(SendError::MessageStatus("404 Not Found".to_string()))
    );
}

#[test]
fn send_error_texts() {
    assert_eq!(SendError::Client("tls".to_string()).message(), "Failed to create client: tls");
    assert_eq!(SendError::InvalidFileName.message(), "Invalid file name");
    assert_eq!(SendError::Open("denied".to_string()).message(), "Failed to open file: denied");
    assert_eq!(SendError::Request("refused".to_string()).message(), "Request failed: refused");
    assert_eq!(SendError::UploadStatus("500".to_string()).message(), "Upload failed with status: 500");
    assert_eq!(SendError::MessageStatus("404".to_string()).message(), "Message failed with status: 404");
}

#[test]
fn file_name_of_a_path() {
    assert_eq!(file_name_from("/home/me/a.txt", Some("a.txt".to_string())), Ok("a.txt".to_string()));
    assert_eq!(file_name_from("/", None), Err("Invalid file path".to_string()));
    assert_eq!(
        file_name_from("content://media/msf%3A1000", Some("msf%3A1000".to_string())),
        Err("Content URIs are only supported on Android".to_string())
    );
}

#[test]
fn send_progress_is_throttled() {
    let mut progress = SendProgress::new("movie.mp4".to_string(), 1000, 5000);
    assert_eq!(progress.on_chunk(100, 5050), None);
    assert_eq!(progress.on_chunk(100, 5100), None);
    assert_eq!(
        progress.on_chunk(100, 5101),
        Some(UiEvent::Progress {
            transfer_id: "movie.mp4".to_string(),
            current_bytes: 300,
            total_bytes: Some(1000),
        })
    );
    assert_eq!(progress.on_chunk(0, 5150), None);
    assert_eq!(progress.sent(), 300);
    assert_eq!(
        progress.finished(),
        UiEvent::Progress {
            transfer_id: "movie.mp4".to_string(),
            current_bytes: 1000,
            total_bytes: Some(1000),
        }
    );
}

#[test]
fn size_field_is_told_by_name() {
    assert!(is_size_field("size"));
    assert!(!is_size_field("Size"));
    assert!(!is_size_field("file"));
    assert!(!is_size_field(""));
    assert!(!is_size_field("size "));
}

#[test]
fn wire_constants() {
    assert_eq!(upload_path(), "/upload");
    assert_eq!(message_path(), "/message");
    assert_eq!(ping_path(), "/ping");
    assert_eq!(ping_reply(), "pong");
    assert_eq!(size_field_name(), "size");
    assert_eq!(file_field_name(), "file");
    assert!(is_size_field(size_field_name()));
    assert!(!is_size_field(file_field_name()));
}

#[test]
fn fresh_session_is_blank() {
    let session = UploadSession::new();
    assert_eq!(session.stage(), Stage::Idle);
    assert_eq!(session.declared_size(), None);
    assert_eq!(session.transfer_id(), "");
    assert_eq!(session.file_name(), "");
    assert_eq!(session.received(), 0);
    assert!(session.data().is_empty());
}

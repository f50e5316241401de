use vfs_apis::display::{format_time, is_text, time_text};
use vfs_apis::error::{ErrorCode, VfsError};
use vfs_apis::p2p::{
    file_list_error_response, file_list_response, p2p_ice_state, p2p_is_ready, p2p_poll_messages,
    push_delivery, push_route_of, record_message, sync_response, PushDelivery, PushRoute,
};
use vfs_apis::upload::SyncResult;

#[test]
fn poll_drains_queue_in_order() {
    let mut q = Vec::new();
    record_message(&mut q, "one".to_string());
    record_message(&mut q, "two".to_string());
    assert_eq!(p2p_poll_messages(&mut q), vec!["one", "two"]);
    assert!(q.is_empty());
    assert!(p2p_poll_messages(&mut q).is_empty());
}

#[test]
fn readiness_of_states() {
    assert!(p2p_is_ready("Connected"));
    assert!(p2p_is_ready("Completed"));
    assert!(!p2p_is_ready("Checking"));
    assert!(!p2p_is_ready("NONE"));
    assert_eq!(p2p_ice_state(None), "NONE");
    assert_eq!(p2p_ice_state(Some("Failed".to_string())), "Failed");
    assert_eq!(push_delivery("Completed"), PushDelivery::SendNow);
    assert_eq!(push_delivery("New"), PushDelivery::ConnectThenSend);
}

#[test]
fn push_routes() {
    match push_route_of(r#"{"type":"file_list_request","request_id":"r1"}"#) {
        PushRoute::FileList { request_id, path } => assert_eq!((request_id.as_str(), path.as_str()), ("r1", "/")),
        other => panic!("unexpected {:?}", other),
    }
    match push_route_of(r#"{"type":"sync_request","request_id":"r2","path":"/a/b.txt","fileName":"b.txt"}"#) {
        PushRoute::Sync { request_id, path, file_name } => {
            assert_eq!((request_id.as_str(), path.as_str(), file_name.as_str()), ("r2", "/a/b.txt", "b.txt"))
        }
        other => panic!("unexpected {:?}", other),
    }
    match push_route_of(r#"{"type":"sync_request"}"#) {
        PushRoute::Reply(t) => assert_eq!(t, r#"{"error": "missing request_id"}"#),
        other => panic!("unexpected {:?}", other),
    }
    match push_route_of(r#"{"type":"ping"}"#) {
        PushRoute::Reply(t) => assert_eq!(t, r#"{"error": "Unhandled message type: ping"}"#),
        other => panic!("unexpected {:?}", other),
    }
    match push_route_of(r#"[1,2]"#) {
        PushRoute::Reply(t) => assert_eq!(t, r#"{"error": "Unhandled message type: "}"#),
        other => panic!("unexpected {:?}", other),
    }
    match push_route_of("not json") {
        PushRoute::Reply(t) => assert!(t.starts_with(r#"{"error": "Invalid JSON: "#)),
        other => panic!("unexpected {:?}", other),
    }
}

#[test]
fn push_answers() {
    assert_eq!(
        file_list_response("r1", "/", r#"{"a.txt":{"is_dir":false}}"#),
        r#"{"manifest":{"a.txt":{"is_dir":false}},"path":"/","request_id":"r1","type":"file_list_response"}"#
    );
    assert_eq!(
        file_list_error_response("r1", "/x", "Workspace has not been set"),
        r#"{"error":"Workspace has not been set","path":"/x","request_id":"r1","type":"file_list_response"}"#
    );
    let ok = sync_response("r2", "/a", "a", &Ok(SyncResult { file_id: "F".to_string(), sha256: "S".to_string() }));
    assert_eq!(
        ok,
        r#"{"fileName":"a","file_id":"F","path":"/a","request_id":"r2","sha256":"S","type":"sync_response"}"#
    );
    let err = sync_response("r2", "/a", "a", &Err(VfsError::new(ErrorCode::PathNotFound, "Local \"x\" missing")));
    assert_eq!(
        err,
        r#"{"error":"Local \"x\" missing","fileName":"a","path":"/a","request_id":"r2","type":"sync_response"}"#
    );
}

#[test]
fn display_helpers() {
    assert!(is_text(b"hello\n\tworld\r", 100));
    assert!(!is_text(&[b'a', 0, b'b'], 100));
    assert!(is_text(&[b'a', 0, b'b'], 1));
    assert!(is_text(&[], 10));
    assert_eq!(format_time(0), "N/A");
    assert_eq!(format_time(1704067200), "2024-01-01 00:00:00");
    assert_eq!(format_time(u64::MAX), "1969-12-31 23:59:59");
    assert_eq!(format_time(i64::MAX as u64), "N/A");
}

#[test]
fn formatted_time_or_placeholder() {
    assert_eq!(time_text(Some("2024-01-01 00:00:00".to_string())), "2024-01-01 00:00:00");
    assert_eq!(time_text(None), "N/A");
}

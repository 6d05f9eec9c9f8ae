use alertmanager_forwarder::audit::{
    audit_record, audit_with_body, client_identity, decimal, is_success, request_target, wants_body,
    Exchange, LogLevel,
};

fn exchange(status: u16) -> Exchange {
    Exchange {
        client: "10.0.0.1".to_string(),
        method: "POST".to_string(),
        target: "/forward_alert".to_string(),
        status,
    }
}

#[test]
fn identity_prefers_forwarded_header() {
    let r = client_identity(Some("1.2.3.4".to_string()), Some("5.6.7.8:1000".to_string()));
    assert_eq!(r, "1.2.3.4");
}

#[test]
fn identity_falls_back_to_peer_then_dash() {
    assert_eq!(client_identity(None, Some("5.6.7.8:1000".to_string())), "5.6.7.8:1000");
    assert_eq!(client_identity(None, None), "-");
}

#[test]
fn target_with_and_without_query() {
    assert_eq!(request_target("/forward_alert", Some("a=1&b=2")), "/forward_alert?a=1&b=2");
    assert_eq!(request_target("/healthz", None), "/healthz");
}

#[test]
fn success_class_bounds() {
    assert!(!is_success(199));
    assert!(is_success(200));
    assert!(is_success(299));
    assert!(!is_success(300));
    assert!(!is_success(400));
    assert!(wants_body(500));
    assert!(!wants_body(204));
}

#[test]
fn failure_body_is_logged_and_restored() {
    let body = br#"{"error":"Invalid JSON request: expected value"}"#.to_vec();
    let (record, restored) = audit_with_body(exchange(400), body.clone());
    assert_eq!(restored, body);
    assert!(matches!(record.level, LogLevel::Warn));
    assert_eq!(record.status, 400);
    assert_eq!(record.client, "10.0.0.1");
    assert_eq!(record.method, "POST");
    assert_eq!(record.target, "/forward_alert");
    assert_eq!(record.body.as_deref(), Some(r#"{"error":"Invalid JSON request: expected value"}"#));
}

#[test]
fn non_text_body_is_restored_unlogged() {
    let body = vec![0xff, 0xfe, 0x00, 0x41];
    let (record, restored) = audit_with_body(exchange(500), body.clone());
    assert_eq!(restored, body);
    assert!(record.body.is_none());
}

#[test]
fn empty_failure_body_is_restored() {
    let (record, restored) = audit_with_body(exchange(404), Vec::new());
    assert!(restored.is_empty());
    assert_eq!(record.body.as_deref(), Some(""));
}

#[test]
fn success_record_is_info_without_body() {
    let record = audit_record(exchange(200));
    assert!(matches!(record.level, LogLevel::Info));
    assert!(record.body.is_none());
    assert_eq!(record.status, 200);
}

#[test]
fn status_codes_in_decimal() {
    assert_eq!(decimal(0), "0");
    assert_eq!(decimal(7), "7");
    assert_eq!(decimal(10), "10");
    assert_eq!(decimal(404), "404");
    assert_eq!(decimal(65535), "65535");
}

#[test]
fn record_message_with_and_without_body() {
    let record = audit_record(exchange(200));
    assert_eq!(record.message(), "10.0.0.1 POST /forward_alert 200");
    let (record, _) = audit_with_body(exchange(400), b"bad input".to_vec());
    assert_eq!(record.message(), "10.0.0.1 POST /forward_alert 400: bad input");
}

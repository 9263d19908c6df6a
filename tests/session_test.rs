use pogr_tracing_rs::{
    init_headers, submission_outcome, EndpointConfig, EventMetadata, FieldValue, InitError,
    InitPayload, InitResponse, JsonVisitor, Level, LogPayload, LogResponse, PogrAppender, Reply,
    ServiceIdentity, SubmitError,
};

fn identity() -> ServiceIdentity {
    ServiceIdentity::resolve(
        Some("svc".to_string()),
        "prog".to_string(),
        Some("staging".to_string()),
        Some("worker".to_string()),
    )
}

fn endpoints() -> EndpointConfig {
    EndpointConfig::resolve(
        Some("http://init".to_string()),
        None,
        Some("http://logs".to_string()),
        None,
    )
}

fn init_reply(success: bool, session: Option<&str>) -> Reply<InitResponse> {
    Reply::Delivered(InitResponse {
        success,
        payload: session.map(|s| InitPayload { session_id: s.to_string() }),
    })
}

fn establish(reply: Reply<InitResponse>) -> Result<PogrAppender, InitError> {
    PogrAppender::establish(reqwest::Client::new(), identity(), endpoints(), reply)
}

#[test]
fn granted_session_is_kept_exactly() {
    let a = match establish(init_reply(true, Some("S"))) {
        Ok(a) => a,
        Err(e) => panic!("{:?}", e),
    };
    assert_eq!(a.session_id, "S");
    assert_eq!(a.service_name, "svc");
    assert_eq!(a.environment, "staging");
    assert_eq!(a.service_type, "worker");
    assert_eq!(a.init_endpoint, "http://init");
    assert_eq!(a.logs_endpoint, "http://logs");
}

#[test]
fn refused_handshake_fails() {
    assert!(matches!(establish(init_reply(false, None)), Err(InitError::Rejected)));
    assert!(matches!(establish(init_reply(false, Some("S"))), Err(InitError::Rejected)));
}

#[test]
fn handshake_without_payload_is_malformed() {
    assert!(matches!(establish(init_reply(true, None)), Err(InitError::MalformedResponse)));
    assert!(matches!(establish(Reply::Undecodable), Err(InitError::MalformedResponse)));
}

#[test]
fn handshake_transport_failure() {
    assert!(matches!(establish(Reply::TransportFailed), Err(InitError::Transport)));
}

#[test]
fn missing_credentials_are_reported() {
    assert_eq!(init_headers(None, Some("s".to_string())), Err(InitError::MissingAccessKey));
    assert_eq!(init_headers(None, None), Err(InitError::MissingAccessKey));
    assert_eq!(init_headers(Some("a".to_string()), None), Err(InitError::MissingSecretKey));
}

#[test]
fn endpoint_precedence() {
    let e = EndpointConfig::resolve(
        Some("arg".to_string()),
        Some("env".to_string()),
        None,
        Some("logs-env".to_string()),
    );
    assert_eq!(e.init_endpoint, "arg");
    assert_eq!(e.logs_endpoint, "logs-env");
    let d = EndpointConfig::resolve(None, None, None, None);
    assert_eq!(d.init_endpoint, "https://api.pogr.io/v1/intake/init");
    assert_eq!(d.logs_endpoint, "https://api.pogr.io/v1/intake/logs");
}

#[test]
fn identity_defaults() {
    let i = ServiceIdentity::resolve(None, "prog".to_string(), None, None);
    assert_eq!(i.service_name, "prog");
    assert_eq!(i.environment, "development");
    assert_eq!(i.service_type, "service");
    let j = identity();
    assert_eq!(j.service_name, "svc");
}

#[test]
fn acknowledged_submission() {
    let reply = Reply::Delivered(LogResponse {
        success: true,
        payload: Some(LogPayload { log_id: "L".to_string() }),
    });
    assert_eq!(submission_outcome(reply), Ok("L".to_string()));
}

#[test]
fn refused_submission_is_a_diagnostic() {
    let reply = Reply::Delivered(LogResponse { success: false, payload: None });
    assert_eq!(submission_outcome(reply), Err(SubmitError::Refused));
    let reply = Reply::Delivered(LogResponse {
        success: false,
        payload: Some(LogPayload { log_id: "L".to_string() }),
    });
    assert_eq!(submission_outcome(reply), Err(SubmitError::Refused));
}

#[test]
fn failed_submission_kinds() {
    assert_eq!(submission_outcome(Reply::TransportFailed), Err(SubmitError::Transport));
    assert_eq!(submission_outcome(Reply::Undecodable), Err(SubmitError::MalformedResponse));
    let reply = Reply::Delivered(LogResponse { success: true, payload: None });
    assert_eq!(submission_outcome(reply), Err(SubmitError::MalformedResponse));
}

#[test]
fn hundred_events_give_hundred_records() {
    let a = match establish(init_reply(true, Some("S"))) {
        Ok(a) => a,
        Err(e) => panic!("{:?}", e),
    };
    let mut records = Vec::new();
    for i in 0..100u64 {
        let mut v = JsonVisitor::new();
        v.record_u64("seq", i);
        let m = EventMetadata {
            name: "event".to_string(),
            target: "bench".to_string(),
            level: Level::Info,
            file: None,
            line: None,
        };
        records.push(a.request_for_event(&m, v));
    }
    assert_eq!(records.len(), 100);
    for (i, r) in records.iter().enumerate() {
        assert_eq!(r.tags, vec![("seq".to_string(), FieldValue::UInt(i as u64))]);
        assert_eq!(r.service, "svc");
        assert_eq!(r.environment, "staging");
        assert_eq!(r.kind, "worker");
        assert_eq!(r.severity, "INFO");
    }
}

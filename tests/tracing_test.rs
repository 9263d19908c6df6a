use pogr_tracing_rs::{
    EndpointConfig, EventMetadata, FieldValue, InitPayload, InitResponse, JsonVisitor, Level,
    PogrAppender, Reply, ServiceIdentity,
};

#[test]
fn test_pogr_tracing_appender() {
    let base_url = "http://127.0.0.1:1234/";
    let init_endpoint = format!("{}/v1/intake/init", base_url.trim_end_matches('/'));

    let identity = ServiceIdentity::resolve(None, "tracing_test".to_string(), None, None);
    let endpoints = EndpointConfig::resolve(Some(init_endpoint.clone()), None, None, None);
    let reply = Reply::Delivered(InitResponse {
        success: true,
        payload: Some(InitPayload { session_id: "test_session_id".to_string() }),
    });
    let appender = match PogrAppender::establish(reqwest::Client::new(), identity, endpoints, reply) {
        Ok(a) => a,
        Err(e) => panic!("session not established: {:?}", e),
    };
    assert_eq!(appender.session_id, "test_session_id");
    assert_eq!(appender.init_endpoint, init_endpoint);

    // The fields and provenance of `info!(service = "TestService", "This is a test log message")`.
    let mut visitor = JsonVisitor::new();
    visitor.record_debug("message", "This is a test log message");
    visitor.record_str("service", "TestService");
    let metadata = EventMetadata {
        name: "event tests/tracing_test.rs:30".to_string(),
        target: "tracing_test".to_string(),
        level: Level::Info,
        file: Some("tests/tracing_test.rs".to_string()),
        line: Some(30),
    };

    let request = appender.request_for_event(&metadata, visitor);
    assert_eq!(request.service, "tracing_test");
    assert_eq!(request.severity, "INFO");
    assert_eq!(request.log, "rust tracing log captured");
    assert_eq!(
        request.tags,
        vec![
            ("message".to_string(), FieldValue::Text("This is a test log message".to_string())),
            ("service".to_string(), FieldValue::Text("TestService".to_string())),
        ]
    );
    assert_eq!(appender.log_headers()[0].1, "test_session_id");
}

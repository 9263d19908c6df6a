use pogr_tracing_rs::{serialize_metadata, EventMetadata, FieldValue, Level};

fn entry(k: &str, v: FieldValue) -> (String, FieldValue) {
    (k.to_string(), v)
}

#[test]
fn absent_file_and_line_are_null() {
    let m = EventMetadata {
        name: "event".to_string(),
        target: "app::db".to_string(),
        level: Level::Warn,
        file: None,
        line: None,
    };
    assert_eq!(
        serialize_metadata(&m),
        vec![
            entry("name", FieldValue::Text("event".to_string())),
            entry("target", FieldValue::Text("app::db".to_string())),
            entry("level", FieldValue::Text("WARN".to_string())),
            entry("file", FieldValue::Null),
            entry("line", FieldValue::Null),
        ]
    );
}

#[test]
fn present_file_and_line_are_kept() {
    let m = EventMetadata {
        name: "event src/main.rs:17".to_string(),
        target: "app".to_string(),
        level: Level::Error,
        file: Some("src/main.rs".to_string()),
        line: Some(17),
    };
    let data = serialize_metadata(&m);
    assert_eq!(data[2], entry("level", FieldValue::Text("ERROR".to_string())));
    assert_eq!(data[3], entry("file", FieldValue::Text("src/main.rs".to_string())));
    assert_eq!(data[4], entry("line", FieldValue::Int(17)));
}

#[test]
fn largest_line_is_kept() {
    let m = EventMetadata {
        name: "n".to_string(),
        target: "t".to_string(),
        level: Level::Trace,
        file: None,
        line: Some(u32::MAX),
    };
    let data = serialize_metadata(&m);
    assert_eq!(data[3], entry("file", FieldValue::Null));
    assert_eq!(data[4], entry("line", FieldValue::Int(4294967295)));
}

#[test]
fn level_names() {
    assert_eq!(Level::Trace.as_str(), "TRACE");
    assert_eq!(Level::Debug.as_str(), "DEBUG");
    assert_eq!(Level::Info.as_str(), "INFO");
    assert_eq!(Level::Warn.as_str(), "WARN");
    assert_eq!(Level::Error.as_str(), "ERROR");
}

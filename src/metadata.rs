use vstd::prelude::*;
use crate::fields::{entries_view, keys_unique, lookup, FieldValue, FieldView};

verus! {

/// The severity of an event.
#[derive(Clone, Copy, Debug, PartialEq, Eq, Structural)]
pub enum Level {
    Trace,
    Debug,
    Info,
    Warn,
    Error,
}

/// The canonical upper-case name of a severity.
pub open spec fn level_name(l: Level) -> Seq<char> {
    match l {
        Level::Trace => "TRACE"@,
        Level::Debug => "DEBUG"@,
        Level::Info => "INFO"@,
        Level::Warn => "WARN"@,
        Level::Error => "ERROR"@,
    }
}

impl Level {
    /// The canonical upper-case name of this severity.
    pub fn as_str(&self) -> (r: &'static str)
        ensures
            r@ == level_name(*self),
    {
        match self {
            Level::Trace => "TRACE",
            Level::Debug => "DEBUG",
            Level::Info => "INFO",
            Level::Warn => "WARN",
            Level::Error => "ERROR",
        }
    }
}

/// Where an event comes from: its name, target category, severity and,
/// where known, source file and line.
#[derive(Debug)]
pub struct EventMetadata {
    pub name: String,
    pub target: String,
    pub level: Level,
    pub file: Option<String>,
    pub line: Option<u32>,
}

/// The JSON object that describes an event's provenance: `name`, `target`
/// and `level` as strings, `file` as a string and `line` as an integer, each
/// of the last two null when absent.
pub open spec fn metadata_entries(m: EventMetadata) -> Seq<(Seq<char>, FieldView)> {
    seq![
        ("name"@, FieldView::Text(m.name@)),
        ("target"@, FieldView::Text(m.target@)),
        ("level"@, FieldView::Text(level_name(m.level))),
        ("file"@, match m.file {
            Some(f) => FieldView::Text(f@),
            None => FieldView::Null,
        }),
        ("line"@, match m.line {
            Some(l) => FieldView::Int(l as i64),
            None => FieldView::Null,
        }),
    ]
}

/// Serializes an event's provenance into a JSON object.
pub fn serialize_metadata(metadata: &EventMetadata) -> (r: Vec<(String, FieldValue)>)
    ensures
        entries_view(r@) == metadata_entries(*metadata),
{
    let mut r: Vec<(String, FieldValue)> = Vec::new();
    r.push(("name".to_string(), FieldValue::Text(metadata.name.clone())));
    r.push(("target".to_string(), FieldValue::Text(metadata.target.clone())));
    r.push(("level".to_string(), FieldValue::Text(metadata.level.as_str().to_string())));
    let file = match &metadata.file {
        Some(f) => FieldValue::Text(f.clone()),
        None => FieldValue::Null,
    };
    r.push(("file".to_string(), file));
    let line = match metadata.line {
        Some(l) => FieldValue::Int(l as i64),
        None => FieldValue::Null,
    };
    r.push(("line".to_string(), line));
    assert(entries_view(r@) =~= metadata_entries(*metadata));
    r
}

/// The provenance object always carries a non-null string `level`; `file`
/// and `line` are null exactly when absent and hold the given values
/// otherwise; `name` and `target` are the given strings.
pub proof fn lemma_metadata_fields(m: EventMetadata)
    ensures
        keys_unique(metadata_entries(m)),
        lookup(metadata_entries(m), "name"@) == Some(FieldView::Text(m.name@)),
        lookup(metadata_entries(m), "target"@) == Some(FieldView::Text(m.target@)),
        lookup(metadata_entries(m), "level"@) == Some(FieldView::Text(level_name(m.level))),
        m.file is None ==> lookup(metadata_entries(m), "file"@) == Some(FieldView::Null),
        m.line is None ==> lookup(metadata_entries(m), "line"@) == Some(FieldView::Null),
        m.file is Some ==> lookup(metadata_entries(m), "file"@) == Some(
            FieldView::Text(m.file.unwrap()@),
        ),
        m.line is Some ==> lookup(metadata_entries(m), "line"@) == Some(
            FieldView::Int(m.line.unwrap() as i64),
        ),
{
    reveal_strlit("name");
    reveal_strlit("target");
    reveal_strlit("level");
    reveal_strlit("file");
    reveal_strlit("line");
    let s = metadata_entries(m);
    assert("name"@.len() == 4 && "name"@[0] == 'n');
    assert("target"@.len() == 6);
    assert("level"@.len() == 5);
    assert("file"@.len() == 4 && "file"@[0] == 'f');
    assert("line"@.len() == 4 && "line"@[0] == 'l');
    assert(keys_unique(s));
    assert(lookup(s, "name"@) == Some(s[0].1));
}

} // verus!

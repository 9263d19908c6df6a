use vstd::prelude::*;
use crate::fields::{entries_view, FieldValue, FieldView, JsonVisitor};
use crate::metadata::{level_name, metadata_entries, serialize_metadata, EventMetadata};
use crate::session::{PogrAppender, CAPTURED_LOG_TEXT};

verus! {

/// One structured record for the logs endpoint: the service's identity, the
/// event's severity, the record's text, the event's provenance (`data`) and
/// its fields (`tags`).
#[derive(Debug)]
pub struct LogRequest {
    pub service: String,
    pub environment: String,
    pub severity: String,
    pub kind: String,
    pub log: String,
    pub data: Vec<(String, FieldValue)>,
    pub tags: Vec<(String, FieldValue)>,
}

/// The mathematical value of a `LogRequest`.
pub struct LogRequestView {
    pub service: Seq<char>,
    pub environment: Seq<char>,
    pub severity: Seq<char>,
    pub kind: Seq<char>,
    pub log: Seq<char>,
    pub data: Seq<(Seq<char>, FieldView)>,
    pub tags: Seq<(Seq<char>, FieldView)>,
}

impl View for LogRequest {
    type V = LogRequestView;

    open spec fn view(&self) -> LogRequestView {
        LogRequestView {
            service: self.service@,
            environment: self.environment@,
            severity: self.severity@,
            kind: self.kind@,
            log: self.log@,
            data: entries_view(self.data@),
            tags: entries_view(self.tags@),
        }
    }
}

/// The record that one event yields under session client `a`, given the
/// event's provenance and its collected fields.
pub open spec fn event_request(
    a: PogrAppender,
    m: EventMetadata,
    fields: Seq<(Seq<char>, FieldView)>,
) -> LogRequestView {
    LogRequestView {
        service: a.service_name@,
        environment: a.environment@,
        severity: level_name(m.level),
        kind: a.service_type@,
        log: CAPTURED_LOG_TEXT@,
        data: metadata_entries(m),
        tags: fields,
    }
}

impl PogrAppender {
    /// Builds the record for one captured event from the event's provenance
    /// and the fields collected from it.
    pub fn request_for_event(&self, metadata: &EventMetadata, visitor: JsonVisitor) -> (r:
        LogRequest)
        ensures
            r@ == event_request(*self, *metadata, visitor@),
    {
        LogRequest {
            service: self.service_name.clone(),
            environment: self.environment.clone(),
            severity: metadata.level.as_str().to_string(),
            kind: self.service_type.clone(),
            log: CAPTURED_LOG_TEXT.to_string(),
            data: serialize_metadata(metadata),
            tags: visitor.fields,
        }
    }
}

/// The records that a run of events yields, in the order of the events.
pub open spec fn dispatched(
    a: PogrAppender,
    events: Seq<(EventMetadata, Seq<(Seq<char>, FieldView)>)>,
) -> Seq<LogRequestView> {
    events.map_values(|e: (EventMetadata, Seq<(Seq<char>, FieldView)>)| event_request(a, e.0, e.1))
}

/// Every event of a run yields exactly one record, built from that event and
/// no other: nothing is lost and nothing is submitted twice.
pub proof fn lemma_one_record_per_event(
    a: PogrAppender,
    events: Seq<(EventMetadata, Seq<(Seq<char>, FieldView)>)>,
)
    ensures
        dispatched(a, events).len() == events.len(),
        forall|i: int|
            0 <= i < events.len() ==> #[trigger] dispatched(a, events)[i] == event_request(
                a,
                events[i].0,
                events[i].1,
            ),
{
}

} // verus!

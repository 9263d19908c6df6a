//! Structured-log forwarding: typed event fields and event provenance become a
//! log record, which is submitted to a remote intake service under a session
//! that is established once.
//!
//! The library holds the logic and its proofs: the field collector, the
//! metadata serializer, the endpoint and credential rules, the handshake and
//! submission decisions, and the one-record-per-event dispatch rule. Sending
//! requests, reading the environment and scheduling tasks are left to the
//! caller.

pub mod dispatch;
pub mod fields;
pub mod metadata;
pub mod session;

pub use dispatch::LogRequest;
pub use fields::{FieldValue, JsonVisitor};
pub use metadata::{serialize_metadata, EventMetadata, Level};
pub use session::{
    init_headers, submission_outcome, EndpointConfig, InitError, InitPayload, InitResponse,
    LogPayload, LogResponse, PogrAppender, Reply, ServiceIdentity, SubmitError,
};

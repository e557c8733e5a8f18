//! The agent's error kinds and their texts.
use vstd::prelude::*;
use crate::text::{owned, push_str};
use crate::types::{ModeView, SessionKey, SessionKeyView};

verus! {

/// What can go wrong in the agent; each variant carries a human-readable detail.
#[derive(Debug)]
pub enum AgentError {
    ConfigNotFound(String),
    ConfigParseError(String),
    ModelApiError(String),
    ModelProviderNotFound(String, String),
    ModelProviderNotSupported(String),
    MemoryStoreError(String),
    MemoryTimeWindow(String),
    MemoryEgoError(String),
    WsConnectionError(String),
    WsBindError(String),
    StationConnectionError(String),
    StationCycle(String),
    InvalidCommand(String),
    PermissionDenied,
    ModeConflict(String),
    ContextOverflow,
    SerializationError(String),
    IoError(String),
    /// An HTTP client failure (the client's message).
    HttpError(String),
    /// A JSON encoding or decoding failure (the codec's message).
    JsonError(String),
    /// A websocket failure (the transport's message).
    WsError(String),
    InternalError(String),
    PipelineNotFound(SessionKey),
}

/// What `format!("{:?}", s)` gives for a string `s`: `s` between double quotes, each
/// character that `str`'s `Debug` form escapes written as its escape.
pub uninterp spec fn str_debug_text(s: Seq<char>) -> Seq<char>;

/// The `Debug` form of a string, `format!("{:?}", s)` (std's `<str as Debug>::fmt`); its
/// result is named [`str_debug_text`], as the escaping follows std's character tables.
#[verifier::external_body]
fn debug_str(s: &str) -> (r: String)
    ensures
        r@ == str_debug_text(s@),
{
    format!("{:?}", s)
}

/// A session key written out as its `Debug` form,
/// `SessionKey { agent_id: "..", role_name: "..", mode: .. }`.
pub open spec fn session_key_text(k: SessionKeyView) -> Seq<char> {
    "SessionKey { agent_id: "@ + str_debug_text(k.agent_id) + ", role_name: "@ + str_debug_text(k.role_name) + ", mode: "@
        + match k.mode {
            ModeView::Role => "Role"@,
            ModeView::Event(e) => "Event("@ + str_debug_text(e) + ")"@,
        } + " }"@
}

/// The text of an error: its kind, then its detail.
pub open spec fn error_text(e: AgentError) -> Seq<char> {
    match e {
        AgentError::ConfigNotFound(m) => "Config not found: "@ + m@,
        AgentError::ConfigParseError(m) => "Config parse error: "@ + m@,
        AgentError::ModelApiError(m) => "Model API error: "@ + m@,
        AgentError::ModelProviderNotFound(p, _) => "Model provider not found: "@ + p@ + " "@ + p@,
        AgentError::ModelProviderNotSupported(m) => "Model provider not supported: "@ + m@,
        AgentError::MemoryStoreError(m) => "Memory store error: "@ + m@,
        AgentError::MemoryTimeWindow(m) => "Memory time window error: "@ + m@,
        AgentError::MemoryEgoError(m) => "Memory ego error: "@ + m@,
        AgentError::WsConnectionError(m) => "WS connection error: "@ + m@,
        AgentError::WsBindError(m) => "WS bind error: "@ + m@,
        AgentError::StationConnectionError(m) => "Station connection error: "@ + m@,
        AgentError::StationCycle(m) => "Station cycle detected: "@ + m@,
        AgentError::InvalidCommand(m) => "Invalid command: "@ + m@,
        AgentError::PermissionDenied => "Permission denied"@,
        AgentError::ModeConflict(m) => "Mode conflict: "@ + m@,
        AgentError::ContextOverflow => "Context overflow"@,
        AgentError::SerializationError(m) => "Serialization error: "@ + m@,
        AgentError::IoError(m) => "IO error: "@ + m@,
        AgentError::HttpError(m) => "Reqwest error: "@ + m@,
        AgentError::JsonError(m) => "Serde JSON error: "@ + m@,
        AgentError::WsError(m) => "WS error: "@ + m@,
        AgentError::InternalError(m) => "Internal error: "@ + m@,
        AgentError::PipelineNotFound(k) => "Pipeline not found for session "@ + session_key_text(k@),
    }
}

fn prefixed(prefix: &str, detail: &str) -> (r: String)
    ensures
        r@ == prefix@ + detail@,
{
    let mut s = owned(prefix);
    push_str(&mut s, detail);
    s
}

impl AgentError {
    /// The text of the error (see [`error_text`]).
    pub fn message(&self) -> (r: String)
        ensures
            r@ == error_text(*self),
    {
        match self {
            AgentError::ConfigNotFound(m) => prefixed("Config not found: ", m.as_str()),
            AgentError::ConfigParseError(m) => prefixed("Config parse error: ", m.as_str()),
            AgentError::ModelApiError(m) => prefixed("Model API error: ", m.as_str()),
            AgentError::ModelProviderNotFound(p, _) => {
                let mut s = prefixed("Model provider not found: ", p.as_str());
                push_str(&mut s, " ");
                push_str(&mut s, p.as_str());
                s
            },
            AgentError::ModelProviderNotSupported(m) => prefixed("Model provider not supported: ", m.as_str()),
            AgentError::MemoryStoreError(m) => prefixed("Memory store error: ", m.as_str()),
            AgentError::MemoryTimeWindow(m) => prefixed("Memory time window error: ", m.as_str()),
            AgentError::MemoryEgoError(m) => prefixed("Memory ego error: ", m.as_str()),
            AgentError::WsConnectionError(m) => prefixed("WS connection error: ", m.as_str()),
            AgentError::WsBindError(m) => prefixed("WS bind error: ", m.as_str()),
            AgentError::StationConnectionError(m) => prefixed("Station connection error: ", m.as_str()),
            AgentError::StationCycle(m) => prefixed("Station cycle detected: ", m.as_str()),
            AgentError::InvalidCommand(m) => prefixed("Invalid command: ", m.as_str()),
            AgentError::PermissionDenied => owned("Permission denied"),
            AgentError::ModeConflict(m) => prefixed("Mode conflict: ", m.as_str()),
            AgentError::ContextOverflow => owned("Context overflow"),
            AgentError::SerializationError(m) => prefixed("Serialization error: ", m.as_str()),
            AgentError::IoError(m) => prefixed("IO error: ", m.as_str()),
            AgentError::HttpError(m) => prefixed("Reqwest error: ", m.as_str()),
            AgentError::JsonError(m) => prefixed("Serde JSON error: ", m.as_str()),
            AgentError::WsError(m) => prefixed("WS error: ", m.as_str()),
            AgentError::InternalError(m) => prefixed("Internal error: ", m.as_str()),
            AgentError::PipelineNotFound(k) => {
                let mut s = owned("Pipeline not found for session ");
                push_str(&mut s, "SessionKey { agent_id: ");
                push_str(&mut s, debug_str(k.agent_id.as_str()).as_str());
                push_str(&mut s, ", role_name: ");
                push_str(&mut s, debug_str(k.role_name.as_str()).as_str());
                push_str(&mut s, ", mode: ");
                match &k.mode {
                    crate::types::Mode::Role => push_str(&mut s, "Role"),
                    crate::types::Mode::Event(e) => {
                        push_str(&mut s, "Event(");
                        push_str(&mut s, debug_str(e.as_str()).as_str());
                        push_str(&mut s, ")");
                    },
                }
                push_str(&mut s, " }");
                assert(s@ =~= error_text(*self));
                s
            },
        }
    }
}

} // verus!

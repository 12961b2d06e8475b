//! Errors of the gateway and their mapping to HTTP statuses.
use vstd::prelude::*;
use vstd::string::*;

use crate::text::{find_seq, find_seq_from, to_chars};

verus! {

broadcast use vstd::seq::group_seq_axioms;

/// Errors raised by the agent engine and the gateway.
#[derive(Debug, Clone, PartialEq, Eq)]
pub enum AivyxError {
    /// A rate limit was hit.
    RateLimit(String),
    /// A capability check denied the action.
    CapabilityDenied(String),
    /// A subsystem is not initialized.
    NotInitialized(String),
    /// The LLM provider failed.
    LlmProvider(String),
    /// An outbound HTTP call failed.
    Http(String),
    /// An inbound channel failed.
    Channel(String),
    /// A JSON payload could not be (de)serialized.
    Serialization(String),
    /// A TOML document could not be parsed.
    TomlDe(String),
    /// A configuration or lookup error.
    Config(String),
    /// An I/O error.
    Io(String),
    /// A cryptographic failure.
    Crypto(String),
    /// A storage failure.
    Storage(String),
    /// A task engine failure.
    Task(String),
    /// An agent turn failed.
    Agent(String),
    /// Any other failure.
    Other(String),
}

/// Server error wrapper that maps `AivyxError` variants to HTTP status codes.
#[derive(Debug, Clone, PartialEq, Eq)]
pub struct ServerError(pub AivyxError);

/// `s` contains the text `not found`.
pub open spec fn mentions_not_found(s: Seq<char>) -> bool {
    find_seq_from(s, seq!['n', 'o', 't', ' ', 'f', 'o', 'u', 'n', 'd'], 0) is Some
}

/// HTTP status and message for an error: the variant's message for the
/// errors that a client can act upon, a fixed masked message otherwise.
pub open spec fn error_response_spec(e: AivyxError) -> (u16, Seq<char>) {
    match e {
        AivyxError::RateLimit(m) => (429, m@),
        AivyxError::CapabilityDenied(m) => (403, m@),
        AivyxError::NotInitialized(m) => (503, m@),
        AivyxError::LlmProvider(m) => (502, m@),
        AivyxError::Http(m) => (502, m@),
        AivyxError::Channel(m) => (502, m@),
        AivyxError::Serialization(m) => (400, m@),
        AivyxError::TomlDe(m) => (400, m@),
        AivyxError::Config(m) => if mentions_not_found(m@) {
            (404, m@)
        } else {
            (500, "internal server error"@)
        },
        _ => (500, "internal server error"@),
    }
}

/// Whether `m` contains `not found`.
pub fn message_mentions_not_found(m: &str) -> (b: bool)
    ensures
        b == mentions_not_found(m@),
{
    let chars = to_chars(m);
    let pat = to_chars("not found");
    proof {
        reveal_strlit("not found");
    }
    assert(pat@ =~= seq!['n', 'o', 't', ' ', 'f', 'o', 'u', 'n', 'd']);
    find_seq(&chars, &pat, 0).is_some()
}

/// Maps an `AivyxError` to an HTTP status code and error message.
pub fn map_error(err: &AivyxError) -> (r: (u16, String))
    ensures
        (r.0, r.1@) == error_response_spec(*err),
{
    match err {
        AivyxError::RateLimit(m) => (429, m.clone()),
        AivyxError::CapabilityDenied(m) => (403, m.clone()),
        AivyxError::NotInitialized(m) => (503, m.clone()),
        AivyxError::LlmProvider(m) => (502, m.clone()),
        AivyxError::Http(m) => (502, m.clone()),
        AivyxError::Channel(m) => (502, m.clone()),
        AivyxError::Serialization(m) => (400, m.clone()),
        AivyxError::TomlDe(m) => (400, m.clone()),
        AivyxError::Config(m) => {
            if message_mentions_not_found(m.as_str()) {
                (404, m.clone())
            } else {
                (500, "internal server error".to_owned())
            }
        },
        _ => (500, "internal server error".to_owned()),
    }
}

impl ServerError {
    /// HTTP status and JSON `error` message for this error.
    pub fn status_and_message(&self) -> (r: (u16, String))
        ensures
            (r.0, r.1@) == error_response_spec(self.0),
    {
        map_error(&self.0)
    }
}

impl From<AivyxError> for ServerError {
    fn from(e: AivyxError) -> (r: ServerError) {
        ServerError(e)
    }
}

impl vstd::std_specs::convert::FromSpecImpl<AivyxError> for ServerError {
    open spec fn obeys_from_spec() -> bool {
        true
    }

    open spec fn from_spec(e: AivyxError) -> ServerError {
        ServerError(e)
    }
}

} // verus!

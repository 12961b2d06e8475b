//! Saved sessions: their identifiers as request paths carry them.
use vstd::prelude::*;
use vstd::string::*;

use crate::channels::session::SessionId;
use crate::error::{AivyxError, ServerError};
use crate::ids::{is_v4_uuid_text, parse_uuid, random_uuid_text, uuid_parsed, uuid_string, uuid_text, v4_bits};
use crate::routes::chat::invalid_session_id;

verus! {

/// Parses the session ID of a request path into its canonical
/// (hyphenated, lower-case) text; text that is no UUID is refused with
/// `invalid session ID: <text>`.
pub fn parse_session_id(id: &str) -> (r: Result<SessionId, ServerError>)
    ensures
        match uuid_parsed(id@) {
            Some(b) => r matches Ok(s) && s.text@ == uuid_text(b),
            None => r matches Err(ServerError(AivyxError::Config(m))) && m@ == "invalid session ID: "@
                + id@,
        },
        forall|b: Seq<u8>|
            b.len() == 16 && id@ == #[trigger] uuid_text(b) ==> (r matches Ok(s) && s.text@ == id@),
{
    match parse_uuid(id) {
        Some(bytes) => Ok(SessionId { text: uuid_string(bytes) }),
        None => Err(invalid_session_id(id)),
    }
}

/// A fresh random session ID; it parses back to itself.
pub fn new_session_id() -> (s: SessionId)
    ensures
        is_v4_uuid_text(s.text@),
        exists|b: Seq<u8>| b.len() == 16 && s.text@ == #[trigger] uuid_text(b),
{
    let text = random_uuid_text();
    proof {
        let b = choose|b: Seq<u8>| b.len() == 16 && text@ == #[trigger] uuid_text(v4_bits(b));
        assert(v4_bits(b).len() == 16);
        assert(text@ == uuid_text(v4_bits(b)));
    }
    SessionId { text }
}

} // verus!

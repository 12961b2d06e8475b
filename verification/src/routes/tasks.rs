//! Task endpoints: task identifiers, their errors, and step previews.
use vstd::prelude::*;
use vstd::string::*;

use crate::error::{AivyxError, ServerError};
use crate::ids::{parse_uuid, uuid_parsed, uuid_string, uuid_text};
use crate::scheduler::{truncate, truncate_spec};

verus! {

/// Request body for `POST /tasks`.
#[derive(Debug, Clone, PartialEq, Eq)]
pub struct CreateTaskRequest {
    /// What the task should achieve.
    pub goal: String,
    /// Agent profile that plans and runs it.
    pub agent: String,
}

/// Identifier of a task: a UUID.
#[derive(Debug, Clone, Copy, PartialEq, Eq)]
pub struct TaskId {
    /// The UUID's bytes.
    pub bytes: [u8; 16],
}

impl TaskId {
    /// Parses a task ID; text that is no UUID is refused with
    /// `invalid task ID: <text>`. The text of any task ID parses back to
    /// it.
    pub fn parse(id: &str) -> (r: Result<TaskId, ServerError>)
        ensures
            match uuid_parsed(id@) {
                Some(b) => r matches Ok(t) && t.bytes@ == b,
                None => r matches Err(ServerError(AivyxError::Config(m))) && m@ == "invalid task ID: "@
                    + id@,
            },
            forall|b: Seq<u8>|
                b.len() == 16 && id@ == #[trigger] uuid_text(b) ==> (r matches Ok(t) && t.bytes@ == b),
    {
        match parse_uuid(id) {
            Some(bytes) => Ok(TaskId { bytes }),
            None => {
                let mut m = "invalid task ID: ".to_owned();
                m.append(id);
                Err(ServerError(AivyxError::Config(m)))
            },
        }
    }

    /// The hyphenated lower-case text of the ID.
    pub fn to_text(&self) -> (s: String)
        ensures
            s@ == uuid_text(self.bytes@),
    {
        uuid_string(self.bytes)
    }
}

/// `task not found: <id>`.
pub fn task_not_found(id: &str) -> (e: ServerError)
    ensures
        e.0 matches AivyxError::Config(m) && m@ == "task not found: "@ + id@,
{
    let mut m = "task not found: ".to_owned();
    m.append(id);
    ServerError(AivyxError::Config(m))
}

/// Longest step result shown by `GET /tasks/:id` before it is cut.
pub const RESULT_PREVIEW_LEN: usize = 500;

/// The preview of a step's result: cut to 500 bytes on a character
/// boundary, with `...` when cut.
pub fn result_preview(result: &str) -> (p: String)
    ensures
        p@ == truncate_spec(result@, RESULT_PREVIEW_LEN as nat),
{
    truncate(result, RESULT_PREVIEW_LEN)
}

} // verus!

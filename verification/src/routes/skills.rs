//! Skill endpoints: response bodies and errors.
use vstd::prelude::*;
use vstd::string::*;

use crate::error::{AivyxError, ServerError};

verus! {

/// Response item for skill listing.
#[derive(Debug, Clone, PartialEq, Eq)]
pub struct SkillSummaryResponse {
    /// Skill name.
    pub name: String,
    /// What the skill does.
    pub description: String,
}

/// Response body for `GET /skills/:name`.
#[derive(Debug, Clone, PartialEq, Eq)]
pub struct SkillDetailResponse {
    /// Skill name.
    pub name: String,
    /// What the skill does.
    pub description: String,
    /// License.
    pub license: Option<String>,
    /// Compatibility notes.
    pub compatibility: Option<String>,
    /// Tools the skill may use.
    pub allowed_tools: Option<String>,
    /// Extra manifest fields, in manifest order.
    pub metadata: Vec<(String, String)>,
    /// Instructions of the skill.
    pub body: String,
    /// Directory of the skill.
    pub path: String,
}

/// `skill not found: <name>`.
pub fn skill_not_found(name: &str) -> (e: ServerError)
    ensures
        e.0 matches AivyxError::Config(m) && m@ == "skill not found: "@ + name@,
{
    let mut m = "skill not found: ".to_owned();
    m.append(name);
    ServerError(AivyxError::Config(m))
}

} // verus!

//! Project endpoints: how a registered project is named.
use vstd::prelude::*;
use vstd::string::*;

use crate::error::{AivyxError, ServerError};

verus! {

/// Response item for project listing.
#[derive(Debug, Clone, PartialEq, Eq)]
pub struct ProjectSummary {
    /// Project name.
    pub name: String,
    /// Main language.
    pub language: Option<String>,
    /// Directory of the project.
    pub path: String,
}

/// Request body for `POST /projects`.
#[derive(Debug, Clone, PartialEq, Eq)]
pub struct CreateProjectRequest {
    /// Directory of the project.
    pub path: String,
    /// Name (default: the directory's name).
    pub name: Option<String>,
    /// Main language.
    pub language: Option<String>,
}

/// The last component of a path, as `std::path::Path::file_name` reads it
/// (`None` for a path that ends in `..`, a root, or nothing).
pub uninterp spec fn file_name_of(path: Seq<char>) -> Option<Seq<char>>;

/// The last component of a path, by `Path::file_name`.
#[verifier::external_body]
fn path_file_name(path: &str) -> (r: Option<String>)
    ensures
        match file_name_of(path@) {
            Some(n) => r matches Some(s) && s@ == n,
            None => r is None,
        },
{
    std::path::Path::new(path).file_name().map(|f| f.to_string_lossy().to_string())
}

/// The name of a new project: the requested one, else the directory's
/// name, else `project`.
pub fn project_name(requested: Option<String>, path: &str) -> (n: String)
    ensures
        match requested {
            Some(r) => n == r,
            None => n@ == match file_name_of(path@) {
                Some(f) => f,
                None => "project"@,
            },
        },
{
    match requested {
        Some(r) => r,
        None => match path_file_name(path) {
            Some(f) => f,
            None => "project".to_owned(),
        },
    }
}

/// `not a directory: <path>`.
pub fn not_a_directory(path: &str) -> (e: ServerError)
    ensures
        e.0 matches AivyxError::Config(m) && m@ == "not a directory: "@ + path@,
{
    let mut m = "not a directory: ".to_owned();
    m.append(path);
    ServerError(AivyxError::Config(m))
}

} // verus!

//! Secret endpoints: request and response bodies.
use vstd::prelude::*;
use vstd::string::*;

verus! {

/// Response body for `GET /secrets`: the names only, never the values.
#[derive(Debug, Clone, PartialEq, Eq)]
pub struct SecretListResponse {
    /// Names of the stored secrets.
    pub keys: Vec<String>,
}

/// Request body for `POST /secrets`.
#[derive(Debug, Clone, PartialEq, Eq)]
pub struct SetSecretRequest {
    /// Secret name.
    pub name: String,
    /// Secret value.
    pub value: String,
}

/// Who the audit log names as having changed a secret through the API.
pub fn changed_by() -> (s: String)
    ensures
        s@ == "api"@,
{
    "api".to_owned()
}

} // verus!

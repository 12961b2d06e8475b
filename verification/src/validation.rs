//! Shared input validation helpers for HTTP endpoints.
//!
//! Centralises name validation to prevent path traversal and injection attacks.
use vstd::prelude::*;
use vstd::string::*;

use crate::error::{AivyxError, ServerError};
use vstd::utf8::encode_utf8;
use crate::text::{char_is_control, is_control, to_chars, trim_bounds, trim_spec};

verus! {

broadcast use vstd::seq::group_seq_axioms;

/// The characters of a safe name: not empty, no `/`, `\`, `..`, NUL or
/// other control character, no leading `.`, and no surrounding white space.
pub open spec fn safe_name_chars(s: Seq<char>) -> bool {
    &&& s.len() > 0
    &&& forall|i: int| 0 <= i < s.len() ==> s[i] != '/' && s[i] != '\\' && s[i] != '\0'
        && !is_control(#[trigger] s[i])
    &&& forall|i: int| 0 <= i < s.len() - 1 ==> !(#[trigger] s[i] == '.' && s[i + 1] == '.')
    &&& s[0] != '.'
    &&& trim_spec(s) == s
}

/// A name that is safe to use as a file name under a data directory: safe
/// characters, and at most `max_bytes` bytes of UTF-8.
pub open spec fn is_safe_name(name: &str, max_bytes: nat) -> bool {
    safe_name_chars(name@) && name.spec_bytes().len() <= max_bytes
}

/// A safe secret name: safe characters, and at most 128 characters.
pub open spec fn is_safe_secret_name(name: Seq<char>) -> bool {
    safe_name_chars(name) && name.len() <= 128
}

fn name_chars_safe(name: &str) -> (b: bool)
    ensures
        b == safe_name_chars(name@),
{
    let chars = to_chars(name);
    let n = chars.len();
    if n == 0 {
        return false;
    }
    let mut i: usize = 0;
    while i < n
        invariant
            n == chars@.len(),
            chars@ == name@,
            i <= n,
            forall|j: int| 0 <= j < i ==> chars@[j] != '/' && chars@[j] != '\\' && chars@[j]
                != '\0' && !is_control(#[trigger] chars@[j]),
            forall|j: int| 0 <= j < i && j < n - 1 ==> !(#[trigger] chars@[j] == '.' && chars@[j
                + 1] == '.'),
        decreases n - i,
    {
        let c = chars[i];
        if c == '/' || c == '\\' || c == '\0' || char_is_control(c) {
            return false;
        }
        if c == '.' && i + 1 < n && chars[i + 1] == '.' {
            return false;
        }
        i += 1;
    }
    if chars[0] == '.' {
        return false;
    }
    let (lo, hi) = trim_bounds(&chars, 0);
    assert(chars@.skip(0) =~= chars@);
    if lo != 0 || hi != n {
        proof {
            if trim_spec(chars@) == chars@ {
                assert(chars@.subrange(lo as int, hi as int).len() == n);
            }
        }
        return false;
    }
    assert(chars@.subrange(0, n as int) =~= chars@);
    true
}

/// Appends the characters of `s` to `out`.
pub fn push_str(out: &mut String, s: &str)
    ensures
        final(out)@ == old(out)@ + s@,
{
    out.append(s);
}

/// Validates a resource name (agent, team, project, schedule, plugin).
///
/// Rejects names that are empty, too long, or contain characters that could
/// enable path traversal or injection attacks.
pub fn validate_name(name: &str) -> (r: Result<(), ServerError>)
    ensures
        r is Ok <==> is_safe_name(name, 64),
        r matches Err(ServerError(e)) ==> e matches AivyxError::Config(m) && m@
            == "invalid resource name: "@ + name@,
{
    if name_chars_safe(name) && name.as_bytes().len() <= 64 {
        Ok(())
    } else {
        let mut m = "invalid resource name: ".to_owned();
        push_str(&mut m, name);
        Err(ServerError(AivyxError::Config(m)))
    }
}

/// Validates a secret key name (more permissive on length).
///
/// Same checks as `validate_name` but allows up to 128 characters.
pub fn validate_secret_name(name: &str) -> (r: Result<(), ServerError>)
    ensures
        r is Ok <==> is_safe_secret_name(name@),
        r matches Err(ServerError(e)) ==> e matches AivyxError::Config(m) && m@
            == "invalid secret name: "@ + name@,
{
    if name_chars_safe(name) && to_chars(name).len() <= 128 {
        Ok(())
    } else {
        let mut m = "invalid secret name: ".to_owned();
        push_str(&mut m, name);
        Err(ServerError(AivyxError::Config(m)))
    }
}

/// A text has at least as many UTF-8 bytes as characters.
proof fn lemma_bytes_at_least_chars(s: Seq<char>)
    ensures
        encode_utf8(s).len() >= s.len(),
    decreases s.len(),
{
    if s.len() > 0 {
        lemma_bytes_at_least_chars(s.drop_first());
    }
}

/// Law: every name accepted as a resource name is accepted as a secret name.
pub proof fn lemma_resource_names_are_secret_names(name: &str)
    requires
        is_safe_name(name, 64),
    ensures
        is_safe_secret_name(name@),
{
    lemma_bytes_at_least_chars(name@);
}

} // verus!

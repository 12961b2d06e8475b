//! Administrative endpoints: fresh bearer tokens.
use vstd::prelude::*;
use vstd::string::*;

use crate::ids::{
    is_lower_hex_char, is_v4_uuid_text, lemma_uuid_hex, random_uuid_text, remove_hyphens, uuid_text,
    v4_bits, without_hyphens,
};

verus! {

/// Name of the bearer token in the encrypted store.
pub const BEARER_TOKEN_KEY: &'static str = "server-bearer-token";

/// Whether a token is 64 lower-case hex digits.
pub open spec fn is_token_text(t: Seq<char>) -> bool {
    t.len() == 64 && forall|i: int| 0 <= i < 64 ==> is_lower_hex_char(#[trigger] t[i])
}

fn uuid_hex() -> (s: String)
    ensures
        s@.len() == 32,
        forall|i: int| 0 <= i < 32 ==> is_lower_hex_char(#[trigger] s@[i]),
{
    let u = random_uuid_text();
    proof {
        let b = choose|b: Seq<u8>| b.len() == 16 && u@ == #[trigger] uuid_text(v4_bits(b));
        lemma_uuid_hex(v4_bits(b));
    }
    remove_hyphens(u.as_str())
}

/// Generate a random 64-character hex token: the hex digits of two fresh
/// random UUIDs (each with 122 random bits).
pub fn generate_random_token() -> (t: String)
    ensures
        is_token_text(t@),
{
    let a = uuid_hex();
    let b = uuid_hex();
    let mut t = a;
    t.append(b.as_str());
    assert forall|i: int| 0 <= i < 64 implies is_lower_hex_char(#[trigger] t@[i]) by {
        if i >= 32 {
            assert(t@[i] == b@[i - 32]);
        }
    }
    t
}

/// The message returned with a rotated token.
pub fn rotation_message() -> (m: String)
    ensures
        m@ == "Bearer token rotated. Save this token \u{2014} it will not be shown again."@,
{
    "Bearer token rotated. Save this token \u{2014} it will not be shown again.".to_owned()
}

} // verus!

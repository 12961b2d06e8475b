//! Start-up decisions: which cross-origin requests the server admits.
use vstd::prelude::*;
use vstd::string::*;
use vstd::utf8::*;

use crate::ids::{sha256, sha256_digest};
use crate::text::{find_char, occurs_at, str_eq, string_from_chars, strip_prefix_str, to_chars, utf8_text};

verus! {

/// The host of `scheme://host[:port]` once the scheme is removed: the text
/// before the first `:`.
pub open spec fn host_part(rest: Seq<char>) -> Seq<char> {
    match crate::text::find_char_from(rest, ':', 0) {
        Some(k) => rest.take(k),
        None => rest,
    }
}

/// Whether an origin text names the local desktop shell: a `tauri://`
/// origin, or `http`/`https` on exactly `localhost` or `127.0.0.1`.
pub open spec fn sidecar_text_spec(s: Seq<char>) -> bool {
    if occurs_at(s, "tauri://"@, 0) {
        true
    } else {
        let rest = if occurs_at(s, "http://"@, 0) {
            Some(s.skip(7))
        } else if occurs_at(s, "https://"@, 0) {
            Some(s.skip(8))
        } else {
            None
        };
        match rest {
            Some(r) => host_part(r) == "localhost"@ || host_part(r) == "127.0.0.1"@,
            None => false,
        }
    }
}

/// Whether the origin bytes are a valid sidecar origin.
pub open spec fn sidecar_origin_spec(origin: Seq<u8>) -> bool {
    valid_utf8(origin) && sidecar_text_spec(decode_utf8(origin))
}

/// Check if an origin is a valid sidecar origin (localhost or Tauri).
///
/// Uses exact host matching to prevent bypass via DNS rebinding attacks
/// like `http://localhost.evil.com`.
pub fn is_sidecar_origin(origin: &[u8]) -> (b: bool)
    ensures
        b == sidecar_origin_spec(origin@),
{
    let s = match utf8_text(origin) {
        Some(s) => s,
        None => return false,
    };
    proof {
        reveal_strlit("tauri://");
        reveal_strlit("http://");
        reveal_strlit("https://");
    }
    if strip_prefix_str(s.as_str(), "tauri://").is_some() {
        return true;
    }
    let rest = match strip_prefix_str(s.as_str(), "http://") {
        Some(r) => r,
        None => match strip_prefix_str(s.as_str(), "https://") {
            Some(r) => r,
            None => return false,
        },
    };
    let v = to_chars(rest.as_str());
    let host = match find_char(v.as_slice(), ':', 0) {
        Some(k) => {
            proof {
                crate::text::lemma_find_char_from(v@, ':', 0);
            }
            string_from_chars(v.as_slice(), 0, k)
        },
        None => string_from_chars(v.as_slice(), 0, v.len()),
    };
    assert(v@.subrange(0, v@.len() as int) =~= v@);
    str_eq(host.as_str(), "localhost") || str_eq(host.as_str(), "127.0.0.1")
}

/// Which cross-origin requests the server admits.
#[derive(Debug, Clone, PartialEq, Eq)]
pub enum CorsPolicy {
    /// The configured origins (those that are valid header values).
    Origins(Vec<String>),
    /// The desktop shell's origins, as `is_sidecar_origin` tells them.
    Sidecar,
    /// No cross-origin request.
    DenyAll,
}

/// The CORS policy: configured origins win; otherwise sidecar mode admits
/// the desktop shell; otherwise nothing is admitted.
pub fn cors_policy(configured_origins: Option<Vec<String>>, sidecar_mode: bool) -> (p: CorsPolicy)
    ensures
        match configured_origins {
            Some(o) if o@.len() > 0 => p == CorsPolicy::Origins(o),
            _ => if sidecar_mode {
                p == CorsPolicy::Sidecar
            } else {
                p == CorsPolicy::DenyAll
            },
        },
{
    match configured_origins {
        Some(o) => {
            if o.len() > 0 {
                return CorsPolicy::Origins(o);
            }
        },
        None => {},
    }
    if sidecar_mode {
        CorsPolicy::Sidecar
    } else {
        CorsPolicy::DenyAll
    }
}

/// The hash the server keeps of its bearer token: SHA-256 of its UTF-8
/// bytes.
pub fn bearer_token_hash(token: &str) -> (h: [u8; 32])
    ensures
        h@ == sha256_digest(vstd::utf8::encode_utf8(token@)),
{
    sha256(token.as_bytes())
}

} // verus!

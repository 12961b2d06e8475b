//! Minimal JWT/OIDC token checks.
//!
//! Splits JWT tokens, decodes the payload, and checks expiry. Signature
//! validation is not performed.
use vstd::prelude::*;
use vstd::string::*;
use base64::Engine;

use crate::middleware::trace_context::{lemma_split_on_cons, lemma_split_on_single};
use crate::text::{char_count, lemma_char_count_add, lemma_char_count_none, lemma_split_on_len,
    decimal, split_chars, split_on, string_from_chars, to_chars, u64_to_decimal};

verus! {

broadcast use vstd::seq::group_seq_axioms;

/// Errors specific to SSO/OIDC operations.
#[derive(Debug, Clone, PartialEq, Eq)]
pub enum SsoError {
    /// The JWT token format is invalid (missing parts, bad base64, etc.).
    InvalidToken(String),
    /// The JWT token has expired.
    TokenExpired,
    /// Failed to deserialize the token payload.
    PayloadDeserialize(String),
}

/// Claims extracted from an OIDC ID token.
#[derive(Debug, Clone)]
pub struct OidcClaims {
    /// Subject identifier (unique user ID from the IdP).
    pub sub: String,
    /// User email address, if provided.
    pub email: Option<String>,
    /// Group memberships from the IdP.
    pub groups: Vec<String>,
    /// Optional tenant hint for multi-tenant routing.
    pub tenant_hint: Option<String>,
    /// Token expiration time (Unix timestamp).
    pub exp: u64,
}

/// Validates OIDC JWT tokens.
///
/// Currently performs payload decoding and expiry checks only.
pub struct OidcValidator {
    /// The expected issuer URL.
    pub issuer: String,
    /// The expected client/audience ID.
    pub client_id: String,
}

/// The bytes that the URL-safe, unpadded base64 text `text` encodes, or
/// `None` when it is not such text.
pub uninterp spec fn base64url_nopad_decode(text: Seq<char>) -> Option<Seq<u8>>;

/// Decodes URL-safe base64 without padding, by
/// `base64::engine::general_purpose::URL_SAFE_NO_PAD.decode`.
///
/// On failure the error is the decoder's message, whose text is not stated.
#[verifier::external_body]
fn decode_base64url(text: &str) -> (r: Result<Vec<u8>, String>)
    ensures
        r is Ok <==> base64url_nopad_decode(text@) is Some,
        r matches Ok(v) ==> base64url_nopad_decode(text@) == Some(v@),
{
    base64::engine::general_purpose::URL_SAFE_NO_PAD.decode(text).map_err(|e| e.to_string())
}

/// The decoded payload of `token`, or why there is none: a token has
/// exactly three `.`-separated parts, the second of which is base64url.
pub open spec fn payload_spec(token: Seq<char>) -> Option<Seq<u8>> {
    let parts = split_on(token, '.');
    if parts.len() != 3 {
        None
    } else {
        base64url_nopad_decode(parts[1])
    }
}

/// Law: of a token `header.payload.signature`, only the payload part
/// decides what is decoded: the header and the signature (and the
/// validator's issuer and client ID, which `decode_payload` and
/// `check_expiry` do not read) make no difference. A payload part with a
/// `.` makes a token of more than three parts, whatever the header and the
/// signature.
pub proof fn lemma_payload_only(h: Seq<char>, pl: Seq<char>, sig: Seq<char>)
    requires
        forall|i: int| 0 <= i < h.len() ==> h[i] != '.',
        forall|i: int| 0 <= i < sig.len() ==> sig[i] != '.',
    ensures
        split_on(h + seq!['.'] + pl + seq!['.'] + sig, '.').len() == char_count(pl, '.') + 3,
        payload_spec(h + seq!['.'] + pl + seq!['.'] + sig) == if char_count(pl, '.') == 0 {
            base64url_nopad_decode(pl)
        } else {
            None
        },
{
    let t = h + seq!['.'] + pl + seq!['.'] + sig;
    lemma_split_on_len(t, '.');
    lemma_char_count_none(h, '.');
    lemma_char_count_none(sig, '.');
    lemma_char_count_add(h + seq!['.'] + pl + seq!['.'], sig, '.');
    lemma_char_count_add(h + seq!['.'] + pl, seq!['.'], '.');
    lemma_char_count_add(h + seq!['.'], pl, '.');
    lemma_char_count_add(h, seq!['.'], '.');
    assert(seq!['.'].drop_first() =~= Seq::<char>::empty());
    assert(char_count(Seq::<char>::empty(), '.') == 0);
    assert(char_count(seq!['.'], '.') == 1);
    assert(char_count(t, '.') == char_count(pl, '.') + 2);
    if char_count(pl, '.') == 0 {
        assert forall|i: int| 0 <= i < pl.len() implies pl[i] != '.' by {
            if pl[i] == '.' {
                lemma_char_count_add(pl.take(i), pl.skip(i), '.');
                assert(pl.take(i) + pl.skip(i) =~= pl);
                assert(pl.skip(i)[0] == '.');
            }
        }
        lemma_split_on_single(sig, '.');
        lemma_split_on_cons(pl, sig, '.');
        lemma_split_on_cons(h, pl + seq!['.'] + sig, '.');
        assert(t =~= h + seq!['.'] + (pl + seq!['.'] + sig));
        assert(split_on(t, '.') =~= seq![h, pl, sig]);
    }
}

/// Law: two tokens with the same payload part split into as many parts
/// and decode to the same payload, whatever their headers and signatures.
pub proof fn lemma_same_payload_same_result(
    h1: Seq<char>,
    s1: Seq<char>,
    h2: Seq<char>,
    s2: Seq<char>,
    pl: Seq<char>,
)
    requires
        forall|i: int| 0 <= i < h1.len() ==> h1[i] != '.',
        forall|i: int| 0 <= i < s1.len() ==> s1[i] != '.',
        forall|i: int| 0 <= i < h2.len() ==> h2[i] != '.',
        forall|i: int| 0 <= i < s2.len() ==> s2[i] != '.',
    ensures
        split_on(h1 + seq!['.'] + pl + seq!['.'] + s1, '.').len() == split_on(
            h2 + seq!['.'] + pl + seq!['.'] + s2,
            '.',
        ).len(),
        payload_spec(h1 + seq!['.'] + pl + seq!['.'] + s1) == payload_spec(
            h2 + seq!['.'] + pl + seq!['.'] + s2,
        ),
{
    lemma_payload_only(h1, pl, s1);
    lemma_payload_only(h2, pl, s2);
}

impl OidcValidator {
    /// Create a new validator for the given issuer and client ID.
    pub fn new(issuer: String, client_id: String) -> (v: Self)
        ensures
            v.issuer == issuer,
            v.client_id == client_id,
    {
        OidcValidator { issuer, client_id }
    }

    /// Splits the token into header, payload and signature parts and
    /// base64-decodes the payload.
    pub fn decode_payload(&self, token: &str) -> (r: Result<Vec<u8>, SsoError>)
        ensures
            r is Ok <==> payload_spec(token@) is Some,
            r matches Ok(v) ==> payload_spec(token@) == Some(v@),
            r matches Err(e) ==> e is InvalidToken,
            split_on(token@, '.').len() != 3 ==> (r matches Err(SsoError::InvalidToken(m)) && m@
                == "expected 3 dot-separated parts, got "@ + decimal(split_on(token@, '.').len())),
    {
        let chars = to_chars(token);
        let parts = split_chars(&chars, '.');
        let ghost sp = split_on(token@, '.');
        assert(parts@.len() == sp.len());
        if parts.len() != 3 {
            let mut m = "expected 3 dot-separated parts, got ".to_owned();
            let count = u64_to_decimal(parts.len() as u64);
            m.append(count.as_str());
            return Err(SsoError::InvalidToken(m));
        }
        assert(parts@[1]@ == sp[1]);
        let payload_text = string_from_chars(&parts[1], 0, parts[1].len());
        assert(payload_text@ =~= sp[1]);
        match decode_base64url(payload_text.as_str()) {
            Ok(bytes) => Ok(bytes),
            Err(e) => {
                let mut m = "base64 decode failed: ".to_owned();
                m.append(e.as_str());
                Err(SsoError::InvalidToken(m))
            },
        }
    }

    /// Accepts decoded claims unless they expired at or before `now`
    /// (Unix seconds).
    pub fn check_expiry(&self, claims: OidcClaims, now: u64) -> (r: Result<OidcClaims, SsoError>)
        ensures
            claims.exp <= now ==> r == Err::<OidcClaims, SsoError>(SsoError::TokenExpired),
            claims.exp > now ==> (r matches Ok(c) && c == claims),
    {
        if claims.exp <= now {
            Err(SsoError::TokenExpired)
        } else {
            Ok(claims)
        }
    }
}

} // verus!

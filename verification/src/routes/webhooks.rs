//! Inbound webhook triggers: which trigger a request names, whether its
//! `X-Hub-Signature-256` HMAC holds, and the prompt handed to the agent.
use hmac::Mac;
use vstd::prelude::*;
use vstd::string::*;

use crate::error::{AivyxError, ServerError};
use crate::text::{occurs_at, replace_all, replace_spec, str_eq, strip_prefix_str};

verus! {

/// A configured webhook trigger.
#[derive(Debug, Clone)]
pub struct TriggerConfig {
    /// Name in the URL `/webhooks/{name}`.
    pub name: String,
    /// Agent profile that runs the prompt.
    pub agent: String,
    /// Prompt with a `{payload}` placeholder.
    pub prompt_template: String,
    /// Secret in the encrypted store that signs the payloads, if any.
    pub secret_ref: Option<String>,
    /// Whether the trigger accepts requests.
    pub enabled: bool,
}

/// Whether `t` answers requests for `name`.
pub open spec fn trigger_matches(t: TriggerConfig, name: Seq<char>) -> bool {
    t.name@ == name && t.enabled
}

/// Find the first enabled trigger called `name`.
pub fn find_trigger<'a>(triggers: &'a [TriggerConfig], name: &str) -> (r: Result<&'a TriggerConfig, ServerError>)
    ensures
        r is Ok <==> exists|i: int| 0 <= i < triggers@.len() && trigger_matches(#[trigger] triggers@[i], name@),
        r matches Ok(t) ==> exists|i: int|
            0 <= i < triggers@.len() && triggers@[i] == *t && trigger_matches(*t, name@) && forall|j: int|
                0 <= j < i ==> !trigger_matches(#[trigger] triggers@[j], name@),
        r matches Err(ServerError(AivyxError::Config(m))) ==> m@ == "webhook trigger not found: "@ + name@,
        r matches Err(ServerError(e)) ==> e is Config,
{
    let mut i: usize = 0;
    while i < triggers.len()
        invariant
            i <= triggers@.len(),
            forall|j: int| 0 <= j < i ==> !trigger_matches(#[trigger] triggers@[j], name@),
        decreases triggers@.len() - i,
    {
        if triggers[i].enabled && str_eq(triggers[i].name.as_str(), name) {
            assert(trigger_matches(triggers@[i as int], name@));
            return Ok(&triggers[i]);
        }
        i += 1;
    }
    let mut m = "webhook trigger not found: ".to_owned();
    m.append(name);
    Err(ServerError(AivyxError::Config(m)))
}

/// The `X-Hub-Signature-256` header value, which a trigger with a secret
/// requires.
pub fn signature_header(sig: Option<&str>) -> (r: Result<String, ServerError>)
    ensures
        match sig {
            Some(s) => r matches Ok(t) && t@ == s@,
            None => r matches Err(ServerError(AivyxError::CapabilityDenied(m)))
                && m@ == "missing X-Hub-Signature-256 header"@,
        },
{
    match sig {
        Some(s) => Ok(s.to_owned()),
        None => Err(ServerError(AivyxError::CapabilityDenied("missing X-Hub-Signature-256 header".to_owned()))),
    }
}

/// The value of a hex digit byte (either case).
pub open spec fn hex_byte_val(b: u8) -> int {
    if 0x30 <= b <= 0x39 {
        b - 0x30
    } else if 0x41 <= b <= 0x46 {
        b - 0x41 + 10
    } else {
        b - 0x61 + 10
    }
}

/// Whether `b` is an ASCII hex digit.
pub open spec fn is_hex_byte(b: u8) -> bool {
    (0x30 <= b <= 0x39) || (0x41 <= b <= 0x46) || (0x61 <= b <= 0x66)
}

/// Whether `h` is an even number of hex digits.
pub open spec fn is_hex_text(h: Seq<u8>) -> bool {
    h.len() % 2 == 0 && forall|i: int| 0 <= i < h.len() ==> is_hex_byte(#[trigger] h[i])
}

/// The bytes that the hex digits `h` spell, two digits per byte.
pub open spec fn hex_decoded(h: Seq<u8>) -> Seq<u8> {
    Seq::new(h.len() / 2, |i: int| (hex_byte_val(h[2 * i]) * 16 + hex_byte_val(h[2 * i + 1])) as u8)
}

/// Decodes hex digits, by `hex::decode`: fails on an odd length or a byte
/// that is no hex digit, else gives one byte per pair of digits.
#[verifier::external_body]
fn hex_decode(data: &[u8]) -> (r: Option<Vec<u8>>)
    ensures
        r is Some <==> is_hex_text(data@),
        r matches Some(v) ==> v@ == hex_decoded(data@),
{
    hex::decode(data).ok()
}

/// The HMAC-SHA256 tag of `data` under `key`.
pub uninterp spec fn hmac_sha256_tag(key: Seq<u8>, data: Seq<u8>) -> Seq<u8>;

/// Whether `tag` is the HMAC-SHA256 of `data` under `key`, by
/// `Hmac::<Sha256>::new_from_slice` (which takes keys of any length),
/// `Mac::update` and `Mac::verify_slice` (a constant-time comparison that
/// fails on a tag of another length).
#[verifier::external_body]
fn hmac_sha256_verify(key: &[u8], data: &[u8], tag: &[u8]) -> (b: bool)
    ensures
        b == (hmac_sha256_tag(key@, data@) == tag@),
{
    let mut mac = <hmac::Hmac<sha2::Sha256> as hmac::Mac>::new_from_slice(key).expect("any key length");
    mac.update(data);
    mac.verify_slice(tag).is_ok()
}

/// Why a signature is refused, or `None` when it holds.
pub open spec fn signature_refusal(secret: Seq<u8>, body: Seq<u8>, signature: Seq<char>) -> Option<
    Seq<char>,
> {
    if !occurs_at(signature, "sha256="@, 0) {
        Some("invalid signature format"@)
    } else {
        let digits = vstd::utf8::encode_utf8(signature.skip(7));
        if !is_hex_text(digits) {
            Some("invalid signature hex"@)
        } else if hmac_sha256_tag(secret, body) != hex_decoded(digits) {
            Some("HMAC signature verification failed"@)
        } else {
            None
        }
    }
}

/// Checks a `sha256=<hex digest>` signature of `body` under `secret`.
pub fn verify_signature(secret: &[u8], body: &[u8], signature: &str) -> (r: Result<(), ServerError>)
    ensures
        match signature_refusal(secret@, body@, signature@) {
            None => r is Ok,
            Some(m) => r matches Err(ServerError(AivyxError::CapabilityDenied(t))) && t@ == m,
        },
{
    proof {
        reveal_strlit("sha256=");
    }
    let digits = match strip_prefix_str(signature, "sha256=") {
        Some(d) => d,
        None => {
            return Err(ServerError(AivyxError::CapabilityDenied("invalid signature format".to_owned())));
        },
    };
    let expected = match hex_decode(digits.as_str().as_bytes()) {
        Some(e) => e,
        None => {
            return Err(ServerError(AivyxError::CapabilityDenied("invalid signature hex".to_owned())));
        },
    };
    if hmac_sha256_verify(secret, body, expected.as_slice()) {
        Ok(())
    } else {
        Err(ServerError(AivyxError::CapabilityDenied("HMAC signature verification failed".to_owned())))
    }
}

/// The agent's prompt: the template with every `{payload}` replaced by the
/// sanitized payload.
pub fn webhook_prompt(template: &str, sanitized_payload: &str) -> (p: String)
    ensures
        p@ == replace_spec(template@, "{payload}"@, sanitized_payload@),
{
    proof {
        reveal_strlit("{payload}");
    }
    replace_all(template, "{payload}", sanitized_payload)
}

} // verus!

//! Deterministic session ID derivation for channel conversations.
//!
//! Maps `(platform, user_id)` to a stable session ID so that the same user
//! on the same platform always resumes the same conversation.
use vstd::prelude::*;
use vstd::string::*;
use vstd::utf8::*;

use crate::ids::{sha256, sha256_digest, uuid_text, uuid_text_from_bytes, v4_bits};

verus! {

broadcast use vstd::seq::group_seq_axioms;

/// Identifier of a persisted conversation: the text of a UUID.
#[derive(Debug, Clone, PartialEq, Eq, Hash)]
pub struct SessionId {
    /// Hyphenated lower-case UUID text.
    pub text: String,
}

impl SessionId {
    /// The UUID text of the ID.
    pub fn as_str(&self) -> (s: &str)
        ensures
            s@ == self.text@,
    {
        self.text.as_str()
    }
}

/// The bytes hashed for a channel session: `channel-session:`, the
/// platform, `:`, and the user ID.
pub open spec fn channel_session_input(platform: Seq<char>, user_id: Seq<char>) -> Seq<u8> {
    encode_utf8("channel-session:"@) + encode_utf8(platform) + encode_utf8(":"@) + encode_utf8(user_id)
}

/// The session ID text derived for `(platform, user_id)`: the version-4
/// UUID made of the first 16 bytes of the SHA-256 of the input.
pub open spec fn channel_session_text(platform: Seq<char>, user_id: Seq<char>) -> Seq<char> {
    uuid_text(v4_bits(sha256_digest(channel_session_input(platform, user_id)).take(16)))
}

fn append_bytes(out: &mut Vec<u8>, bytes: &[u8])
    ensures
        final(out)@ == old(out)@ + bytes@,
{
    let mut i: usize = 0;
    while i < bytes.len()
        invariant
            i <= bytes@.len(),
            out@ == old(out)@ + bytes@.take(i as int),
        decreases bytes@.len() - i,
    {
        out.push(bytes[i]);
        assert(bytes@.take(i + 1) =~= bytes@.take(i as int).push(bytes@[i as int]));
        i += 1;
    }
    assert(bytes@.take(bytes@.len() as int) =~= bytes@);
}

/// Derive a deterministic session ID from a platform and user identifier.
///
/// Uses `SHA-256("channel-session:" || platform || ":" || user_id)` and
/// builds a version-4, RFC 4122 UUID from the first 16 bytes of the digest.
pub fn derive_channel_session_id(platform: &str, user_id: &str) -> (id: SessionId)
    ensures
        id.text@ == channel_session_text(platform@, user_id@),
{
    let mut input: Vec<u8> = Vec::new();
    append_bytes(&mut input, "channel-session:".as_bytes());
    append_bytes(&mut input, platform.as_bytes());
    append_bytes(&mut input, ":".as_bytes());
    append_bytes(&mut input, user_id.as_bytes());
    let hash = sha256(input.as_slice());
    assert(hash@.len() == 32);
    let bytes: [u8; 16] = [
        hash[0], hash[1], hash[2], hash[3], hash[4], hash[5], hash[6], hash[7],
        hash[8], hash[9], hash[10], hash[11], hash[12], hash[13], hash[14], hash[15],
    ];
    assert(bytes@ =~= hash@.take(16));
    SessionId { text: uuid_text_from_bytes(bytes) }
}

/// Law: the derivation is a function of `(platform, user_id)` alone, so
/// the same user on the same platform always resumes the same session.
pub proof fn lemma_channel_session_deterministic(p1: Seq<char>, u1: Seq<char>, p2: Seq<char>, u2: Seq<char>)
    requires
        p1 == p2,
        u1 == u2,
    ensures
        channel_session_text(p1, u1) == channel_session_text(p2, u2),
{
}

} // verus!

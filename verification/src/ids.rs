//! Identifier text: hexadecimal and UUID formatting, and the outside calls
//! that produce random UUIDs and SHA-256 digests.
use vstd::prelude::*;
use vstd::string::*;

use sha2::Digest;

verus! {

broadcast use vstd::seq::group_seq_axioms;

/// Lower-case hexadecimal digit for a nibble.
pub open spec fn hex_digit(n: int) -> char {
    if n < 10 {
        ((n + 48) as u32) as char
    } else {
        ((n + 87) as u32) as char
    }
}

/// Whether `c` is an ASCII hexadecimal digit (either case).
pub open spec fn is_hex_char(c: char) -> bool {
    ('0' <= c && c <= '9') || ('a' <= c && c <= 'f') || ('A' <= c && c <= 'F')
}

/// Whether `c` is a lower-case ASCII hexadecimal digit.
pub open spec fn is_lower_hex_char(c: char) -> bool {
    ('0' <= c && c <= '9') || ('a' <= c && c <= 'f')
}

/// Two lower-case hex digits per byte, most significant nibble first.
pub open spec fn hex_text(bytes: Seq<u8>) -> Seq<char>
    decreases bytes.len(),
{
    if bytes.len() == 0 {
        seq![]
    } else {
        seq![hex_digit((bytes[0] / 16) as int), hex_digit((bytes[0] % 16) as int)] + hex_text(bytes.drop_first())
    }
}

/// The hyphenated form `8-4-4-4-12` of the hex text of 16 bytes.
pub open spec fn hyphenated(h: Seq<char>) -> Seq<char> {
    h.subrange(0, 8) + seq!['-'] + h.subrange(8, 12) + seq!['-'] + h.subrange(12, 16) + seq!['-']
        + h.subrange(16, 20) + seq!['-'] + h.subrange(20, 32)
}

/// The text of the UUID made of `bytes`, as `Uuid`'s `Display` writes it.
pub open spec fn uuid_text(bytes: Seq<u8>) -> Seq<char> {
    hyphenated(hex_text(bytes))
}

/// `bytes` with the version nibble set to 4 and the RFC 4122 variant bits,
/// as `uuid::Builder::with_version(Random)` and `with_variant(RFC4122)` set them.
pub open spec fn v4_bits(bytes: Seq<u8>) -> Seq<u8> {
    bytes.update(6, ((bytes[6] & 0x0f) | 0x40) as u8).update(8, ((bytes[8] & 0x3f) | 0x80) as u8)
}

/// Text of some version-4 UUID.
pub open spec fn is_v4_uuid_text(t: Seq<char>) -> bool {
    exists|b: Seq<u8>| b.len() == 16 && t == #[trigger] uuid_text(v4_bits(b))
}

/// The SHA-256 digest of `data`.
pub uninterp spec fn sha256_digest(data: Seq<u8>) -> Seq<u8>;

/// SHA-256 of `data`, by `sha2::Sha256::digest`.
///
/// The digest is a pure function of the input and 32 bytes long; which
/// bytes it has is named by `sha256_digest` and not stated.
#[verifier::external_body]
pub(crate) fn sha256(data: &[u8]) -> (res: [u8; 32])
    ensures
        res@ == sha256_digest(data@),
{
    sha2::Sha256::digest(data).into()
}

/// Text of the version-4 UUID built from `bytes`, by
/// `uuid::Builder::from_bytes(..).with_variant(RFC4122).with_version(Random)`
/// followed by `Uuid::to_string`: the hyphenated lower-case hex of the
/// bytes with the version and variant bits set.
#[verifier::external_body]
pub(crate) fn uuid_text_from_bytes(bytes: [u8; 16]) -> (res: String)
    ensures
        res@ == uuid_text(v4_bits(bytes@)),
{
    uuid::Builder::from_bytes(bytes)
        .with_variant(uuid::Variant::RFC4122)
        .with_version(uuid::Version::Random)
        .into_uuid()
        .to_string()
}

/// Text of a fresh random UUID, by `uuid::Uuid::new_v4().to_string()`.
///
/// Which UUID comes out rests on the operating system's random source:
/// only its shape (a version-4 UUID in hyphenated lower-case hex) is stated.
#[verifier::external_body]
pub(crate) fn random_uuid_text() -> (res: String)
    ensures
        is_v4_uuid_text(res@),
{
    uuid::Uuid::new_v4().to_string()
}

pub proof fn lemma_hex_text(bytes: Seq<u8>)
    ensures
        hex_text(bytes).len() == 2 * bytes.len(),
        forall|i: int| 0 <= i < hex_text(bytes).len() ==> is_lower_hex_char(#[trigger] hex_text(bytes)[i]),
    decreases bytes.len(),
{
    if bytes.len() > 0 {
        lemma_hex_text(bytes.drop_first());
        let hd = seq![hex_digit((bytes[0] / 16) as int), hex_digit((bytes[0] % 16) as int)];
        let tl = hex_text(bytes.drop_first());
        assert forall|i: int| 0 <= i < hex_text(bytes).len() implies is_lower_hex_char(
            #[trigger] hex_text(bytes)[i],
        ) by {
            if i >= 2 {
                assert(hex_text(bytes)[i] == tl[i - 2]);
            }
        }
    }
}

/// The hyphenated UUID text has 36 characters: lower-case hex digits with
/// hyphens at positions 8, 13, 18 and 23.
pub proof fn lemma_uuid_text_shape(bytes: Seq<u8>)
    requires
        bytes.len() == 16,
    ensures
        uuid_text(bytes).len() == 36,
        forall|i: int|
            0 <= i < 36 ==> (if i == 8 || i == 13 || i == 18 || i == 23 {
                #[trigger] uuid_text(bytes)[i] == '-'
            } else {
                is_lower_hex_char(uuid_text(bytes)[i])
            }),
{
    lemma_hex_text(bytes);
    let h = hex_text(bytes);
    let t = uuid_text(bytes);
    assert forall|i: int| 0 <= i < 36 implies (if i == 8 || i == 13 || i == 18 || i == 23 {
        #[trigger] t[i] == '-'
    } else {
        is_lower_hex_char(t[i])
    }) by {
        if i < 8 {
            assert(t[i] == h[i]);
        } else if i == 8 {
        } else if i < 13 {
            assert(t[i] == h[i - 1]);
        } else if i == 13 {
        } else if i < 18 {
            assert(t[i] == h[i - 2]);
        } else if i == 18 {
        } else if i < 23 {
            assert(t[i] == h[i - 3]);
        } else if i == 23 {
        } else {
            assert(t[i] == h[i - 4]);
        }
    }
}

/// `t` with every `-` removed.
pub open spec fn without_hyphens(t: Seq<char>) -> Seq<char>
    decreases t.len(),
{
    if t.len() == 0 {
        seq![]
    } else if t.last() == '-' {
        without_hyphens(t.drop_last())
    } else {
        without_hyphens(t.drop_last()).push(t.last())
    }
}

/// The characters of `s` other than `-`, as `s.replace('-', "")` returns them.
pub fn remove_hyphens(s: &str) -> (r: String)
    ensures
        r@ == without_hyphens(s@),
{
    let chars = crate::text::to_chars(s);
    let mut r = String::new();
    let mut i: usize = 0;
    while i < chars.len()
        invariant
            chars@ == s@,
            i <= chars@.len(),
            r@ == without_hyphens(chars@.take(i as int)),
        decreases chars@.len() - i,
    {
        proof {
            assert(chars@.take(i + 1).drop_last() =~= chars@.take(i as int));
        }
        if chars[i] != '-' {
            r.push(chars[i]);
        }
        i += 1;
    }
    assert(chars@.take(chars@.len() as int) =~= chars@);
    r
}

/// The 16 bytes of the UUID that `text` spells, in any of the forms
/// `uuid::Uuid::parse_str` reads (simple, hyphenated, braced, URN), `None`
/// for other texts.
pub uninterp spec fn uuid_parsed(text: Seq<char>) -> Option<Seq<u8>>;

/// Parses a UUID, by `uuid::Uuid::parse_str` and `Uuid::as_bytes`. Its
/// source reads the hyphenated lower-case form of any 16 bytes back as
/// those bytes.
#[verifier::external_body]
pub(crate) fn parse_uuid(text: &str) -> (r: Option<[u8; 16]>)
    ensures
        match uuid_parsed(text@) {
            Some(b) => r matches Some(v) && v@ == b,
            None => r is None,
        },
        forall|b: Seq<u8>|
            b.len() == 16 && text@ == #[trigger] uuid_text(b) ==> r is Some && r->0@ == b,
{
    uuid::Uuid::parse_str(text).ok().map(|u| *u.as_bytes())
}

/// The hyphenated lower-case text of a UUID, by `uuid::Uuid::from_bytes`
/// and `Uuid::to_string`.
#[verifier::external_body]
pub(crate) fn uuid_string(bytes: [u8; 16]) -> (s: String)
    ensures
        s@ == uuid_text(bytes@),
{
    uuid::Uuid::from_bytes(bytes).to_string()
}

/// Number of `-` in `t`.
pub open spec fn hyphen_count(t: Seq<char>) -> nat
    decreases t.len(),
{
    if t.len() == 0 {
        0
    } else {
        hyphen_count(t.drop_last()) + if t.last() == '-' {
            1nat
        } else {
            0nat
        }
    }
}

/// Removing the hyphens of a text made of hyphens and lower-case hex
/// digits leaves only hex digits, as many as the text has characters that
/// are not hyphens.
pub proof fn lemma_without_hyphens(t: Seq<char>)
    requires
        forall|i: int| 0 <= i < t.len() ==> t[i] == '-' || is_lower_hex_char(#[trigger] t[i]),
    ensures
        without_hyphens(t).len() + hyphen_count(t) == t.len(),
        forall|j: int| 0 <= j < without_hyphens(t).len() ==> is_lower_hex_char(#[trigger] without_hyphens(t)[j]),
    decreases t.len(),
{
    if t.len() > 0 {
        let d = t.drop_last();
        assert forall|i: int| 0 <= i < d.len() implies d[i] == '-' || is_lower_hex_char(#[trigger] d[i]) by {
            assert(d[i] == t[i]);
        }
        lemma_without_hyphens(d);
        assert(t.last() == t[t.len() - 1]);
    }
}

/// A UUID text has four hyphens, one before each of positions 8, 13, 18
/// and 23 that the prefix passes.
proof fn lemma_uuid_hyphens(t: Seq<char>, k: int)
    requires
        t.len() == 36,
        0 <= k <= 36,
        forall|i: int|
            0 <= i < 36 ==> (if i == 8 || i == 13 || i == 18 || i == 23 {
                #[trigger] t[i] == '-'
            } else {
                is_lower_hex_char(t[i])
            }),
    ensures
        hyphen_count(t.take(k)) == (if k > 8 { 1int } else { 0int }) + (if k > 13 { 1int } else { 0int }) + (
        if k > 18 {
            1int
        } else {
            0int
        }) + (if k > 23 { 1int } else { 0int }),
    decreases k,
{
    if k > 0 {
        lemma_uuid_hyphens(t, k - 1);
        assert(t.take(k).drop_last() =~= t.take(k - 1));
        assert(t.take(k).last() == t[k - 1]);
        let c = t[k - 1];
        if !(k - 1 == 8 || k - 1 == 13 || k - 1 == 18 || k - 1 == 23) {
            assert(is_lower_hex_char(c));
        }
    }
}

/// The hex digits of a UUID text without its hyphens: 32 lower-case hex
/// digits.
pub proof fn lemma_uuid_hex(bytes: Seq<u8>)
    requires
        bytes.len() == 16,
    ensures
        without_hyphens(uuid_text(bytes)).len() == 32,
        forall|j: int| 0 <= j < 32 ==> is_lower_hex_char(#[trigger] without_hyphens(uuid_text(bytes))[j]),
{
    let t = uuid_text(bytes);
    lemma_uuid_text_shape(bytes);
    assert forall|i: int| 0 <= i < t.len() implies t[i] == '-' || is_lower_hex_char(#[trigger] t[i]) by {
        if i == 8 || i == 13 || i == 18 || i == 23 {
            assert(t[i] == '-');
        }
    }
    lemma_without_hyphens(t);
    lemma_uuid_hyphens(t, 36);
    assert(t.take(36) =~= t);
}

} // verus!

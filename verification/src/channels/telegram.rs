//! Pure parts of the Telegram Bot API adapter.
use vstd::prelude::*;
use vstd::string::*;
use vstd::utf8::*;

use crate::error::AivyxError;
use crate::scheduler::{floor_boundary, floor_prefix, lemma_floor_boundary};
use crate::text::{
    char_len_utf8, char_width, decimal, i64_to_decimal, last_index_of, lemma_ascii_byte_boundaries,
    lemma_last_index_of, parse_u64, parse_u64_spec, signed_decimal, str_eq, to_chars, u64_to_decimal,
    utf8_text,
};

verus! {

broadcast use vstd::seq::group_seq_axioms, vstd::utf8::group_utf8_lib;

/// Maximum Telegram message length (bytes of UTF-8).
pub const MAX_TG_MESSAGE_LENGTH: usize = 4000;

/// Where a chunk that is longer than `max` is cut: right after the last
/// newline among its first `max` bytes, or else at the last character
/// boundary at or before byte `max`.
pub open spec fn chunk_cut(r: Seq<u8>, max: nat) -> int {
    match last_index_of(r.take(max as int), 10u8) {
        Some(p) => p + 1,
        None => floor_boundary(r, max as int),
    }
}

/// The splitting loop, on the bytes that remain to be sent.
pub open spec fn split_chunks(r: Seq<u8>, max: nat) -> Seq<Seq<u8>>
    decreases r.len(),
{
    if r.len() == 0 {
        seq![]
    } else if r.len() <= max {
        seq![r]
    } else {
        let c = chunk_cut(r, max);
        if 0 < c <= r.len() {
            seq![r.take(c)] + split_chunks(r.skip(c), max)
        } else {
            seq![r]
        }
    }
}

/// The chunks that `chunk_message` returns, as byte sequences.
pub open spec fn chunk_spec(text: Seq<u8>, max: nat) -> Seq<Seq<u8>> {
    if text.len() <= max {
        seq![text]
    } else {
        split_chunks(text, max)
    }
}

/// Every character of `cs` takes at most `max` bytes of UTF-8, so that a
/// chunk of at most `max` bytes can always hold the next character.
pub open spec fn chars_fit(cs: Seq<char>, max: nat) -> bool {
    forall|i: int| 0 <= i < cs.len() ==> char_width(#[trigger] cs[i]) <= max
}

/// The texts that `chunk_message` splits: those within the limit, and
/// those whose every character fits in a chunk (on others the loop makes
/// no progress).
pub open spec fn chunkable(text: &str, max: nat) -> bool {
    text.spec_bytes().len() <= max || chars_fit(text@, max)
}

/// Whether `chunk_message` accepts `text` with limit `max_len`.
pub fn is_chunkable(text: &str, max_len: usize) -> (b: bool)
    ensures
        b == chunkable(text, max_len as nat),
{
    if text.as_bytes().len() <= max_len {
        return true;
    }
    let cs = to_chars(text);
    let mut i: usize = 0;
    while i < cs.len()
        invariant
            cs@ == text@,
            text.spec_bytes().len() > max_len,
            i <= cs@.len(),
            forall|j: int| 0 <= j < i ==> char_width(#[trigger] cs@[j]) <= max_len,
        decreases cs@.len() - i,
    {
        if char_len_utf8(cs[i]) > max_len {
            assert(char_width(text@[i as int]) > max_len);
            return false;
        }
        i += 1;
    }
    true
}

proof fn lemma_char_width_pos(c: char)
    ensures
        1 <= char_width(c) <= 4,
{
}

/// A character boundary at or before `i` bounds the floor boundary at `i`
/// from below.
proof fn lemma_floor_at_least(b: Seq<u8>, i: int, j: int)
    requires
        valid_utf8(b),
        0 <= j <= i < b.len(),
        is_char_boundary(b, j),
    ensures
        floor_boundary(b, i) >= j,
    decreases i,
{
    if i > 0 && !is_char_boundary(b, i) {
        lemma_floor_at_least(b, i - 1, j);
    }
}

/// The cut of a chunkable remainder: in range, on a character boundary,
/// and leaving a remainder whose characters still fit.
proof fn lemma_cut_props(r: Seq<u8>, max: nat)
    requires
        valid_utf8(r),
        r.len() > max,
        chars_fit(decode_utf8(r), max),
    ensures
        1 <= chunk_cut(r, max) <= max,
        is_char_boundary(r, chunk_cut(r, max)),
        valid_utf8(r.skip(chunk_cut(r, max))),
        chars_fit(decode_utf8(r.skip(chunk_cut(r, max))), max),
{
    let cs = decode_utf8(r);
    decode_utf8_encode_utf8(r);
    assert(cs.len() > 0);
    encode_utf8_first_scalar(cs);
    lemma_char_width_pos(cs[0]);
    let w = length_of_first_scalar(r);
    assert(w == char_width(cs[0]));
    lemma_last_index_of(r.take(max as int), 10u8);
    match last_index_of(r.take(max as int), 10u8) {
        Some(p) => {
            assert(r[p] == r.take(max as int)[p]);
            lemma_ascii_byte_boundaries(r, p);
        },
        None => {
            assert(is_char_boundary(r, w)) by {
                reveal_with_fuel(is_char_boundary, 2);
            }
            lemma_floor_boundary(r, max as int);
            lemma_floor_at_least(r, max as int, w);
        },
    }
    let c = chunk_cut(r, max);
    valid_utf8_split(r, c);
    decode_utf8_split(r, c);
    assert(r.subrange(c, r.len() as int) =~= r.skip(c));
    let head = decode_utf8(r.subrange(0, c));
    let tail = decode_utf8(r.skip(c));
    assert forall|i: int| 0 <= i < tail.len() implies char_width(#[trigger] tail[i]) <= max by {
        assert(cs[head.len() + i] == tail[i]);
    }
}

proof fn lemma_split_chunks_laws(r: Seq<u8>, max: nat)
    requires
        valid_utf8(r),
        r.len() <= max || chars_fit(decode_utf8(r), max),
    ensures
        split_chunks(r, max).flatten() == r,
        forall|i: int|
            0 <= i < split_chunks(r, max).len() ==> 0 < (#[trigger] split_chunks(r, max)[i]).len()
                <= max && valid_utf8(split_chunks(r, max)[i]),
    decreases r.len(),
{
    if r.len() == 0 {
    } else if r.len() <= max {
        assert(split_chunks(r, max) == seq![r]);
        assert(seq![r].drop_first() =~= Seq::<Seq<u8>>::empty());
        seq![r].lemma_flatten_one_element();
    } else {
        lemma_cut_props(r, max);
        let c = chunk_cut(r, max);
        let rest = split_chunks(r.skip(c), max);
        lemma_split_chunks_laws(r.skip(c), max);
        let all = split_chunks(r, max);
        assert(all == seq![r.take(c)] + rest);
        assert(all.drop_first() =~= rest);
        assert(all.first() == r.take(c));
        assert(all.flatten() == r.take(c) + rest.flatten());
        assert(r.take(c) + r.skip(c) =~= r);
        assert(r.subrange(0, c) =~= r.take(c));
        assert forall|i: int| 0 <= i < all.len() implies 0 < (#[trigger] all[i]).len() <= max
            && valid_utf8(all[i]) by {
            if i > 0 {
                assert(all[i] == rest[i - 1]);
            }
        }
    }
}

/// Law of `chunk_message`: joining the chunks gives back the message, and
/// when the message is longer than the limit every chunk is non-empty,
/// fits within the limit and is whole characters.
pub proof fn lemma_chunks_reassemble(text: &str, max: nat)
    requires
        chunkable(text, max),
    ensures
        chunk_spec(text.spec_bytes(), max).flatten() == text.spec_bytes(),
        text.spec_bytes().len() <= max ==> chunk_spec(text.spec_bytes(), max) == seq![text.spec_bytes()],
        text.spec_bytes().len() > max ==> forall|i: int|
            0 <= i < chunk_spec(text.spec_bytes(), max).len() ==> 0 < (#[trigger] chunk_spec(
                text.spec_bytes(),
                max,
            )[i]).len() <= max && valid_utf8(chunk_spec(text.spec_bytes(), max)[i]),
{
    let b = text.spec_bytes();
    if b.len() <= max {
        assert(seq![b].drop_first() =~= Seq::<Seq<u8>>::empty());
        seq![b].lemma_flatten_one_element();
    } else {
        encode_utf8_decode_utf8(text@);
        lemma_split_chunks_laws(b, max);
    }
}

/// Position of the last newline among the first `max_len` bytes.
fn last_newline(bytes: &[u8], max_len: usize) -> (r: Option<usize>)
    requires
        max_len <= bytes@.len(),
    ensures
        match last_index_of(bytes@.take(max_len as int), 10u8) {
            Some(p) => r == Some(p as usize),
            None => r is None,
        },
{
    proof {
        lemma_last_index_of(bytes@.take(max_len as int), 10u8);
    }
    let mut i: usize = max_len;
    while i > 0
        invariant
            0 <= i <= max_len <= bytes@.len(),
            forall|j: int| i <= j < max_len ==> bytes@[j] != 10u8,
        decreases i,
    {
        if bytes[i - 1] == 10u8 {
            proof {
                let t = bytes@.take(max_len as int);
                lemma_last_index_of(t, 10u8);
                assert(t[i - 1] == 10u8);
                match last_index_of(t, 10u8) {
                    Some(p) => {
                        if p < i - 1 {
                            assert(t[i - 1] != 10u8);
                        } else if p > i - 1 {
                            assert(t[p] == bytes@[p]);
                            assert(bytes@[p] != 10u8);
                        }
                        assert(p == i - 1);
                    },
                    None => {},
                }
            }
            return Some(i - 1);
        }
        i -= 1;
    }
    proof {
        let t = bytes@.take(max_len as int);
        lemma_last_index_of(t, 10u8);
        match last_index_of(t, 10u8) {
            Some(p) => {
                assert(t[p] == 10u8);
            },
            None => {},
        }
    }
    None
}

/// Where the remainder `s` is cut.
fn cut_position(s: &str, max_len: usize) -> (c: usize)
    requires
        max_len < s.spec_bytes().len(),
    ensures
        c == chunk_cut(s.spec_bytes(), max_len as nat),
{
    proof {
        lemma_last_index_of(s.spec_bytes().take(max_len as int), 10u8);
    }
    match last_newline(s.as_bytes(), max_len) {
        Some(p) => p + 1,
        None => {
            proof {
                lemma_floor_boundary(s.spec_bytes(), max_len as int);
            }
            let head = floor_prefix(s, max_len);
            assert(head.spec_bytes() == s.spec_bytes().take(floor_boundary(s.spec_bytes(), max_len as int)));
            head.as_bytes().len()
        },
    }
}

/// Split a message into chunks that fit within the platform's message limit.
///
/// Breaks at the last newline before the limit, or at a char boundary if
/// no newline is found.
pub fn chunk_message<'a>(text: &'a str, max_len: usize) -> (chunks: Vec<&'a str>)
    requires
        chunkable(text, max_len as nat),
    ensures
        chunks@.map_values(|c: &str| c.spec_bytes()) == chunk_spec(
            text.spec_bytes(),
            max_len as nat,
        ),
{
    let mut chunks: Vec<&'a str> = Vec::new();
    if text.as_bytes().len() <= max_len {
        chunks.push(text);
        assert(chunks@.map_values(|c: &str| c.spec_bytes()) =~= seq![text.spec_bytes()]);
        return chunks;
    }
    let ghost full = text.spec_bytes();
    proof {
        encode_utf8_decode_utf8(text@);
    }
    let mut remaining: &'a str = text;
    assert(chunks@.map_values(|c: &str| c.spec_bytes()) + split_chunks(full, max_len as nat)
        =~= split_chunks(full, max_len as nat));
    while remaining.as_bytes().len() > max_len
        invariant
            valid_utf8(remaining.spec_bytes()),
            remaining.spec_bytes().len() > 0,
            chars_fit(decode_utf8(remaining.spec_bytes()), max_len as nat),
            chunks@.map_values(|c: &str| c.spec_bytes()) + split_chunks(
                remaining.spec_bytes(),
                max_len as nat,
            ) == split_chunks(full, max_len as nat),
        decreases remaining.spec_bytes().len(),
    {
        let ghost r = remaining.spec_bytes();
        let ghost before = chunks@.map_values(|c: &str| c.spec_bytes());
        proof {
            lemma_cut_props(r, max_len as nat);
        }
        let boundary = cut_position(remaining, max_len);
        let (chunk, rest) = remaining.split_at(boundary);
        proof {
            valid_utf8_split(r, boundary as int);
            assert(chunk.spec_bytes() =~= r.take(boundary as int));
            assert(rest.spec_bytes() =~= r.skip(boundary as int));
        }
        chunks.push(chunk);
        assert(chunks@.map_values(|c: &str| c.spec_bytes()) =~= before.push(
            r.take(boundary as int),
        ));
        assert(split_chunks(r, max_len as nat) =~= seq![r.take(boundary as int)] + split_chunks(
            r.skip(boundary as int),
            max_len as nat,
        ));
        assert(before.push(r.take(boundary as int)) + split_chunks(
            rest.spec_bytes(),
            max_len as nat,
        ) =~= before + split_chunks(r, max_len as nat));
        remaining = rest;
    }
    let ghost r = remaining.spec_bytes();
    let ghost before = chunks@.map_values(|c: &str| c.spec_bytes());
    chunks.push(remaining);
    assert(chunks@.map_values(|c: &str| c.spec_bytes()) =~= before.push(r));
    assert(r.len() <= max_len);
    assert(r.len() != 0);
    assert(split_chunks(r, max_len as nat) == seq![r]);
    assert(before + split_chunks(r, max_len as nat) =~= before.push(r));
    chunks
}

/// Default long-poll timeout (seconds).
pub const DEFAULT_POLL_TIMEOUT: u64 = 30;

/// Seconds to wait after a failed poll.
pub const ERROR_RETRY_INTERVAL: u64 = 5;

/// The value of the last setting called `key`.
pub open spec fn setting_spec(settings: Seq<(String, String)>, key: Seq<char>) -> Option<Seq<char>>
    decreases settings.len(),
{
    if settings.len() == 0 {
        None
    } else if settings.last().0@ == key {
        Some(settings.last().1@)
    } else {
        setting_spec(settings.drop_last(), key)
    }
}

/// The value of the setting called `key`.
pub fn setting<'a>(settings: &'a Vec<(String, String)>, key: &str) -> (r: Option<&'a String>)
    ensures
        match setting_spec(settings@, key@) {
            Some(v) => r matches Some(s) && s@ == v,
            None => r is None,
        },
{
    let mut i = settings.len();
    assert(settings@.take(i as int) =~= settings@);
    while i > 0
        invariant
            i <= settings@.len(),
            setting_spec(settings@, key@) == setting_spec(settings@.take(i as int), key@),
        decreases i,
    {
        assert(settings@.take(i as int).drop_last() =~= settings@.take(i as int - 1));
        if str_eq(settings[i - 1].0.as_str(), key) {
            return Some(&settings[i - 1].1);
        }
        i -= 1;
    }
    None
}

/// What a Telegram channel reads from its settings.
#[derive(Debug, Clone, PartialEq, Eq)]
pub struct TelegramSettings {
    /// Name of the bot token in the encrypted store.
    pub bot_token_ref: String,
    /// Long-poll timeout (seconds).
    pub poll_timeout: u64,
}

/// Reads the settings of a Telegram channel: `bot_token_ref` is required;
/// `poll_timeout_secs` defaults to 30 seconds (also when it does not
/// parse).
pub fn telegram_settings(settings: &Vec<(String, String)>) -> (r: Result<TelegramSettings, AivyxError>)
    ensures
        match setting_spec(settings@, "bot_token_ref"@) {
            None => r matches Err(AivyxError::Channel(m)) && m@
                == "Telegram channel requires 'bot_token_ref' in settings"@,
            Some(t) => r matches Ok(ts) && ts.bot_token_ref@ == t && ts.poll_timeout == match setting_spec(
                settings@,
                "poll_timeout_secs"@,
            ) {
                Some(p) => match parse_u64_spec(p) {
                    Some(n) => n,
                    None => DEFAULT_POLL_TIMEOUT,
                },
                None => DEFAULT_POLL_TIMEOUT,
            },
        },
{
    let token_ref = match setting(settings, "bot_token_ref") {
        Some(t) => t.clone(),
        None => {
            return Err(AivyxError::Channel("Telegram channel requires 'bot_token_ref' in settings".to_owned()));
        },
    };
    let poll_timeout = match setting(settings, "poll_timeout_secs") {
        Some(p) => match parse_u64(p.as_str()) {
            Some(n) => n,
            None => DEFAULT_POLL_TIMEOUT,
        },
        None => DEFAULT_POLL_TIMEOUT,
    };
    Ok(TelegramSettings { bot_token_ref: token_ref, poll_timeout })
}

/// The bot token read from the encrypted store under `token_ref`: missing
/// or not UTF-8 is an error.
pub fn bot_token(token_ref: &str, stored: Option<Vec<u8>>) -> (r: Result<String, AivyxError>)
    ensures
        match stored {
            None => r matches Err(AivyxError::Channel(m)) && m@
                == "bot token not found in encrypted store (key: '"@ + token_ref@ + "')"@,
            Some(b) => if valid_utf8(b@) {
                r matches Ok(t) && t@ == decode_utf8(b@)
            } else {
                r matches Err(AivyxError::Channel(m)) && m@ == "bot token is not valid UTF-8"@
            },
        },
{
    match stored {
        None => {
            let mut m = "bot token not found in encrypted store (key: '".to_owned();
            m.append(token_ref);
            m.append("')");
            Err(AivyxError::Channel(m))
        },
        Some(b) => match utf8_text(b.as_slice()) {
            Some(t) => Ok(t),
            None => Err(AivyxError::Channel("bot token is not valid UTF-8".to_owned())),
        },
    }
}

/// `https://api.telegram.org/bot<token>/<method>`.
pub open spec fn api_url_spec(token: Seq<char>, method: Seq<char>) -> Seq<char> {
    "https://api.telegram.org/bot"@ + token + "/"@ + method
}

/// The URL of a Bot API method.
pub fn api_url(token: &str, method: &str) -> (u: String)
    ensures
        u@ == api_url_spec(token@, method@),
{
    let mut u = "https://api.telegram.org/bot".to_owned();
    u.append(token);
    u.append("/");
    u.append(method);
    u
}

/// The long-poll URL for updates after `offset`.
pub fn get_updates_url(token: &str, offset: i64, timeout: u64) -> (u: String)
    ensures
        u@ == api_url_spec(token@, "getUpdates?offset="@ + signed_decimal(offset as int) + "&timeout="@
            + decimal(timeout as nat)),
{
    let mut method = "getUpdates?offset=".to_owned();
    method.append(i64_to_decimal(offset).as_str());
    method.append("&timeout=");
    method.append(u64_to_decimal(timeout).as_str());
    api_url(token, method.as_str())
}

/// The HTTP timeout of a long poll: ten seconds more than the poll's.
pub fn poll_request_timeout(poll_timeout: u64) -> (t: u64)
    requires
        poll_timeout <= u64::MAX - 10,
    ensures
        t == poll_timeout + 10,
{
    poll_timeout + 10
}

/// The bot's user name from a `getMe` answer: refused when `ok` is false
/// (with the answer's description) or the result is missing; `unknown`
/// when the bot has no user name.
pub fn get_me_outcome(ok: bool, description: Option<String>, result: Option<Option<String>>) -> (r: Result<
    String,
    AivyxError,
>)
    ensures
        !ok ==> (r matches Err(AivyxError::Channel(m)) && m@ == "telegram getMe failed: "@ + match description {
            Some(d) => d@,
            None => Seq::<char>::empty(),
        }),
        ok && result is None ==> (r matches Err(AivyxError::Channel(m)) && m@
            == "telegram getMe returned no result"@),
        ok ==> (result matches Some(u) ==> (r matches Ok(n) && n@ == match u {
            Some(name) => name@,
            None => "unknown"@,
        })),
{
    if !ok {
        let mut m = "telegram getMe failed: ".to_owned();
        match description {
            Some(d) => m.append(d.as_str()),
            None => {},
        }
        return Err(AivyxError::Channel(m));
    }
    match result {
        None => Err(AivyxError::Channel("telegram getMe returned no result".to_owned())),
        Some(Some(name)) => Ok(name),
        Some(None) => Ok("unknown".to_owned()),
    }
}

/// The error of a poll without result: its description, or
/// `unknown telegram error`.
pub fn poll_error(description: Option<String>) -> (e: AivyxError)
    ensures
        e matches AivyxError::Channel(m) && m@ == match description {
            Some(d) => d@,
            None => "unknown telegram error"@,
        },
{
    match description {
        Some(d) => AivyxError::Channel(d),
        None => AivyxError::Channel("unknown telegram error".to_owned()),
    }
}

/// The offset of the next poll after seeing update `update_id`.
pub fn next_offset(update_id: i64) -> (o: i64)
    requires
        update_id < i64::MAX,
    ensures
        o == update_id + 1,
{
    update_id + 1
}

/// Whether a Telegram user may reach the handler: with an allowlist, only
/// listed users do (the handler checks again).
pub open spec fn tg_user_admitted(allowed: Seq<String>, user: Seq<char>) -> bool {
    allowed.len() == 0 || exists|i: int| 0 <= i < allowed.len() && #[trigger] allowed[i]@ == user
}

/// The user ID and text of an update to hand to the handler: updates
/// without message, sender or text are skipped, and so are users outside
/// a non-empty allowlist.
pub fn admit_update(allowed: &Vec<String>, from_id: Option<i64>, text: Option<String>) -> (r: Option<
    (String, String),
>)
    ensures
        match (from_id, text) {
            (Some(id), Some(t)) => if tg_user_admitted(allowed@, signed_decimal(id as int)) {
                r matches Some((u, x)) && u@ == signed_decimal(id as int) && x == t
            } else {
                r is None
            },
            _ => r is None,
        },
{
    let id = match from_id {
        Some(id) => id,
        None => return None,
    };
    let t = match text {
        Some(t) => t,
        None => return None,
    };
    let user = i64_to_decimal(id);
    if allowed.len() == 0 {
        return Some((user, t));
    }
    let mut i: usize = 0;
    while i < allowed.len()
        invariant
            i <= allowed@.len(),
            from_id == Some(id),
            text == Some(t),
            user@ == signed_decimal(id as int),
            forall|j: int| 0 <= j < i ==> (#[trigger] allowed@[j])@ != user@,
        decreases allowed@.len() - i,
    {
        if str_eq(allowed[i].as_str(), user.as_str()) {
            assert(allowed@[i as int]@ == user@);
            return Some((user, t));
        }
        i += 1;
    }
    assert(!tg_user_admitted(allowed@, user@));
    None
}

/// The reply to send for a handled message: the handler's answer, or a
/// generic apology when it failed.
pub fn reply_text(outcome: Result<String, AivyxError>) -> (t: String)
    ensures
        match outcome {
            Ok(r) => t == r,
            Err(_) => t@ == "Sorry, I encountered an error processing your message."@,
        },
{
    match outcome {
        Ok(r) => r,
        Err(_) => "Sorry, I encountered an error processing your message.".to_owned(),
    }
}

} // verus!

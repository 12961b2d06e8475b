//! W3C Trace Context (`traceparent`) parsing and formatting.
//!
//! Format: `{version}-{trace_id}-{parent_id}-{trace_flags}`, see
//! <https://www.w3.org/TR/trace-context/>.
use vstd::prelude::*;
use vstd::string::*;

use crate::ids::{
    hex_text, hyphenated, is_hex_char, is_lower_hex_char, is_v4_uuid_text, lemma_hex_text,
    random_uuid_text, remove_hyphens, uuid_text, v4_bits, without_hyphens,
};
use crate::text::{find_char_from, join_on, lemma_find_char_from, lemma_split_join, split_chars, split_on,
    string_from_chars, to_chars};

verus! {

broadcast use vstd::seq::group_seq_axioms;

/// Header name for W3C Trace Context.
pub const TRACEPARENT: &'static str = "traceparent";

/// Every character of `s` is an ASCII hex digit.
pub open spec fn all_hex(s: Seq<char>) -> bool {
    forall|i: int| 0 <= i < s.len() ==> is_hex_char(#[trigger] s[i])
}

/// `(trace_id, parent_id, flags)` of a well-formed `traceparent` value:
/// exactly four `-`-separated fields, version `00`, then 32, 16 and 2 hex
/// digits.
pub open spec fn traceparent_spec(v: Seq<char>) -> Option<(Seq<char>, Seq<char>, Seq<char>)> {
    let parts = split_on(v, '-');
    if parts.len() == 4 && parts[0] == seq!['0', '0'] && parts[1].len() == 32 && parts[2].len()
        == 16 && parts[3].len() == 2 && all_hex(parts[1]) && all_hex(parts[2]) && all_hex(
        parts[3],
    ) {
        Some((parts[1], parts[2], parts[3]))
    } else {
        None
    }
}

/// The `traceparent` value for the given fields, version `00`.
pub open spec fn format_spec(t: Seq<char>, p: Seq<char>, f: Seq<char>) -> Seq<char> {
    seq!['0', '0', '-'] + t + seq!['-'] + p + seq!['-'] + f
}

fn all_hex_exec(v: &[char]) -> (b: bool)
    ensures
        b == all_hex(v@),
{
    let mut i: usize = 0;
    while i < v.len()
        invariant
            i <= v@.len(),
            forall|j: int| 0 <= j < i ==> is_hex_char(#[trigger] v@[j]),
        decreases v@.len() - i,
    {
        let c = v[i];
        if !(('0' <= c && c <= '9') || ('a' <= c && c <= 'f') || ('A' <= c && c <= 'F')) {
            return false;
        }
        i += 1;
    }
    true
}

/// Parse a `traceparent` header value.
///
/// Format: `{version}-{trace_id}-{parent_id}-{trace_flags}`
/// Example: `00-4bf92f3577b34da6a3ce929d0e0e4736-00f067aa0ba902b7-01`
///
/// Returns `(trace_id, parent_id, flags)` or `None` if invalid.
pub fn parse_traceparent(value: &str) -> (res: Option<(String, String, String)>)
    ensures
        match traceparent_spec(value@) {
            Some((t, p, f)) => res matches Some((rt, rp, rf)) && rt@ == t && rp@ == p && rf@ == f,
            None => res is None,
        },
{
    let chars = to_chars(value);
    let parts = split_chars(&chars, '-');
    let ghost sp = split_on(value@, '-');
    assert(parts@.len() == sp.len());
    if parts.len() != 4 {
        return None;
    }
    assert(parts@[0]@ == sp[0]);
    assert(parts@[1]@ == sp[1]);
    assert(parts@[2]@ == sp[2]);
    assert(parts@[3]@ == sp[3]);
    let version = &parts[0];
    if version.len() != 2 || version[0] != '0' || version[1] != '0' {
        assert(version@ != seq!['0', '0']);
        return None;
    }
    assert(version@ =~= seq!['0', '0']);
    let trace_id = &parts[1];
    let parent_id = &parts[2];
    let flags = &parts[3];
    if trace_id.len() != 32 || parent_id.len() != 16 || flags.len() != 2 {
        return None;
    }
    if !all_hex_exec(trace_id) || !all_hex_exec(parent_id) || !all_hex_exec(flags) {
        return None;
    }
    Some((
        string_from_chars(trace_id, 0, 32),
        string_from_chars(parent_id, 0, 16),
        string_from_chars(flags, 0, 2),
    ))
}

/// Appends the characters of `v` to `s`.
fn push_chars(s: &mut String, v: &[char])
    ensures
        final(s)@ == old(s)@ + v@,
{
    let mut i: usize = 0;
    while i < v.len()
        invariant
            i <= v@.len(),
            s@ == old(s)@ + v@.take(i as int),
        decreases v@.len() - i,
    {
        s.push(v[i]);
        assert(v@.take(i + 1) =~= v@.take(i as int).push(v@[i as int]));
        i += 1;
    }
    assert(v@.take(v@.len() as int) =~= v@);
}

/// The `traceparent` value `00-{trace_id}-{parent_id}-{flags}`.
pub fn format_traceparent(trace_id: &str, parent_id: &str, flags: &str) -> (r: String)
    ensures
        r@ == format_spec(trace_id@, parent_id@, flags@),
{
    let mut r = String::new();
    r.push('0');
    r.push('0');
    r.push('-');
    push_chars(&mut r, &to_chars(trace_id));
    r.push('-');
    push_chars(&mut r, &to_chars(parent_id));
    r.push('-');
    push_chars(&mut r, &to_chars(flags));
    assert(r@ =~= format_spec(trace_id@, parent_id@, flags@));
    r
}

/// Splitting a piece without separators, followed by one separator and a
/// rest, yields the piece and then the pieces of the rest.
pub proof fn lemma_split_on_cons(a: Seq<char>, rest: Seq<char>, c: char)
    requires
        forall|i: int| 0 <= i < a.len() ==> a[i] != c,
    ensures
        split_on(a + seq![c] + rest, c) == seq![a] + split_on(rest, c),
{
    let s = a + seq![c] + rest;
    lemma_find_char_from(s, c, 0);
    match find_char_from(s, c, 0) {
        Some(k) => {
            if k < a.len() {
                assert(s[k] == a[k]);
            } else if k > a.len() {
                assert(s[a.len() as int] == c);
            }
            assert(k == a.len());
            assert(s.take(k) =~= a);
            assert(s.skip(k + 1) =~= rest);
        },
        None => {
            assert(s[a.len() as int] == c);
        },
    }
}

/// A piece without separators splits into itself.
pub proof fn lemma_split_on_single(a: Seq<char>, c: char)
    requires
        forall|i: int| 0 <= i < a.len() ==> a[i] != c,
    ensures
        split_on(a, c) == seq![a],
{
    lemma_find_char_from(a, c, 0);
}

/// Law: formatting well-formed fields and parsing the result gives the
/// fields back.
pub proof fn lemma_traceparent_roundtrip(t: Seq<char>, p: Seq<char>, f: Seq<char>)
    requires
        t.len() == 32 && all_hex(t),
        p.len() == 16 && all_hex(p),
        f.len() == 2 && all_hex(f),
    ensures
        traceparent_spec(format_spec(t, p, f)) == Some((t, p, f)),
{
    let zz = seq!['0', '0'];
    assert forall|i: int| 0 <= i < t.len() implies t[i] != '-' by {
        assert(is_hex_char(t[i]));
    }
    assert forall|i: int| 0 <= i < p.len() implies p[i] != '-' by {
        assert(is_hex_char(p[i]));
    }
    assert forall|i: int| 0 <= i < f.len() implies f[i] != '-' by {
        assert(is_hex_char(f[i]));
    }
    lemma_split_on_single(f, '-');
    lemma_split_on_cons(p, f, '-');
    lemma_split_on_cons(t, p + seq!['-'] + f, '-');
    lemma_split_on_cons(zz, t + seq!['-'] + p + seq!['-'] + f, '-');
    assert(format_spec(t, p, f) =~= zz + seq!['-'] + (t + seq!['-'] + (p + seq!['-'] + f)));
    assert(t + seq!['-'] + (p + seq!['-'] + f) =~= t + seq!['-'] + p + seq!['-'] + f);
    let parts = split_on(format_spec(t, p, f), '-');
    assert(parts =~= seq![zz, t, p, f]);
}

/// Law: a well-formed `traceparent` value re-formats to itself from the
/// fields it parses into.
pub proof fn lemma_traceparent_reformat(v: Seq<char>)
    requires
        traceparent_spec(v) is Some,
    ensures
        ({
            let (t, p, f) = traceparent_spec(v)->0;
            format_spec(t, p, f) == v
        }),
{
    let parts = split_on(v, '-');
    lemma_split_join(v, '-');
    let (t, p, f) = traceparent_spec(v)->0;
    assert(parts.drop_first().drop_first().drop_first() =~= seq![f]);
    assert(parts.drop_first().drop_first() =~= seq![p, f]);
    assert(parts.drop_first() =~= seq![t, p, f]);
    assert(join_on(seq![f], '-') == f);
    assert(join_on(seq![p, f], '-') == p + seq!['-'] + f);
    assert(join_on(seq![t, p, f], '-') == t + seq!['-'] + (p + seq!['-'] + f));
    assert(format_spec(t, p, f) =~= seq!['0', '0'] + seq!['-'] + (t + seq!['-'] + (p + seq!['-'] + f)));
}

proof fn lemma_without_hyphens_append(a: Seq<char>, b: Seq<char>)
    ensures
        without_hyphens(a + b) == without_hyphens(a) + without_hyphens(b),
    decreases b.len(),
{
    if b.len() == 0 {
        assert(a + b =~= a);
    } else {
        lemma_without_hyphens_append(a, b.drop_last());
        assert((a + b).drop_last() =~= a + b.drop_last());
        assert((a + b).last() == b.last());
    }
}

proof fn lemma_without_hyphens_hex(h: Seq<char>)
    requires
        forall|i: int| 0 <= i < h.len() ==> is_lower_hex_char(#[trigger] h[i]),
    ensures
        without_hyphens(h) == h,
    decreases h.len(),
{
    if h.len() > 0 {
        assert(is_lower_hex_char(h[h.len() - 1]));
        lemma_without_hyphens_hex(h.drop_last());
        assert(h.drop_last().push(h.last()) =~= h);
    }
}

/// The hex digits of a UUID's text, hyphens removed, are the hex text of
/// its bytes: 32 lower-case hex digits.
proof fn lemma_uuid_without_hyphens(b: Seq<u8>)
    requires
        b.len() == 16,
    ensures
        without_hyphens(uuid_text(b)) == hex_text(b),
        hex_text(b).len() == 32,
        all_hex(hex_text(b)),
{
    let h = hex_text(b);
    lemma_hex_text(b);
    let h1 = h.subrange(0, 8);
    let h2 = h.subrange(8, 12);
    let h3 = h.subrange(12, 16);
    let h4 = h.subrange(16, 20);
    let h5 = h.subrange(20, 32);
    assert forall|i: int| 0 <= i < h.len() implies is_hex_char(#[trigger] h[i]) by {
        assert(is_lower_hex_char(h[i]));
    }
    assert forall|i: int| 0 <= i < h1.len() implies is_lower_hex_char(#[trigger] h1[i]) by {
        assert(h1[i] == h[i]);
    }
    assert forall|i: int| 0 <= i < h2.len() implies is_lower_hex_char(#[trigger] h2[i]) by {
        assert(h2[i] == h[i + 8]);
    }
    assert forall|i: int| 0 <= i < h3.len() implies is_lower_hex_char(#[trigger] h3[i]) by {
        assert(h3[i] == h[i + 12]);
    }
    assert forall|i: int| 0 <= i < h4.len() implies is_lower_hex_char(#[trigger] h4[i]) by {
        assert(h4[i] == h[i + 16]);
    }
    assert forall|i: int| 0 <= i < h5.len() implies is_lower_hex_char(#[trigger] h5[i]) by {
        assert(h5[i] == h[i + 20]);
    }
    lemma_without_hyphens_hex(h1);
    lemma_without_hyphens_hex(h2);
    lemma_without_hyphens_hex(h3);
    lemma_without_hyphens_hex(h4);
    lemma_without_hyphens_hex(h5);
    let d = seq!['-'];
    assert(without_hyphens(d) == Seq::<char>::empty()) by {
        assert(d.drop_last() =~= Seq::<char>::empty());
        reveal_with_fuel(without_hyphens, 2);
    }
    lemma_without_hyphens_append(h1, d);
    lemma_without_hyphens_append(h1 + d, h2);
    lemma_without_hyphens_append(h1 + d + h2, d);
    lemma_without_hyphens_append(h1 + d + h2 + d, h3);
    lemma_without_hyphens_append(h1 + d + h2 + d + h3, d);
    lemma_without_hyphens_append(h1 + d + h2 + d + h3 + d, h4);
    lemma_without_hyphens_append(h1 + d + h2 + d + h3 + d + h4, d);
    lemma_without_hyphens_append(h1 + d + h2 + d + h3 + d + h4 + d, h5);
    assert(h1 + h2 + h3 + h4 + h5 =~= h);
    assert(h1 + Seq::<char>::empty() =~= h1);
    assert(h1 + h2 + Seq::<char>::empty() =~= h1 + h2);
    assert(h1 + h2 + h3 + Seq::<char>::empty() =~= h1 + h2 + h3);
    assert(h1 + h2 + h3 + h4 + Seq::<char>::empty() =~= h1 + h2 + h3 + h4);
}

/// 32 lower-case hex digits of a fresh random UUID.
fn random_hex_id() -> (r: String)
    ensures
        r@.len() == 32,
        all_hex(r@),
{
    let u = random_uuid_text();
    let ghost b = choose|b: Seq<u8>| b.len() == 16 && u@ == #[trigger] uuid_text(v4_bits(b));
    proof {
        lemma_uuid_without_hyphens(v4_bits(b));
    }
    remove_hyphens(&u)
}

/// Generate a new `traceparent` header value.
pub fn generate_traceparent() -> (r: String)
    ensures
        traceparent_spec(r@) matches Some((t, p, f)) && f == seq!['0', '1'] && r@ == format_spec(t, p, f),
        r@.take(3) == seq!['0', '0', '-'],
{
    let trace_id = random_hex_id();
    let span_full = random_hex_id();
    let span_chars = to_chars(&span_full);
    let span_id = string_from_chars(&span_chars, 0, 16);
    let flags = "01";
    proof {
        reveal_strlit("01");
        assert(all_hex(flags@));
        assert(all_hex(span_id@)) by {
            assert forall|i: int| 0 <= i < span_id@.len() implies is_hex_char(
                #[trigger] span_id@[i],
            ) by {
                assert(span_id@[i] == span_full@[i]);
            }
        }
        lemma_traceparent_roundtrip(trace_id@, span_id@, flags@);
    }
    let r = format_traceparent(&trace_id, &span_id, flags);
    assert(r@.take(3) =~= seq!['0', '0', '-']);
    r
}

/// The trace ID field of a `traceparent` value (its second `-`-separated
/// field), or `unknown` when there is none.
pub open spec fn trace_id_spec(v: Seq<char>) -> Seq<char> {
    let parts = split_on(v, '-');
    if parts.len() >= 2 {
        parts[1]
    } else {
        "unknown"@
    }
}

/// The trace ID recorded on the request span.
pub fn trace_id_of(traceparent: &str) -> (r: String)
    ensures
        r@ == trace_id_spec(traceparent@),
{
    let chars = to_chars(traceparent);
    let parts = split_chars(&chars, '-');
    if parts.len() >= 2 {
        let p = &parts[1];
        string_from_chars(p, 0, p.len())
    } else {
        "unknown".to_owned()
    }
}

/// The `traceparent` that a request carries on: the incoming value
/// re-formatted when it is well formed, else `generated`.
pub fn propagated_traceparent(incoming: Option<&str>, generated: String) -> (r: String)
    ensures
        match incoming {
            Some(v) => match traceparent_spec(v@) {
                Some((t, p, f)) => r@ == format_spec(t, p, f),
                None => r@ == generated@,
            },
            None => r@ == generated@,
        },
{
    match incoming {
        Some(v) => match parse_traceparent(v) {
            Some((t, p, f)) => format_traceparent(&t, &p, &f),
            None => generated,
        },
        None => generated,
    }
}

} // verus!

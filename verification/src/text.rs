//! UTF-8 byte-level facts shared by the text helpers of the gateway.
use vstd::prelude::*;
use vstd::string::*;
use vstd::utf8::*;

verus! {

broadcast use vstd::seq::group_seq_axioms;

/// Index of the last occurrence of `b` in `s`, if any.
pub open spec fn last_index_of(s: Seq<u8>, b: u8) -> Option<int>
    decreases s.len(),
{
    if s.len() == 0 {
        None
    } else if s.last() == b {
        Some(s.len() - 1)
    } else {
        last_index_of(s.drop_last(), b)
    }
}

/// `last_index_of` finds an in-range position holding `b`, after which `b`
/// does not occur; `None` means that `b` does not occur at all.
pub proof fn lemma_last_index_of(s: Seq<u8>, b: u8)
    ensures
        match last_index_of(s, b) {
            Some(p) => 0 <= p < s.len() && s[p] == b && (forall|j: int|
                p < j < s.len() ==> s[j] != b),
            None => forall|j: int| 0 <= j < s.len() ==> s[j] != b,
        },
    decreases s.len(),
{
    if s.len() > 0 && s.last() != b {
        lemma_last_index_of(s.drop_last(), b);
        assert forall|j: int| 0 <= j < s.len() - 1 implies s.drop_last()[j] == s[j] by {}
    }
}

/// The position right after an ASCII byte that starts a character is
/// itself a character boundary.
pub proof fn lemma_boundary_after_ascii(bytes: Seq<u8>, p: int)
    requires
        valid_utf8(bytes),
        0 <= p < bytes.len(),
        bytes[p] <= 0x7f,
        is_char_boundary(bytes, p),
    ensures
        is_char_boundary(bytes, p + 1),
    decreases bytes.len(),
{
    reveal_with_fuel(is_char_boundary, 2);
    if p == 0 {
        assert(length_of_first_scalar(bytes) == 1);
        assert(is_char_boundary(pop_first_scalar(bytes), 0));
    } else {
        let l = length_of_first_scalar(bytes);
        let rest = pop_first_scalar(bytes);
        assert(is_char_boundary(rest, p - l));
        assert(p - l >= 0);
        assert(rest[p - l] == bytes[p]);
        lemma_boundary_after_ascii(rest, p - l);
    }
}

/// Every ASCII byte of a valid UTF-8 sequence starts a character, so the
/// position after it is a character boundary.
pub proof fn lemma_ascii_byte_boundaries(bytes: Seq<u8>, p: int)
    requires
        valid_utf8(bytes),
        0 <= p < bytes.len(),
        bytes[p] <= 0x7f,
    ensures
        is_char_boundary(bytes, p),
        is_char_boundary(bytes, p + 1),
{
    is_char_boundary_iff_not_is_continuation_byte(bytes, p);
    lemma_boundary_after_ascii(bytes, p);
}

/// Unicode `White_Space` characters, the set that `char::is_whitespace`
/// and `str::trim` use.
pub open spec fn is_ws(c: char) -> bool {
    let v = c as u32;
    ||| 0x09 <= v <= 0x0d
    ||| v == 0x20
    ||| v == 0x85
    ||| v == 0xa0
    ||| v == 0x1680
    ||| 0x2000 <= v <= 0x200a
    ||| v == 0x2028
    ||| v == 0x2029
    ||| v == 0x202f
    ||| v == 0x205f
    ||| v == 0x3000
}

/// Unicode general category `Cc`, the set that `char::is_control` uses.
pub open spec fn is_control(c: char) -> bool {
    let v = c as u32;
    v <= 0x1f || (0x7f <= v <= 0x9f)
}

/// Whether `c` is a Unicode white-space character.
pub fn char_is_ws(c: char) -> (b: bool)
    ensures
        b == is_ws(c),
{
    let v = c as u32;
    (0x09 <= v && v <= 0x0d) || v == 0x20 || v == 0x85 || v == 0xa0 || v == 0x1680 || (0x2000
        <= v && v <= 0x200a) || v == 0x2028 || v == 0x2029 || v == 0x202f || v == 0x205f || v
        == 0x3000
}

/// Whether `c` is a control character.
pub fn char_is_control(c: char) -> (b: bool)
    ensures
        b == is_control(c),
{
    let v = c as u32;
    v <= 0x1f || (0x7f <= v && v <= 0x9f)
}

/// Number of bytes in the UTF-8 encoding of `c`.
pub open spec fn char_width(c: char) -> nat {
    encode_scalar(c as u32).len()
}

/// The UTF-8 length of `c`, as `char::len_utf8` computes it.
pub fn char_len_utf8(c: char) -> (n: usize)
    ensures
        n == char_width(c),
        1 <= n <= 4,
{
    proof {
        char_is_scalar(c);
    }
    let v = c as u32;
    if v <= 0x7f {
        1
    } else if v <= 0x7ff {
        2
    } else if v <= 0xffff {
        3
    } else {
        4
    }
}

/// Encoding a concatenation encodes each part in turn.
pub proof fn lemma_encode_utf8_append(a: Seq<char>, b: Seq<char>)
    ensures
        encode_utf8(a + b) == encode_utf8(a) + encode_utf8(b),
    decreases a.len(),
{
    if a.len() == 0 {
        assert(a + b =~= b);
    } else {
        lemma_encode_utf8_append(a.drop_first(), b);
        assert((a + b).drop_first() =~= a.drop_first() + b);
        assert((a + b)[0] == a[0]);
    }
}

/// The byte length of a prefix grows by the width of the next character.
pub proof fn lemma_encode_take_succ(s: Seq<char>, k: int)
    requires
        0 <= k < s.len(),
    ensures
        encode_utf8(s.take(k + 1)).len() == encode_utf8(s.take(k)).len() + char_width(s[k]),
{
    assert(s.take(k + 1) =~= s.take(k) + seq![s[k]]);
    lemma_encode_utf8_append(s.take(k), seq![s[k]]);
    assert(seq![s[k]].drop_first() =~= Seq::<char>::empty());
    assert(encode_utf8(Seq::<char>::empty()) == Seq::<u8>::empty());
    assert(encode_utf8(seq![s[k]]) =~= encode_scalar(s[k] as u32));
}

/// The characters of `s`, in order.
pub fn to_chars(s: &str) -> (v: Vec<char>)
    ensures
        v@ == s@,
{
    let mut v: Vec<char> = Vec::new();
    for c in it: s.chars()
        invariant
            v@ == it.seq().take(it.index() as int),
            it.seq() == s@,
    {
        v.push(c);
    }
    v
}

/// The string made of the characters `v[from..to]`.
pub fn string_from_chars(v: &[char], from: usize, to: usize) -> (s: String)
    requires
        from <= to <= v@.len(),
    ensures
        s@ == v@.subrange(from as int, to as int),
{
    let mut s = String::new();
    let mut i: usize = from;
    while i < to
        invariant
            from <= i <= to <= v@.len(),
            s@ == v@.subrange(from as int, i as int),
        decreases to - i,
    {
        s.push(v[i]);
        assert(v@.subrange(from as int, i + 1) =~= v@.subrange(from as int, i as int).push(v@[i as int]));
        i += 1;
    }
    s
}

/// Index of the first character of `s` at or after `from` that is not white space.
pub open spec fn first_non_ws(s: Seq<char>, from: int) -> int
    decreases s.len() - from,
{
    if from >= s.len() || !is_ws(s[from]) {
        from
    } else {
        first_non_ws(s, from + 1)
    }
}

/// One past the last character of `s` before `to` that is not white space.
pub open spec fn last_non_ws_end(s: Seq<char>, lo: int, to: int) -> int
    decreases to - lo,
{
    if to <= lo || !is_ws(s[to - 1]) {
        to
    } else {
        last_non_ws_end(s, lo, to - 1)
    }
}

/// `s` without leading and trailing white space, as `str::trim` returns it.
pub open spec fn trim_spec(s: Seq<char>) -> Seq<char> {
    let lo = if 0 <= first_non_ws(s, 0) <= s.len() { first_non_ws(s, 0) } else { 0 };
    let hi = last_non_ws_end(s, lo, s.len() as int);
    s.subrange(lo, hi)
}

pub proof fn lemma_first_non_ws(s: Seq<char>, from: int)
    requires
        0 <= from <= s.len(),
    ensures
        from <= first_non_ws(s, from) <= s.len(),
        forall|j: int| from <= j < first_non_ws(s, from) ==> is_ws(#[trigger] s[j]),
        first_non_ws(s, from) < s.len() ==> !is_ws(s[first_non_ws(s, from)]),
    decreases s.len() - from,
{
    if from < s.len() && is_ws(s[from]) {
        lemma_first_non_ws(s, from + 1);
    }
}

pub proof fn lemma_last_non_ws_end(s: Seq<char>, lo: int, to: int)
    requires
        0 <= lo <= to <= s.len(),
    ensures
        lo <= last_non_ws_end(s, lo, to) <= to,
        forall|j: int| last_non_ws_end(s, lo, to) <= j < to ==> is_ws(#[trigger] s[j]),
        last_non_ws_end(s, lo, to) > lo ==> !is_ws(s[last_non_ws_end(s, lo, to) - 1]),
    decreases to - lo,
{
    if to > lo && is_ws(s[to - 1]) {
        lemma_last_non_ws_end(s, lo, to - 1);
    }
}

/// Bounds `[lo, hi)` of `v` without its leading and trailing white space.
pub fn trim_bounds(v: &[char], from: usize) -> (r: (usize, usize))
    requires
        from <= v@.len(),
    ensures
        r.0 == first_non_ws(v@.skip(from as int), 0) + from,
        r.1 == last_non_ws_end(v@.skip(from as int), r.0 - from, v@.len() - from) + from,
        from <= r.0 <= r.1 <= v@.len(),
        trim_spec(v@.skip(from as int)) == v@.subrange(r.0 as int, r.1 as int),
{
    let ghost t = v@.skip(from as int);
    proof {
        lemma_first_non_ws(t, 0);
    }
    let mut lo: usize = from;
    while lo < v.len() && char_is_ws(v[lo])
        invariant
            from <= lo <= v@.len(),
            t == v@.skip(from as int),
            first_non_ws(t, lo - from) == first_non_ws(t, 0),
        decreases v@.len() - lo,
    {
        lo += 1;
    }
    proof {
        lemma_last_non_ws_end(t, lo - from, t.len() as int);
    }
    let mut hi: usize = v.len();
    while hi > lo && char_is_ws(v[hi - 1])
        invariant
            from <= lo <= hi <= v@.len(),
            t == v@.skip(from as int),
            last_non_ws_end(t, lo - from, hi - from) == last_non_ws_end(t, lo - from, t.len() as int),
        decreases hi,
    {
        hi -= 1;
    }
    assert(t.subrange(lo - from, hi - from) =~= v@.subrange(lo as int, hi as int));
    (lo, hi)
}

/// The first position at or after `from` where `c` occurs in `s`.
pub open spec fn find_char_from(s: Seq<char>, c: char, from: int) -> Option<int>
    decreases s.len() - from,
{
    if from < 0 || from >= s.len() {
        None
    } else if s[from] == c {
        Some(from)
    } else {
        find_char_from(s, c, from + 1)
    }
}

/// `pat` occurs in `s` at position `k`.
pub open spec fn occurs_at(s: Seq<char>, pat: Seq<char>, k: int) -> bool {
    0 <= k && k + pat.len() <= s.len() && s.subrange(k, k + pat.len()) == pat
}

/// The first position at or after `from` where `pat` occurs in `s`.
pub open spec fn find_seq_from(s: Seq<char>, pat: Seq<char>, from: int) -> Option<int>
    decreases s.len() + 1 - from,
{
    if from < 0 || from + pat.len() > s.len() {
        None
    } else if occurs_at(s, pat, from) {
        Some(from)
    } else {
        find_seq_from(s, pat, from + 1)
    }
}

/// First position at or after `from` holding `c`.
pub fn find_char(v: &[char], c: char, from: usize) -> (r: Option<usize>)
    requires
        from <= v@.len(),
    ensures
        r matches Some(k) ==> find_char_from(v@, c, from as int) == Some(k as int) && from <= k
            < v@.len(),
        r is None ==> find_char_from(v@, c, from as int) is None,
{
    let mut i = from;
    while i < v.len()
        invariant
            from <= i <= v@.len(),
            find_char_from(v@, c, i as int) == find_char_from(v@, c, from as int),
        decreases v@.len() - i,
    {
        if v[i] == c {
            return Some(i);
        }
        i += 1;
    }
    None
}

/// Whether `pat` occurs in `v` at position `k`.
pub fn occurs_at_exec(v: &[char], pat: &[char], k: usize) -> (b: bool)
    ensures
        b == occurs_at(v@, pat@, k as int),
{
    let n = v.len();
    let m = pat.len();
    if k > n || m > n - k {
        return false;
    }
    let mut j: usize = 0;
    while j < m
        invariant
            n == v@.len(),
            m == pat@.len(),
            k + pat@.len() <= v@.len(),
            j <= pat@.len(),
            forall|t: int| 0 <= t < j ==> v@[k + t] == pat@[t],
        decreases pat@.len() - j,
    {
        if v[k + j] != pat[j] {
            assert(v@.subrange(k as int, k + pat@.len())[j as int] != pat@[j as int]);
            return false;
        }
        j += 1;
    }
    assert(v@.subrange(k as int, k + pat@.len()) =~= pat@);
    true
}

/// First position at or after `from` where `pat` occurs in `v`.
pub fn find_seq(v: &[char], pat: &[char], from: usize) -> (r: Option<usize>)
    requires
        from <= v@.len(),
    ensures
        r matches Some(k) ==> find_seq_from(v@, pat@, from as int) == Some(k as int) && from <= k
            && k + pat@.len() <= v@.len(),
        r is None ==> find_seq_from(v@, pat@, from as int) is None,
{
    let n = v.len();
    let m = pat.len();
    if m > n {
        return None;
    }
    if m == 0 {
        assert(v@.subrange(from as int, from as int) =~= pat@);
        return Some(from);
    }
    let mut i = from;
    while i <= n - m
        invariant
            n == v@.len(),
            m == pat@.len(),
            0 < m <= n,
            from <= i,
            find_seq_from(v@, pat@, i as int) == find_seq_from(v@, pat@, from as int),
        decreases n + 1 - i,
    {
        if occurs_at_exec(v, pat, i) {
            return Some(i);
        }
        i += 1;
    }
    None
}

pub proof fn lemma_find_char_from(s: Seq<char>, c: char, from: int)
    requires
        0 <= from,
    ensures
        match find_char_from(s, c, from) {
            Some(k) => from <= k < s.len() && s[k] == c && forall|j: int|
                from <= j < k ==> s[j] != c,
            None => forall|j: int| from <= j < s.len() ==> s[j] != c,
        },
    decreases s.len() - from,
{
    if from < s.len() && s[from] != c {
        lemma_find_char_from(s, c, from + 1);
    }
}

/// The pieces of `s` between occurrences of `c`, as `str::split(c)`
/// yields them (there is always at least one piece).
pub open spec fn split_on(s: Seq<char>, c: char) -> Seq<Seq<char>>
    decreases s.len(),
{
    match find_char_from(s, c, 0) {
        None => seq![s],
        Some(k) => {
            proof {
                lemma_find_char_from(s, c, 0);
            }
            seq![s.take(k)] + split_on(s.skip(k + 1), c)
        },
    }
}

/// Number of occurrences of `c` in `s`.
pub open spec fn char_count(s: Seq<char>, c: char) -> nat
    decreases s.len(),
{
    if s.len() == 0 {
        0
    } else {
        (if s[0] == c { 1nat } else { 0nat }) + char_count(s.drop_first(), c)
    }
}

/// Occurrences add up over a concatenation.
pub proof fn lemma_char_count_add(a: Seq<char>, b: Seq<char>, c: char)
    ensures
        char_count(a + b, c) == char_count(a, c) + char_count(b, c),
    decreases a.len(),
{
    if a.len() > 0 {
        lemma_char_count_add(a.drop_first(), b, c);
        assert((a + b).drop_first() =~= a.drop_first() + b);
        assert((a + b)[0] == a[0]);
    }
}

/// A text without `c` has no occurrence of it.
pub proof fn lemma_char_count_none(a: Seq<char>, c: char)
    requires
        forall|i: int| 0 <= i < a.len() ==> a[i] != c,
    ensures
        char_count(a, c) == 0,
    decreases a.len(),
{
    if a.len() > 0 {
        assert forall|i: int| 0 <= i < a.drop_first().len() implies a.drop_first()[i] != c by {
            assert(a.drop_first()[i] == a[i + 1]);
        }
        lemma_char_count_none(a.drop_first(), c);
    }
}

/// A text splits into one more piece than it has separators.
pub proof fn lemma_split_on_len(s: Seq<char>, c: char)
    ensures
        split_on(s, c).len() == char_count(s, c) + 1,
    decreases s.len(),
{
    lemma_find_char_from(s, c, 0);
    match find_char_from(s, c, 0) {
        None => {
            lemma_char_count_none(s, c);
        },
        Some(k) => {
            let rest = s.skip(k + 1);
            lemma_split_on_len(rest, c);
            lemma_char_count_none(s.take(k), c);
            assert(s =~= s.take(k) + seq![c] + rest);
            lemma_char_count_add(s.take(k) + seq![c], rest, c);
            lemma_char_count_add(s.take(k), seq![c], c);
            assert(seq![c].drop_first() =~= Seq::<char>::empty());
            assert(char_count(Seq::<char>::empty(), c) == 0);
            assert(char_count(seq![c], c) == 1);
            assert(char_count(s, c) == char_count(rest, c) + 1);
            assert(split_on(s, c) == seq![s.take(k)] + split_on(rest, c));
        },
    }
}

/// The pieces joined back with `c` between them.
pub open spec fn join_on(parts: Seq<Seq<char>>, c: char) -> Seq<char>
    decreases parts.len(),
{
    if parts.len() == 0 {
        seq![]
    } else if parts.len() == 1 {
        parts[0]
    } else {
        parts[0] + seq![c] + join_on(parts.drop_first(), c)
    }
}

/// Joining the pieces of a split with the separator gives the text back.
pub proof fn lemma_split_join(s: Seq<char>, c: char)
    ensures
        split_on(s, c).len() >= 1,
        join_on(split_on(s, c), c) == s,
    decreases s.len(),
{
    lemma_find_char_from(s, c, 0);
    match find_char_from(s, c, 0) {
        None => {},
        Some(k) => {
            let rest = s.skip(k + 1);
            lemma_split_join(rest, c);
            let parts = split_on(s, c);
            assert(parts == seq![s.take(k)] + split_on(rest, c));
            assert(parts.drop_first() =~= split_on(rest, c));
            assert(parts[0] == s.take(k));
            assert(s.take(k) + seq![c] + rest =~= s);
        },
    }
}

/// The characters `v[from..to]`.
pub fn slice_to_vec(v: &[char], from: usize, to: usize) -> (r: Vec<char>)
    requires
        from <= to <= v@.len(),
    ensures
        r@ == v@.subrange(from as int, to as int),
{
    let mut r: Vec<char> = Vec::new();
    let mut i = from;
    while i < to
        invariant
            from <= i <= to <= v@.len(),
            r@ == v@.subrange(from as int, i as int),
        decreases to - i,
    {
        r.push(v[i]);
        assert(v@.subrange(from as int, i + 1) =~= v@.subrange(from as int, i as int).push(v@[i as int]));
        i += 1;
    }
    r
}

/// Split `v` on every occurrence of `c`.
pub fn split_chars(v: &[char], c: char) -> (parts: Vec<Vec<char>>)
    ensures
        parts@.map_values(|p: Vec<char>| p@) == split_on(v@, c),
{
    let mut parts: Vec<Vec<char>> = Vec::new();
    let mut start: usize = 0;
    let n = v.len();
    assert(v@.skip(0) =~= v@);
    assert(parts@.map_values(|p: Vec<char>| p@) + split_on(v@, c) =~= split_on(v@, c));
    loop
        invariant
            n == v@.len(),
            start <= n,
            parts@.map_values(|p: Vec<char>| p@) + split_on(v@.skip(start as int), c) == split_on(
                v@,
                c,
            ),
        decreases n - start,
    {
        let ghost rest = v@.skip(start as int);
        let ghost before = parts@.map_values(|p: Vec<char>| p@);
        proof {
            lemma_find_char_from(rest, c, 0);
        }
        match find_char(v, c, start) {
            None => {
                proof {
                    if let Some(k) = find_char_from(rest, c, 0) {
                        assert(rest[k] == v@[start + k]);
                        lemma_find_char_from(v@, c, start as int);
                    }
                }
                assert(find_char_from(rest, c, 0) is None);
                let piece = slice_to_vec(v, start, n);
                assert(piece@ =~= rest);
                parts.push(piece);
                assert(parts@.map_values(|p: Vec<char>| p@) =~= before.push(rest));
                assert(split_on(rest, c) == seq![rest]);
                assert(before + seq![rest] =~= before.push(rest));
                return parts;
            },
            Some(k) => {
                proof {
                    lemma_find_char_from(v@, c, start as int);
                    assert(rest[k - start] == c);
                    assert forall|j: int| 0 <= j < k - start implies rest[j] != c by {
                        assert(rest[j] == v@[start + j]);
                    }
                    match find_char_from(rest, c, 0) {
                        Some(k2) => {
                            if k2 < k - start {
                                assert(rest[k2] != c);
                            } else if k2 > k - start {
                                assert(rest[k - start] != c);
                            }
                        },
                        None => {
                            assert(rest[k - start] != c);
                        },
                    }
                }
                assert(find_char_from(rest, c, 0) == Some(k - start));
                let piece = slice_to_vec(v, start, k);
                assert(piece@ =~= rest.take(k - start));
                assert(rest.skip(k - start + 1) =~= v@.skip(k + 1));
                parts.push(piece);
                assert(parts@.map_values(|p: Vec<char>| p@) =~= before.push(rest.take(k - start)));
                assert(before.push(rest.take(k - start)) + split_on(v@.skip(k + 1), c) =~= before
                    + split_on(rest, c));
                start = k + 1;
            },
        }
    }
}

/// The decimal digit for `d`.
pub open spec fn digit_char(d: int) -> char {
    ((d + 48) as u32) as char
}

/// The decimal representation of `n`, without leading zeros.
pub open spec fn decimal(n: nat) -> Seq<char>
    decreases n,
{
    if n < 10 {
        seq![digit_char(n as int)]
    } else {
        decimal(n / 10).push(digit_char((n % 10) as int))
    }
}

/// The decimal text of `n`, as `n.to_string()` writes it.
pub fn u64_to_decimal(n: u64) -> (s: String)
    ensures
        s@ == decimal(n as nat),
{
    let mut digits: Vec<char> = Vec::new();
    let mut m = n;
    let ghost mut rest: Seq<char> = Seq::empty();
    while m >= 10
        invariant
            decimal(n as nat) == decimal(m as nat) + rest,
            digits@ == rest.reverse(),
        decreases m,
    {
        let d = m % 10;
        let c = ((d as u32) + 48) as u8 as char;
        assert(c == digit_char(d as int)) by {
            assert(d < 10);
        }
        proof {
            assert(decimal(m as nat) == decimal((m / 10) as nat).push(c));
            assert(decimal((m / 10) as nat).push(c) + rest =~= decimal((m / 10) as nat) + (seq![c]
                + rest));
            rest = seq![c] + rest;
        }
        digits.push(c);
        assert(digits@ =~= rest.reverse());
        m = m / 10;
    }
    let c = ((m as u32) + 48) as u8 as char;
    assert(decimal(m as nat) == seq![c]);
    proof {
        assert(seq![c] + rest =~= seq![c] + rest);
        rest = seq![c] + rest;
    }
    digits.push(c);
    assert(digits@ =~= rest.reverse());
    assert(decimal(n as nat) =~= rest);
    let mut s = String::new();
    let mut i = digits.len();
    while i > 0
        invariant
            i <= digits@.len(),
            digits@ == rest.reverse(),
            s@ == rest.take(rest.len() - i),
            rest.len() == digits@.len(),
        decreases i,
    {
        i -= 1;
        s.push(digits[i]);
        assert(rest.take(rest.len() - i) =~= rest.take(rest.len() - i - 1).push(digits@[i as int]));
    }
    assert(rest.take(rest.len() as int) =~= rest);
    s
}

/// Whether `a` and `b` hold the same characters.
pub fn str_eq(a: &str, b: &str) -> (r: bool)
    ensures
        r == (a@ == b@),
{
    let x = to_chars(a);
    let y = to_chars(b);
    if x.len() != y.len() {
        return false;
    }
    let mut i: usize = 0;
    while i < x.len()
        invariant
            x@ == a@,
            y@ == b@,
            x@.len() == y@.len(),
            i <= x@.len(),
            forall|j: int| 0 <= j < i ==> x@[j] == y@[j],
        decreases x@.len() - i,
    {
        let xc: char = x[i];
        let yc: char = y[i];
        if xc != yc {
            return false;
        }
        i += 1;
    }
    assert(x@ =~= y@);
    true
}

/// `s` without leading and trailing white space, as an owned string.
pub fn trim_owned(s: &str) -> (r: String)
    ensures
        r@ == trim_spec(s@),
{
    let chars = to_chars(s);
    let (lo, hi) = trim_bounds(&chars, 0);
    assert(chars@.skip(0) =~= chars@);
    string_from_chars(&chars, lo, hi)
}

/// `s` without the leading `prefix`, when `s` starts with it.
pub fn strip_prefix_str(s: &str, prefix: &str) -> (r: Option<String>)
    ensures
        r is Some <==> occurs_at(s@, prefix@, 0),
        r matches Some(t) ==> t@ == s@.skip(prefix@.len() as int),
{
    let v = to_chars(s);
    let p = to_chars(prefix);
    if occurs_at_exec(&v, &p, 0) {
        let t = string_from_chars(&v, p.len(), v.len());
        assert(v@.subrange(p@.len() as int, v@.len() as int) =~= s@.skip(prefix@.len() as int));
        Some(t)
    } else {
        None
    }
}

/// The characters of an optional string.
pub open spec fn opt_chars(o: Option<&str>) -> Option<Seq<char>> {
    match o {
        Some(s) => Some(s@),
        None => None,
    }
}

/// `s` with every non-overlapping occurrence of `pat`, scanned from the
/// left, replaced by `with` (as `str::replace` does for a non-empty `pat`).
pub open spec fn replace_spec(s: Seq<char>, pat: Seq<char>, with: Seq<char>) -> Seq<char>
    recommends
        pat.len() > 0,
    decreases s.len(),
{
    if pat.len() == 0 {
        s
    } else {
        match find_seq_from(s, pat, 0) {
            None => s,
            Some(k) => if 0 <= k && k + pat.len() <= s.len() {
                s.take(k) + with + replace_spec(s.skip(k + pat.len()), pat, with)
            } else {
                s
            },
        }
    }
}

proof fn lemma_find_seq_shift(s: Seq<char>, pat: Seq<char>, from: int, i: int)
    requires
        0 <= from <= i,
        find_seq_from(s, pat, from) == find_seq_from(s, pat, i),
        i <= s.len(),
        pat.len() > 0,
    ensures
        match find_seq_from(s.skip(from), pat, i - from) {
            Some(k) => find_seq_from(s, pat, i) == Some(k + from),
            None => find_seq_from(s, pat, i) is None,
        },
    decreases s.len() + 1 - i,
{
    let t = s.skip(from);
    if i + pat.len() > s.len() {
    } else {
        assert(t.subrange(i - from, i - from + pat.len()) =~= s.subrange(i, i + pat.len()));
        if !occurs_at(s, pat, i) {
            lemma_find_seq_shift(s, pat, from, i + 1);
        }
    }
}

/// `s` with every occurrence of the non-empty `pat` replaced by `with`.
pub fn replace_all(s: &str, pat: &str, with: &str) -> (r: String)
    requires
        pat@.len() > 0,
    ensures
        r@ == replace_spec(s@, pat@, with@),
{
    let v = to_chars(s);
    let p = to_chars(pat);
    let mut out = String::new();
    let mut from: usize = 0;
    assert(v@.skip(0) =~= v@);
    while from <= v.len()
        invariant
            v@ == s@,
            p@ == pat@,
            p@.len() > 0,
            from <= v@.len(),
            out@ + replace_spec(v@.skip(from as int), p@, with@) == replace_spec(s@, pat@, with@),
        decreases v@.len() - from,
    {
        proof {
            lemma_find_seq_shift(v@, p@, from as int, from as int);
        }
        match find_seq(v.as_slice(), p.as_slice(), from) {
            None => {
                let rest = string_from_chars(v.as_slice(), from, v.len());
                assert(rest@ =~= v@.skip(from as int));
                out.append(rest.as_str());
                return out;
            },
            Some(k) => {
                let head = string_from_chars(v.as_slice(), from, k);
                let ghost t = v@.skip(from as int);
                assert(head@ =~= t.take(k - from));
                assert(t.skip(k - from + p@.len()) =~= v@.skip(k + p@.len()));
                assert(out@ + replace_spec(t, p@, with@) =~= out@ + head@ + with@ + replace_spec(
                    v@.skip(k + p@.len()),
                    p@,
                    with@,
                ));
                out.append(head.as_str());
                out.append(with);
                from = k + p.len();
            },
        }
    }
    out
}

/// The parts joined with `sep` between them.
pub open spec fn join_spec(parts: Seq<Seq<char>>, sep: Seq<char>) -> Seq<char>
    decreases parts.len(),
{
    if parts.len() == 0 {
        seq![]
    } else if parts.len() == 1 {
        parts[0]
    } else {
        join_spec(parts.drop_last(), sep) + sep + parts.last()
    }
}

/// The characters of each string.
pub open spec fn texts(v: Seq<String>) -> Seq<Seq<char>> {
    v.map_values(|s: String| s@)
}

/// `v` joined with `sep`, as `[String]::join` does.
pub fn join_strings(v: &Vec<String>, sep: &str) -> (r: String)
    ensures
        r@ == join_spec(texts(v@), sep@),
{
    let mut r = String::new();
    let mut i: usize = 0;
    while i < v.len()
        invariant
            i <= v@.len(),
            r@ == join_spec(texts(v@.take(i as int)), sep@),
        decreases v@.len() - i,
    {
        assert(texts(v@.take(i as int + 1)).drop_last() =~= texts(v@.take(i as int)));
        if i > 0 {
            r.append(sep);
        }
        r.append(v[i].as_str());
        i += 1;
    }
    assert(v@.take(v@.len() as int) =~= v@);
    r
}

/// The text that `bytes` encode, by `std::str::from_utf8`: `None` for
/// bytes that are not valid UTF-8.
#[verifier::external_body]
pub(crate) fn utf8_text(bytes: &[u8]) -> (r: Option<String>)
    ensures
        r is Some <==> valid_utf8(bytes@),
        r matches Some(s) ==> s@ == decode_utf8(bytes@),
{
    std::str::from_utf8(bytes).ok().map(|s| s.to_owned())
}

/// Decimal text of a signed integer, with a leading `-` when negative.
pub open spec fn signed_decimal(n: int) -> Seq<char> {
    if n < 0 {
        seq!['-'] + decimal((-n) as nat)
    } else {
        decimal(n as nat)
    }
}

/// The decimal text of `n`, as `i64::to_string` writes it.
pub fn i64_to_decimal(n: i64) -> (s: String)
    ensures
        s@ == signed_decimal(n as int),
{
    if n < 0 {
        let m: u64 = (-(n as i128)) as u64;
        let mut s = "-".to_owned();
        proof {
            reveal_strlit("-");
        }
        s.append(u64_to_decimal(m).as_str());
        s
    } else {
        u64_to_decimal(n as u64)
    }
}

/// The value of a non-empty sequence of ASCII digits.
pub open spec fn digits_value(d: Seq<char>) -> int
    decreases d.len(),
{
    if d.len() == 0 {
        0
    } else {
        digits_value(d.drop_last()) * 10 + (d.last() as int - '0' as int)
    }
}

/// Whether every character of `d` is an ASCII digit.
pub open spec fn all_digits(d: Seq<char>) -> bool {
    forall|i: int| 0 <= i < d.len() ==> '0' <= #[trigger] d[i] <= '9'
}

/// What `str::parse::<u64>` gives: an optional `+`, then one or more ASCII
/// digits whose value fits in 64 bits.
pub open spec fn parse_u64_spec(s: Seq<char>) -> Option<u64> {
    let d = if s.len() > 0 && s[0] == '+' {
        s.skip(1)
    } else {
        s
    };
    if d.len() > 0 && all_digits(d) && digits_value(d) <= u64::MAX {
        Some(digits_value(d) as u64)
    } else {
        None
    }
}

proof fn lemma_digits_value_nonneg(d: Seq<char>)
    requires
        all_digits(d),
    ensures
        digits_value(d) >= 0,
    decreases d.len(),
{
    if d.len() > 0 {
        lemma_digits_value_nonneg(d.drop_last());
    }
}

/// Parses a decimal `u64`, as `str::parse::<u64>` does.
pub fn parse_u64(s: &str) -> (r: Option<u64>)
    ensures
        r == parse_u64_spec(s@),
{
    let v = to_chars(s);
    let start: usize = if v.len() > 0 && v[0] == '+' {
        1
    } else {
        0
    };
    let ghost d = v@.skip(start as int);
    assert(start == 0 ==> d =~= s@);
    if start >= v.len() {
        return None;
    }
    let mut acc: u64 = 0;
    let mut i: usize = start;
    while i < v.len()
        invariant
            v@ == s@,
            start <= i <= v@.len(),
            d == v@.skip(start as int),
            d == (if s@.len() > 0 && s@[0] == '+' {
                s@.skip(1)
            } else {
                s@
            }),
            d.len() > 0,
            all_digits(d.take(i - start)),
            acc == digits_value(d.take(i - start)),
        decreases v@.len() - i,
    {
        let c = v[i];
        assert(d.take(i - start + 1).drop_last() =~= d.take(i - start));
        assert(d[i - start] == c);
        if c < '0' || c > '9' {
            assert(!all_digits(d));
            return None;
        }
        let digit: u64 = (c as u32 - '0' as u32) as u64;
        if acc > (u64::MAX - digit) / 10 {
            proof {
                lemma_digits_value_nonneg(d.take(i - start));
                assert(digits_value(d.take(i - start + 1)) > u64::MAX) by (nonlinear_arith)
                    requires
                        acc > (u64::MAX - digit) / 10,
                        digit <= 9,
                        digits_value(d.take(i - start + 1)) == acc * 10 + digit,
                ;
                if all_digits(d) {
                    lemma_prefix_value_bound(d, i - start + 1);
                }
            }
            return None;
        }
        assert(acc * 10 + digit <= u64::MAX) by (nonlinear_arith)
            requires
                acc <= (u64::MAX - digit) / 10,
                digit <= 9,
        ;
        acc = acc * 10 + digit;
        i += 1;
    }
    assert(d.take(v@.len() - start) =~= d);
    Some(acc)
}

proof fn lemma_prefix_value_bound(d: Seq<char>, k: int)
    requires
        0 <= k <= d.len(),
        all_digits(d),
    ensures
        digits_value(d.take(k)) <= digits_value(d),
    decreases d.len() - k,
{
    if k < d.len() {
        lemma_prefix_value_bound(d, k + 1);
        assert(d.take(k + 1).drop_last() =~= d.take(k));
        assert(all_digits(d.take(k)));
        lemma_digits_value_nonneg(d.take(k));
        assert('0' <= d[k] <= '9');
        assert(d.take(k + 1).last() == d[k]);
    } else {
        assert(d.take(k) =~= d);
    }
}

} // verus!

//! Pure parts of the background scheduler.
use vstd::prelude::*;
use vstd::string::*;
use vstd::utf8::*;

verus! {

broadcast use vstd::seq::group_seq_axioms, vstd::utf8::group_utf8_lib;

/// The largest character boundary of `bytes` that is at most `i`, as
/// `str::floor_char_boundary` computes it.
pub open spec fn floor_boundary(bytes: Seq<u8>, i: int) -> int
    decreases i,
{
    if i <= 0 {
        0
    } else if i < bytes.len() && !is_char_boundary(bytes, i) {
        floor_boundary(bytes, i - 1)
    } else if i >= bytes.len() {
        bytes.len() as int
    } else {
        i
    }
}

pub proof fn lemma_floor_boundary(bytes: Seq<u8>, i: int)
    requires
        valid_utf8(bytes),
        0 <= i < bytes.len(),
    ensures
        0 <= floor_boundary(bytes, i) <= i,
        is_char_boundary(bytes, floor_boundary(bytes, i)),
    decreases i,
{
    if i > 0 && !is_char_boundary(bytes, i) {
        lemma_floor_boundary(bytes, i - 1);
    }
}

/// What `truncate` returns: `s` itself when it fits in `max_len` bytes,
/// else its longest prefix that ends on a character boundary within
/// `max_len` bytes, followed by `...`.
pub open spec fn truncate_spec(s: Seq<char>, max_len: nat) -> Seq<char> {
    if encode_utf8(s).len() <= max_len {
        s
    } else {
        decode_utf8(encode_utf8(s).take(floor_boundary(encode_utf8(s), max_len as int))) + "..."@
    }
}

/// The longest prefix of `s` that fits in `max_len` bytes and ends on a
/// character boundary (all of `s` when it fits).
pub open spec fn floor_prefix_spec(s: &str, max_len: nat) -> Seq<u8> {
    if s.spec_bytes().len() <= max_len {
        s.spec_bytes()
    } else {
        s.spec_bytes().take(floor_boundary(s.spec_bytes(), max_len as int))
    }
}

/// `&s[..s.floor_char_boundary(max_len)]`.
pub fn floor_prefix<'a>(s: &'a str, max_len: usize) -> (r: &'a str)
    ensures
        r.spec_bytes() == floor_prefix_spec(s, max_len as nat),
        r.spec_bytes().len() <= max_len || r@ == s@,
{
    let bytes = s.as_bytes();
    if bytes.len() <= max_len {
        return s;
    }
    let ghost b = s.spec_bytes();
    proof {
        lemma_floor_boundary(b, max_len as int);
    }
    let mut boundary: usize = max_len;
    while boundary > 0 && !s.is_char_boundary(boundary)
        invariant
            b == s.spec_bytes(),
            valid_utf8(b),
            boundary <= max_len < b.len(),
            floor_boundary(b, boundary as int) == floor_boundary(b, max_len as int),
        decreases boundary,
    {
        boundary -= 1;
    }
    proof {
        is_char_boundary_start_end_of_seq(b);
    }
    let (head, _tail) = s.split_at(boundary);
    assert(head.spec_bytes() =~= b.take(boundary as int));
    head
}

/// Truncate a string to a maximum length, breaking at a char boundary.
pub fn truncate(s: &str, max_len: usize) -> (res: String)
    ensures
        res@ == truncate_spec(s@, max_len as nat),
        s.spec_bytes().len() > max_len ==> floor_boundary(s.spec_bytes(), max_len as int)
            <= max_len,
{
    let bytes = s.as_bytes();
    if bytes.len() <= max_len {
        return s.to_owned();
    }
    proof {
        lemma_floor_boundary(s.spec_bytes(), max_len as int);
    }
    let head = floor_prefix(s, max_len);
    proof {
        encode_utf8_decode_utf8(head@);
    }
    let mut out = head.to_owned();
    out.append("...");
    out
}

/// A configured schedule entry.
#[derive(Debug, Clone)]
pub struct ScheduleEntry {
    /// Unique schedule name.
    pub name: String,
    /// Agent profile that runs the prompt.
    pub agent: String,
    /// Cron expression.
    pub cron: String,
    /// Prompt to run.
    pub prompt: String,
    /// Team that runs the prompt instead of a single agent, if any.
    pub team: Option<String>,
    /// Whether the schedule fires at all.
    pub enabled: bool,
    /// Whether the result is stored as a notification.
    pub notify: bool,
    /// Last time the schedule fired, in milliseconds since the Unix epoch.
    pub last_run_at: Option<i64>,
}

/// The first occurrence of the cron expression `expr` strictly after `from`
/// (milliseconds since the Unix epoch, UTC), `None` when the expression does
/// not parse or has no such occurrence.
pub uninterp spec fn cron_next_after(expr: Seq<char>, from: i64) -> Option<i64>;

/// First occurrence of `expr` strictly after `from`, by
/// `croner::Cron::new(expr).parse()` and `Cron::find_next_occurrence(&from,
/// false)` on UTC times; a parse error, a search error or an instant that
/// `chrono` cannot represent gives `None`.
#[verifier::external_body]
fn cron_next_occurrence(expr: &str, from: i64) -> (r: Option<i64>)
    ensures
        r == cron_next_after(expr@, from),
{
    let start = chrono::DateTime::<chrono::Utc>::from_timestamp_millis(from)?;
    let cron = croner::Cron::new(expr).parse().ok()?;
    cron.find_next_occurrence(&start, false).ok().map(|t| t.timestamp_millis())
}

/// Milliseconds looked back for a schedule that never ran.
pub const FIRST_RUN_LOOKBACK_MS: i64 = 61000;

/// Whether a schedule with this cron expression and last run is due at
/// `now`: some occurrence falls after the last run (or after
/// `now - 61 s` for a schedule that never ran) and at or before `now`.
pub open spec fn is_due_spec(cron: Seq<char>, last_run_at: Option<i64>, now: i64) -> bool {
    let from = match last_run_at {
        Some(t) => t,
        None => (now - FIRST_RUN_LOOKBACK_MS) as i64,
    };
    match cron_next_after(cron, from) {
        Some(next) => next <= now,
        None => false,
    }
}

/// Check if a cron expression is due based on last run time and current
/// time (milliseconds since the Unix epoch).
pub fn is_due(cron_expr: &str, last_run_at: Option<i64>, now: i64) -> (b: bool)
    requires
        now >= i64::MIN + FIRST_RUN_LOOKBACK_MS,
    ensures
        b == is_due_spec(cron_expr@, last_run_at, now),
{
    let from = match last_run_at {
        Some(t) => t,
        None => now - FIRST_RUN_LOOKBACK_MS,
    };
    match cron_next_occurrence(cron_expr, from) {
        Some(next) => next <= now,
        None => false,
    }
}

/// Whether the entry fires at `now`.
pub open spec fn fires(e: ScheduleEntry, now: i64) -> bool {
    e.enabled && is_due_spec(e.cron@, e.last_run_at, now)
}

/// Indices of the entries that fire at `now`, in order.
pub open spec fn firing_indices(entries: Seq<ScheduleEntry>, now: i64) -> Seq<usize>
    decreases entries.len(),
{
    if entries.len() == 0 {
        seq![]
    } else if fires(entries.last(), now) {
        firing_indices(entries.drop_last(), now).push((entries.len() - 1) as usize)
    } else {
        firing_indices(entries.drop_last(), now)
    }
}

/// The entries to fire in this tick, by index: the enabled ones that are due.
pub fn due_entries(entries: &[ScheduleEntry], now: i64) -> (r: Vec<usize>)
    requires
        now >= i64::MIN + FIRST_RUN_LOOKBACK_MS,
    ensures
        r@ == firing_indices(entries@, now),
{
    let mut r: Vec<usize> = Vec::new();
    let mut i: usize = 0;
    while i < entries.len()
        invariant
            i <= entries@.len(),
            now >= i64::MIN + FIRST_RUN_LOOKBACK_MS,
            r@ == firing_indices(entries@.take(i as int), now),
        decreases entries@.len() - i,
    {
        assert(entries@.take(i as int + 1).drop_last() =~= entries@.take(i as int));
        if entries[i].enabled && is_due(entries[i].cron.as_str(), entries[i].last_run_at, now) {
            r.push(i);
        }
        i += 1;
    }
    assert(entries@.take(entries@.len() as int) =~= entries@);
    r
}

/// What to record once a fired schedule has run.
#[derive(Debug, Clone, PartialEq, Eq)]
pub struct RunReport {
    /// Whether the run succeeded.
    pub success: bool,
    /// Summary for the audit log: the response cut to 200 bytes, or the
    /// error text.
    pub result_summary: String,
    /// The response to store as a notification, when the entry asks for one.
    pub notification: Option<String>,
}

/// Maximum length of the audited result summary.
pub const RESULT_SUMMARY_LEN: usize = 200;

/// Record that `entry` fired at `now` with `result` (the response or the
/// error text), and say what to audit and notify.
pub fn finish_run(entry: &mut ScheduleEntry, result: Result<String, String>, now: i64) -> (rep: RunReport)
    ensures
        final(entry).last_run_at == Some(now),
        final(entry).name == old(entry).name,
        final(entry).agent == old(entry).agent,
        final(entry).cron == old(entry).cron,
        final(entry).prompt == old(entry).prompt,
        final(entry).team == old(entry).team,
        final(entry).enabled == old(entry).enabled,
        final(entry).notify == old(entry).notify,
        rep.success == result is Ok,
        match result {
            Ok(resp) => rep.result_summary@ == truncate_spec(resp@, RESULT_SUMMARY_LEN as nat)
                && (if old(entry).notify {
                rep.notification matches Some(n) && n@ == resp@
            } else {
                rep.notification is None
            }),
            Err(e) => rep.result_summary@ == e@ && rep.notification is None,
        },
{
    entry.last_run_at = Some(now);
    match result {
        Ok(resp) => {
            let summary = truncate(resp.as_str(), RESULT_SUMMARY_LEN);
            let notification = if entry.notify {
                Some(resp)
            } else {
                None
            };
            RunReport { success: true, result_summary: summary, notification }
        },
        Err(e) => RunReport { success: false, result_summary: e, notification: None },
    }
}

} // verus!

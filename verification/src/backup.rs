//! Backups of the data directory: archive names, what an archive leaves
//! out, and which old archives are pruned.
//!
//! Archives are named `aivyx-backup-YYYYMMDD-HHMMSS.tar.gz` after the UTC
//! time of their creation. Pruning removes the archives named so whose
//! time is older than the retention period.
use vstd::prelude::*;
use vstd::string::*;

use crate::text::{occurs_at, str_eq, string_from_chars, to_chars, occurs_at_exec};

verus! {

/// Backup configuration.
#[derive(Debug, Clone, PartialEq, Eq)]
pub struct BackupConfig {
    /// Whether automatic backups are enabled.
    pub enabled: bool,
    /// Cron expression for the backup schedule.
    pub schedule: String,
    /// Destination directory for backup archives (local path).
    pub destination: String,
    /// Number of days to retain backups before pruning.
    pub retention_days: u32,
}

impl Default for BackupConfig {
    fn default() -> (c: Self)
        ensures
            !c.enabled,
            c.schedule@ == "0 2 * * *"@,
            c.destination@.len() == 0,
            c.retention_days == 30,
    {
        BackupConfig {
            enabled: false,
            schedule: "0 2 * * *".to_owned(),
            destination: String::new(),
            retention_days: 30,
        }
    }
}

/// Filename prefix used for backup archives.
pub const BACKUP_PREFIX: &'static str = "aivyx-backup-";

/// Filename suffix for backup archives.
pub const BACKUP_SUFFIX: &'static str = ".tar.gz";

/// Milliseconds in a day.
pub const MILLIS_PER_DAY: i64 = 86400000;

/// `s` ends with `suf`.
pub open spec fn ends_with(s: Seq<char>, suf: Seq<char>) -> bool {
    occurs_at(s, suf, s.len() - suf.len())
}

/// `s` starts with `pre`.
pub open spec fn starts_with(s: Seq<char>, pre: Seq<char>) -> bool {
    occurs_at(s, pre, 0)
}

/// Whether the characters `s` end with `suf`.
pub fn ends_with_exec(s: &Vec<char>, suf: &str) -> (b: bool)
    ensures
        b == ends_with(s@, suf@),
{
    let p = to_chars(suf);
    if p.len() > s.len() {
        return false;
    }
    occurs_at_exec(s.as_slice(), p.as_slice(), s.len() - p.len())
}

/// Whether a directory entry is left out of an archive: temporary files
/// (`*.tmp`), lock files (`*.lock`), directories named `tmp` and hidden
/// entries.
pub open spec fn is_excluded_spec(name: Seq<char>) -> bool {
    ends_with(name, ".tmp"@) || ends_with(name, ".lock"@) || name == "tmp"@ || (name.len() > 0
        && name[0] == '.')
}

/// Whether the entry called `name` is left out of an archive.
pub fn is_excluded_name(name: &str) -> (b: bool)
    ensures
        b == is_excluded_spec(name@),
{
    let v = to_chars(name);
    ends_with_exec(&v, ".tmp") || ends_with_exec(&v, ".lock") || str_eq(name, "tmp") || (v.len() > 0
        && v[0] == '.')
}

/// The text `YYYYMMDD-HHMMSS` of the UTC time `millis` (milliseconds since
/// the Unix epoch), `None` for a time outside `chrono`'s range.
pub uninterp spec fn compact_utc_text(millis: i64) -> Option<Seq<char>>;

/// Formats a UTC time as `YYYYMMDD-HHMMSS`, by
/// `chrono::DateTime::from_timestamp_millis` and `format("%Y%m%d-%H%M%S")`.
#[verifier::external_body]
fn format_compact_utc(millis: i64) -> (r: Option<String>)
    ensures
        match compact_utc_text(millis) {
            Some(t) => r matches Some(s) && s@ == t,
            None => r is None,
        },
{
    chrono::DateTime::from_timestamp_millis(millis).map(|t| t.format("%Y%m%d-%H%M%S").to_string())
}

/// The archive name for a backup taken at `millis`.
pub open spec fn backup_name_spec(millis: i64) -> Option<Seq<char>> {
    match compact_utc_text(millis) {
        Some(t) => Some(BACKUP_PREFIX@ + t + BACKUP_SUFFIX@),
        None => None,
    }
}

/// The archive name for a backup taken at `millis`
/// (`aivyx-backup-YYYYMMDD-HHMMSS.tar.gz`).
pub fn backup_file_name(millis: i64) -> (r: Option<String>)
    ensures
        match backup_name_spec(millis) {
            Some(n) => r matches Some(s) && s@ == n,
            None => r is None,
        },
{
    match format_compact_utc(millis) {
        Some(t) => {
            let mut name = BACKUP_PREFIX.to_owned();
            name.append(t.as_str());
            name.append(BACKUP_SUFFIX);
            Some(name)
        },
        None => None,
    }
}

/// The UTC time (milliseconds since the Unix epoch) that `YYYYMMDD-HHMMSS`
/// text names, `None` when the text is no such time.
pub uninterp spec fn compact_utc_millis(text: Seq<char>) -> Option<i64>;

/// Parses `YYYYMMDD-HHMMSS` as a UTC time, by
/// `chrono::NaiveDateTime::parse_from_str(text, "%Y%m%d-%H%M%S")`,
/// `NaiveDateTime::and_utc` and `DateTime::timestamp_millis`.
#[verifier::external_body]
fn parse_compact_utc(text: &str) -> (r: Option<i64>)
    ensures
        r == compact_utc_millis(text@),
{
    chrono::NaiveDateTime::parse_from_str(text, "%Y%m%d-%H%M%S").ok().map(|t| t.and_utc().timestamp_millis())
}

/// The time part of an archive name `aivyx-backup-<time>.tar.gz`, `None`
/// for other names.
pub open spec fn archive_time_part(name: Seq<char>) -> Option<Seq<char>> {
    if starts_with(name, BACKUP_PREFIX@) && ends_with(name, BACKUP_SUFFIX@) {
        Some(name.subrange(13, name.len() - 7))
    } else {
        None
    }
}

/// The time part of an archive name.
pub fn archive_time_text(name: &str) -> (r: Option<String>)
    ensures
        match archive_time_part(name@) {
            Some(t) => r matches Some(s) && s@ == t,
            None => r is None,
        },
{
    proof {
        reveal_strlit("aivyx-backup-");
        reveal_strlit(".tar.gz");
    }
    let v = to_chars(name);
    let p = to_chars(BACKUP_PREFIX);
    if !occurs_at_exec(v.as_slice(), p.as_slice(), 0) || !ends_with_exec(&v, BACKUP_SUFFIX) {
        return None;
    }
    proof {
        // The prefix ends with '-' and the suffix starts with '.', so the
        // two cannot overlap.
        if v@.len() < 20 {
            let k = v@.len() - 7;
            assert(v@.subrange(k, k + 7) == ".tar.gz"@);
            assert(v@.subrange(0, 13) == "aivyx-backup-"@);
            assert(v@.subrange(k, k + 7)[0] == v@[k]);
            assert(v@.subrange(0, 13)[k] == v@[k]);
            assert(".tar.gz"@[0] != "aivyx-backup-"@[k]);
        }
    }
    Some(string_from_chars(v.as_slice(), 13, v.len() - 7))
}

/// Law: the time part of the archive named after a time text `t` is `t`
/// itself, so every archive a backup writes is one pruning considers.
pub proof fn lemma_archive_name_roundtrip(t: Seq<char>)
    ensures
        archive_time_part(BACKUP_PREFIX@ + t + BACKUP_SUFFIX@) == Some(t),
{
    reveal_strlit("aivyx-backup-");
    reveal_strlit(".tar.gz");
    let name = BACKUP_PREFIX@ + t + BACKUP_SUFFIX@;
    assert(name.subrange(0, 13) =~= BACKUP_PREFIX@);
    assert(name.subrange(name.len() - 7, name.len() as int) =~= BACKUP_SUFFIX@);
    assert(name.subrange(13, name.len() - 7) =~= t);
}

/// The instant before which archives are pruned: `retention_days` days
/// before `now` (milliseconds).
pub open spec fn prune_cutoff_spec(now: i64, retention_days: u32) -> int {
    now - retention_days * MILLIS_PER_DAY
}

/// The prune cutoff for `retention_days` at `now`.
pub fn prune_cutoff(now: i64, retention_days: u32) -> (c: i64)
    requires
        now >= i64::MIN + 0x1_0000_0000 * MILLIS_PER_DAY,
    ensures
        c == prune_cutoff_spec(now, retention_days),
{
    assert(retention_days * MILLIS_PER_DAY <= 0xffff_ffff * MILLIS_PER_DAY) by (nonlinear_arith)
        requires
            retention_days <= 0xffff_ffff,
    ;
    now - (retention_days as i64) * MILLIS_PER_DAY
}

/// Whether the directory entry `name` is an archive older than `cutoff`.
pub open spec fn is_prunable_spec(name: Seq<char>, cutoff: int) -> bool {
    match archive_time_part(name) {
        Some(t) => match compact_utc_millis(t) {
            Some(ms) => ms < cutoff,
            None => false,
        },
        None => false,
    }
}

/// Whether the entry `name` is an archive to prune: it is named
/// `aivyx-backup-YYYYMMDD-HHMMSS.tar.gz` with a time before `cutoff`.
/// Archives whose time does not parse are kept.
pub fn is_prunable(name: &str, cutoff: i64) -> (b: bool)
    ensures
        b == is_prunable_spec(name@, cutoff as int),
{
    match archive_time_text(name) {
        Some(t) => match parse_compact_utc(t.as_str()) {
            Some(ms) => ms < cutoff,
            None => false,
        },
        None => false,
    }
}

/// Indices of the prunable entries among `names`, in order.
pub open spec fn prunable_indices(names: Seq<String>, cutoff: int) -> Seq<usize>
    decreases names.len(),
{
    if names.len() == 0 {
        seq![]
    } else if is_prunable_spec(names.last()@, cutoff) {
        prunable_indices(names.drop_last(), cutoff).push((names.len() - 1) as usize)
    } else {
        prunable_indices(names.drop_last(), cutoff)
    }
}

/// The entries of a backup directory to remove for `retention_days` at
/// `now`, by index.
pub fn select_prunable(names: &[String], now: i64, retention_days: u32) -> (r: Vec<usize>)
    requires
        now >= i64::MIN + 0x1_0000_0000 * MILLIS_PER_DAY,
    ensures
        r@ == prunable_indices(names@, prune_cutoff_spec(now, retention_days)),
{
    let cutoff = prune_cutoff(now, retention_days);
    let mut r: Vec<usize> = Vec::new();
    let mut i: usize = 0;
    while i < names.len()
        invariant
            i <= names@.len(),
            cutoff == prune_cutoff_spec(now, retention_days),
            r@ == prunable_indices(names@.take(i as int), cutoff as int),
        decreases names@.len() - i,
    {
        assert(names@.take(i as int + 1).drop_last() =~= names@.take(i as int));
        if is_prunable(names[i].as_str(), cutoff) {
            r.push(i);
        }
        i += 1;
    }
    assert(names@.take(names@.len() as int) =~= names@);
    r
}

} // verus!

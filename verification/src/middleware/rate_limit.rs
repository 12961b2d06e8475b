//! Per-endpoint rate limiting: the three tiers, their quotas, and the
//! window a refused client is told to wait.
use vstd::prelude::*;
use vstd::string::*;

verus! {

/// The endpoint tiers that are limited separately.
#[derive(Debug, Clone, Copy, PartialEq, Eq, Structural)]
pub enum RateLimitTier {
    /// LLM-calling endpoints: `/chat*`, `/teams/*/run*`, `/digest`.
    Llm,
    /// Search endpoints: `/memory/search`, `/memory/profile/extract`.
    Search,
    /// Task endpoints: `POST /tasks`, `/tasks/*/resume`.
    Task,
}

/// Name of a tier in the audit log and metrics.
pub open spec fn tier_label(t: RateLimitTier) -> Seq<char> {
    match t {
        RateLimitTier::Llm => "llm"@,
        RateLimitTier::Search => "search"@,
        RateLimitTier::Task => "task"@,
    }
}

impl RateLimitTier {
    /// Name of the tier in the audit log and metrics.
    pub fn label(&self) -> (s: String)
        ensures
            s@ == tier_label(*self),
    {
        match self {
            RateLimitTier::Llm => "llm".to_owned(),
            RateLimitTier::Search => "search".to_owned(),
            RateLimitTier::Task => "task".to_owned(),
        }
    }
}

/// The limit of one tier.
#[derive(Debug, Clone, Copy, PartialEq, Eq, Structural)]
pub struct TierLimit {
    /// Requests allowed per window.
    pub max_requests: u32,
    /// Window length in seconds.
    pub window_secs: u64,
}

/// Rate limits of the three tiers.
#[derive(Debug, Clone, Copy, PartialEq, Eq, Structural)]
pub struct RateLimitConfig {
    /// LLM tier.
    pub llm: TierLimit,
    /// Search tier.
    pub search: TierLimit,
    /// Task tier.
    pub task: TierLimit,
}

/// Window used when no rate limit is configured.
pub const DEFAULT_WINDOW_SECS: u64 = 60;

/// The configured limit of a tier.
pub open spec fn tier_limit(c: RateLimitConfig, t: RateLimitTier) -> TierLimit {
    match t {
        RateLimitTier::Llm => c.llm,
        RateLimitTier::Search => c.search,
        RateLimitTier::Task => c.task,
    }
}

/// The window of a tier, which a refused client is told to wait
/// (`Retry-After`): the configured one, else 60 seconds.
pub fn tier_window(config: Option<RateLimitConfig>, tier: RateLimitTier) -> (w: u64)
    ensures
        w == match config {
            Some(c) => tier_limit(c, tier).window_secs,
            None => DEFAULT_WINDOW_SECS,
        },
{
    match config {
        Some(c) => match tier {
            RateLimitTier::Llm => c.llm.window_secs,
            RateLimitTier::Search => c.search.window_secs,
            RateLimitTier::Task => c.task.window_secs,
        },
        None => DEFAULT_WINDOW_SECS,
    }
}

/// The quota of a limiter: a burst of `max_requests` (at least one) that
/// refills over `window_secs` seconds. A zero window is refused.
pub fn quota_params(limit: TierLimit) -> (q: (u32, u64))
    requires
        limit.window_secs > 0,
    ensures
        q.0 == if limit.max_requests == 0 {
            1
        } else {
            limit.max_requests
        },
        q.1 == limit.window_secs,
{
    let burst = if limit.max_requests == 0 {
        1
    } else {
        limit.max_requests
    };
    (burst, limit.window_secs)
}

} // verus!

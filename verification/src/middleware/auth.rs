//! Bearer-token authentication for the single-user server.
//!
//! A request carries `Authorization: Bearer <token>`; the token is hashed
//! with SHA-256 and compared, in constant time, with the configured hash.
//! Failed attempts are counted per client IP, and an IP with too many
//! recent failures is refused before its credentials are looked at.
use vstd::prelude::*;
use vstd::string::*;

use crate::ids::{sha256, sha256_digest};
use crate::rate_window::{recent, stamps_of, WindowCounter};
use crate::text::{occurs_at, opt_chars, strip_prefix_str};

verus! {

/// Maximum failed auth attempts per IP within the rate limit window.
pub const MAX_AUTH_FAILURES: usize = 10;

/// Rate limit window duration (60 seconds).
pub const RATE_LIMIT_WINDOW_SECS: u64 = 60;

/// Rate limit window duration in milliseconds.
pub const RATE_LIMIT_WINDOW_MS: u64 = 60000;

/// Why a request was refused.
#[derive(Debug, Clone, Copy, PartialEq, Eq, Structural)]
pub enum AuthRejection {
    /// The client IP has too many recent failed attempts.
    TooManyFailures,
    /// No `Authorization` header.
    MissingHeader,
    /// An `Authorization` header that is not `Bearer <token>`.
    MalformedHeader,
    /// A bearer token whose hash differs from the configured one.
    InvalidToken,
}

/// HTTP status of a refusal.
pub open spec fn rejection_status(r: AuthRejection) -> u16 {
    match r {
        AuthRejection::TooManyFailures => 429,
        _ => 401,
    }
}

/// Error text of a refusal.
pub open spec fn rejection_reason(r: AuthRejection) -> Seq<char> {
    match r {
        AuthRejection::TooManyFailures => "too many failed auth attempts"@,
        AuthRejection::MissingHeader => "missing authorization header"@,
        AuthRejection::MalformedHeader => "malformed authorization header"@,
        AuthRejection::InvalidToken => "invalid bearer token"@,
    }
}

impl AuthRejection {
    /// HTTP status of the refusal.
    pub fn status(&self) -> (s: u16)
        ensures
            s == rejection_status(*self),
    {
        match self {
            AuthRejection::TooManyFailures => 429,
            _ => 401,
        }
    }

    /// Error text of the refusal.
    pub fn reason(&self) -> (s: String)
        ensures
            s@ == rejection_reason(*self),
    {
        match self {
            AuthRejection::TooManyFailures => "too many failed auth attempts".to_owned(),
            AuthRejection::MissingHeader => "missing authorization header".to_owned(),
            AuthRejection::MalformedHeader => "malformed authorization header".to_owned(),
            AuthRejection::InvalidToken => "invalid bearer token".to_owned(),
        }
    }
}

/// The token of an `Authorization` header value, or why there is none.
pub open spec fn bearer_token_spec(header: Option<Seq<char>>) -> Result<Seq<char>, AuthRejection> {
    match header {
        None => Err(AuthRejection::MissingHeader),
        Some(h) => if occurs_at(h, "Bearer "@, 0) {
            Ok(h.skip(7))
        } else {
            Err(AuthRejection::MalformedHeader)
        },
    }
}

/// Extracts the token of `Authorization: Bearer <token>`.
pub fn bearer_token(header: Option<&str>) -> (r: Result<String, AuthRejection>)
    ensures
        match bearer_token_spec(opt_chars(header)) {
            Ok(t) => r matches Ok(s) && s@ == t,
            Err(e) => r == Err::<String, AuthRejection>(e),
        },
{
    match header {
        None => Err(AuthRejection::MissingHeader),
        Some(h) => {
            proof {
                reveal_strlit("Bearer ");
            }
            match strip_prefix_str(h, "Bearer ") {
                Some(t) => Ok(t),
                None => Err(AuthRejection::MalformedHeader),
            }
        },
    }
}

/// Equality of two byte slices, by `subtle::ConstantTimeEq::ct_eq`
/// followed by `Choice::unwrap_u8`: slices of different lengths are
/// unequal, others are compared byte by byte in constant time.
#[verifier::external_body]
fn ct_eq_bytes(a: &[u8], b: &[u8]) -> (r: bool)
    ensures
        r == (a@ == b@),
{
    subtle::ConstantTimeEq::ct_eq(a, b).unwrap_u8() == 1
}

/// Whether the SHA-256 digest of `token` is `expected_hash`, compared in
/// constant time.
pub fn token_matches(token: &str, expected_hash: &[u8]) -> (b: bool)
    ensures
        b == (sha256_digest(utf8_of(token@)) == expected_hash@),
{
    let digest = sha256(token.as_bytes());
    ct_eq_bytes(&digest, expected_hash)
}

/// UTF-8 bytes of a character sequence.
pub open spec fn utf8_of(s: Seq<char>) -> Seq<u8> {
    vstd::utf8::encode_utf8(s)
}

/// Counts of failed attempts per client IP.
pub struct AuthFailureLimiter {
    counter: WindowCounter,
}

impl View for AuthFailureLimiter {
    type V = Map<Seq<char>, Seq<i64>>;

    closed spec fn view(&self) -> Map<Seq<char>, Seq<i64>> {
        self.counter@
    }
}

/// The failures of `ip` still inside the window at `now`.
pub open spec fn live_failures(m: Map<Seq<char>, Seq<i64>>, ip: Seq<char>, now: i64) -> Seq<i64> {
    recent(stamps_of(m, ip), now, RATE_LIMIT_WINDOW_MS as int)
}

/// Failure counts after the expired failures of `ip` are dropped.
pub open spec fn pruned(m: Map<Seq<char>, Seq<i64>>, ip: Seq<char>, now: i64) -> Map<Seq<char>, Seq<i64>> {
    if m.dom().contains(ip) {
        m.insert(ip, live_failures(m, ip, now))
    } else {
        m
    }
}

/// Failure counts after a failure of `ip` (when known) at `now`.
pub open spec fn with_failure(m: Map<Seq<char>, Seq<i64>>, ip: Option<Seq<char>>, now: i64) -> Map<
    Seq<char>,
    Seq<i64>,
> {
    match ip {
        Some(k) => m.insert(k, stamps_of(m, k).push(now)),
        None => m,
    }
}

/// First stage of authentication at `now`: refuse an IP with too many
/// recent failures, then take the bearer token out of the header. Gives the
/// token or the refusal, and the failure counts afterwards.
pub open spec fn admit_step(
    m: Map<Seq<char>, Seq<i64>>,
    ip: Option<Seq<char>>,
    header: Option<Seq<char>>,
    now: i64,
) -> (Result<Seq<char>, AuthRejection>, Map<Seq<char>, Seq<i64>>) {
    let m1 = match ip {
        Some(k) => pruned(m, k, now),
        None => m,
    };
    if ip is Some && live_failures(m, ip->0, now).len() >= MAX_AUTH_FAILURES {
        (Err(AuthRejection::TooManyFailures), m1)
    } else {
        match bearer_token_spec(header) {
            Err(e) => (Err(e), with_failure(m1, ip, now)),
            Ok(t) => (Ok(t), m1),
        }
    }
}

/// Check of a bearer token against the configured hash, counting a failure.
pub open spec fn legacy_step(
    m: Map<Seq<char>, Seq<i64>>,
    ip: Option<Seq<char>>,
    token: Seq<char>,
    expected: Seq<u8>,
    now: i64,
) -> (Result<(), AuthRejection>, Map<Seq<char>, Seq<i64>>) {
    if sha256_digest(utf8_of(token)) == expected {
        (Ok(()), m)
    } else {
        (Err(AuthRejection::InvalidToken), with_failure(m, ip, now))
    }
}

/// Outcome of authenticating one request at `now`: the verdict, and the
/// failure counts afterwards.
pub open spec fn auth_step(
    m: Map<Seq<char>, Seq<i64>>,
    ip: Option<Seq<char>>,
    header: Option<Seq<char>>,
    expected: Seq<u8>,
    now: i64,
) -> (Result<(), AuthRejection>, Map<Seq<char>, Seq<i64>>) {
    match admit_step(m, ip, header, now) {
        (Err(e), m1) => (Err(e), m1),
        (Ok(t), m1) => legacy_step(m1, ip, t, expected, now),
    }
}

impl AuthFailureLimiter {
    /// Well-formedness.
    pub closed spec fn wf(&self) -> bool {
        self.counter.wf() && self.counter.window() == RATE_LIMIT_WINDOW_MS
    }

    /// No failures recorded.
    pub fn new() -> (l: Self)
        ensures
            l.wf(),
            l@ == Map::<Seq<char>, Seq<i64>>::empty(),
    {
        AuthFailureLimiter { counter: WindowCounter::new(RATE_LIMIT_WINDOW_MS) }
    }

    /// Check if an IP is rate-limited due to too many failed auth attempts,
    /// dropping its failures that left the window.
    pub fn is_rate_limited(&mut self, ip: &str, now: i64) -> (limited: bool)
        requires
            old(self).wf(),
        ensures
            final(self).wf(),
            limited == (live_failures(old(self)@, ip@, now).len() >= MAX_AUTH_FAILURES),
            final(self)@ == pruned(old(self)@, ip@, now),
    {
        self.counter.prune_and_check(ip, now, MAX_AUTH_FAILURES)
    }

    /// Record a failed authentication attempt of `ip` at `now`.
    pub fn record_auth_failure(&mut self, ip: &str, now: i64)
        requires
            old(self).wf(),
        ensures
            final(self).wf(),
            final(self)@ == old(self)@.insert(ip@, stamps_of(old(self)@, ip@).push(now)),
    {
        self.counter.record(ip, now)
    }

    /// Refuse an IP with too many recent failures, then take the token out
    /// of the `Authorization` header, counting a missing or malformed header
    /// as a failure.
    pub fn admit_header(&mut self, ip: Option<&str>, header: Option<&str>, now: i64) -> (r: Result<
        String,
        AuthRejection,
    >)
        requires
            old(self).wf(),
        ensures
            final(self).wf(),
            final(self)@ == admit_step(old(self)@, opt_chars(ip), opt_chars(header), now).1,
            match admit_step(old(self)@, opt_chars(ip), opt_chars(header), now).0 {
                Ok(t) => r matches Ok(s) && s@ == t,
                Err(e) => r == Err::<String, AuthRejection>(e),
            },
    {
        if let Some(k) = ip {
            if self.is_rate_limited(k, now) {
                return Err(AuthRejection::TooManyFailures);
            }
        }
        let r = bearer_token(header);
        if r.is_err() {
            if let Some(k) = ip {
                self.record_auth_failure(k, now);
            }
        }
        r
    }

    /// Compare the token's hash with `expected_hash`, counting a mismatch as
    /// a failure of `ip`.
    pub fn check_legacy_token(&mut self, ip: Option<&str>, token: &str, expected_hash: &[u8], now: i64) -> (r:
        Result<(), AuthRejection>)
        requires
            old(self).wf(),
        ensures
            final(self).wf(),
            (r, final(self)@) == legacy_step(old(self)@, opt_chars(ip), token@, expected_hash@, now),
    {
        if token_matches(token, expected_hash) {
            Ok(())
        } else {
            if let Some(k) = ip {
                self.record_auth_failure(k, now);
            }
            Err(AuthRejection::InvalidToken)
        }
    }

    /// Authenticate a request at `now` (milliseconds): refuse an IP with too
    /// many recent failures, then check the bearer token against
    /// `expected_hash`, counting each failure of a known IP.
    pub fn authenticate(
        &mut self,
        ip: Option<&str>,
        header: Option<&str>,
        expected_hash: &[u8],
        now: i64,
    ) -> (r: Result<(), AuthRejection>)
        requires
            old(self).wf(),
        ensures
            final(self).wf(),
            (r, final(self)@) == auth_step(old(self)@, opt_chars(ip), opt_chars(header), expected_hash@, now),
    {
        match self.admit_header(ip, header, now) {
            Err(e) => Err(e),
            Ok(t) => self.check_legacy_token(ip, t.as_str(), expected_hash, now),
        }
    }
}

/// Law: an IP with `MAX_AUTH_FAILURES` failures inside the window is
/// refused, whatever credentials it presents, and the refusal is not
/// counted as a further failure.
pub proof fn lemma_limited_ip_refused(
    m: Map<Seq<char>, Seq<i64>>,
    ip: Seq<char>,
    header: Option<Seq<char>>,
    expected: Seq<u8>,
    now: i64,
)
    requires
        live_failures(m, ip, now).len() >= MAX_AUTH_FAILURES,
    ensures
        auth_step(m, Some(ip), header, expected, now).0 == Err::<(), AuthRejection>(
            AuthRejection::TooManyFailures,
        ),
        auth_step(m, Some(ip), header, expected, now).1 == pruned(m, ip, now),
{
}

/// Law: a request with the right token from an IP under the limit is let
/// through, and no failure is counted for it.
pub proof fn lemma_valid_token_admitted(
    m: Map<Seq<char>, Seq<i64>>,
    ip: Option<Seq<char>>,
    token: Seq<char>,
    expected: Seq<u8>,
    now: i64,
)
    requires
        sha256_digest(utf8_of(token)) == expected,
        ip matches Some(k) ==> live_failures(m, k, now).len() < MAX_AUTH_FAILURES,
    ensures
        auth_step(m, ip, Some("Bearer "@ + token), expected, now).0 == Ok::<(), AuthRejection>(()),
        auth_step(m, ip, Some("Bearer "@ + token), expected, now).1 == match ip {
            Some(k) => pruned(m, k, now),
            None => m,
        },
{
    let h = "Bearer "@ + token;
    reveal_strlit("Bearer ");
    assert(h.subrange(0, 7) =~= "Bearer "@);
    assert(h.skip(7) =~= token);
}

} // verus!

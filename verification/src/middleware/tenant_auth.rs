//! Multi-tenant authentication.
//!
//! In multi-tenant mode a bearer token is first looked up as a tenant API
//! key; a key of an active tenant yields a tenant-scoped context, one of a
//! suspended, deleted or unknown tenant is refused. A token that is no API
//! key falls back to the legacy single-user token, which yields an
//! administrator context. The `X-Aivyx-Tags` header supplies cost
//! allocation tags in the form `key1=value1,key2=value2`.
use vstd::prelude::*;
use vstd::string::*;

use crate::middleware::auth::{
    legacy_step, rejection_reason, rejection_status, AuthFailureLimiter, AuthRejection,
};
use crate::tenant::{AivyxRole, AuthContext, TenantStatus};
use crate::text::{
    find_char, find_char_from, opt_chars, slice_to_vec, split_chars, split_on, str_eq, to_chars,
    trim_bounds, trim_spec, string_from_chars,
};

verus! {

broadcast use vstd::seq::group_seq_axioms, vstd::map::group_map_axioms;

/// The tags of a sequence of key/value pairs, a later pair overriding an
/// earlier one with the same key.
pub open spec fn tag_map(s: Seq<(String, String)>) -> Map<Seq<char>, Seq<char>>
    decreases s.len(),
{
    if s.len() == 0 {
        Map::empty()
    } else {
        tag_map(s.drop_last()).insert(s.last().0@, s.last().1@)
    }
}

/// Whether some pair of `s` has the key `k`.
pub open spec fn has_key(s: Seq<(String, String)>, k: Seq<char>) -> bool {
    exists|i: int| 0 <= i < s.len() && #[trigger] s[i].0@ == k
}

/// No key occurs twice in `s`.
pub open spec fn keys_unique(s: Seq<(String, String)>) -> bool {
    forall|i: int, j: int| 0 <= i < j < s.len() ==> #[trigger] s[i].0@ != #[trigger] s[j].0@
}

/// The pairs of `s` whose key is not `k`, in order.
pub open spec fn without_key(s: Seq<(String, String)>, k: Seq<char>) -> Seq<(String, String)>
    decreases s.len(),
{
    if s.len() == 0 {
        s
    } else if s.last().0@ == k {
        without_key(s.drop_last(), k)
    } else {
        without_key(s.drop_last(), k).push(s.last())
    }
}

proof fn lemma_without_key(s: Seq<(String, String)>, k: Seq<char>)
    ensures
        tag_map(without_key(s, k)) == tag_map(s).remove(k),
        forall|i: int|
            0 <= i < without_key(s, k).len() ==> (#[trigger] without_key(s, k)[i]).0@ != k
                && has_key(s, without_key(s, k)[i].0@),
        keys_unique(s) ==> keys_unique(without_key(s, k)),
    decreases s.len(),
{
    if s.len() == 0 {
        assert(tag_map(s).remove(k) =~= tag_map(s));
    } else {
        let d = s.drop_last();
        lemma_without_key(d, k);
        let w = without_key(d, k);
        if s.last().0@ == k {
            assert(tag_map(s).remove(k) =~= tag_map(d).remove(k));
            assert forall|i: int| 0 <= i < w.len() implies has_key(s, (#[trigger] w[i]).0@) by {
                let j = choose|j: int| 0 <= j < d.len() && #[trigger] d[j].0@ == w[i].0@;
                assert(s[j] == d[j]);
            }
        } else {
            assert(w.push(s.last()).drop_last() =~= w);
            assert(tag_map(s).remove(k) =~= tag_map(d).remove(k).insert(s.last().0@, s.last().1@));
            assert forall|i: int| 0 <= i < w.push(s.last()).len() implies has_key(
                s,
                (#[trigger] w.push(s.last())[i]).0@,
            ) by {
                if i < w.len() {
                    let j = choose|j: int| 0 <= j < d.len() && #[trigger] d[j].0@ == w[i].0@;
                    assert(s[j] == d[j]);
                } else {
                    assert(s[s.len() - 1].0@ == s.last().0@);
                }
            }
            if keys_unique(s) {
                assert forall|i: int, j: int|
                    0 <= i < j < w.push(s.last()).len() implies #[trigger] w.push(s.last())[i].0@
                    != #[trigger] w.push(s.last())[j].0@ by {
                    if j == w.len() {
                        let jj = choose|jj: int| 0 <= jj < d.len() && #[trigger] d[jj].0@ == w[i].0@;
                        assert(s[jj] == d[jj]);
                        assert(s[jj].0@ != s[s.len() - 1].0@);
                    } else {
                        assert(w.push(s.last())[i] == w[i]);
                        assert(w.push(s.last())[j] == w[j]);
                    }
                }
            }
        }
    }
}

/// Sets the tag `k` to `v`, keeping one pair per key.
pub fn upsert_tag(tags: &mut Vec<(String, String)>, k: String, v: String)
    requires
        keys_unique(old(tags)@),
    ensures
        keys_unique(final(tags)@),
        tag_map(final(tags)@) == tag_map(old(tags)@).insert(k@, v@),
{
    let ghost k_chars = k@;
    let mut kept: Vec<(String, String)> = Vec::new();
    let mut i: usize = 0;
    while i < tags.len()
        invariant
            i <= tags@.len(),
            kept@ == without_key(tags@.take(i as int), k_chars),
            k@ == k_chars,
        decreases tags@.len() - i,
    {
        assert(tags@.take(i as int + 1).drop_last() =~= tags@.take(i as int));
        if !str_eq(tags[i].0.as_str(), k.as_str()) {
            let pair = (tags[i].0.clone(), tags[i].1.clone());
            kept.push(pair);
        }
        i += 1;
    }
    proof {
        assert(tags@.take(tags@.len() as int) =~= tags@);
        lemma_without_key(tags@, k_chars);
    }
    let ghost w = kept@;
    kept.push((k, v));
    proof {
        assert(kept@.drop_last() =~= w);
        assert forall|i: int, j: int| 0 <= i < j < kept@.len() implies #[trigger] kept@[i].0@
            != #[trigger] kept@[j].0@ by {
            if j == w.len() {
                assert(kept@[i] == w[i]);
            } else {
                assert(kept@[i] == w[i]);
                assert(kept@[j] == w[j]);
            }
        }
    }
    *tags = kept;
}

/// The tags after one comma-separated piece of the header: a piece with an
/// `=` sets the trimmed key to the trimmed value, others are ignored.
pub open spec fn apply_tag_piece(m: Map<Seq<char>, Seq<char>>, piece: Seq<char>) -> Map<
    Seq<char>,
    Seq<char>,
> {
    let p = trim_spec(piece);
    match find_char_from(p, '=', 0) {
        Some(e) => m.insert(trim_spec(p.take(e)), trim_spec(p.skip(e + 1))),
        None => m,
    }
}

/// The tags of the pieces, applied in order.
pub open spec fn tags_of_pieces(pieces: Seq<Seq<char>>) -> Map<Seq<char>, Seq<char>>
    decreases pieces.len(),
{
    if pieces.len() == 0 {
        Map::empty()
    } else {
        apply_tag_piece(tags_of_pieces(pieces.drop_last()), pieces.last())
    }
}

/// The tags that an `X-Aivyx-Tags` header value sets.
pub open spec fn tags_spec(header: Seq<char>) -> Map<Seq<char>, Seq<char>> {
    tags_of_pieces(split_on(header, ','))
}

/// Trimmed copy of `v[from..to]`.
fn trimmed_range(v: &Vec<char>, from: usize, to: usize) -> (s: String)
    requires
        from <= to <= v@.len(),
    ensures
        s@ == trim_spec(v@.subrange(from as int, to as int)),
{
    let part = slice_to_vec(v.as_slice(), from, to);
    let (lo, hi) = trim_bounds(part.as_slice(), 0);
    assert(part@.skip(0) =~= part@);
    string_from_chars(part.as_slice(), lo, hi)
}

/// Parse an `X-Aivyx-Tags` header value (`key1=value1,key2=value2`) into
/// tags, one pair per key; a later pair wins.
pub fn parse_tags(header: &str) -> (tags: Vec<(String, String)>)
    ensures
        keys_unique(tags@),
        tag_map(tags@) == tags_spec(header@),
{
    let chars = to_chars(header);
    let pieces = split_chars(chars.as_slice(), ',');
    let ghost ps = split_on(header@, ',');
    let mut tags: Vec<(String, String)> = Vec::new();
    let mut i: usize = 0;
    while i < pieces.len()
        invariant
            i <= pieces@.len(),
            pieces@.map_values(|p: Vec<char>| p@) == ps,
            keys_unique(tags@),
            tag_map(tags@) == tags_of_pieces(ps.take(i as int)),
        decreases pieces@.len() - i,
    {
        assert(ps.take(i as int + 1).drop_last() =~= ps.take(i as int));
        assert(ps[i as int] == pieces@[i as int]@);
        let piece = &pieces[i];
        let (lo, hi) = trim_bounds(piece.as_slice(), 0);
        assert(piece@.skip(0) =~= piece@);
        let p = slice_to_vec(piece.as_slice(), lo, hi);
        assert(p@ == trim_spec(ps[i as int]));
        match find_char(p.as_slice(), '=', 0) {
            Some(e) => {
                let key = trimmed_range(&p, 0, e);
                let value = trimmed_range(&p, e + 1, p.len());
                assert(p@.subrange(0, e as int) =~= p@.take(e as int));
                assert(p@.subrange(e as int + 1, p@.len() as int) =~= p@.skip(e as int + 1));
                upsert_tag(&mut tags, key, value);
            },
            None => {},
        }
        i += 1;
    }
    assert(ps.take(pieces@.len() as int) =~= ps);
    tags
}

/// What the API-key store answered for a token.
#[derive(Debug, Clone)]
pub enum KeyLookup {
    /// The token is the API key `key_id` of `tenant_id`, with `role`.
    Found { tenant_id: String, key_id: String, role: AivyxRole },
    /// No API key has this token (or there is no API-key store).
    NotFound,
    /// The store could not be read.
    Failed,
}

/// What the tenant store answered for the key's tenant.
#[derive(Debug, Clone)]
pub enum TenantLookup {
    /// The tenant exists, with its display name and status.
    Found { name: String, status: TenantStatus },
    /// No such tenant.
    NotFound,
    /// The store could not be read.
    Failed,
}

/// Why a multi-tenant request was refused.
#[derive(Debug, Clone, PartialEq, Eq)]
pub enum TenantAuthError {
    /// Refused by the bearer-token checks.
    Auth(AuthRejection),
    /// The key's tenant is suspended, for this reason.
    Suspended(String),
    /// The key's tenant has been deleted.
    Deleted,
    /// The key's tenant does not exist.
    TenantNotFound,
    /// The tenant store failed.
    Internal,
}

/// HTTP status of a refusal.
pub open spec fn tenant_error_status(e: TenantAuthError) -> u16 {
    match e {
        TenantAuthError::Auth(r) => rejection_status(r),
        TenantAuthError::Internal => 500,
        _ => 403,
    }
}

/// Error text of a refusal.
pub open spec fn tenant_error_message(e: TenantAuthError) -> Seq<char> {
    match e {
        TenantAuthError::Auth(r) => rejection_reason(r),
        TenantAuthError::Suspended(reason) => "tenant suspended: "@ + reason@,
        TenantAuthError::Deleted => "tenant has been deleted"@,
        TenantAuthError::TenantNotFound => "tenant not found for API key"@,
        TenantAuthError::Internal => "internal server error"@,
    }
}

impl TenantAuthError {
    /// HTTP status of the refusal.
    pub fn status(&self) -> (s: u16)
        ensures
            s == tenant_error_status(*self),
    {
        match self {
            TenantAuthError::Auth(r) => r.status(),
            TenantAuthError::Internal => 500,
            _ => 403,
        }
    }

    /// Error text of the refusal.
    pub fn message(&self) -> (s: String)
        ensures
            s@ == tenant_error_message(*self),
    {
        match self {
            TenantAuthError::Auth(r) => r.reason(),
            TenantAuthError::Suspended(reason) => {
                let mut m = "tenant suspended: ".to_owned();
                m.append(reason.as_str());
                m
            },
            TenantAuthError::Deleted => "tenant has been deleted".to_owned(),
            TenantAuthError::TenantNotFound => "tenant not found for API key".to_owned(),
            TenantAuthError::Internal => "internal server error".to_owned(),
        }
    }
}

/// The verdict that an API-key lookup gives, `None` where the request falls
/// back to the legacy bearer token: no key, a failed key store, or no
/// tenant store to check the key's tenant against.
pub open spec fn api_key_verdict(key: KeyLookup, tenant: Option<TenantLookup>) -> Option<
    Result<(Seq<char>, Seq<char>, Seq<char>, AivyxRole), TenantAuthError>,
> {
    match (key, tenant) {
        (KeyLookup::Found { tenant_id, key_id, role }, Some(t)) => Some(
            match t {
                TenantLookup::Found { name, status } => match status {
                    TenantStatus::Active => Ok((tenant_id@, name@, key_id@, role)),
                    TenantStatus::Suspended { reason } => Err(TenantAuthError::Suspended(reason)),
                    TenantStatus::Deleted => Err(TenantAuthError::Deleted),
                },
                TenantLookup::NotFound => Err(TenantAuthError::TenantNotFound),
                TenantLookup::Failed => Err(TenantAuthError::Internal),
            },
        ),
        _ => None,
    }
}

/// The context of a tenant's API key, with the given tags.
pub open spec fn tenant_context(
    c: AuthContext,
    who: (Seq<char>, Seq<char>, Seq<char>, AivyxRole),
    tags: Seq<(String, String)>,
) -> bool {
    &&& c.tenant_id matches Some(t) && t@ == who.0
    &&& c.tenant_name matches Some(n) && n@ == who.1
    &&& c.key_id matches Some(k) && k@ == who.2
    &&& c.role == who.3
    &&& c.tags@ == tags
}

/// The context of the legacy bearer token, with the given tags.
pub open spec fn single_user_context(c: AuthContext, tags: Seq<(String, String)>) -> bool {
    &&& c.tenant_id is None
    &&& c.tenant_name is None
    &&& c.key_id is None
    &&& c.role == AivyxRole::Admin
    &&& c.tags@ == tags
}

/// Decide from the key and tenant lookups; `None` falls back to the legacy
/// bearer token.
pub fn resolve_api_key(key: KeyLookup, tenant: Option<TenantLookup>, tags: Vec<(String, String)>) -> (r:
    Option<Result<AuthContext, TenantAuthError>>)
    ensures
        match api_key_verdict(key, tenant) {
            None => r is None,
            Some(Ok(who)) => r matches Some(Ok(c)) && tenant_context(c, who, tags@),
            Some(Err(e)) => r == Some(Err::<AuthContext, TenantAuthError>(e)),
        },
{
    match key {
        KeyLookup::Found { tenant_id, key_id, role } => match tenant {
            None => None,
            Some(TenantLookup::Found { name, status }) => match status {
                TenantStatus::Active => {
                    let mut c = AuthContext::tenant_user(tenant_id, name, key_id, role);
                    c.tags = tags;
                    Some(Ok(c))
                },
                TenantStatus::Suspended { reason } => Some(Err(TenantAuthError::Suspended(reason))),
                TenantStatus::Deleted => Some(Err(TenantAuthError::Deleted)),
            },
            Some(TenantLookup::NotFound) => Some(Err(TenantAuthError::TenantNotFound)),
            Some(TenantLookup::Failed) => Some(Err(TenantAuthError::Internal)),
        },
        _ => None,
    }
}

impl AuthFailureLimiter {
    /// Second stage of multi-tenant authentication, once the token has been
    /// taken out of the header (`admit_header`) and looked up: an API key of
    /// an active tenant gives its tenant-scoped context; a refused tenant
    /// its error; otherwise the token is checked as the legacy bearer token,
    /// which gives the single-user context or counts a failure of `ip`.
    pub fn finish_tenant_auth(
        &mut self,
        ip: Option<&str>,
        token: &str,
        expected_hash: &[u8],
        key: KeyLookup,
        tenant: Option<TenantLookup>,
        tags: Vec<(String, String)>,
        now: i64,
    ) -> (r: Result<AuthContext, TenantAuthError>)
        requires
            old(self).wf(),
        ensures
            final(self).wf(),
            match api_key_verdict(key, tenant) {
                Some(Ok(who)) => r matches Ok(c) && tenant_context(c, who, tags@) && final(self)@
                    == old(self)@,
                Some(Err(e)) => r == Err::<AuthContext, TenantAuthError>(e) && final(self)@
                    == old(self)@,
                None => {
                    let (v, m) = legacy_step(old(self)@, opt_chars(ip), token@, expected_hash@, now);
                    &&& final(self)@ == m
                    &&& v is Ok ==> (r matches Ok(c) && single_user_context(c, tags@))
                    &&& v matches Err(e) ==> r == Err::<AuthContext, TenantAuthError>(
                        TenantAuthError::Auth(e),
                    )
                },
            },
    {
        let falls_back = match (&key, &tenant) {
            (KeyLookup::Found { .. }, Some(_)) => false,
            _ => true,
        };
        if falls_back {
            match self.check_legacy_token(ip, token, expected_hash, now) {
                Ok(()) => {
                    let mut c = AuthContext::single_user();
                    c.tags = tags;
                    Ok(c)
                },
                Err(e) => Err(TenantAuthError::Auth(e)),
            }
        } else {
            resolve_api_key(key, tenant, tags).unwrap()
        }
    }
}

} // verus!

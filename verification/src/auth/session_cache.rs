//! In-memory session cache for SSO sessions.
//!
//! Stores authenticated sessions keyed by session ID, with expiry tracking
//! and cleanup of expired entries.
use vstd::prelude::*;
use vstd::string::*;

use crate::clock::{clock_reading, now_unix_millis};
use crate::tenant::AivyxRole;

verus! {

broadcast use vstd::seq::group_seq_axioms, vstd::map::group_map_axioms;

/// A single authenticated session record.
#[derive(Debug)]
pub struct SessionRecord {
    /// Unique session identifier.
    pub session_id: String,
    /// The authenticated user's identity (OIDC `sub` claim).
    pub user_id: String,
    /// The RBAC role assigned to this session.
    pub role: AivyxRole,
    /// Optional tenant scope for multi-tenant sessions.
    pub tenant_id: Option<String>,
    /// When this session expires (milliseconds since the Unix epoch).
    pub expires_at: i64,
}

fn copy_opt_string(o: &Option<String>) -> (r: Option<String>)
    ensures
        r == *o,
{
    match o {
        Some(s) => Some(s.clone()),
        None => None,
    }
}

impl SessionRecord {
    /// A field-by-field copy of the record.
    pub fn duplicate(&self) -> (r: Self)
        ensures
            r == *self,
    {
        SessionRecord {
            session_id: self.session_id.clone(),
            user_id: self.user_id.clone(),
            role: self.role,
            tenant_id: copy_opt_string(&self.tenant_id),
            expires_at: self.expires_at,
        }
    }

    /// The record is still valid at time `now`.
    pub open spec fn live_at(self, now: i64) -> bool {
        self.expires_at > now
    }
}

/// The record stored under `id` if it is still live at `now`.
pub open spec fn lookup_at(m: Map<Seq<char>, SessionRecord>, id: Seq<char>, now: i64) -> Option<SessionRecord> {
    if m.dom().contains(id) && m[id].live_at(now) {
        Some(m[id])
    } else {
        None
    }
}

/// The entries of `m` still live at `now`.
pub open spec fn live_entries(m: Map<Seq<char>, SessionRecord>, now: i64) -> Map<Seq<char>, SessionRecord> {
    Map::new(|k: Seq<char>| m.dom().contains(k) && m[k].live_at(now), |k: Seq<char>| m[k])
}

/// Law: a created session is found under its ID as long as it has not
/// expired, and creating it leaves every other session as it was.
pub proof fn lemma_create_then_lookup(m: Map<Seq<char>, SessionRecord>, rec: SessionRecord, id: Seq<char>, now: i64)
    ensures
        id == rec.session_id@ ==> lookup_at(m.insert(rec.session_id@, rec), id, now) == (if rec.live_at(now) {
            Some(rec)
        } else {
            None::<SessionRecord>
        }),
        id != rec.session_id@ ==> lookup_at(m.insert(rec.session_id@, rec), id, now) == lookup_at(m, id, now),
{
}

/// Law: a destroyed session is no longer found, and destroying it leaves
/// every other session as it was.
pub proof fn lemma_destroy_then_lookup(m: Map<Seq<char>, SessionRecord>, gone: Seq<char>, id: Seq<char>, now: i64)
    ensures
        lookup_at(m.remove(gone), gone, now) is None,
        id != gone ==> lookup_at(m.remove(gone), id, now) == lookup_at(m, id, now),
{
}

/// Law: cleanup at `now` changes no lookup made at `now` or later, and
/// keeps no session that has expired by `now`.
pub proof fn lemma_cleanup_preserves_lookups(m: Map<Seq<char>, SessionRecord>, now: i64, later: i64, id: Seq<char>)
    requires
        now <= later,
    ensures
        lookup_at(live_entries(m, now), id, later) == lookup_at(m, id, later),
        forall|k: Seq<char>| #[trigger] live_entries(m, now).dom().contains(k) ==> live_entries(m, now)[k].live_at(now),
{
}

/// In-memory cache of authenticated SSO sessions.
pub struct SessionCache {
    sessions: Vec<SessionRecord>,
}

/// Position of the record with id `k` in `s`.
pub open spec fn has_id(s: Seq<SessionRecord>, k: Seq<char>) -> bool {
    exists|i: int| 0 <= i < s.len() && #[trigger] s[i].session_id@ == k
}

/// The records of `s`, keyed by their session IDs.
pub open spec fn keyed(s: Seq<SessionRecord>) -> Map<Seq<char>, SessionRecord> {
    Map::new(
        |k: Seq<char>| has_id(s, k),
        |k: Seq<char>| s[choose|i: int| 0 <= i < s.len() && #[trigger] s[i].session_id@ == k],
    )
}

/// No two records share a session ID.
pub open spec fn ids_unique(s: Seq<SessionRecord>) -> bool {
    forall|i: int, j: int|
        0 <= i < s.len() && 0 <= j < s.len() && i != j ==> #[trigger] s[i].session_id@
            != #[trigger] s[j].session_id@
}

proof fn lemma_keyed_at(s: Seq<SessionRecord>, i: int)
    requires
        ids_unique(s),
        0 <= i < s.len(),
    ensures
        keyed(s).dom().contains(s[i].session_id@),
        keyed(s)[s[i].session_id@] == s[i],
{
    let k = s[i].session_id@;
    assert(has_id(s, k));
    let j = choose|j: int| 0 <= j < s.len() && #[trigger] s[j].session_id@ == k;
    assert(j == i);
}

impl View for SessionCache {
    type V = Map<Seq<char>, SessionRecord>;

    closed spec fn view(&self) -> Map<Seq<char>, SessionRecord> {
        keyed(self.sessions@)
    }
}

impl SessionCache {
    /// Well-formedness: one record per session ID, each stored under its own ID.
    pub closed spec fn wf(&self) -> bool {
        ids_unique(self.sessions@)
    }

    /// Every record in the cache is stored under its own session ID.
    pub proof fn lemma_keys_match(&self)
        requires
            self.wf(),
        ensures
            forall|k: Seq<char>| #[trigger] self@.dom().contains(k) ==> self@[k].session_id@ == k,
            self@.dom().finite(),
    {
        let s = self.sessions@;
        assert forall|k: Seq<char>| #[trigger] self@.dom().contains(k) implies self@[k].session_id@ == k by {
            let i = choose|i: int| 0 <= i < s.len() && #[trigger] s[i].session_id@ == k;
            lemma_keyed_at(s, i);
        }
        let ids = s.map_values(|r: SessionRecord| r.session_id@);
        assert(self@.dom() =~= ids.to_set()) by {
            assert forall|k: Seq<char>| self@.dom().contains(k) implies ids.to_set().contains(k) by {
                let i = choose|i: int| 0 <= i < s.len() && #[trigger] s[i].session_id@ == k;
                assert(ids[i] == k);
            }
            assert forall|k: Seq<char>| ids.to_set().contains(k) implies self@.dom().contains(k) by {
                let i = choose|i: int| 0 <= i < ids.len() && ids[i] == k;
                assert(s[i].session_id@ == k);
            }
        }
        vstd::seq_lib::seq_to_set_is_finite(ids);
    }

    /// Create a new empty session cache.
    pub fn new() -> (c: Self)
        ensures
            c.wf(),
            c@ == Map::<Seq<char>, SessionRecord>::empty(),
    {
        let c = SessionCache { sessions: Vec::new() };
        assert(c@ =~= Map::<Seq<char>, SessionRecord>::empty());
        c
    }

    /// Number of stored sessions, expired ones included.
    pub fn len(&self) -> (n: usize)
        requires
            self.wf(),
        ensures
            n == self@.len(),
    {
        proof {
            self.lemma_keys_match();
            let s = self.sessions@;
            let ids = s.map_values(|r: SessionRecord| r.session_id@);
            assert(ids.no_duplicates()) by {
                assert forall|i: int, j: int| 0 <= i < ids.len() && 0 <= j < ids.len() && i != j implies ids[i] != ids[j] by {
                    assert(ids[i] == s[i].session_id@);
                    assert(ids[j] == s[j].session_id@);
                }
            }
            ids.unique_seq_to_set();
            assert(self@.dom() =~= ids.to_set()) by {
                assert forall|k: Seq<char>| self@.dom().contains(k) implies ids.to_set().contains(k) by {
                    let i = choose|i: int| 0 <= i < s.len() && #[trigger] s[i].session_id@ == k;
                    assert(ids[i] == k);
                }
                assert forall|k: Seq<char>| ids.to_set().contains(k) implies self@.dom().contains(k) by {
                    let i = choose|i: int| 0 <= i < ids.len() && ids[i] == k;
                    assert(s[i].session_id@ == k);
                }
            }
        }
        self.sessions.len()
    }

    fn find(&self, session_id: &str) -> (r: Option<usize>)
        requires
            self.wf(),
        ensures
            r matches Some(i) ==> i < self.sessions@.len() && self.sessions@[i as int].session_id@
                == session_id@,
            r is None ==> !self@.dom().contains(session_id@),
    {
        let key = session_id.to_owned();
        let mut i: usize = 0;
        while i < self.sessions.len()
            invariant
                key@ == session_id@,
                i <= self.sessions@.len(),
                forall|j: int| 0 <= j < i ==> (#[trigger] self.sessions@[j]).session_id@ != session_id@,
            decreases self.sessions@.len() - i,
        {
            if self.sessions[i].session_id == key {
                return Some(i);
            }
            i += 1;
        }
        None
    }

    /// Store a session record and return its session ID.
    pub fn create_session(&mut self, record: SessionRecord) -> (id: String)
        requires
            old(self).wf(),
        ensures
            final(self).wf(),
            id@ == record.session_id@,
            final(self)@ == old(self)@.insert(record.session_id@, record),
    {
        let id = record.session_id.clone();
        let ghost k = record.session_id@;
        let ghost old_s = self.sessions@;
        match self.find(id.as_str()) {
            Some(i) => {
                self.sessions.set(i, record);
                proof {
                    let s = self.sessions@;
                    assert(ids_unique(s)) by {
                        assert forall|a: int, b: int| 0 <= a < s.len() && 0 <= b < s.len() && a != b
                            implies #[trigger] s[a].session_id@ != #[trigger] s[b].session_id@ by {
                            if a != i && b != i {
                                assert(s[a] == old_s[a] && s[b] == old_s[b]);
                            } else if a == i {
                                assert(s[b] == old_s[b]);
                                assert(s[a] == record);
                                assert(old_s[i as int].session_id@ == k);
                                assert(old_s[b].session_id@ != old_s[i as int].session_id@);
                            } else {
                                assert(s[a] == old_s[a]);
                                assert(s[b] == record);
                                assert(old_s[i as int].session_id@ == k);
                                assert(old_s[a].session_id@ != old_s[i as int].session_id@);
                            }
                        }
                    }
                    assert(keyed(s) =~= keyed(old_s).insert(k, record)) by {
                        assert forall|q: Seq<char>| keyed(s).dom().contains(q) <==> keyed(old_s).insert(k, record).dom().contains(q) by {
                            if has_id(s, q) {
                                let a = choose|a: int| 0 <= a < s.len() && #[trigger] s[a].session_id@ == q;
                                if a != i {
                                    assert(old_s[a] == s[a]);
                                    assert(has_id(old_s, q));
                                } else {
                                    assert(s[a] == record);
                                    assert(q == k);
                                }
                            }
                            if q == k {
                                assert(s[i as int] == record);
                                assert(s[i as int].session_id@ == q);
                                assert(has_id(s, q));
                            } else if has_id(old_s, q) {
                                let a = choose|a: int| 0 <= a < old_s.len() && #[trigger] old_s[a].session_id@ == q;
                                assert(a != i);
                                assert(old_s[a] == s[a]);
                                assert(s[a].session_id@ == q);
                                assert(has_id(s, q));
                            }
                        }
                        assert forall|q: Seq<char>| #[trigger] keyed(s).dom().contains(q) implies keyed(s)[q] == keyed(old_s).insert(k, record)[q] by {
                            let a = choose|a: int| 0 <= a < s.len() && #[trigger] s[a].session_id@ == q;
                            lemma_keyed_at(s, a);
                            if a != i {
                                assert(old_s[a] == s[a]);
                                lemma_keyed_at(old_s, a);
                            }
                        }
                    }
                }
            },
            None => {
                self.sessions.push(record);
                proof {
                    let s = self.sessions@;
                    assert(ids_unique(s)) by {
                        assert forall|a: int, b: int| 0 <= a < s.len() && 0 <= b < s.len() && a != b
                            implies #[trigger] s[a].session_id@ != #[trigger] s[b].session_id@ by {
                            if a < old_s.len() && b < old_s.len() {
                                assert(s[a] == old_s[a] && s[b] == old_s[b]);
                            } else if a < old_s.len() {
                                assert(s[a] == old_s[a]);
                                assert(!has_id(old_s, k));
                                assert(s[b] == record);
                                assert(old_s[a].session_id@ != k);
                            } else {
                                assert(s[b] == old_s[b]);
                                assert(!has_id(old_s, k));
                                assert(s[a] == record);
                                assert(old_s[b].session_id@ != k);
                            }
                        }
                    }
                    assert(keyed(s) =~= keyed(old_s).insert(k, record)) by {
                        assert forall|q: Seq<char>| keyed(s).dom().contains(q) <==> keyed(old_s).insert(k, record).dom().contains(q) by {
                            if has_id(s, q) {
                                let a = choose|a: int| 0 <= a < s.len() && #[trigger] s[a].session_id@ == q;
                                if a < old_s.len() {
                                    assert(old_s[a] == s[a]);
                                }
                            }
                            if has_id(old_s, q) {
                                let a = choose|a: int| 0 <= a < old_s.len() && #[trigger] old_s[a].session_id@ == q;
                                assert(old_s[a] == s[a]);
                            }
                            if q == k {
                                assert(s[old_s.len() as int].session_id@ == k);
                            }
                        }
                        assert forall|q: Seq<char>| #[trigger] keyed(s).dom().contains(q) implies keyed(s)[q] == keyed(old_s).insert(k, record)[q] by {
                            let a = choose|a: int| 0 <= a < s.len() && #[trigger] s[a].session_id@ == q;
                            lemma_keyed_at(s, a);
                            if a < old_s.len() {
                                assert(old_s[a] == s[a]);
                                lemma_keyed_at(old_s, a);
                            }
                        }
                    }
                }
            },
        }
        id
    }

    /// Look up a session by ID as of time `now`: `None` if not found or expired.
    pub fn get_session_at(&self, session_id: &str, now: i64) -> (r: Option<SessionRecord>)
        requires
            self.wf(),
        ensures
            r == lookup_at(self@, session_id@, now),
    {
        match self.find(session_id) {
            Some(i) => {
                proof {
                    lemma_keyed_at(self.sessions@, i as int);
                }
                let rec = &self.sessions[i];
                if rec.expires_at > now {
                    Some(rec.duplicate())
                } else {
                    None
                }
            },
            None => None,
        }
    }

    /// Look up a session by ID. Returns `None` if not found or expired.
    pub fn get_session(&self, session_id: &str) -> (r: Option<SessionRecord>)
        requires
            self.wf(),
        ensures
            exists|t: i64| #[trigger] clock_reading(t) && r == lookup_at(self@, session_id@, t),
    {
        let now = now_unix_millis();
        let r = self.get_session_at(session_id, now);
        assert(clock_reading(now) && r == lookup_at(self@, session_id@, now));
        r
    }

    /// Remove all sessions that have expired at time `now`.
    pub fn cleanup_expired_at(&mut self, now: i64)
        requires
            old(self).wf(),
        ensures
            final(self).wf(),
            final(self)@ == live_entries(old(self)@, now),
    {
        let mut old_vec: Vec<SessionRecord> = Vec::new();
        std::mem::swap(&mut old_vec, &mut self.sessions);
        let ghost s1 = old_vec@;
        let mut kept: Vec<SessionRecord> = Vec::new();
        let mut i: usize = 0;
        while i < old_vec.len()
            invariant
                s1 == old_vec@,
                ids_unique(s1),
                i <= s1.len(),
                ids_unique(kept@),
                forall|a: int| 0 <= a < kept@.len() ==> exists|j: int|
                    0 <= j < i && #[trigger] kept@[a] == s1[j] && s1[j].live_at(now),
                forall|j: int| 0 <= j < i && (#[trigger] s1[j]).live_at(now) ==> has_id(kept@, s1[j].session_id@),
            decreases s1.len() - i,
        {
            let rec = &old_vec[i];
            if rec.expires_at > now {
                let ghost before = kept@;
                let copy = rec.duplicate();
                kept.push(copy);
                proof {
                    let s2 = kept@;
                    assert(s2[before.len() as int] == s1[i as int]);
                    assert forall|a: int, b: int| 0 <= a < s2.len() && 0 <= b < s2.len() && a != b
                        implies #[trigger] s2[a].session_id@ != #[trigger] s2[b].session_id@ by {
                        if a < before.len() && b < before.len() {
                            assert(s2[a] == before[a] && s2[b] == before[b]);
                        } else if a < before.len() {
                            let j = choose|j: int| 0 <= j < i && #[trigger] before[a] == s1[j] && s1[j].live_at(now);
                            assert(s2[a] == before[a]);
                            assert(s1[j].session_id@ != s1[i as int].session_id@);
                        } else {
                            let j = choose|j: int| 0 <= j < i && #[trigger] before[b] == s1[j] && s1[j].live_at(now);
                            assert(s2[b] == before[b]);
                            assert(s1[j].session_id@ != s1[i as int].session_id@);
                        }
                    }
                    assert forall|a: int| 0 <= a < s2.len() implies exists|j: int|
                        0 <= j < i + 1 && #[trigger] s2[a] == s1[j] && s1[j].live_at(now) by {
                        if a < before.len() {
                            let j = choose|j: int| 0 <= j < i && #[trigger] before[a] == s1[j] && s1[j].live_at(now);
                            assert(s2[a] == before[a]);
                        } else {
                            assert(s2[a] == s1[i as int]);
                        }
                    }
                    assert forall|j: int| 0 <= j < i + 1 && (#[trigger] s1[j]).live_at(now) implies has_id(s2, s1[j].session_id@) by {
                        if j < i {
                            let a = choose|a: int| 0 <= a < before.len() && #[trigger] before[a].session_id@ == s1[j].session_id@;
                            assert(s2[a] == before[a]);
                        } else {
                            assert(s2[before.len() as int].session_id@ == s1[j].session_id@);
                        }
                    }
                }
            }
            i += 1;
        }
        proof {
            let s2 = kept@;
            let m1 = keyed(s1);
            assert(keyed(s2) =~= live_entries(m1, now)) by {
                assert forall|q: Seq<char>| keyed(s2).dom().contains(q) <==> live_entries(m1, now).dom().contains(q) by {
                    if has_id(s2, q) {
                        let a = choose|a: int| 0 <= a < s2.len() && #[trigger] s2[a].session_id@ == q;
                        let j = choose|j: int| 0 <= j < s1.len() && #[trigger] s2[a] == s1[j] && s1[j].live_at(now);
                        lemma_keyed_at(s1, j);
                    }
                    if m1.dom().contains(q) && m1[q].live_at(now) {
                        let j = choose|j: int| 0 <= j < s1.len() && #[trigger] s1[j].session_id@ == q;
                        lemma_keyed_at(s1, j);
                    }
                }
                assert forall|q: Seq<char>| #[trigger] keyed(s2).dom().contains(q) implies keyed(s2)[q] == live_entries(m1, now)[q] by {
                    let a = choose|a: int| 0 <= a < s2.len() && #[trigger] s2[a].session_id@ == q;
                    lemma_keyed_at(s2, a);
                    let j = choose|j: int| 0 <= j < s1.len() && #[trigger] s2[a] == s1[j] && s1[j].live_at(now);
                    lemma_keyed_at(s1, j);
                }
            }
        }
        self.sessions = kept;
    }

    /// Remove all expired sessions from the cache.
    pub fn cleanup_expired(&mut self)
        requires
            old(self).wf(),
        ensures
            final(self).wf(),
            exists|t: i64| #[trigger] clock_reading(t) && final(self)@ == live_entries(old(self)@, t),
    {
        let now = now_unix_millis();
        self.cleanup_expired_at(now);
        assert(clock_reading(now) && self@ == live_entries(old(self)@, now));
    }

    /// Remove a session by ID.
    pub fn destroy_session(&mut self, session_id: &str)
        requires
            old(self).wf(),
        ensures
            final(self).wf(),
            final(self)@ == old(self)@.remove(session_id@),
    {
        let ghost old_s = self.sessions@;
        let ghost k = session_id@;
        if let Some(i) = self.find(session_id) {
            self.sessions.remove(i);
            proof {
                let s = self.sessions@;
                assert(s =~= old_s.remove(i as int));
                assert forall|a: int| 0 <= a < s.len() implies #[trigger] s[a] == old_s[if a < i { a } else { a + 1 }] by {}
                assert(ids_unique(s)) by {
                    assert forall|a: int, b: int| 0 <= a < s.len() && 0 <= b < s.len() && a != b
                        implies #[trigger] s[a].session_id@ != #[trigger] s[b].session_id@ by {
                        let a2 = if a < i { a } else { a + 1 };
                        let b2 = if b < i { b } else { b + 1 };
                        assert(s[a] == old_s[a2] && s[b] == old_s[b2]);
                    }
                }
                assert(keyed(s) =~= keyed(old_s).remove(k)) by {
                    assert forall|q: Seq<char>| keyed(s).dom().contains(q) <==> keyed(old_s).remove(k).dom().contains(q) by {
                        if has_id(s, q) {
                            let a = choose|a: int| 0 <= a < s.len() && #[trigger] s[a].session_id@ == q;
                            let a2 = if a < i { a } else { a + 1 };
                            assert(s[a] == old_s[a2]);
                            assert(a2 != i);
                            assert(old_s[a2].session_id@ != old_s[i as int].session_id@);
                        }
                        if has_id(old_s, q) && q != k {
                            let a = choose|a: int| 0 <= a < old_s.len() && #[trigger] old_s[a].session_id@ == q;
                            assert(a != i);
                            let a1 = if a < i { a } else { a - 1 };
                            assert(s[a1] == old_s[a]);
                        }
                    }
                    assert forall|q: Seq<char>| #[trigger] keyed(s).dom().contains(q) implies keyed(s)[q] == keyed(old_s).remove(k)[q] by {
                        let a = choose|a: int| 0 <= a < s.len() && #[trigger] s[a].session_id@ == q;
                        lemma_keyed_at(s, a);
                        let a2 = if a < i { a } else { a + 1 };
                        assert(s[a] == old_s[a2]);
                        lemma_keyed_at(old_s, a2);
                    }
                }
            }
        } else {
            assert(old_s == self.sessions@);
            assert(keyed(old_s) =~= keyed(old_s).remove(k));
        }
    }
}

} // verus!

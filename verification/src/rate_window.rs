//! Per-key sliding-window counters, as used for message and
//! authentication-failure rate limiting.
use vstd::prelude::*;
use vstd::string::*;

verus! {

broadcast use vstd::seq::group_seq_axioms, vstd::map::group_map_axioms;

/// The timestamps of `ts` that are less than `window` before `now`.
pub open spec fn recent(ts: Seq<i64>, now: i64, window: int) -> Seq<i64>
    decreases ts.len(),
{
    if ts.len() == 0 {
        seq![]
    } else if ts.last() + window > now {
        recent(ts.drop_last(), now, window).push(ts.last())
    } else {
        recent(ts.drop_last(), now, window)
    }
}

/// The timestamps stored under `key`, none when the key is absent.
pub open spec fn stamps_of(m: Map<Seq<char>, Seq<i64>>, key: Seq<char>) -> Seq<i64> {
    if m.dom().contains(key) {
        m[key]
    } else {
        seq![]
    }
}

pub proof fn lemma_recent_len(ts: Seq<i64>, now: i64, window: int)
    ensures
        recent(ts, now, window).len() <= ts.len(),
    decreases ts.len(),
{
    if ts.len() > 0 {
        lemma_recent_len(ts.drop_last(), now, window);
    }
}

/// Timestamps of events, kept per key, within a sliding window.
pub struct WindowCounter {
    window_ms: u64,
    entries: Vec<(String, Vec<i64>)>,
}

impl View for WindowCounter {
    type V = Map<Seq<char>, Seq<i64>>;

    closed spec fn view(&self) -> Map<Seq<char>, Seq<i64>> {
        Map::new(
            |k: Seq<char>| exists|i: int| 0 <= i < self.entries@.len() && #[trigger] self.entries@[i].0@ == k,
            |k: Seq<char>| self.entries@[choose|i: int| 0 <= i < self.entries@.len() && #[trigger] self.entries@[i].0@ == k].1@,
        )
    }
}

impl WindowCounter {
    /// Keys are unique.
    pub closed spec fn wf(&self) -> bool {
        forall|i: int, j: int|
            0 <= i < self.entries@.len() && 0 <= j < self.entries@.len() && i != j
                ==> #[trigger] self.entries@[i].0@ != #[trigger] self.entries@[j].0@
    }

    /// Length of the window, in milliseconds.
    pub closed spec fn window(&self) -> int {
        self.window_ms as int
    }

    proof fn lemma_view_at(&self, i: int)
        requires
            self.wf(),
            0 <= i < self.entries@.len(),
        ensures
            self@.dom().contains(self.entries@[i].0@),
            self@[self.entries@[i].0@] == self.entries@[i].1@,
    {
        let k = self.entries@[i].0@;
        assert(self.entries@[i].0@ == k);
        let j = choose|j: int| 0 <= j < self.entries@.len() && #[trigger] self.entries@[j].0@ == k;
        assert(j == i);
    }

    /// An empty counter over windows of `window_ms` milliseconds.
    pub fn new(window_ms: u64) -> (c: Self)
        ensures
            c.wf(),
            c.window() == window_ms,
            c@ == Map::<Seq<char>, Seq<i64>>::empty(),
    {
        let c = WindowCounter { window_ms, entries: Vec::new() };
        assert(c@ =~= Map::<Seq<char>, Seq<i64>>::empty());
        c
    }

    fn find(&self, key: &str) -> (r: Option<usize>)
        requires
            self.wf(),
        ensures
            r matches Some(i) ==> i < self.entries@.len() && self.entries@[i as int].0@ == key@,
            r is None ==> !self@.dom().contains(key@),
    {
        let k = key.to_owned();
        let mut i: usize = 0;
        while i < self.entries.len()
            invariant
                k@ == key@,
                i <= self.entries@.len(),
                forall|j: int| 0 <= j < i ==> (#[trigger] self.entries@[j]).0@ != key@,
            decreases self.entries@.len() - i,
        {
            if self.entries[i].0 == k {
                return Some(i);
            }
            i += 1;
        }
        None
    }

    /// Stores `stamps` under `key`.
    fn put(&mut self, key: &str, stamps: Vec<i64>)
        requires
            old(self).wf(),
        ensures
            final(self).wf(),
            final(self).window() == old(self).window(),
            final(self)@ == old(self)@.insert(key@, stamps@),
    {
        let ghost old_e = self.entries@;
        let ghost k = key@;
        let ghost old_view = self@;
        match self.find(key) {
            Some(i) => {
                let name = self.entries[i].0.clone();
                self.entries.set(i, (name, stamps));
                proof {
                    let e = self.entries@;
                    assert forall|a: int, b: int| 0 <= a < e.len() && 0 <= b < e.len() && a != b implies
                        #[trigger] e[a].0@ != #[trigger] e[b].0@ by {
                        if a != i {
                            assert(e[a] == old_e[a]);
                        }
                        if b != i {
                            assert(e[b] == old_e[b]);
                        }
                        assert(old_e[a].0@ != old_e[b].0@);
                    }
                    assert forall|q: Seq<char>| #[trigger] self@.dom().contains(q) <==> old_view.insert(k, stamps@).dom().contains(q) by {
                        if q == k {
                            assert(e[i as int].0@ == q);
                        } else {
                            if exists|a: int| 0 <= a < e.len() && #[trigger] e[a].0@ == q {
                                let a = choose|a: int| 0 <= a < e.len() && #[trigger] e[a].0@ == q;
                                assert(a != i);
                                assert(old_e[a] == e[a]);
                                assert(old_e[a].0@ == q);
                            }
                            if exists|a: int| 0 <= a < old_e.len() && #[trigger] old_e[a].0@ == q {
                                let a = choose|a: int| 0 <= a < old_e.len() && #[trigger] old_e[a].0@ == q;
                                assert(a != i);
                                assert(old_e[a] == e[a]);
                                assert(e[a].0@ == q);
                            }
                        }
                    }
                    assert forall|q: Seq<char>| #[trigger] self@.dom().contains(q) implies self@[q] == old_view.insert(k, stamps@)[q] by {
                        let a = choose|a: int| 0 <= a < e.len() && #[trigger] e[a].0@ == q;
                        self.lemma_view_at(a);
                        if a != i {
                            assert(old_e[a] == e[a]);
                            let j = choose|j: int| 0 <= j < old_e.len() && #[trigger] old_e[j].0@ == q;
                            assert(old_e[a].0@ == q);
                            assert(j == a);
                        }
                    }
                    assert(self@ =~= old_view.insert(k, stamps@));
                }
            },
            None => {
                self.entries.push((key.to_owned(), stamps));
                proof {
                    let e = self.entries@;
                    let n = old_e.len() as int;
                    assert forall|a: int| 0 <= a < n implies #[trigger] old_e[a].0@ != k by {
                        assert(old_e[a].0@ == old_e[a].0@);
                    }
                    assert forall|a: int, b: int| 0 <= a < e.len() && 0 <= b < e.len() && a != b implies
                        #[trigger] e[a].0@ != #[trigger] e[b].0@ by {
                        if a < n {
                            assert(e[a] == old_e[a]);
                        }
                        if b < n {
                            assert(e[b] == old_e[b]);
                        }
                        if a < n && b < n {
                            assert(old_e[a].0@ != old_e[b].0@);
                        }
                    }
                    assert forall|q: Seq<char>| #[trigger] self@.dom().contains(q) <==> old_view.insert(k, stamps@).dom().contains(q) by {
                        if q == k {
                            assert(e[n].0@ == q);
                        } else {
                            if exists|a: int| 0 <= a < e.len() && #[trigger] e[a].0@ == q {
                                let a = choose|a: int| 0 <= a < e.len() && #[trigger] e[a].0@ == q;
                                assert(a != n);
                                assert(old_e[a] == e[a]);
                                assert(old_e[a].0@ == q);
                            }
                            if exists|a: int| 0 <= a < old_e.len() && #[trigger] old_e[a].0@ == q {
                                let a = choose|a: int| 0 <= a < old_e.len() && #[trigger] old_e[a].0@ == q;
                                assert(old_e[a] == e[a]);
                                assert(e[a].0@ == q);
                            }
                        }
                    }
                    assert forall|q: Seq<char>| #[trigger] self@.dom().contains(q) implies self@[q] == old_view.insert(k, stamps@)[q] by {
                        let a = choose|a: int| 0 <= a < e.len() && #[trigger] e[a].0@ == q;
                        self.lemma_view_at(a);
                        if a != n {
                            assert(old_e[a] == e[a]);
                            let j = choose|j: int| 0 <= j < old_e.len() && #[trigger] old_e[j].0@ == q;
                            assert(old_e[a].0@ == q);
                            assert(j == a);
                        }
                    }
                    assert(self@ =~= old_view.insert(k, stamps@));
                }
            },
        }
    }

    /// The timestamps stored under `key`.
    fn stamps(&self, key: &str) -> (r: Vec<i64>)
        requires
            self.wf(),
        ensures
            r@ == stamps_of(self@, key@),
    {
        match self.find(key) {
            Some(i) => {
                proof {
                    self.lemma_view_at(i as int);
                }
                self.entries[i].1.clone()
            },
            None => Vec::new(),
        }
    }

    /// The timestamps of `ts` that fall within the window ending at `now`.
    fn prune(&self, ts: &Vec<i64>, now: i64) -> (r: Vec<i64>)
        ensures
            r@ == recent(ts@, now, self.window()),
    {
        let mut r: Vec<i64> = Vec::new();
        let mut i: usize = 0;
        while i < ts.len()
            invariant
                i <= ts@.len(),
                r@ == recent(ts@.take(i as int), now, self.window()),
            decreases ts@.len() - i,
        {
            let t = ts[i];
            proof {
                assert(ts@.take(i + 1).drop_last() =~= ts@.take(i as int));
                assert(ts@.take(i + 1).last() == t);
            }
            if (t as i128) + (self.window_ms as i128) > (now as i128) {
                r.push(t);
            }
            i += 1;
        }
        assert(ts@.take(ts@.len() as int) =~= ts@);
        r
    }

    /// Records an event for `key` at `now` unless `max_events` events of
    /// `key` already fall within the window; returns whether it was refused.
    /// Timestamps that left the window are dropped either way.
    pub fn check_and_record(&mut self, key: &str, now: i64, max_events: usize) -> (limited: bool)
        requires
            old(self).wf(),
        ensures
            final(self).wf(),
            final(self).window() == old(self).window(),
            limited == (recent(stamps_of(old(self)@, key@), now, old(self).window()).len()
                >= max_events),
            final(self)@ == old(self)@.insert(
                key@,
                if limited {
                    recent(stamps_of(old(self)@, key@), now, old(self).window())
                } else {
                    recent(stamps_of(old(self)@, key@), now, old(self).window()).push(now)
                },
            ),
    {
        let current = self.stamps(key);
        let mut kept = self.prune(&current, now);
        if kept.len() >= max_events {
            self.put(key, kept);
            return true;
        }
        kept.push(now);
        self.put(key, kept);
        false
    }

    /// Drops the timestamps of `key` that left the window and tells whether
    /// at least `max_events` remain. A key without events is left absent.
    pub fn prune_and_check(&mut self, key: &str, now: i64, max_events: usize) -> (limited: bool)
        requires
            old(self).wf(),
        ensures
            final(self).wf(),
            final(self).window() == old(self).window(),
            !old(self)@.dom().contains(key@) ==> !limited && final(self)@ == old(self)@,
            old(self)@.dom().contains(key@) ==> limited == (recent(old(self)@[key@], now, old(self).window()).len() >= max_events)
                && final(self)@ == old(self)@.insert(key@, recent(old(self)@[key@], now, old(self).window())),
    {
        match self.find(key) {
            None => false,
            Some(i) => {
                proof {
                    self.lemma_view_at(i as int);
                }
                let current = self.entries[i].1.clone();
                let kept = self.prune(&current, now);
                let limited = kept.len() >= max_events;
                self.put(key, kept);
                limited
            },
        }
    }

    /// Records an event for `key` at `now`.
    pub fn record(&mut self, key: &str, now: i64)
        requires
            old(self).wf(),
        ensures
            final(self).wf(),
            final(self).window() == old(self).window(),
            final(self)@ == old(self)@.insert(key@, stamps_of(old(self)@, key@).push(now)),
    {
        let mut current = self.stamps(key);
        current.push(now);
        self.put(key, current);
    }
}

/// Law: a refused event is not recorded, and after an admitted event the
/// key holds at most `max_events` timestamps, all within the window.
pub proof fn lemma_admission_bound(ts: Seq<i64>, now: i64, window: int, max_events: nat)
    requires
        window > 0,
    ensures
        recent(ts, now, window).len() < max_events ==> recent(ts, now, window).push(now).len()
            <= max_events,
        recent(ts, now, window).len() <= ts.len(),
        forall|i: int|
            0 <= i < recent(ts, now, window).len() ==> #[trigger] recent(ts, now, window)[i] + window
                > now,
    decreases ts.len(),
{
    lemma_recent_len(ts, now, window);
    if ts.len() > 0 {
        lemma_admission_bound(ts.drop_last(), now, window, max_events);
        let r = recent(ts.drop_last(), now, window);
        assert forall|i: int| 0 <= i < recent(ts, now, window).len() implies #[trigger] recent(
            ts,
            now,
            window,
        )[i] + window > now by {
            if ts.last() + window > now && i == r.len() {
            } else {
                assert(recent(ts, now, window)[i] == r[i]);
            }
        }
    }
}

} // verus!

//! Sliding-window admission limiter: per key, at most `max_requests`
//! accepted requests within any trailing window.

use vstd::prelude::*;

verus! {

/// A timestamp (milliseconds) still counts at `now` when less than `window`
/// has passed since it; a timestamp ahead of `now` still counts.
pub open spec fn in_window(t: u64, now: u64, window: u64) -> bool {
    now - t < window
}

/// The timestamps of `s` that still count at `now`, in order.
pub open spec fn live(s: Seq<u64>, now: u64, window: u64) -> Seq<u64>
    decreases s.len(),
{
    if s.len() == 0 {
        s
    } else if in_window(s.last(), now, window) {
        live(s.drop_last(), now, window).push(s.last())
    } else {
        live(s.drop_last(), now, window)
    }
}

/// Once a full window has passed since every recorded timestamp, none of
/// them counts any more: the next request for the key is judged on an empty
/// history.
pub proof fn lemma_history_expires(s: Seq<u64>, now: u64, window: u64)
    requires
        forall|i: int| 0 <= i < s.len() ==> now - #[trigger] s[i] >= window,
    ensures
        live(s, now, window) == Seq::<u64>::empty(),
    decreases s.len(),
{
    if s.len() > 0 {
        assert(now - s[s.len() - 1] >= window);
        lemma_history_expires(s.drop_last(), now, window);
    }
}

/// The accepted-request timestamps kept for one key.
#[derive(Debug)]
pub struct KeyHistory {
    pub key: String,
    pub stamps: Vec<u64>,
}

/// The history recorded for `k`: the last entry with that key, or none.
pub open spec fn lookup(es: Seq<KeyHistory>, k: Seq<char>) -> Seq<u64>
    decreases es.len(),
{
    if es.len() == 0 {
        Seq::empty()
    } else if es.last().key@ == k {
        es.last().stamps@
    } else {
        lookup(es.drop_last(), k)
    }
}

pub open spec fn keys_unique(es: Seq<KeyHistory>) -> bool {
    forall|i: int, j: int| 0 <= i < j < es.len() ==> es[i].key@ != es[j].key@
}

proof fn lemma_lookup_absent(es: Seq<KeyHistory>, k: Seq<char>)
    requires
        forall|i: int| 0 <= i < es.len() ==> es[i].key@ != k,
    ensures
        lookup(es, k) == Seq::<u64>::empty(),
    decreases es.len(),
{
    if es.len() > 0 {
        lemma_lookup_absent(es.drop_last(), k);
    }
}

proof fn lemma_lookup_push(es: Seq<KeyHistory>, e: KeyHistory, k: Seq<char>)
    ensures
        lookup(es.push(e), k) == if e.key@ == k {
            e.stamps@
        } else {
            lookup(es, k)
        },
{
    assert(es.push(e).drop_last() =~= es);
}

/// Keeps, per key, the timestamps of accepted requests within the window.
#[derive(Debug)]
pub struct RateLimiter {
    entries: Vec<KeyHistory>,
    window_ms: u64,
    max_requests: usize,
}

impl RateLimiter {
    /// Distinct keys, one entry each.
    pub closed spec fn wf(&self) -> bool {
        keys_unique(self.entries@)
    }

    /// The accepted-request timestamps recorded for key `k`.
    pub closed spec fn history(&self, k: Seq<char>) -> Seq<u64> {
        lookup(self.entries@, k)
    }

    /// The window, in milliseconds.
    pub closed spec fn window(&self) -> u64 {
        self.window_ms
    }

    /// The most requests admitted per key within one window.
    pub closed spec fn limit(&self) -> usize {
        self.max_requests
    }

    /// A limiter with no history, admitting `max_requests` per key within
    /// any `window_secs` seconds.
    pub fn new(window_secs: u64, max_requests: usize) -> (r: RateLimiter)
        requires
            window_secs <= u64::MAX / 1000,
        ensures
            r.wf(),
            r.window() == window_secs * 1000,
            r.limit() == max_requests,
            forall|k: Seq<char>| r.history(k) == Seq::<u64>::empty(),
    {
        RateLimiter { entries: Vec::new(), window_ms: window_secs * 1000, max_requests }
    }

    /// The timestamps of `stamps` that still count at `now`.
    fn live_stamps(stamps: &Vec<u64>, now: u64, window: u64) -> (r: Vec<u64>)
        ensures
            r@ == live(stamps@, now, window),
    {
        let mut r: Vec<u64> = Vec::new();
        let mut i: usize = 0;
        while i < stamps.len()
            invariant
                0 <= i <= stamps@.len(),
                r@ == live(stamps@.subrange(0, i as int), now, window),
            decreases stamps@.len() - i,
        {
            let t = stamps[i];
            assert(stamps@.subrange(0, i + 1).drop_last() =~= stamps@.subrange(0, i as int));
            if t > now || now - t < window {
                r.push(t);
            }
            i = i + 1;
        }
        assert(stamps@.subrange(0, i as int) =~= stamps@);
        r
    }

    /// Once a full window has passed since every request recorded for a key,
    /// the next request for it is admitted (given a limit of at least one).
    pub proof fn lemma_admitted_after_window(&self, key: Seq<char>, now_ms: u64)
        requires
            self.limit() > 0,
            forall|i: int|
                0 <= i < self.history(key).len() ==> now_ms - #[trigger] self.history(key)[i]
                    >= self.window(),
        ensures
            live(self.history(key), now_ms, self.window()).len() < self.limit(),
    {
        lemma_history_expires(self.history(key), now_ms, self.window());
    }

    /// Admits or denies one request for `key` at `now_ms`. First drops, for
    /// every key, the timestamps that left the window; then admits exactly
    /// when fewer than the limit remain for `key`, recording `now_ms` if so.
    pub fn check_rate_limit(&mut self, key: &str, now_ms: u64) -> (r: bool)
        requires
            old(self).wf(),
        ensures
            final(self).wf(),
            final(self).window() == old(self).window(),
            final(self).limit() == old(self).limit(),
            r == (live(old(self).history(key@), now_ms, old(self).window()).len() < old(
                self,
            ).limit()),
            forall|k: Seq<char>| #[trigger]
                final(self).history(k) == if r && k == key@ {
                    live(old(self).history(k), now_ms, old(self).window()).push(now_ms)
                } else {
                    live(old(self).history(k), now_ms, old(self).window())
                },
    {
        let key_s: String = key.to_owned();
        let ghost old_es = self.entries@;
        let window = self.window_ms;
        let mut kept: Vec<KeyHistory> = Vec::new();
        let mut target: Vec<u64> = Vec::new();
        let mut i: usize = 0;
        while i < self.entries.len()
            invariant
                0 <= i <= old_es.len(),
                self.entries@ == old_es,
                self.window_ms == window,
                keys_unique(old_es),
                key_s@ == key@,
                keys_unique(kept@),
                forall|a: int| 0 <= a < kept@.len() ==> #[trigger] kept@[a].key@ != key@,
                forall|a: int|
                    0 <= a < kept@.len() ==> exists|j: int|
                        0 <= j < i && #[trigger] old_es[j].key@ == #[trigger] kept@[a].key@,
                forall|k: Seq<char>|
                    k != key@ ==> #[trigger] lookup(kept@, k) == live(
                        lookup(old_es.subrange(0, i as int), k),
                        now_ms,
                        window,
                    ),
                target@ == live(lookup(old_es.subrange(0, i as int), key@), now_ms, window),
            decreases old_es.len() - i,
        {
            let ghost pre = old_es.subrange(0, i as int);
            let ghost e = old_es[i as int];
            assert(old_es.subrange(0, i + 1) =~= pre.push(e));
            proof {
                assert forall|k: Seq<char>| true implies #[trigger] lookup(
                    old_es.subrange(0, i + 1),
                    k,
                ) == if e.key@ == k {
                    e.stamps@
                } else {
                    lookup(pre, k)
                } by {
                    lemma_lookup_push(pre, e, k);
                }
                assert forall|j: int| 0 <= j < pre.len() implies pre[j].key@ != e.key@ by {
                    assert(old_es[j].key@ != old_es[i as int].key@);
                }
                lemma_lookup_absent(pre, e.key@);
            }
            let s = Self::live_stamps(&self.entries[i].stamps, now_ms, window);
            if self.entries[i].key == key_s {
                target = s;
            } else if s.len() > 0 {
                let k_i = self.entries[i].key.clone();
                let ghost kept_before = kept@;
                let entry = KeyHistory { key: k_i, stamps: s };
                kept.push(entry);
                proof {
                    assert forall|a: int, b: int| 0 <= a < b < kept@.len() implies kept@[a].key@
                        != kept@[b].key@ by {
                        if b == kept@.len() - 1 {
                            let j = choose|j: int|
                                0 <= j < i && #[trigger] old_es[j].key@ == #[trigger] kept_before[a].key@;
                            assert(old_es[j].key@ != old_es[i as int].key@);
                        } else {
                            assert(kept_before[a].key@ != kept_before[b].key@);
                        }
                    }
                    assert forall|a: int| 0 <= a < kept@.len() implies exists|j: int|
                        0 <= j < i + 1 && #[trigger] old_es[j].key@ == #[trigger] kept@[a].key@ by {
                        if a == kept@.len() - 1 {
                            assert(old_es[i as int].key@ == kept@[a].key@);
                        } else {
                            assert(kept@[a] == kept_before[a]);
                        }
                    }
                    assert forall|k: Seq<char>| k != key@ implies #[trigger] lookup(kept@, k) == live(
                        lookup(old_es.subrange(0, i + 1), k),
                        now_ms,
                        window,
                    ) by {
                        lemma_lookup_push(kept_before, kept@.last(), k);
                        assert(kept_before.push(kept@.last()) =~= kept@);
                    }
                }
            } else {
                proof {
                    assert forall|k: Seq<char>| k != key@ implies #[trigger] lookup(kept@, k) == live(
                        lookup(old_es.subrange(0, i + 1), k),
                        now_ms,
                        window,
                    ) by {
                        if k == e.key@ {
                            assert(live(Seq::<u64>::empty(), now_ms, window) =~= Seq::<u64>::empty());
                        }
                    }
                }
            }
            i = i + 1;
        }
        assert(old_es.subrange(0, i as int) =~= old_es);
        proof {
            lemma_lookup_absent(kept@, key@);
        }
        let allowed = target.len() < self.max_requests;
        if allowed {
            target.push(now_ms);
        }
        if target.len() > 0 {
            let ghost kept_before = kept@;
            kept.push(KeyHistory { key: key_s, stamps: target });
            proof {
                assert forall|k: Seq<char>| true implies #[trigger] lookup(kept@, k) == if k == key@ {
                    kept@.last().stamps@
                } else {
                    lookup(kept_before, k)
                } by {
                    lemma_lookup_push(kept_before, kept@.last(), k);
                    assert(kept_before.push(kept@.last()) =~= kept@);
                }
            }
        }
        self.entries = kept;
        allowed
    }
}

} // verus!

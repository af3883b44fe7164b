//! Per-client fixed-window rate limiting.
//!
//! The limiter tracks, for each client key, how many requests arrived in
//! the current window and when that window started. The window is fixed,
//! not sliding: once more than `window` seconds have passed since a key's
//! window started, the next check resets the key's budget entirely — even
//! mid-abuse, an intentional simplicity trade-off. The limiter never
//! fails; it only answers whether a request is allowed.

use crate::table::KeyTable;
use vstd::prelude::*;

verus! {

/// Seconds passed between a window's start and `now`, saturating at zero
/// for a clock reading older than the recorded start.
pub open spec fn elapsed(start: u64, now: u64) -> int {
    if now >= start {
        now - start
    } else {
        0
    }
}

/// Whether a check at time `now` starts a fresh window for `key`: no
/// entry is stored, or the stored one has logically expired.
pub open spec fn fresh_entry(
    m: Map<Seq<char>, (u64, u64)>,
    key: Seq<char>,
    now: u64,
    window: u64,
) -> bool {
    !m.contains_key(key) || elapsed(m[key].1, now) > window
}

/// The count a check returns: 1 on a fresh window, the unchanged count on
/// a denial, the incremented count otherwise.
pub open spec fn check_count(
    m: Map<Seq<char>, (u64, u64)>,
    key: Seq<char>,
    now: u64,
    max: u64,
    window: u64,
) -> u64 {
    if fresh_entry(m, key, now, window) {
        1u64
    } else if m[key].0 >= max {
        m[key].0
    } else {
        (m[key].0 + 1) as u64
    }
}

/// Whether a check at time `now` allows the request.
pub open spec fn check_allowed(
    m: Map<Seq<char>, (u64, u64)>,
    key: Seq<char>,
    now: u64,
    max: u64,
    window: u64,
) -> bool {
    fresh_entry(m, key, now, window) || m[key].0 < max
}

/// The counter table a check leaves behind: reset on a fresh window,
/// untouched on a denial, incremented in place otherwise — the original
/// window start is preserved across increments.
pub open spec fn check_table(
    m: Map<Seq<char>, (u64, u64)>,
    key: Seq<char>,
    now: u64,
    max: u64,
    window: u64,
) -> Map<Seq<char>, (u64, u64)> {
    if fresh_entry(m, key, now, window) {
        m.insert(key, (1u64, now))
    } else if m[key].0 >= max {
        m
    } else {
        m.insert(key, ((m[key].0 + 1) as u64, m[key].1))
    }
}

/// Tracks request counts per client key over a fixed time window.
pub struct RateLimiter {
    max_requests: u64,
    window: u64,
    requests: KeyTable<(u64, u64)>,
}

impl View for RateLimiter {
    type V = Map<Seq<char>, (u64, u64)>;

    closed spec fn view(&self) -> Map<Seq<char>, (u64, u64)> {
        self.requests@
    }
}

impl RateLimiter {
    /// The configured request budget per window.
    pub closed spec fn max_requests_spec(&self) -> u64 {
        self.max_requests
    }

    /// The configured window length, in seconds.
    pub closed spec fn window_spec(&self) -> u64 {
        self.window
    }

    /// The limiter's invariant: a positive configuration, and every stored
    /// count between 1 and the budget.
    pub closed spec fn wf(&self) -> bool {
        &&& self.requests.wf()
        &&& self.max_requests >= 1
        &&& self.window >= 1
        &&& forall|k: Seq<char>|
            self@.contains_key(k) ==> 1 <= (#[trigger] self@[k]).0 <= self.max_requests
    }

    /// A limiter with an empty counter table, fixed at construction to
    /// allow `max_requests` per `window` seconds.
    pub fn new(max_requests: u64, window: u64) -> (r: Self)
        requires
            max_requests >= 1,
            window >= 1,
        ensures
            r.wf(),
            r@ == Map::<Seq<char>, (u64, u64)>::empty(),
            r.max_requests_spec() == max_requests,
            r.window_spec() == window,
    {
        RateLimiter { max_requests, window, requests: KeyTable::new() }
    }

    /// Checks one request from `key` at time `now` against the budget and
    /// records it. Returns the current count for `key` and whether the
    /// request is allowed; denial changes nothing.
    pub fn check(&mut self, key: &String, now: u64) -> (r: (u64, bool))
        requires
            old(self).wf(),
        ensures
            final(self).wf(),
            final(self).max_requests_spec() == old(self).max_requests_spec(),
            final(self).window_spec() == old(self).window_spec(),
            r.0 == check_count(
                old(self)@,
                key@,
                now,
                old(self).max_requests_spec(),
                old(self).window_spec(),
            ),
            r.1 == check_allowed(
                old(self)@,
                key@,
                now,
                old(self).max_requests_spec(),
                old(self).window_spec(),
            ),
            final(self)@ == check_table(
                old(self)@,
                key@,
                now,
                old(self).max_requests_spec(),
                old(self).window_spec(),
            ),
    {
        let r = match self.requests.get(key) {
            None => {
                self.requests.set(key.clone(), (1, now));
                (1, true)
            },
            Some((count, start)) => {
                let el: u64 = if now >= start {
                    now - start
                } else {
                    0
                };
                if el > self.window {
                    self.requests.set(key.clone(), (1, now));
                    (1, true)
                } else if count >= self.max_requests {
                    (count, false)
                } else {
                    self.requests.set(key.clone(), (count + 1, start));
                    (count + 1, true)
                }
            },
        };
        proof {
            assert forall|k: Seq<char>| self@.contains_key(k) implies 1 <= (#[trigger] self@[k]).0
                <= self.max_requests by {
                if k != key@ {
                    assert(old(self)@.contains_key(k));
                }
            }
        }
        r
    }
}

/// The counter table after `i` successive checks for `key`, the `j`-th
/// made at time `ts[j]`, starting from table `m0`.
pub open spec fn table_after(
    m0: Map<Seq<char>, (u64, u64)>,
    key: Seq<char>,
    ts: Seq<u64>,
    max: u64,
    window: u64,
    i: int,
) -> Map<Seq<char>, (u64, u64)>
    decreases i,
{
    if i <= 0 {
        m0
    } else {
        check_table(table_after(m0, key, ts, max, window, i - 1), key, ts[i - 1], max, window)
    }
}

/// Within one window, the first `i` checks for a key all pass, with
/// strictly increasing counts `1..=i`, and leave the key's entry at
/// `(i, ts[0])`: the proof behind the budget law.
proof fn lemma_counts_up_to(
    m0: Map<Seq<char>, (u64, u64)>,
    key: Seq<char>,
    ts: Seq<u64>,
    max: u64,
    window: u64,
    i: int,
)
    requires
        1 <= i <= max,
        i <= ts.len(),
        fresh_entry(m0, key, ts[0], window),
        forall|j: int| 0 <= j < ts.len() ==> ts[0] <= #[trigger] ts[j],
        forall|j: int| 0 <= j < ts.len() ==> elapsed(ts[0], #[trigger] ts[j]) <= window,
    ensures
        table_after(m0, key, ts, max, window, i)[key] == (i as u64, ts[0]),
        table_after(m0, key, ts, max, window, i).contains_key(key),
        forall|j: int|
            0 <= j < i ==> check_allowed(
                #[trigger] table_after(m0, key, ts, max, window, j),
                key,
                ts[j],
                max,
                window,
            ),
        forall|j: int|
            0 <= j < i ==> check_count(
                #[trigger] table_after(m0, key, ts, max, window, j),
                key,
                ts[j],
                max,
                window,
            ) == j + 1,
    decreases i,
{
    if i == 1 {
        assert(table_after(m0, key, ts, max, window, 0) == m0);
        assert(table_after(m0, key, ts, max, window, 1) == check_table(m0, key, ts[0], max, window));
        assert(check_table(m0, key, ts[0], max, window) == m0.insert(key, (1u64, ts[0])));
    } else {
        lemma_counts_up_to(m0, key, ts, max, window, i - 1);
        let m_prev = table_after(m0, key, ts, max, window, i - 1);
        assert(table_after(m0, key, ts, max, window, i) == check_table(
            m_prev,
            key,
            ts[i - 1],
            max,
            window,
        ));
        assert(m_prev[key] == ((i - 1) as u64, ts[0]));
        assert(elapsed(ts[0], ts[i - 1]) <= window);
        assert(!fresh_entry(m_prev, key, ts[i - 1], window));
        assert(m_prev[key].0 < max);
        assert(check_count(m_prev, key, ts[i - 1], max, window) == i);
        assert(check_allowed(m_prev, key, ts[i - 1], max, window));
    }
}

/// Budget law: for any client key, `max` checks within one window all
/// pass with strictly increasing counts `1..=max`, and the following
/// check within the same window is denied with an unchanged count and an
/// unchanged table. `ts[j]` is the time of the `j`-th check; the first
/// check finds no live entry for the key.
pub proof fn lemma_budget_exhausted(
    m0: Map<Seq<char>, (u64, u64)>,
    key: Seq<char>,
    ts: Seq<u64>,
    max: u64,
    window: u64,
)
    requires
        max >= 1,
        ts.len() == max + 1,
        fresh_entry(m0, key, ts[0], window),
        forall|j: int| 0 <= j < ts.len() ==> ts[0] <= #[trigger] ts[j],
        forall|j: int| 0 <= j < ts.len() ==> elapsed(ts[0], #[trigger] ts[j]) <= window,
    ensures
        forall|j: int|
            0 <= j < max ==> check_allowed(
                #[trigger] table_after(m0, key, ts, max, window, j),
                key,
                ts[j],
                max,
                window,
            ),
        forall|j: int|
            0 <= j < max ==> check_count(
                #[trigger] table_after(m0, key, ts, max, window, j),
                key,
                ts[j],
                max,
                window,
            ) == j + 1,
        !check_allowed(
            table_after(m0, key, ts, max, window, max as int),
            key,
            ts[max as int],
            max,
            window,
        ),
        check_count(
            table_after(m0, key, ts, max, window, max as int),
            key,
            ts[max as int],
            max,
            window,
        ) == max,
        check_table(
            table_after(m0, key, ts, max, window, max as int),
            key,
            ts[max as int],
            max,
            window,
        ) == table_after(m0, key, ts, max, window, max as int),
{
    lemma_counts_up_to(m0, key, ts, max, window, max as int);
    let m_full = table_after(m0, key, ts, max, window, max as int);
    assert(m_full[key] == (max, ts[0]));
    assert(!fresh_entry(m_full, key, ts[max as int], window));
}

/// Reset law: once a key's window has expired — more than `window`
/// seconds passed since its recorded start — the next check resets the
/// count to 1 and passes, regardless of the prior count.
pub proof fn lemma_window_reset(
    m: Map<Seq<char>, (u64, u64)>,
    key: Seq<char>,
    now: u64,
    max: u64,
    window: u64,
)
    requires
        m.contains_key(key) ==> elapsed(m[key].1, now) > window,
    ensures
        check_allowed(m, key, now, max, window),
        check_count(m, key, now, max, window) == 1,
        check_table(m, key, now, max, window) == m.insert(key, (1u64, now)),
{
}

} // verus!

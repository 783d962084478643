//! The rate calculator: derives throughput from two successive counter
//! snapshots of one interface, and keeps the map of previous snapshots
//! keyed by interface name.
//!
//! A rate is whole bytes per second, computed with saturating subtraction
//! so that a counter reset yields zero rather than a negative or huge
//! value, over an elapsed time floored at one millisecond so that no
//! division by zero can occur.

use vstd::prelude::*;

use crate::text::eq_str;

verus! {

/// Cumulative counters as read from one interface, no timestamp yet.
#[derive(Clone, Copy, Debug, PartialEq, Eq, Structural)]
pub struct Counters {
    pub rx_bytes: u64,
    pub tx_bytes: u64,
}

/// One interface's cumulative counters at one sampling instant,
/// timestamped with the session clock in milliseconds.
#[derive(Clone, Copy, Debug, PartialEq, Eq, Structural)]
pub struct StatPoint {
    pub rx_bytes: u64,
    pub tx_bytes: u64,
    pub ts_ms: u64,
}

/// Derived throughput for one interface, whole bytes per second.
#[derive(Clone, Copy, Debug, PartialEq, Eq, Structural)]
pub struct Rate {
    pub rx_per_s: u64,
    pub tx_per_s: u64,
}

/// The elapsed time for a rate computation: the timestamp difference
/// (zero when the clock went backwards), floored at one millisecond.
pub open spec fn spec_dt_ms(prev_ts: u64, now_ts: u64) -> nat {
    let d: nat = if now_ts >= prev_ts {
        (now_ts - prev_ts) as nat
    } else {
        0
    };
    if d < 1 {
        1
    } else {
        d
    }
}

/// One direction's rate: the saturating counter delta scaled to bytes
/// per second, truncated, capped at `u64::MAX`.
pub open spec fn spec_dir_rate(prev_v: u64, cur_v: u64, dt_ms: nat) -> u64 {
    let delta: nat = if cur_v >= prev_v {
        (cur_v - prev_v) as nat
    } else {
        0
    };
    let r: nat = delta * 1000 / dt_ms;
    if r > u64::MAX {
        u64::MAX
    } else {
        r as u64
    }
}

/// The rate derived from an optional previous snapshot and the current
/// one.  Without a previous snapshot (first tick after start or after a
/// rescan) both directions are zero.
pub open spec fn spec_rate(prev: Option<StatPoint>, cur: StatPoint) -> Rate {
    match prev {
        None => Rate { rx_per_s: 0, tx_per_s: 0 },
        Some(p) => {
            let dt = spec_dt_ms(p.ts_ms, cur.ts_ms);
            Rate {
                rx_per_s: spec_dir_rate(p.rx_bytes, cur.rx_bytes, dt),
                tx_per_s: spec_dir_rate(p.tx_bytes, cur.tx_bytes, dt),
            }
        },
    }
}

fn dir_rate(prev_v: u64, cur_v: u64, dt_ms: u64) -> (r: u64)
    requires
        dt_ms >= 1,
    ensures
        r == spec_dir_rate(prev_v, cur_v, dt_ms as nat),
{
    let delta: u64 = if cur_v >= prev_v {
        cur_v - prev_v
    } else {
        0
    };
    let scaled: u128 = (delta as u128) * 1000 / (dt_ms as u128);
    if scaled > u64::MAX as u128 {
        u64::MAX
    } else {
        scaled as u64
    }
}

/// Computes the throughput for one interface from its current snapshot
/// and, when one exists, the previous snapshot recorded for the same
/// identity.
pub fn compute_rate(prev: Option<StatPoint>, cur: StatPoint) -> (r: Rate)
    ensures
        r == spec_rate(prev, cur),
{
    match prev {
        None => Rate { rx_per_s: 0, tx_per_s: 0 },
        Some(p) => {
            let d: u64 = if cur.ts_ms >= p.ts_ms {
                cur.ts_ms - p.ts_ms
            } else {
                0
            };
            let dt: u64 = if d < 1 {
                1
            } else {
                d
            };
            Rate {
                rx_per_s: dir_rate(p.rx_bytes, cur.rx_bytes, dt),
                tx_per_s: dir_rate(p.tx_bytes, cur.tx_bytes, dt),
            }
        },
    }
}

/// For a current snapshot taken a whole number of seconds after the
/// previous one, with counters that did not reset, the rate is exactly
/// the counter delta divided by the elapsed seconds.
pub proof fn lemma_rate_exact(prev: StatPoint, cur: StatPoint, secs: u64)
    requires
        secs >= 1,
        cur.ts_ms == prev.ts_ms + secs * 1000,
        cur.rx_bytes >= prev.rx_bytes,
        cur.tx_bytes >= prev.tx_bytes,
    ensures
        spec_rate(Some(prev), cur).rx_per_s == (cur.rx_bytes - prev.rx_bytes) / (secs as int),
        spec_rate(Some(prev), cur).tx_per_s == (cur.tx_bytes - prev.tx_bytes) / (secs as int),
{
    let dt = spec_dt_ms(prev.ts_ms, cur.ts_ms);
    assert(dt == secs * 1000) by (nonlinear_arith)
        requires
            secs >= 1,
            cur.ts_ms == prev.ts_ms + secs * 1000,
            dt == spec_dt_ms(prev.ts_ms, cur.ts_ms),
    ;
    lemma_scaled_quotient((cur.rx_bytes - prev.rx_bytes) as nat, secs as nat);
    lemma_scaled_quotient((cur.tx_bytes - prev.tx_bytes) as nat, secs as nat);
}

proof fn lemma_scaled_quotient(delta: nat, secs: nat)
    requires
        secs >= 1,
    ensures
        delta * 1000 / (secs * 1000) == delta / secs,
        delta / secs <= delta,
{
    assert(delta * 1000 / (secs * 1000) == delta / secs) by (nonlinear_arith)
        requires
            secs >= 1,
    ;
    assert(delta / secs <= delta) by (nonlinear_arith)
        requires
            secs >= 1,
    ;
}

/// A receive counter reset (current value below the previous one) yields
/// a receive rate of zero, never a negative or wrapped value; likewise
/// for transmit.
pub proof fn lemma_reset_rate_zero(prev: StatPoint, cur: StatPoint)
    ensures
        cur.rx_bytes < prev.rx_bytes ==> spec_rate(Some(prev), cur).rx_per_s == 0,
        cur.tx_bytes < prev.tx_bytes ==> spec_rate(Some(prev), cur).tx_per_s == 0,
{
}

/// With no previous snapshot, both directions are zero regardless of the
/// current counter values.
pub proof fn lemma_first_sample_rate_zero(cur: StatPoint)
    ensures
        spec_rate(None, cur) == (Rate { rx_per_s: 0, tx_per_s: 0 }),
{
}

/// The previous-snapshot entries as the rate calculator sees them: a
/// name (as characters) paired with the snapshot last recorded under it.
pub type PrevEntries = Seq<(Seq<char>, StatPoint)>;

/// The snapshot recorded under `name`, by first match.
pub open spec fn lookup_prev(m: PrevEntries, name: Seq<char>) -> Option<StatPoint>
    decreases m.len(),
{
    if m.len() == 0 {
        None
    } else if m[0].0 == name {
        Some(m[0].1)
    } else {
        lookup_prev(m.drop_first(), name)
    }
}

/// `m` with `sp` recorded under `name`: the first entry of that name is
/// replaced in place, or a new entry is appended.
pub open spec fn store_prev(m: PrevEntries, name: Seq<char>, sp: StatPoint) -> PrevEntries
    decreases m.len(),
{
    if m.len() == 0 {
        seq![(name, sp)]
    } else if m[0].0 == name {
        seq![(name, sp)] + m.drop_first()
    } else {
        seq![m[0]] + store_prev(m.drop_first(), name, sp)
    }
}

proof fn lemma_lookup_skip(m: PrevEntries, name: Seq<char>, i: int)
    requires
        0 <= i <= m.len(),
        forall|j: int| 0 <= j < i ==> m[j].0 != name,
    ensures
        lookup_prev(m, name) == lookup_prev(m.skip(i), name),
    decreases i,
{
    if i > 0 {
        assert(m.drop_first().skip(i - 1) =~= m.skip(i));
        lemma_lookup_skip(m.drop_first(), name, i - 1);
    } else {
        assert(m.skip(0) =~= m);
    }
}

proof fn lemma_store_skip(m: PrevEntries, name: Seq<char>, sp: StatPoint, i: int)
    requires
        0 <= i <= m.len(),
        forall|j: int| 0 <= j < i ==> m[j].0 != name,
    ensures
        store_prev(m, name, sp) =~= m.take(i) + store_prev(m.skip(i), name, sp),
    decreases i,
{
    if i > 0 {
        assert(m.drop_first().skip(i - 1) =~= m.skip(i));
        lemma_store_skip(m.drop_first(), name, sp, i - 1);
        assert(m.take(i) =~= seq![m[0]] + m.drop_first().take(i - 1));
    } else {
        assert(m.skip(0) =~= m);
        assert(m.take(0) + store_prev(m, name, sp) =~= store_prev(m, name, sp));
    }
}

/// The previous-snapshot map: one entry per interface name, replaced as
/// new snapshots are recorded and cleared wholesale on rescan.
pub struct PrevMap {
    entries: Vec<(String, StatPoint)>,
}

impl View for PrevMap {
    type V = PrevEntries;

    closed spec fn view(&self) -> PrevEntries {
        self.entries@.map_values(|e: (String, StatPoint)| (e.0@, e.1))
    }
}

impl PrevMap {
    /// An empty map.
    pub fn new() -> (r: Self)
        ensures
            r@ == Seq::<(Seq<char>, StatPoint)>::empty(),
    {
        let r = PrevMap { entries: Vec::new() };
        proof {
            assert(r@ =~= Seq::<(Seq<char>, StatPoint)>::empty());
        }
        r
    }

    /// Forgets every recorded snapshot.
    pub fn clear(&mut self)
        ensures
            final(self)@ == Seq::<(Seq<char>, StatPoint)>::empty(),
    {
        self.entries.clear();
        proof {
            assert(self@ =~= Seq::<(Seq<char>, StatPoint)>::empty());
        }
    }

    /// The snapshot recorded under `name`, if any.
    pub fn get(&self, name: &str) -> (r: Option<StatPoint>)
        ensures
            r == lookup_prev(self@, name@),
    {
        let n: usize = self.entries.len();
        let mut i: usize = 0;
        while i < n
            invariant
                n == self.entries.len(),
                i <= n,
                self@.len() == n,
                forall|j: int| 0 <= j < n ==> self@[j] == (self.entries@[j].0@, self.entries@[j].1),
                forall|j: int| 0 <= j < i ==> self@[j].0 != name@,
            decreases n - i,
        {
            if eq_str(self.entries[i].0.as_str(), name) {
                proof {
                    lemma_lookup_skip(self@, name@, i as int);
                    assert(self@.skip(i as int)[0] == self@[i as int]);
                }
                return Some(self.entries[i].1);
            }
            i = i + 1;
        }
        proof {
            lemma_lookup_skip(self@, name@, n as int);
            assert(self@.skip(n as int) =~= Seq::<(Seq<char>, StatPoint)>::empty());
        }
        None
    }

    /// Records `sp` under `name`, replacing any earlier entry of that
    /// name in place.
    pub fn insert(&mut self, name: &str, sp: StatPoint)
        ensures
            final(self)@ == store_prev(old(self)@, name@, sp),
    {
        let ghost m0: PrevEntries = old(self)@;
        let n: usize = self.entries.len();
        let mut i: usize = 0;
        while i < n
            invariant
                n == self.entries.len(),
                i <= n,
                m0 == old(self)@,
                self@ == m0,
                m0.len() == n,
                forall|j: int| 0 <= j < n ==> m0[j] == (self.entries@[j].0@, self.entries@[j].1),
                forall|j: int| 0 <= j < i ==> m0[j].0 != name@,
            decreases n - i,
        {
            if eq_str(self.entries[i].0.as_str(), name) {
                let owned: String = name.to_owned();
                self.entries.set(i, (owned, sp));
                proof {
                    lemma_store_skip(m0, name@, sp, i as int);
                    assert(m0.skip(i as int)[0] == m0[i as int]);
                    assert(store_prev(m0.skip(i as int), name@, sp) =~= seq![(name@, sp)]
                        + m0.skip(i as int).drop_first());
                    assert(m0.skip(i as int).drop_first() =~= m0.skip(i + 1));
                    assert(self@ =~= m0.take(i as int) + (seq![(name@, sp)] + m0.skip(i + 1)));
                    assert(self@ =~= store_prev(m0, name@, sp));
                }
                return ;
            }
            i = i + 1;
        }
        let owned: String = name.to_owned();
        self.entries.push((owned, sp));
        proof {
            lemma_store_skip(m0, name@, sp, n as int);
            assert(m0.skip(n as int) =~= Seq::<(Seq<char>, StatPoint)>::empty());
            assert(store_prev(m0.skip(n as int), name@, sp) =~= seq![(name@, sp)]);
            assert(self@ =~= m0.take(n as int) + seq![(name@, sp)]);
            assert(self@ =~= store_prev(m0, name@, sp));
        }
    }
}

} // verus!

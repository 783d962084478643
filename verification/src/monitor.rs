//! The monitor session: one explicit state struct for the sampling
//! scheduler, the selection and popup state machine, and the per-tick
//! rebuild of the row cache.
//!
//! The drawing loop around it polls the keyboard, reads counters and
//! renders; every decision it takes is a method here, with a contract
//! that pins the next state exactly.

use vstd::prelude::*;

use crate::rate::{
    Counters, PrevEntries, PrevMap, StatPoint, lookup_prev, spec_rate, store_prev, compute_rate,
};
use crate::rows::{
    IfaceSample, RowData, RowModel, SampleModel, SortKey, rows_view, samples_view, sort_desc,
    sort_rows,
};
use crate::unitfmt::Unit;

verus! {

/// A keyboard action, already decoded from the raw terminal event.
#[derive(Clone, Copy, Debug, PartialEq, Eq, Structural)]
pub enum KeyAction {
    Quit,
    CycleSort,
    Rescan,
    Up,
    Down,
    Enter,
    Escape,
    Other,
}

/// What the loop must do after dispatching one key.
#[derive(Clone, Copy, Debug, PartialEq, Eq, Structural)]
pub enum Step {
    Continue,
    Quit,
    Rescan,
}

/// Saturating addition on `u64`.
pub open spec fn sat_add_u64(a: u64, b: u64) -> u64 {
    if a + b > u64::MAX {
        u64::MAX
    } else {
        (a + b) as u64
    }
}

/// The tick interval in milliseconds for a requested whole-second
/// interval: floored at one second, saturated to `u64::MAX`.
pub open spec fn spec_interval_ms(interval_s: u64) -> u64 {
    let s: u64 = if interval_s < 1 {
        1
    } else {
        interval_s
    };
    if s > u64::MAX / 1000 {
        u64::MAX
    } else {
        (s * 1000) as u64
    }
}

/// The selection index clamped to a row count: zero on an empty row
/// set, at most the last valid index otherwise.
pub open spec fn spec_clamp_index(sel: int, m: int) -> int {
    if m == 0 {
        0
    } else if sel >= m {
        m - 1
    } else {
        sel
    }
}

/// The highest scroll offset the popup admits for its content and
/// window heights: `max(0, content - visible) + 2`, saturated to
/// `u16::MAX`.
pub open spec fn spec_max_scroll(content_lines: u16, visible_lines: u16) -> u16 {
    let excess: u16 = if content_lines > visible_lines {
        (content_lines - visible_lines) as u16
    } else {
        0
    };
    if excess + 2 > u16::MAX {
        u16::MAX
    } else {
        (excess + 2) as u16
    }
}

/// A rectangle on the terminal grid.
#[derive(Clone, Copy, Debug, PartialEq, Eq, Structural)]
pub struct ScreenRect {
    pub x: u16,
    pub y: u16,
    pub width: u16,
    pub height: u16,
}

/// One axis of the centered overlay: a span `percent` hundredths of
/// `len` long, after a lead margin of `(100 - percent) / 2` hundredths,
/// both truncated.  A percentage above one hundred is clamped, and the
/// start saturates if the given rectangle already ran past the grid.
pub open spec fn spec_centered_span(offset: u16, len: u16, percent: u16) -> (u16, u16) {
    let p: int = if percent > 100 {
        100int
    } else {
        percent as int
    };
    let lead: int = len * ((100 - p) / 2) / 100;
    let size: int = len * p / 100;
    let start: int = if offset + lead > u16::MAX {
        u16::MAX as int
    } else {
        offset + lead
    };
    ((start as u16), (size as u16))
}

fn centered_span(offset: u16, len: u16, percent: u16) -> (r: (u16, u16))
    ensures
        r == spec_centered_span(offset, len, percent),
{
    let p: u32 = if percent > 100 {
        100
    } else {
        percent as u32
    };
    proof {
        lemma_mul_bounded(len as int, ((100 - p) / 2) as int);
        lemma_mul_bounded(len as int, p as int);
    }
    let lead: u32 = (len as u32) * ((100 - p) / 2) / 100;
    let size: u32 = (len as u32) * p / 100;
    proof {
        lemma_hundredths_at_most(len as int, ((100 - p) / 2) as int);
        lemma_hundredths_at_most(len as int, p as int);
    }
    let start: u16 = if (offset as u32) + lead > u16::MAX as u32 {
        u16::MAX
    } else {
        offset + (lead as u16)
    };
    (start, size as u16)
}

proof fn lemma_mul_bounded(len: int, q: int)
    requires
        0 <= len <= 0xFFFF,
        0 <= q <= 100,
    ensures
        0 <= len * q <= 0xFFFF * 100,
{
    assert(0 <= len * q <= 0xFFFF * 100) by (nonlinear_arith)
        requires
            0 <= len <= 0xFFFF,
            0 <= q <= 100,
    ;
}

proof fn lemma_hundredths_at_most(len: int, q: int)
    requires
        0 <= len,
        0 <= q <= 100,
    ensures
        len * q / 100 <= len,
{
    assert(len * q / 100 <= len) by (nonlinear_arith)
        requires
            0 <= len,
            0 <= q <= 100,
    ;
}

/// The popup's bounding box: a rectangle `percent_x` hundredths of the
/// frame wide and `percent_y` hundredths tall, centered in it up to
/// truncation.
pub fn centered_rect(percent_x: u16, percent_y: u16, r: ScreenRect) -> (c: ScreenRect)
    ensures
        (c.x, c.width) == spec_centered_span(r.x, r.width, percent_x),
        (c.y, c.height) == spec_centered_span(r.y, r.height, percent_y),
{
    let (x, width) = centered_span(r.x, r.width, percent_x);
    let (y, height) = centered_span(r.y, r.height, percent_y);
    ScreenRect { x, y, width, height }
}

/// The centered overlay lies within any rectangle that itself lies on
/// the grid.
pub proof fn lemma_centered_rect_within(percent_x: u16, percent_y: u16, r: ScreenRect)
    requires
        r.x + r.width <= u16::MAX,
        r.y + r.height <= u16::MAX,
    ensures
        ({
            let (x, w) = spec_centered_span(r.x, r.width, percent_x);
            r.x <= x && x + w <= r.x + r.width
        }),
        ({
            let (y, h) = spec_centered_span(r.y, r.height, percent_y);
            r.y <= y && y + h <= r.y + r.height
        }),
{
    lemma_centered_span_within(r.x, r.width, percent_x);
    lemma_centered_span_within(r.y, r.height, percent_y);
}

proof fn lemma_centered_span_within(offset: u16, len: u16, percent: u16)
    requires
        offset + len <= u16::MAX,
    ensures
        ({
            let (s, z) = spec_centered_span(offset, len, percent);
            offset <= s && s + z <= offset + len
        }),
{
    let p: int = if percent > 100 {
        100int
    } else {
        percent as int
    };
    let q: int = (100 - p) / 2;
    let lead: int = len * q / 100;
    let size: int = len * p / 100;
    assert(lead + size <= len) by (nonlinear_arith)
        requires
            0 <= len,
            0 <= p <= 100,
            q == (100 - p) / 2,
            lead == len * q / 100,
            size == len * p / 100,
    ;
    lemma_hundredths_at_most(len as int, q);
}

/// The mathematical image of a monitor session.
pub ghost struct MonitorModel {
    pub sort: SortKey,
    pub target: Option<Seq<char>>,
    pub interval_ms: u64,
    pub unit: Unit,
    pub selected: usize,
    pub popup_open: bool,
    pub popup_scroll: u16,
    pub rows: Seq<RowModel>,
    pub prev: PrevEntries,
    pub next_tick_ms: u64,
}

/// The monitor session state: sort key, optional single-interface
/// filter, cadence, display unit, selection and popup state, the row
/// cache of the latest tick, and the previous-snapshot map.
pub struct MonitorState {
    pub sort: SortKey,
    pub target: Option<String>,
    pub interval_ms: u64,
    pub unit: Unit,
    pub selected: usize,
    pub popup_open: bool,
    pub popup_scroll: u16,
    pub rows: Vec<RowData>,
    pub prev: PrevMap,
    pub next_tick_ms: u64,
}

impl View for MonitorState {
    type V = MonitorModel;

    open spec fn view(&self) -> MonitorModel {
        MonitorModel {
            sort: self.sort,
            target: match self.target {
                Some(t) => Some(t@),
                None => None,
            },
            interval_ms: self.interval_ms,
            unit: self.unit,
            selected: self.selected,
            popup_open: self.popup_open,
            popup_scroll: self.popup_scroll,
            rows: rows_view(self.rows@),
            prev: self.prev@,
            next_tick_ms: self.next_tick_ms,
        }
    }
}

/// The state after one key, as the dispatcher leaves it.
pub open spec fn spec_step(m: MonitorModel, key: KeyAction) -> MonitorModel {
    match key {
        KeyAction::Quit => m,
        KeyAction::CycleSort => MonitorModel { sort: m.sort.spec_cycle(), ..m },
        KeyAction::Rescan => MonitorModel { prev: Seq::empty(), ..m },
        KeyAction::Up => if m.popup_open {
            MonitorModel {
                popup_scroll: if m.popup_scroll > 0 {
                    (m.popup_scroll - 1) as u16
                } else {
                    0
                },
                ..m
            }
        } else {
            MonitorModel {
                selected: if m.selected > 0 {
                    (m.selected - 1) as usize
                } else {
                    0
                },
                ..m
            }
        },
        KeyAction::Down => if m.popup_open {
            MonitorModel {
                popup_scroll: if m.popup_scroll < u16::MAX {
                    (m.popup_scroll + 1) as u16
                } else {
                    u16::MAX
                },
                ..m
            }
        } else {
            MonitorModel {
                selected: if m.selected + 1 < m.rows.len() {
                    (m.selected + 1) as usize
                } else {
                    m.selected
                },
                ..m
            }
        },
        KeyAction::Enter => MonitorModel { popup_open: true, popup_scroll: 0, ..m },
        KeyAction::Escape => MonitorModel { popup_open: false, ..m },
        KeyAction::Other => m,
    }
}

/// What the loop must do after the key.
pub open spec fn spec_step_out(key: KeyAction) -> Step {
    match key {
        KeyAction::Quit => Step::Quit,
        KeyAction::Rescan => Step::Rescan,
        _ => Step::Continue,
    }
}

/// The row built for one successfully sampled interface.
pub open spec fn row_of(s: SampleModel, c: Counters, prevo: Option<StatPoint>, now: u64) -> RowModel {
    let rate = spec_rate(prevo, StatPoint { rx_bytes: c.rx_bytes, tx_bytes: c.tx_bytes, ts_ms: now });
    RowModel {
        index: s.index,
        name: s.name,
        friendly_name: s.friendly_name,
        total: sat_add_u64(c.rx_bytes, c.tx_bytes),
        total_rx: c.rx_bytes,
        total_tx: c.tx_bytes,
        rx: rate.rx_per_s,
        tx: rate.tx_per_s,
    }
}

/// One tick over a sample list: interfaces without counters are
/// skipped, each other interface yields one row whose rates come from
/// the previous snapshot recorded under its name, and the map is
/// updated with the fresh snapshot as the walk proceeds.  Yields the
/// unsorted rows and the final map.
pub open spec fn tick_fold(ss: Seq<SampleModel>, prev: PrevEntries, now: u64) -> (
    Seq<RowModel>,
    PrevEntries,
)
    decreases ss.len(),
{
    if ss.len() == 0 {
        (Seq::empty(), prev)
    } else {
        let s = ss[0];
        match s.stats {
            None => tick_fold(ss.drop_first(), prev, now),
            Some(c) => {
                let sp = StatPoint { rx_bytes: c.rx_bytes, tx_bytes: c.tx_bytes, ts_ms: now };
                let row = row_of(s, c, lookup_prev(prev, s.name), now);
                let rest = tick_fold(ss.drop_first(), store_prev(prev, s.name, sp), now);
                (seq![row] + rest.0, rest.1)
            },
        }
    }
}

/// The whole session state after one tick: rows rebuilt and sorted by
/// the active key, the snapshot map updated, the selection clamped to
/// the new row count, and the next tick scheduled one interval further
/// (accumulated, never recomputed from the current time).
pub open spec fn spec_tick(m: MonitorModel, ss: Seq<SampleModel>, now: u64) -> MonitorModel {
    let folded = tick_fold(ss, m.prev, now);
    let sorted = sort_desc(folded.0, m.sort);
    MonitorModel {
        rows: sorted,
        prev: folded.1,
        selected: spec_clamp_index(m.selected as int, sorted.len() as int) as usize,
        next_tick_ms: sat_add_u64(m.next_tick_ms, m.interval_ms),
        ..m
    }
}

fn clone_opt_string(o: &Option<String>) -> (r: Option<String>)
    ensures
        r is Some <==> o is Some,
        o is Some ==> r->0@ == o->0@,
{
    match o {
        Some(s) => Some(s.clone()),
        None => None,
    }
}

fn sat_add(a: u64, b: u64) -> (r: u64)
    ensures
        r == sat_add_u64(a, b),
{
    if a <= u64::MAX - b {
        a + b
    } else {
        u64::MAX
    }
}

fn clamp_index(sel: usize, m: usize) -> (r: usize)
    ensures
        r as int == spec_clamp_index(sel as int, m as int),
{
    if m == 0 {
        0
    } else if sel >= m {
        m - 1
    } else {
        sel
    }
}

impl MonitorState {
    /// A fresh session: given filter, initial sort key, requested
    /// whole-second interval and display unit; empty row cache, empty
    /// snapshot map, selection at zero, popup closed, first tick due at
    /// `now_ms`.
    pub fn new(
        target: Option<String>,
        sort: SortKey,
        interval_s: u64,
        unit: Unit,
        now_ms: u64,
    ) -> (r: MonitorState)
        ensures
            r@.sort == sort,
            r@.target == (match target {
                Some(t) => Some(t@),
                None => None::<Seq<char>>,
            }),
            r@.interval_ms == spec_interval_ms(interval_s),
            r@.unit == unit,
            r@.selected == 0,
            r@.popup_open == false,
            r@.popup_scroll == 0,
            r@.rows == Seq::<RowModel>::empty(),
            r@.prev == Seq::<(Seq<char>, StatPoint)>::empty(),
            r@.next_tick_ms == now_ms,
    {
        let s: u64 = if interval_s < 1 {
            1
        } else {
            interval_s
        };
        let interval_ms: u64 = if s > u64::MAX / 1000 {
            u64::MAX
        } else {
            s * 1000
        };
        let r = MonitorState {
            sort,
            target,
            interval_ms,
            unit,
            selected: 0,
            popup_open: false,
            popup_scroll: 0,
            rows: Vec::new(),
            prev: PrevMap::new(),
            next_tick_ms: now_ms,
        };
        proof {
            assert(rows_view(r.rows@) =~= Seq::<RowModel>::empty());
        }
        r
    }

    /// How long the loop may wait for input before the next tick is
    /// due: the remaining time, or zero when already past due.
    pub fn remaining_ms(&self, now_ms: u64) -> (r: u64)
        ensures
            r == if now_ms >= self@.next_tick_ms {
                0u64
            } else {
                (self@.next_tick_ms - now_ms) as u64
            },
    {
        if now_ms >= self.next_tick_ms {
            0
        } else {
            self.next_tick_ms - now_ms
        }
    }

    /// Dispatches one decoded key.  Selection moves are clamped to the
    /// cached row count; in the popup the same keys scroll instead;
    /// `Enter` opens the popup with the scroll reset; `Escape` closes
    /// it leaving the selection untouched; the rescan key forgets every
    /// previous snapshot so the next tick starts its rates from zero.
    pub fn handle_key(&mut self, key: KeyAction) -> (s: Step)
        ensures
            final(self)@ == spec_step(old(self)@, key),
            s == spec_step_out(key),
    {
        match key {
            KeyAction::Quit => {
                Step::Quit
            },
            KeyAction::CycleSort => {
                self.sort = self.sort.cycle();
                Step::Continue
            },
            KeyAction::Rescan => {
                self.prev.clear();
                Step::Rescan
            },
            KeyAction::Up => {
                if self.popup_open {
                    if self.popup_scroll > 0 {
                        self.popup_scroll = self.popup_scroll - 1;
                    }
                } else {
                    if self.selected > 0 {
                        self.selected = self.selected - 1;
                    }
                }
                Step::Continue
            },
            KeyAction::Down => {
                if self.popup_open {
                    if self.popup_scroll < u16::MAX {
                        self.popup_scroll = self.popup_scroll + 1;
                    }
                } else {
                    let len: usize = self.rows.len();
                    if len > 0 && self.selected < len - 1 {
                        self.selected = self.selected + 1;
                    }
                }
                Step::Continue
            },
            KeyAction::Enter => {
                self.popup_open = true;
                self.popup_scroll = 0;
                Step::Continue
            },
            KeyAction::Escape => {
                self.popup_open = false;
                Step::Continue
            },
            KeyAction::Other => {
                Step::Continue
            },
        }
    }

    /// Performs one tick: reads the handed samples, derives each rate
    /// from the snapshot recorded under the same name, replaces the row
    /// cache with the freshly sorted rows, clamps the selection, and
    /// advances the schedule by one interval.
    pub fn on_tick(&mut self, samples: &Vec<IfaceSample>, now_ms: u64)
        ensures
            final(self)@ == spec_tick(old(self)@, samples_view(samples@), now_ms),
    {
        let ghost m0: MonitorModel = self@;
        let ghost ss: Seq<SampleModel> = samples_view(samples@);
        let mut new_rows: Vec<RowData> = Vec::new();
        let n: usize = samples.len();
        let mut i: usize = 0;
        proof {
            assert(ss.skip(0) =~= ss);
            assert(rows_view(new_rows@) =~= Seq::<RowModel>::empty());
        }
        while i < n
            invariant
                n == samples@.len(),
                i <= n,
                ss == samples_view(samples@),
                forall|j: int| 0 <= j < n ==> ss[j] == samples@[j]@,
                self.sort == m0.sort,
                self.target == old(self).target,
                self.interval_ms == m0.interval_ms,
                self.unit == m0.unit,
                self.selected == m0.selected,
                self.popup_open == m0.popup_open,
                self.popup_scroll == m0.popup_scroll,
                self.rows == old(self).rows,
                self.next_tick_ms == m0.next_tick_ms,
                tick_fold(ss, m0.prev, now_ms).0 == rows_view(new_rows@) + tick_fold(
                    ss.skip(i as int),
                    self.prev@,
                    now_ms,
                ).0,
                tick_fold(ss, m0.prev, now_ms).1 == tick_fold(
                    ss.skip(i as int),
                    self.prev@,
                    now_ms,
                ).1,
            decreases n - i,
        {
            let ghost prev_cur: PrevEntries = self.prev@;
            let ghost rows_cur: Seq<RowModel> = rows_view(new_rows@);
            let s: &IfaceSample = &samples[i];
            match &s.stats {
                None => {
                    proof {
                        assert(ss.skip(i as int)[0] == ss[i as int]);
                        assert(ss.skip(i as int).drop_first() =~= ss.skip(i as int + 1));
                    }
                },
                Some(c) => {
                    let sp = StatPoint { rx_bytes: c.rx_bytes, tx_bytes: c.tx_bytes, ts_ms: now_ms };
                    let prevo: Option<StatPoint> = self.prev.get(s.name.as_str());
                    let rate = compute_rate(prevo, sp);
                    self.prev.insert(s.name.as_str(), sp);
                    let total: u64 = sat_add(c.rx_bytes, c.tx_bytes);
                    let row = RowData {
                        index: s.index,
                        name: s.name.clone(),
                        friendly_name: clone_opt_string(&s.friendly_name),
                        total,
                        total_rx: c.rx_bytes,
                        total_tx: c.tx_bytes,
                        rx: rate.rx_per_s,
                        tx: rate.tx_per_s,
                    };
                    proof {
                        assert(row@ == row_of(ss[i as int], *c, lookup_prev(prev_cur, ss[i as int].name), now_ms));
                    }
                    new_rows.push(row);
                    proof {
                        assert(ss.skip(i as int)[0] == ss[i as int]);
                        assert(ss.skip(i as int).drop_first() =~= ss.skip(i as int + 1));
                        assert(rows_view(new_rows@) =~= rows_cur.push(
                            row_of(ss[i as int], *c, lookup_prev(prev_cur, ss[i as int].name), now_ms),
                        ));
                        assert(rows_cur + tick_fold(ss.skip(i as int), prev_cur, now_ms).0
                            =~= rows_view(new_rows@) + tick_fold(ss.skip(i as int + 1), self.prev@, now_ms).0);
                    }
                },
            }
            i = i + 1;
        }
        proof {
            assert(ss.skip(n as int) =~= Seq::<SampleModel>::empty());
            assert(rows_view(new_rows@) + Seq::<RowModel>::empty() =~= rows_view(new_rows@));
            assert(tick_fold(ss, m0.prev, now_ms).0 == rows_view(new_rows@));
            assert(tick_fold(ss, m0.prev, now_ms).1 == self.prev@);
        }
        sort_rows(&mut new_rows, self.sort);
        self.rows = new_rows;
        let m: usize = self.rows.len();
        self.selected = clamp_index(self.selected, m);
        self.next_tick_ms = sat_add(self.next_tick_ms, self.interval_ms);
    }
}

/// After any tick, the cached rows stand in non-increasing order of
/// the session's active sort key at every adjacent pair.
pub proof fn lemma_tick_rows_sorted(m: MonitorModel, ss: Seq<SampleModel>, now: u64)
    ensures
        crate::rows::sorted_desc(spec_tick(m, ss, now).rows, m.sort),
{
    crate::rows::lemma_sort_desc_sorted(tick_fold(ss, m.prev, now).0, m.sort);
}

/// A selection at index `k` is clamped to `max(0, m - 1)` whenever the
/// row count shrinks to some `m <= k`.
pub proof fn lemma_selection_clamp(k: int, m: int)
    requires
        0 <= m <= k,
    ensures
        spec_clamp_index(k, m) == if m == 0 {
            0int
        } else {
            m - 1
        },
{
}

/// After a rescan the snapshot map is empty, and the tick that follows
/// derives a zero rate for every interface, whatever its counters —
/// provided each interface appears once, which is the identity
/// invariant of the row model.
pub proof fn lemma_tick_after_rescan_rates_zero(ss: Seq<SampleModel>, now: u64)
    requires
        forall|j1: int, j2: int| 0 <= j1 < j2 < ss.len() ==> ss[j1].name != ss[j2].name,
    ensures
        forall|j: int|
            0 <= j < tick_fold(ss, Seq::empty(), now).0.len() ==> #[trigger] tick_fold(
                ss,
                Seq::empty(),
                now,
            ).0[j].rx == 0 && tick_fold(ss, Seq::empty(), now).0[j].tx == 0,
{
    assert forall|j: int| 0 <= j < ss.len() implies lookup_prev(
        Seq::empty(),
        ss[j].name,
    ) is None by {}
    lemma_tick_fold_fresh_rates_zero(ss, Seq::empty(), now);
}

/// In a tick started from a snapshot map that holds no entry for any
/// sampled name, every produced row has rate zero in both directions:
/// the first tick after start or after a rescan reports zero.
proof fn lemma_tick_fold_fresh_rates_zero(ss: Seq<SampleModel>, prev: PrevEntries, now: u64)
    requires
        forall|j: int| 0 <= j < ss.len() ==> lookup_prev(prev, ss[j].name) is None,
        forall|j1: int, j2: int| 0 <= j1 < j2 < ss.len() ==> ss[j1].name != ss[j2].name,
    ensures
        forall|j: int|
            0 <= j < tick_fold(ss, prev, now).0.len() ==> #[trigger] tick_fold(
                ss,
                prev,
                now,
            ).0[j].rx == 0 && tick_fold(ss, prev, now).0[j].tx == 0,
    decreases ss.len(),
{
    if ss.len() > 0 {
        let s = ss[0];
        let rest = ss.drop_first();
        assert(forall|j: int| 0 <= j < rest.len() ==> rest[j] == ss[j + 1]);
        match s.stats {
            None => {
                lemma_tick_fold_fresh_rates_zero(rest, prev, now);
                assert(tick_fold(ss, prev, now).0 == tick_fold(rest, prev, now).0);
                assert forall|j: int| 0 <= j < tick_fold(ss, prev, now).0.len() implies #[trigger] tick_fold(
                    ss,
                    prev,
                    now,
                ).0[j].rx == 0 && tick_fold(ss, prev, now).0[j].tx == 0 by {
                    assert(tick_fold(ss, prev, now).0[j] == tick_fold(rest, prev, now).0[j]);
                }
            },
            Some(c) => {
                let sp = StatPoint { rx_bytes: c.rx_bytes, tx_bytes: c.tx_bytes, ts_ms: now };
                let prev1 = store_prev(prev, s.name, sp);
                lemma_store_lookup(prev, s.name, sp);
                assert forall|j: int| 0 <= j < rest.len() implies lookup_prev(
                    prev1,
                    rest[j].name,
                ) is None by {
                    assert(rest[j].name != s.name);
                }
                lemma_tick_fold_fresh_rates_zero(rest, prev1, now);
                let row = row_of(s, c, lookup_prev(prev, s.name), now);
                assert(row.rx == 0 && row.tx == 0);
                assert forall|j: int| 0 <= j < tick_fold(ss, prev, now).0.len() implies #[trigger] tick_fold(
                    ss,
                    prev,
                    now,
                ).0[j].rx == 0 && tick_fold(ss, prev, now).0[j].tx == 0 by {
                    if j > 0 {
                        assert(tick_fold(ss, prev, now).0[j] == tick_fold(rest, prev1, now).0[j - 1]);
                    }
                }
            },
        }
    }
}

/// Looking a name up after a store finds the stored snapshot; every
/// other name sees what it saw before.
pub proof fn lemma_store_lookup(m: PrevEntries, name: Seq<char>, sp: StatPoint)
    ensures
        lookup_prev(store_prev(m, name, sp), name) == Some(sp),
        forall|other: Seq<char>|
            other != name ==> #[trigger] lookup_prev(store_prev(m, name, sp), other) == lookup_prev(
                m,
                other,
            ),
    decreases m.len(),
{
    if m.len() > 0 && m[0].0 != name {
        lemma_store_lookup(m.drop_first(), name, sp);
        assert forall|other: Seq<char>| other != name implies #[trigger] lookup_prev(
            store_prev(m, name, sp),
            other,
        ) == lookup_prev(m, other) by {
            let st = store_prev(m, name, sp);
            assert(st == seq![m[0]] + store_prev(m.drop_first(), name, sp));
            assert(st.len() > 0);
            assert(st[0] == m[0]);
            assert(st.drop_first() =~= store_prev(m.drop_first(), name, sp));
            assert(lookup_prev(store_prev(m.drop_first(), name, sp), other) == lookup_prev(
                m.drop_first(),
                other,
            ));
            if other == m[0].0 {
                assert(lookup_prev(st, other) == Some(m[0].1));
                assert(lookup_prev(m, other) == Some(m[0].1));
            } else {
                assert(lookup_prev(st, other) == lookup_prev(st.drop_first(), other));
                assert(lookup_prev(m, other) == lookup_prev(m.drop_first(), other));
            }
        }
        let st = store_prev(m, name, sp);
        assert(st[0] == m[0]);
        assert(st.drop_first() =~= store_prev(m.drop_first(), name, sp));
        assert(lookup_prev(st, name) == lookup_prev(store_prev(m.drop_first(), name, sp), name));
    } else if m.len() > 0 {
        assert forall|other: Seq<char>| other != name implies #[trigger] lookup_prev(
            store_prev(m, name, sp),
            other,
        ) == lookup_prev(m, other) by {
            let st = store_prev(m, name, sp);
            assert(st == seq![(name, sp)] + m.drop_first());
            assert(st[0] == (name, sp));
            assert(st.drop_first() =~= m.drop_first());
            assert(lookup_prev(st, other) == lookup_prev(st.drop_first(), other));
            assert(lookup_prev(m, other) == lookup_prev(m.drop_first(), other));
        }
        let st = store_prev(m, name, sp);
        assert(st[0] == (name, sp));
        assert(lookup_prev(st, name) == Some(sp));
    } else {
        assert forall|other: Seq<char>| other != name implies #[trigger] lookup_prev(
            store_prev(m, name, sp),
            other,
        ) == lookup_prev(m, other) by {
            let st = store_prev(m, name, sp);
            assert(st == seq![(name, sp)]);
            assert(st.drop_first() =~= Seq::<(Seq<char>, StatPoint)>::empty());
            assert(lookup_prev(st, other) == lookup_prev(st.drop_first(), other));
        }
        assert(store_prev(m, name, sp)[0] == (name, sp));
    }
}

impl MonitorState {
    /// Clamps the popup scroll to what the popup's content and window
    /// admit: `max(0, contentLines - visibleLines) + 2`.  Called by the
    /// renderer each frame before it applies the offset.
    pub fn clamp_popup_scroll(&mut self, content_lines: u16, visible_lines: u16)
        ensures
            final(self)@ == (MonitorModel {
                popup_scroll: if old(self)@.popup_scroll > spec_max_scroll(
                    content_lines,
                    visible_lines,
                ) {
                    spec_max_scroll(content_lines, visible_lines)
                } else {
                    old(self)@.popup_scroll
                },
                ..old(self)@
            }),
            final(self)@.popup_scroll <= spec_max_scroll(content_lines, visible_lines),
    {
        let excess: u16 = if content_lines > visible_lines {
            content_lines - visible_lines
        } else {
            0
        };
        let max_scroll: u16 = if excess <= u16::MAX - 2 {
            excess + 2
        } else {
            u16::MAX
        };
        if self.popup_scroll > max_scroll {
            self.popup_scroll = max_scroll;
        }
    }
}

} // verus!

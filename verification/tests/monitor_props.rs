use nifa::monitor::{centered_rect, KeyAction, MonitorState, ScreenRect, Step};
use nifa::rate::{compute_rate, Counters, Rate, StatPoint};
use nifa::rows::{IfaceSample, SortKey};
use nifa::unitfmt::{human_rate, Unit};

fn sample(index: u32, name: &str, rx: u64, tx: u64) -> IfaceSample {
    IfaceSample {
        index,
        name: name.to_string(),
        friendly_name: None,
        stats: Some(Counters { rx_bytes: rx, tx_bytes: tx }),
    }
}

#[test]
fn rate_exact_over_one_second() {
    let prev = StatPoint { rx_bytes: 1000, tx_bytes: 0, ts_ms: 0 };
    let cur = StatPoint { rx_bytes: 2000, tx_bytes: 0, ts_ms: 1000 };
    let r = compute_rate(Some(prev), cur);
    assert_eq!(r.rx_per_s, 1000);
    assert_eq!(r.tx_per_s, 0);
}

#[test]
fn rate_truncates_partial_quotient() {
    let prev = StatPoint { rx_bytes: 0, tx_bytes: 0, ts_ms: 0 };
    let cur = StatPoint { rx_bytes: 999, tx_bytes: 0, ts_ms: 2000 };
    let r = compute_rate(Some(prev), cur);
    assert_eq!(r.rx_per_s, 499);
}

#[test]
fn rate_elapsed_time_floored_at_one_millisecond() {
    // two samples at the same instant: the floor prevents a division
    // by zero, and the delta is scaled as if one millisecond passed
    let prev = StatPoint { rx_bytes: 0, tx_bytes: 0, ts_ms: 500 };
    let cur = StatPoint { rx_bytes: 3, tx_bytes: 0, ts_ms: 500 };
    let r = compute_rate(Some(prev), cur);
    assert_eq!(r.rx_per_s, 3000);
}

#[test]
fn rate_saturates_instead_of_overflowing() {
    let prev = StatPoint { rx_bytes: 0, tx_bytes: 0, ts_ms: 0 };
    let cur = StatPoint { rx_bytes: u64::MAX, tx_bytes: 0, ts_ms: 1 };
    let r = compute_rate(Some(prev), cur);
    assert_eq!(r.rx_per_s, u64::MAX);
}

#[test]
fn rate_clock_going_backwards_is_harmless() {
    let prev = StatPoint { rx_bytes: 100, tx_bytes: 0, ts_ms: 9000 };
    let cur = StatPoint { rx_bytes: 102, tx_bytes: 0, ts_ms: 800 };
    let r = compute_rate(Some(prev), cur);
    assert_eq!(r.rx_per_s, 2000);
}

#[test]
fn rate_counter_reset_is_zero() {
    let prev = StatPoint { rx_bytes: 5000, tx_bytes: 7000, ts_ms: 0 };
    let cur = StatPoint { rx_bytes: 1000, tx_bytes: 9000, ts_ms: 1000 };
    let r = compute_rate(Some(prev), cur);
    assert_eq!(r.rx_per_s, 0);
    assert_eq!(r.tx_per_s, 2000);
}

#[test]
fn rate_without_previous_sample_is_zero() {
    let cur = StatPoint { rx_bytes: 123456, tx_bytes: 654321, ts_ms: 42 };
    let r = compute_rate(None, cur);
    assert_eq!(r, Rate { rx_per_s: 0, tx_per_s: 0 });
}

#[test]
fn first_tick_rates_are_zero() {
    let mut st = MonitorState::new(None, SortKey::Total, 1, Unit::Bytes, 0);
    let samples = vec![sample(1, "eth0", 1000, 2000), sample(2, "wlan0", 50, 60)];
    st.on_tick(&samples, 0);
    assert_eq!(st.rows.len(), 2);
    for row in &st.rows {
        assert_eq!(row.rx, 0);
        assert_eq!(row.tx, 0);
    }
}

#[test]
fn one_second_scenario_kilobit_rate() {
    let mut st = MonitorState::new(None, SortKey::Total, 1, Unit::Bytes, 0);
    st.on_tick(&vec![sample(1, "A", 1000, 0)], 0);
    st.on_tick(&vec![sample(1, "A", 2000, 0)], 1000);
    assert_eq!(st.rows.len(), 1);
    assert_eq!(st.rows[0].rx, 1000);
    assert_eq!(human_rate(st.rows[0].rx, Unit::Bytes), "1000 B/s");
    assert_eq!(human_rate(st.rows[0].rx, Unit::Bits), "8.0 Kb/s");
}

#[test]
fn sort_key_cycles_back_after_five() {
    for start in [SortKey::Total, SortKey::TotalRx, SortKey::TotalTx, SortKey::Rx, SortKey::Tx] {
        let five = start.cycle().cycle().cycle().cycle().cycle();
        assert_eq!(five, start);
    }
    assert_eq!(SortKey::Total.cycle(), SortKey::TotalRx);
    assert_eq!(SortKey::TotalRx.cycle(), SortKey::TotalTx);
    assert_eq!(SortKey::TotalTx.cycle(), SortKey::Rx);
    assert_eq!(SortKey::Rx.cycle(), SortKey::Tx);
    assert_eq!(SortKey::Tx.cycle(), SortKey::Total);
}

#[test]
fn rescan_clears_previous_samples() {
    let mut st = MonitorState::new(None, SortKey::Total, 1, Unit::Bytes, 0);
    st.on_tick(&vec![sample(1, "A", 1000, 0)], 0);
    st.on_tick(&vec![sample(1, "A", 2000, 0)], 1000);
    assert_eq!(st.rows[0].rx, 1000);
    let step = st.handle_key(KeyAction::Rescan);
    assert_eq!(step, Step::Rescan);
    // the tick right after the rescan starts from a clean baseline,
    // even though the counters differ from what was seen before
    st.on_tick(&vec![sample(1, "A", 9000, 5000)], 2000);
    assert_eq!(st.rows[0].rx, 0);
    assert_eq!(st.rows[0].tx, 0);
    // and the tick after that measures against the post-rescan sample
    st.on_tick(&vec![sample(1, "A", 9500, 5000)], 3000);
    assert_eq!(st.rows[0].rx, 500);
}

#[test]
fn selection_clamps_when_rows_shrink() {
    let mut st = MonitorState::new(None, SortKey::Total, 1, Unit::Bytes, 0);
    let five: Vec<_> = (0..5).map(|i| sample(i, &format!("if{}", i), 100 * i as u64, 0)).collect();
    st.on_tick(&five, 0);
    assert_eq!(st.rows.len(), 5);
    for _ in 0..4 {
        st.handle_key(KeyAction::Down);
    }
    assert_eq!(st.selected, 4);
    let two: Vec<_> = (0..2).map(|i| sample(i, &format!("if{}", i), 100 * i as u64, 0)).collect();
    st.on_tick(&two, 1000);
    assert_eq!(st.rows.len(), 2);
    assert_eq!(st.selected, 1);
}

#[test]
fn selection_resets_to_zero_on_empty_rows() {
    let mut st = MonitorState::new(None, SortKey::Total, 1, Unit::Bytes, 0);
    st.on_tick(&vec![sample(0, "a", 1, 0), sample(1, "b", 2, 0)], 0);
    st.handle_key(KeyAction::Down);
    assert_eq!(st.selected, 1);
    st.on_tick(&vec![], 1000);
    assert_eq!(st.rows.len(), 0);
    assert_eq!(st.selected, 0);
}

#[test]
fn selection_moves_are_clamped() {
    let mut st = MonitorState::new(None, SortKey::Total, 1, Unit::Bytes, 0);
    st.on_tick(&vec![sample(0, "a", 1, 0), sample(1, "b", 2, 0)], 0);
    assert_eq!(st.selected, 0);
    st.handle_key(KeyAction::Up);
    assert_eq!(st.selected, 0);
    st.handle_key(KeyAction::Down);
    st.handle_key(KeyAction::Down);
    st.handle_key(KeyAction::Down);
    assert_eq!(st.selected, 1);
}

#[test]
fn popup_opens_scrolls_and_closes() {
    let mut st = MonitorState::new(None, SortKey::Total, 1, Unit::Bytes, 0);
    st.on_tick(&vec![sample(0, "a", 1, 0), sample(1, "b", 2, 0)], 0);
    st.handle_key(KeyAction::Down);
    assert_eq!(st.handle_key(KeyAction::Enter), Step::Continue);
    assert!(st.popup_open);
    assert_eq!(st.popup_scroll, 0);
    // in the popup, up and down scroll instead of moving the selection
    st.handle_key(KeyAction::Down);
    st.handle_key(KeyAction::Down);
    assert_eq!(st.popup_scroll, 2);
    assert_eq!(st.selected, 1);
    st.handle_key(KeyAction::Up);
    assert_eq!(st.popup_scroll, 1);
    st.handle_key(KeyAction::Escape);
    assert!(!st.popup_open);
    assert_eq!(st.selected, 1);
}

#[test]
fn popup_scroll_clamped_to_content() {
    let mut st = MonitorState::new(None, SortKey::Total, 1, Unit::Bytes, 0);
    st.handle_key(KeyAction::Enter);
    for _ in 0..50 {
        st.handle_key(KeyAction::Down);
    }
    assert_eq!(st.popup_scroll, 50);
    // content of 10 lines in a 5-line window: at most 10 - 5 + 2
    st.clamp_popup_scroll(10, 5);
    assert_eq!(st.popup_scroll, 7);
    // content shorter than the window: the allowance alone remains
    st.clamp_popup_scroll(3, 8);
    assert_eq!(st.popup_scroll, 2);
    st.clamp_popup_scroll(3, 8);
    assert_eq!(st.popup_scroll, 2);
}

#[test]
fn cycle_key_changes_sort_on_next_tick() {
    let mut st = MonitorState::new(None, SortKey::Total, 1, Unit::Bytes, 0);
    assert_eq!(st.handle_key(KeyAction::CycleSort), Step::Continue);
    assert_eq!(st.sort, SortKey::TotalRx);
}

#[test]
fn quit_key_requests_quit() {
    let mut st = MonitorState::new(None, SortKey::Total, 1, Unit::Bytes, 0);
    assert_eq!(st.handle_key(KeyAction::Quit), Step::Quit);
    assert_eq!(st.handle_key(KeyAction::Other), Step::Continue);
}

#[test]
fn tick_budget_counts_down_and_accumulates() {
    let mut st = MonitorState::new(None, SortKey::Total, 2, Unit::Bytes, 10_000);
    assert_eq!(st.remaining_ms(9_000), 1_000);
    assert_eq!(st.remaining_ms(10_000), 0);
    assert_eq!(st.remaining_ms(11_000), 0);
    st.on_tick(&vec![], 10_300);
    // the schedule advances by the interval, never from the current time
    assert_eq!(st.remaining_ms(10_300), 1_700);
}

#[test]
fn interval_floored_at_one_second() {
    let st = MonitorState::new(None, SortKey::Total, 0, Unit::Bytes, 0);
    assert_eq!(st.interval_ms, 1000);
    let st2 = MonitorState::new(None, SortKey::Total, 3, Unit::Bytes, 0);
    assert_eq!(st2.interval_ms, 3000);
}

#[test]
fn failed_interface_is_dropped_for_the_tick() {
    let mut st = MonitorState::new(None, SortKey::Total, 1, Unit::Bytes, 0);
    let broken = IfaceSample { index: 7, name: "bad0".to_string(), friendly_name: None, stats: None };
    st.on_tick(&vec![sample(0, "ok0", 10, 0), broken], 0);
    assert_eq!(st.rows.len(), 1);
    assert_eq!(st.rows[0].name, "ok0");
}

#[test]
fn popup_rectangle_is_centered() {
    let frame = ScreenRect { x: 0, y: 0, width: 100, height: 50 };
    let c = centered_rect(66, 60, frame);
    assert_eq!(c, ScreenRect { x: 17, y: 10, width: 66, height: 30 });

    // odd sizes truncate, and the box still lies within the frame
    let small = centered_rect(66, 60, ScreenRect { x: 2, y: 3, width: 7, height: 7 });
    assert_eq!(small, ScreenRect { x: 3, y: 4, width: 4, height: 4 });
    assert!(small.x >= 2 && small.x + small.width <= 2 + 7);

    // percentages above one hundred are clamped to the whole frame
    let whole = centered_rect(150, 200, frame);
    assert_eq!(whole, ScreenRect { x: 0, y: 0, width: 100, height: 50 });
}

#[test]
fn rows_sorted_by_active_key_each_tick() {
    let mut st = MonitorState::new(None, SortKey::Total, 1, Unit::Bytes, 0);
    st.on_tick(
        &vec![sample(0, "low", 10, 10), sample(1, "high", 500, 500), sample(2, "mid", 100, 100)],
        0,
    );
    let names: Vec<&str> = st.rows.iter().map(|r| r.name.as_str()).collect();
    assert_eq!(names, ["high", "mid", "low"]);
}

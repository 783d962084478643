use nifa::rows::{get_max_if_name_len, platform_if_name, sort_rows, IfaceSample, RowData, SortKey};

fn row(name: &str, total_rx: u64, total_tx: u64, rx: u64, tx: u64) -> RowData {
    RowData {
        index: 0,
        name: name.to_string(),
        friendly_name: None,
        total: total_rx + total_tx,
        total_rx,
        total_tx,
        rx,
        tx,
    }
}

fn names(rows: &[RowData]) -> Vec<&str> {
    rows.iter().map(|r| r.name.as_str()).collect()
}

#[test]
fn sorts_descending_by_each_key() {
    let build = || vec![row("a", 10, 1, 7, 2), row("b", 5, 20, 1, 9), row("c", 8, 8, 4, 4)];

    let mut v = build();
    sort_rows(&mut v, SortKey::Total);
    assert_eq!(names(&v), ["b", "c", "a"]);

    let mut v = build();
    sort_rows(&mut v, SortKey::TotalRx);
    assert_eq!(names(&v), ["a", "c", "b"]);

    let mut v = build();
    sort_rows(&mut v, SortKey::TotalTx);
    assert_eq!(names(&v), ["b", "c", "a"]);

    let mut v = build();
    sort_rows(&mut v, SortKey::Rx);
    assert_eq!(names(&v), ["a", "c", "b"]);

    let mut v = build();
    sort_rows(&mut v, SortKey::Tx);
    assert_eq!(names(&v), ["b", "c", "a"]);
}

#[test]
fn adjacent_pairs_are_non_increasing() {
    let mut v = vec![
        row("w", 3, 3, 0, 0),
        row("x", 100, 0, 0, 0),
        row("y", 0, 0, 0, 0),
        row("z", 50, 50, 0, 0),
    ];
    sort_rows(&mut v, SortKey::Total);
    for pair in v.windows(2) {
        assert!(pair[0].total >= pair[1].total);
    }
}

#[test]
fn equal_keys_keep_first_seen_order() {
    let mut v = vec![row("first", 5, 0, 0, 0), row("second", 5, 0, 0, 0), row("third", 9, 0, 0, 0)];
    sort_rows(&mut v, SortKey::Total);
    assert_eq!(names(&v), ["third", "first", "second"]);
}

fn sample(name: &str, friendly: Option<&str>) -> IfaceSample {
    IfaceSample {
        index: 0,
        name: name.to_string(),
        friendly_name: friendly.map(|f| f.to_string()),
        stats: None,
    }
}

#[test]
fn display_name_prefers_nonempty_friendly() {
    let r = RowData {
        friendly_name: Some("Wi-Fi".to_string()),
        ..row("wlan0", 0, 0, 0, 0)
    };
    assert_eq!(platform_if_name(&r), "Wi-Fi");
    let r = RowData { friendly_name: Some("".to_string()), ..row("wlan0", 0, 0, 0, 0) };
    assert_eq!(platform_if_name(&r), "wlan0");
    let r = row("eth0", 0, 0, 0, 0);
    assert_eq!(platform_if_name(&r), "eth0");
}

#[test]
fn name_column_width_has_a_floor_of_five() {
    assert_eq!(get_max_if_name_len(&vec![]), 5);
    assert_eq!(get_max_if_name_len(&vec![sample("lo", None)]), 5);
    assert_eq!(get_max_if_name_len(&vec![sample("enp0s31f6", None)]), 9);
    assert_eq!(
        get_max_if_name_len(&vec![sample("eth0", Some("Very Long Adapter Name")), sample("lo", None)]),
        22
    );
    assert_eq!(get_max_if_name_len(&vec![sample("eth0", Some(""))]), 5);
}

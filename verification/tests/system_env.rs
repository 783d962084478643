use nifa::sysinfo::pick_proxy;

#[test]
fn lowercase_proxy_value_wins() {
    assert_eq!(
        pick_proxy(Some("http://lower".to_string()), Some("http://upper".to_string())),
        Some("http://lower".to_string())
    );
}

#[test]
fn blank_values_are_skipped() {
    assert_eq!(
        pick_proxy(Some("   ".to_string()), Some("http://upper".to_string())),
        Some("http://upper".to_string())
    );
    assert_eq!(pick_proxy(Some("".to_string()), None), None);
    assert_eq!(pick_proxy(Some("\t\n".to_string()), Some(" ".to_string())), None);
    assert_eq!(pick_proxy(None, None), None);
}

#[test]
fn uppercase_is_the_fallback() {
    assert_eq!(pick_proxy(None, Some("http://upper".to_string())), Some("http://upper".to_string()));
}

#[test]
fn hostname_agrees_with_the_system() {
    let expected = hostname::get()
        .ok()
        .and_then(|os| os.into_string().ok())
        .unwrap_or_else(|| "unknown".to_string());
    assert_eq!(nifa::sysinfo::hostname(), expected);
}

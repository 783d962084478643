use nifa::text::{contains_sub, fmt_u128, fmt_u64};
use nifa::unitfmt::{fmt_bps, fmt_flags, human_rate, human_total, Unit};

#[test]
fn decimal_rendering() {
    assert_eq!(fmt_u64(0), "0");
    assert_eq!(fmt_u64(7), "7");
    assert_eq!(fmt_u64(1234567890), "1234567890");
    assert_eq!(fmt_u64(u64::MAX), "18446744073709551615");
    assert_eq!(fmt_u128(340282366920938463463374607431768211455), "340282366920938463463374607431768211455");
}

#[test]
fn flags_render_as_eight_hex_digits() {
    assert_eq!(fmt_flags(0), "0x00000000");
    assert_eq!(fmt_flags(0x1003), "0x00001003");
    assert_eq!(fmt_flags(0xDEADBEEF), "0xDEADBEEF");
    assert_eq!(fmt_flags(u32::MAX), "0xFFFFFFFF");
}

#[test]
fn byte_totals_follow_the_binary_rendering() {
    for v in [0u64, 1, 999, 1000, 1023, 1024, 1536, 10_000_000, u64::MAX] {
        assert_eq!(human_total(v, Unit::Bytes), humansize::format_size(v, humansize::BINARY));
    }
}

#[test]
fn bit_totals_tiers() {
    // 124 bytes are 992 bits: still whole units
    assert_eq!(human_total(124, Unit::Bits), "992 b");
    // 125 bytes are exactly one kilobit
    assert_eq!(human_total(125, Unit::Bits), "1.0 Kb");
    // 249 bytes are 1992 bits: the decimal truncates
    assert_eq!(human_total(249, Unit::Bits), "1.9 Kb");
    // just under the megabit boundary: still one decimal
    assert_eq!(human_total(124_999, Unit::Bits), "999.9 Kb");
    // 125000 bytes are one megabit: two decimals from here on
    assert_eq!(human_total(125_000, Unit::Bits), "1.00 Mb");
    assert_eq!(human_total(158_000, Unit::Bits), "1.26 Mb");
    // 125000000 bytes are one gigabit, with two decimals
    assert_eq!(human_total(125_000_000, Unit::Bits), "1.00 Gb");
    assert_eq!(human_total(158_000_000, Unit::Bits), "1.26 Gb");
}

#[test]
fn byte_rates_small_values_stay_plain() {
    assert_eq!(human_rate(0, Unit::Bytes), "0 B/s");
    assert_eq!(human_rate(999, Unit::Bytes), "999 B/s");
    assert_eq!(
        human_rate(2048, Unit::Bytes),
        format!("{}/s", humansize::format_size(2048u64, humansize::BINARY))
    );
}

#[test]
fn bit_rates_tiers() {
    assert_eq!(human_rate(124, Unit::Bits), "992 b/s");
    assert_eq!(human_rate(125, Unit::Bits), "1.0 Kb/s");
    assert_eq!(human_rate(125_000, Unit::Bits), "1.00 Mb/s");
    assert_eq!(human_rate(125_000_000, Unit::Bits), "1.00 Gb/s");
}

#[test]
fn link_speed_rendering() {
    assert_eq!(fmt_bps(0), "0 b/s");
    assert_eq!(fmt_bps(999), "999 b/s");
    assert_eq!(fmt_bps(1000), "1.00 Kb/s");
    assert_eq!(fmt_bps(1500), "1.50 Kb/s");
    assert_eq!(fmt_bps(1_000_000), "1.00 Mb/s");
    assert_eq!(fmt_bps(2_340_000_000), "2.34 Gb/s");
}

#[test]
fn substring_search() {
    assert!(contains_sub("wan miniport (ike)", "wan miniport"));
    assert!(contains_sub("abc", ""));
    assert!(!contains_sub("", "a"));
    assert!(contains_sub("aaab", "aab"));
    assert!(!contains_sub("acbd", "abd"));
}

#[test]
fn default_unit_is_bytes() {
    assert!(matches!(Unit::default(), Unit::Bytes));
}

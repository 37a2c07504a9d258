use cln_ntfy::decimal::{parse_decimal, push_decimal, render_decimal};

#[test]
fn numbers_are_written_without_sign_or_padding() {
    assert_eq!(render_decimal(0), "0");
    assert_eq!(render_decimal(7), "7");
    assert_eq!(render_decimal(9), "9");
    assert_eq!(render_decimal(10), "10");
    assert_eq!(render_decimal(99), "99");
    assert_eq!(render_decimal(100), "100");
    assert_eq!(render_decimal(1500), "1500");
    assert_eq!(render_decimal(1_000_000), "1000000");
    assert_eq!(render_decimal(u64::MAX), "18446744073709551615");
}

#[test]
fn a_number_is_appended_to_what_is_there() {
    let mut text = String::from("n=");
    push_decimal(&mut text, 42);
    assert_eq!(text, "n=42");
    push_decimal(&mut text, 0);
    assert_eq!(text, "n=420");
}

#[test]
fn decimal_texts_are_read() {
    assert_eq!(parse_decimal("0"), Some(0));
    assert_eq!(parse_decimal("1500"), Some(1500));
    assert_eq!(parse_decimal("+1500"), Some(1500));
    assert_eq!(parse_decimal("007"), Some(7));
    assert_eq!(parse_decimal("18446744073709551615"), Some(u64::MAX));
    assert_eq!(parse_decimal("+18446744073709551615"), Some(u64::MAX));
    assert_eq!(parse_decimal("000000000000000000000000000000000001"), Some(1));
}

#[test]
fn other_texts_denote_nothing() {
    assert_eq!(parse_decimal(""), None);
    assert_eq!(parse_decimal("+"), None);
    assert_eq!(parse_decimal("-"), None);
    assert_eq!(parse_decimal("-0"), None);
    assert_eq!(parse_decimal("-1"), None);
    assert_eq!(parse_decimal("1_000"), None);
    assert_eq!(parse_decimal("12 "), None);
    assert_eq!(parse_decimal(" 12"), None);
    assert_eq!(parse_decimal("1e3"), None);
    assert_eq!(parse_decimal("0x10"), None);
    assert_eq!(parse_decimal("12+"), None);
    assert_eq!(parse_decimal("\u{ff11}"), None);
    assert_eq!(parse_decimal("18446744073709551616"), None);
    assert_eq!(parse_decimal("18446744073709551620"), None);
    assert_eq!(parse_decimal("28446744073709551615"), None);
    assert_eq!(parse_decimal("184467440737095516150"), None);
}

#[test]
fn reading_back_what_was_written_gives_the_number() {
    let samples: [u64; 12] = [
        0,
        1,
        9,
        10,
        11,
        999,
        1000,
        1001,
        4_294_967_295,
        4_294_967_296,
        u64::MAX - 1,
        u64::MAX,
    ];
    for n in samples {
        assert_eq!(parse_decimal(&render_decimal(n)), Some(n));
    }
}

use portcheck::number::{format_decimal, parse_decimal};

#[test]
fn parse_decimal_reads_plain_digits() {
    assert_eq!(parse_decimal("80", 65535), Some(80));
    assert_eq!(parse_decimal("0", 65535), Some(0));
    assert_eq!(parse_decimal("65535", 65535), Some(65535));
    assert_eq!(parse_decimal("7", 7), Some(7));
}

#[test]
fn parse_decimal_accepts_one_leading_plus() {
    assert_eq!(parse_decimal("+80", 65535), Some(80));
    assert_eq!(parse_decimal("+0", 65535), Some(0));
    assert_eq!(parse_decimal("++80", 65535), None);
    assert_eq!(parse_decimal("+", 65535), None);
    assert_eq!(parse_decimal("8+0", 65535), None);
}

#[test]
fn parse_decimal_accepts_leading_zeros() {
    assert_eq!(parse_decimal("0080", 65535), Some(80));
    assert_eq!(parse_decimal("000000000000000000000000000001", 1), Some(1));
}

#[test]
fn parse_decimal_refuses_what_is_no_number() {
    assert_eq!(parse_decimal("", 65535), None);
    assert_eq!(parse_decimal("abc", 65535), None);
    assert_eq!(parse_decimal("8x", 65535), None);
    assert_eq!(parse_decimal("x8", 65535), None);
    assert_eq!(parse_decimal("-1", 65535), None);
    assert_eq!(parse_decimal("-0", 65535), None);
    assert_eq!(parse_decimal("-", 65535), None);
    assert_eq!(parse_decimal(" 80", 65535), None);
    assert_eq!(parse_decimal("80 ", 65535), None);
    assert_eq!(parse_decimal("1_000", 65535), None);
    assert_eq!(parse_decimal("1.5", 65535), None);
    assert_eq!(parse_decimal("0x50", 65535), None);
}

#[test]
fn parse_decimal_refuses_digits_outside_ascii() {
    assert_eq!(parse_decimal("\u{0663}", 65535), None);
    assert_eq!(parse_decimal("8\u{0660}", 65535), None);
    assert_eq!(parse_decimal("\u{ff18}\u{ff10}", 65535), None);
    assert_eq!(parse_decimal("80\u{00e9}", 65535), None);
}

#[test]
fn parse_decimal_respects_the_bound() {
    assert_eq!(parse_decimal("65536", 65535), None);
    assert_eq!(parse_decimal("8", 7), None);
    assert_eq!(parse_decimal("1", 0), None);
    assert_eq!(parse_decimal("0", 0), Some(0));
    assert_eq!(parse_decimal("99999999999999999999999999", 65535), None);
}

#[test]
fn parse_decimal_reaches_the_end_of_u64() {
    assert_eq!(parse_decimal("18446744073709551615", u64::MAX), Some(u64::MAX));
    assert_eq!(parse_decimal("18446744073709551616", u64::MAX), None);
    assert_eq!(parse_decimal("18446744073709551620", u64::MAX), None);
    assert_eq!(parse_decimal("184467440737095516150", u64::MAX), None);
    assert_eq!(parse_decimal("99999999999999999999", u64::MAX), None);
}

#[test]
fn parse_decimal_agrees_with_std_on_samples() {
    let samples = [
        "", "+", "-", "0", "00", "+0", "-0", "1", "+1", "-1", "22", "443", "65535", "65536", "070",
        " 1", "1 ", "1a", "a1", "+-1", "\u{0663}", "\u{ff11}",
    ];
    for text in samples {
        let as_u16 = text.parse::<u16>().ok().map(u64::from);
        let as_u64 = text.parse::<u64>().ok();
        assert_eq!(parse_decimal(text, 65535), as_u16, "{:?}", text);
        assert_eq!(parse_decimal(text, u64::MAX), as_u64, "{:?}", text);
    }
}

#[test]
fn format_decimal_writes_shortest_text() {
    assert_eq!(format_decimal(0), "0");
    assert_eq!(format_decimal(7), "7");
    assert_eq!(format_decimal(9), "9");
    assert_eq!(format_decimal(10), "10");
    assert_eq!(format_decimal(22), "22");
    assert_eq!(format_decimal(100), "100");
    assert_eq!(format_decimal(1234567890), "1234567890");
    assert_eq!(format_decimal(65535), "65535");
    assert_eq!(format_decimal(u64::MAX), "18446744073709551615");
}

#[test]
fn format_then_parse_gives_the_number_back() {
    let samples =
        [0u64, 1, 9, 10, 11, 99, 100, 101, 4096, 65535, 65536, 1 << 32, u64::MAX - 1, u64::MAX];
    for n in samples {
        assert_eq!(parse_decimal(&format_decimal(n), u64::MAX), Some(n));
    }
}

use axum_backend::text::{parse_unsigned, same_text, to_decimal};

#[test]
fn decimal_of_small_and_large_numbers() {
    assert_eq!(to_decimal(0), "0");
    assert_eq!(to_decimal(7), "7");
    assert_eq!(to_decimal(10), "10");
    assert_eq!(to_decimal(42), "42");
    assert_eq!(to_decimal(3000), "3000");
    assert_eq!(to_decimal(1_234_567_890), "1234567890");
    assert_eq!(to_decimal(u64::MAX as u128), "18446744073709551615");
    assert_eq!(to_decimal(u128::MAX), "340282366920938463463374607431768211455");
}

#[test]
fn decimal_agrees_with_the_standard_library() {
    let mut n: u128 = 1;
    for _ in 0..38 {
        assert_eq!(to_decimal(n), n.to_string());
        assert_eq!(to_decimal(n - 1), (n - 1).to_string());
        n *= 10;
    }
}

#[test]
fn parse_reads_plain_digits() {
    assert_eq!(parse_unsigned("0", u64::MAX), Some(0));
    assert_eq!(parse_unsigned("5", u64::MAX), Some(5));
    assert_eq!(parse_unsigned("3000", u64::MAX), Some(3000));
    assert_eq!(parse_unsigned("007", u64::MAX), Some(7));
    assert_eq!(parse_unsigned("18446744073709551615", u64::MAX), Some(u64::MAX));
}

#[test]
fn parse_takes_one_leading_plus() {
    assert_eq!(parse_unsigned("+5", u64::MAX), Some(5));
    assert_eq!(parse_unsigned("+", u64::MAX), None);
    assert_eq!(parse_unsigned("++5", u64::MAX), None);
    assert_eq!(parse_unsigned("5+", u64::MAX), None);
}

#[test]
fn parse_refuses_what_is_no_number() {
    assert_eq!(parse_unsigned("", u64::MAX), None);
    assert_eq!(parse_unsigned("-5", u64::MAX), None);
    assert_eq!(parse_unsigned(" 5", u64::MAX), None);
    assert_eq!(parse_unsigned("5 ", u64::MAX), None);
    assert_eq!(parse_unsigned("1_000", u64::MAX), None);
    assert_eq!(parse_unsigned("12a", u64::MAX), None);
    assert_eq!(parse_unsigned("abc", u64::MAX), None);
    assert_eq!(parse_unsigned("1.5", u64::MAX), None);
    assert_eq!(parse_unsigned("\u{0665}", u64::MAX), None);
}

#[test]
fn parse_refuses_what_is_over_the_limit() {
    assert_eq!(parse_unsigned("65535", 65535), Some(65535));
    assert_eq!(parse_unsigned("65536", 65535), None);
    assert_eq!(parse_unsigned("18446744073709551616", u64::MAX), None);
    assert_eq!(parse_unsigned("99999999999999999999999999", u64::MAX), None);
    assert_eq!(parse_unsigned("0000000000000000000000000001", u64::MAX), Some(1));
}

#[test]
fn parse_agrees_with_the_standard_library() {
    let samples = [
        "", "+", "-", "0", "+0", "-0", "1", "42", "+42", "-42", "0042", " 42", "42 ", "4 2", "4_2",
        "65535", "65536", "18446744073709551615", "18446744073709551616", "184467440737095516150",
        "1e3", "0x10", "٣", "４２", "++1", "+-1", "1+", "\n1",
    ];
    for s in samples {
        assert_eq!(parse_unsigned(s, u64::MAX), s.parse::<u64>().ok(), "u64 from {:?}", s);
        assert_eq!(
            parse_unsigned(s, u16::MAX as u64),
            s.parse::<u16>().ok().map(|n| n as u64),
            "u16 from {:?}",
            s
        );
    }
}

#[test]
fn what_is_written_reads_back() {
    for n in [0u64, 1, 9, 10, 99, 100, 5000, u32::MAX as u64, u64::MAX] {
        assert_eq!(parse_unsigned(&to_decimal(n as u128), u64::MAX), Some(n));
    }
}

#[test]
fn same_text_compares_every_character() {
    assert!(same_text("", ""));
    assert!(same_text("json", "json"));
    assert!(same_text("DB_NAME", "DB_NAME"));
    assert!(same_text("größe", "größe"));
    assert!(!same_text("json", "JSON"));
    assert!(!same_text("json", "jso"));
    assert!(!same_text("jso", "json"));
    assert!(!same_text("", "x"));
    assert!(!same_text("x", ""));
    assert!(!same_text("abc", "abd"));
    assert!(!same_text("abc", "xbc"));
    assert!(!same_text("e\u{301}", "\u{e9}"));
}

use securegrade::text::{digits_after, i32_text, parse_i32, trim};

#[test]
fn trim_removes_white_space_at_both_ends() {
    assert_eq!(trim("  5\n"), "5");
    assert_eq!(trim("\t a b \r\n"), "a b");
    assert_eq!(trim("x"), "x");
}

#[test]
fn trim_of_white_space_only_is_empty() {
    assert_eq!(trim(" \n\t "), "");
    assert_eq!(trim(""), "");
}

#[test]
fn trim_keeps_inner_white_space() {
    assert_eq!(trim(" 1 2\n3 "), "1 2\n3");
}

#[test]
fn trim_knows_unicode_white_space() {
    assert_eq!(trim("\u{2003}é\u{00a0}"), "é");
    assert_eq!(trim("\u{3000}日本\u{2028}"), "日本");
}

#[test]
fn trim_agrees_with_the_standard_library() {
    let samples = ["", " ", "a", " a", "a ", "  a  b  ", "\n\n", "\u{feff}a", "é ", " \u{0085}z"];
    for s in samples {
        assert_eq!(trim(s), s.trim());
    }
}

#[test]
fn parse_i32_reads_plain_numbers() {
    assert_eq!(parse_i32("0"), Some(0));
    assert_eq!(parse_i32("7"), Some(7));
    assert_eq!(parse_i32("42"), Some(42));
    assert_eq!(parse_i32("007"), Some(7));
}

#[test]
fn parse_i32_reads_signs() {
    assert_eq!(parse_i32("+15"), Some(15));
    assert_eq!(parse_i32("-15"), Some(-15));
    assert_eq!(parse_i32("-0"), Some(0));
}

#[test]
fn parse_i32_reads_the_extremes() {
    assert_eq!(parse_i32("2147483647"), Some(i32::MAX));
    assert_eq!(parse_i32("-2147483648"), Some(i32::MIN));
}

#[test]
fn parse_i32_refuses_what_does_not_fit() {
    assert_eq!(parse_i32("2147483648"), None);
    assert_eq!(parse_i32("-2147483649"), None);
    assert_eq!(parse_i32("99999999999999999999999999"), None);
    assert_eq!(parse_i32("+2147483648"), None);
}

#[test]
fn parse_i32_refuses_what_is_no_number() {
    assert_eq!(parse_i32(""), None);
    assert_eq!(parse_i32("-"), None);
    assert_eq!(parse_i32("+"), None);
    assert_eq!(parse_i32("12a"), None);
    assert_eq!(parse_i32(" 12"), None);
    assert_eq!(parse_i32("12 "), None);
    assert_eq!(parse_i32("1-2"), None);
    assert_eq!(parse_i32("--1"), None);
    assert_eq!(parse_i32("١٢"), None);
}

#[test]
fn parse_i32_agrees_with_the_standard_library() {
    let samples = [
        "0", "-0", "+0", "1", "-1", "+1", "2147483647", "2147483648", "-2147483648",
        "-2147483649", "", "+", "-", "a", "1a", "a1", "0x10", "1_000", "00000000000001", " 1",
    ];
    for s in samples {
        assert_eq!(parse_i32(s), s.parse::<i32>().ok(), "for {:?}", s);
    }
}

#[test]
fn digits_after_reads_what_follows_a_prefix() {
    assert_eq!(digits_after("http:8080", 5, 65535), Some(8080));
    assert_eq!(digits_after("ab0", 2, 9), Some(0));
    assert_eq!(digits_after("65535", 0, 65535), Some(65535));
}

#[test]
fn digits_after_refuses_too_much_and_too_little() {
    assert_eq!(digits_after("http:65536", 5, 65535), None);
    assert_eq!(digits_after("http:", 5, 65535), None);
    assert_eq!(digits_after("http", 5, 65535), None);
    assert_eq!(digits_after("http:80a", 5, 65535), None);
    assert_eq!(digits_after("http:+80", 5, 65535), None);
}

#[test]
fn i32_text_writes_decimal() {
    assert_eq!(i32_text(0), "0");
    assert_eq!(i32_text(7), "7");
    assert_eq!(i32_text(10), "10");
    assert_eq!(i32_text(1203), "1203");
    assert_eq!(i32_text(-1), "-1");
    assert_eq!(i32_text(-450), "-450");
    assert_eq!(i32_text(i32::MAX), "2147483647");
    assert_eq!(i32_text(i32::MIN), "-2147483648");
}

#[test]
fn reading_what_was_written_gives_the_number_back() {
    for v in [0, 1, -1, 9, 10, 99, 100, -100, 12345, i32::MAX, i32::MIN, i32::MIN + 1] {
        assert_eq!(parse_i32(&i32_text(v)), Some(v));
        assert_eq!(i32_text(v), v.to_string());
    }
}

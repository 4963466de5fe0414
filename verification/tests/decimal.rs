use proximity_service::decimal::{format_i32, format_unsigned, parse_i32_text, push_digits, push_i32};

#[test]
fn format_i32_writes_decimal_text() {
    assert_eq!(format_i32(0), "0");
    assert_eq!(format_i32(7), "7");
    assert_eq!(format_i32(10), "10");
    assert_eq!(format_i32(-1), "-1");
    assert_eq!(format_i32(1203), "1203");
    assert_eq!(format_i32(i32::MAX), "2147483647");
    assert_eq!(format_i32(i32::MIN), "-2147483648");
}

#[test]
fn format_unsigned_writes_decimal_text() {
    assert_eq!(format_unsigned(0), "0");
    assert_eq!(format_unsigned(9), "9");
    assert_eq!(format_unsigned(1500), "1500");
    assert_eq!(format_unsigned(u128::MAX), "340282366920938463463374607431768211455");
}

#[test]
fn push_appends_to_what_is_there() {
    let mut text = String::from("id: ");
    push_i32(&mut text, -42);
    assert_eq!(text, "id: -42");
    push_digits(&mut text, 100);
    assert_eq!(text, "id: -42100");
}

#[test]
fn parse_i32_text_reads_signed_integers() {
    assert_eq!(parse_i32_text("0"), Some(0));
    assert_eq!(parse_i32_text("7"), Some(7));
    assert_eq!(parse_i32_text("-7"), Some(-7));
    assert_eq!(parse_i32_text("+7"), Some(7));
    assert_eq!(parse_i32_text("-0"), Some(0));
    assert_eq!(parse_i32_text("0042"), Some(42));
    assert_eq!(parse_i32_text("2147483647"), Some(i32::MAX));
    assert_eq!(parse_i32_text("-2147483648"), Some(i32::MIN));
    assert_eq!(parse_i32_text("000000000000000000002147483647"), Some(i32::MAX));
}

#[test]
fn parse_i32_text_rejects_what_is_no_integer() {
    for text in ["", "-", "+", "--1", "+-1", "1-", "abc", "1a", "a1", " 1", "1 ", "1.0", "١٢"] {
        assert_eq!(parse_i32_text(text), None, "text {:?}", text);
    }
}

#[test]
fn parse_i32_text_rejects_what_is_out_of_range() {
    for text in ["2147483648", "-2147483649", "99999999999", "-99999999999", "340282366920938463463374607431768211456"] {
        assert_eq!(parse_i32_text(text), None, "text {:?}", text);
    }
}

#[test]
fn parse_i32_text_agrees_with_the_standard_parser() {
    for text in ["12", "-12", "+12", "", "x", "2147483647", "2147483648", "-2147483648", "00", "+", "1_000"] {
        assert_eq!(parse_i32_text(text), text.parse::<i32>().ok(), "text {:?}", text);
    }
}

#[test]
fn parse_reads_back_what_format_wrote() {
    for value in [0, 1, -1, 9, 10, 99, 100, -100, 65535, i32::MAX, i32::MIN, i32::MAX - 1] {
        assert_eq!(parse_i32_text(&format_i32(value)), Some(value));
    }
}

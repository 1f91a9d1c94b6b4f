use vivcms::decimal::{i32_to_string, int_error_text, parse_i32, IntErrorKind, ParseIntError};

#[test]
fn formats_like_to_string() {
    for v in [0, 7, 10, 42, -1, -42, 1000000, i32::MAX, i32::MIN] {
        assert_eq!(i32_to_string(v), v.to_string());
    }
}

#[test]
fn formats_extremes_exactly() {
    assert_eq!(i32_to_string(i32::MIN), "-2147483648");
    assert_eq!(i32_to_string(i32::MAX), "2147483647");
    assert_eq!(i32_to_string(0), "0");
}

#[test]
fn parses_like_std() {
    for text in ["0", "42", "-42", "+42", "007", "-0", "2147483647", "-2147483648"] {
        assert_eq!(parse_i32(text).ok(), text.parse::<i32>().ok(), "text {:?}", text);
    }
}

#[test]
fn parse_error_kinds() {
    assert_eq!(parse_i32(""), Err(ParseIntError { kind: IntErrorKind::Empty }));
    assert_eq!(parse_i32("-"), Err(ParseIntError { kind: IntErrorKind::InvalidDigit }));
    assert_eq!(parse_i32("+"), Err(ParseIntError { kind: IntErrorKind::InvalidDigit }));
    assert_eq!(parse_i32("12a"), Err(ParseIntError { kind: IntErrorKind::InvalidDigit }));
    assert_eq!(parse_i32(" 12"), Err(ParseIntError { kind: IntErrorKind::InvalidDigit }));
    assert_eq!(parse_i32("2147483648"), Err(ParseIntError { kind: IntErrorKind::PosOverflow }));
    assert_eq!(parse_i32("-2147483649"), Err(ParseIntError { kind: IntErrorKind::NegOverflow }));
    assert_eq!(
        parse_i32("99999999999999999999999"),
        Err(ParseIntError { kind: IntErrorKind::PosOverflow })
    );
}

#[test]
fn parse_error_messages_match_std() {
    for text in ["", "x", "2147483648", "-2147483649"] {
        let ours = parse_i32(text).unwrap_err();
        let std_err = text.parse::<i32>().unwrap_err();
        assert_eq!(int_error_text(&ours), std_err.to_string());
    }
}

#[test]
fn roundtrip_on_samples() {
    for v in [0, 1, -1, 9, 10, -10, 123456789, i32::MAX, i32::MIN, i32::MIN + 1] {
        assert_eq!(parse_i32(&i32_to_string(v)), Ok(v));
    }
}

#[test]
fn overflow_before_junk_is_reported_as_overflow() {
    for text in [
        "99999999999x", "-99999999999x", "2147483648x", "-2147483649x", "12x99999999999",
        "21474836470", "2147483647x", "+-1", "--1", "1 ", "١٢",
    ] {
        let ours = parse_i32(text).map_err(|e| int_error_text(&e));
        let std_res = text.parse::<i32>().map_err(|e| e.to_string());
        assert_eq!(ours, std_res, "text {:?}", text);
    }
}

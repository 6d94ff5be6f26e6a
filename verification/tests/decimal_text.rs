use ping_meter::decimal::{format_decimal, parse_usize, IntError};

#[test]
fn format_small_and_large_numbers() {
    assert_eq!(format_decimal(0), "0");
    assert_eq!(format_decimal(7), "7");
    assert_eq!(format_decimal(10), "10");
    assert_eq!(format_decimal(30), "30");
    assert_eq!(format_decimal(1234567890), "1234567890");
    assert_eq!(format_decimal(u128::MAX), u128::MAX.to_string());
}

#[test]
fn parse_plain_numbers() {
    assert_eq!(parse_usize("0"), Ok(0));
    assert_eq!(parse_usize("30"), Ok(30));
    assert_eq!(parse_usize("+5"), Ok(5));
    assert_eq!(parse_usize("007"), Ok(7));
}

#[test]
fn parse_errors_match_std() {
    let cases = [
        "", "+", "-", "-5", "abc", "1x", " 1", "1 ", "1.5", "++1", "+-1", "٣",
        "99999999999999999999", "18446744073709551615", "18446744073709551616",
        "99999999999999999999x", "1x99999999999999999999",
    ];
    for case in cases {
        let ours = parse_usize(case);
        let theirs = case.parse::<usize>();
        match (ours, theirs) {
            (Ok(a), Ok(b)) => assert_eq!(a, b, "{case:?}"),
            (Err(e), Err(f)) => assert_eq!(e.message(), f.to_string(), "{case:?}"),
            (a, b) => panic!("{case:?}: {a:?} vs {b:?}"),
        }
    }
}

#[test]
fn parse_error_kinds() {
    assert_eq!(parse_usize(""), Err(IntError::Empty));
    assert_eq!(parse_usize("+"), Err(IntError::InvalidDigit));
    assert_eq!(parse_usize("-"), Err(IntError::InvalidDigit));
    assert_eq!(parse_usize("12a"), Err(IntError::InvalidDigit));
    assert_eq!(parse_usize("99999999999999999999999"), Err(IntError::PosOverflow));
    assert_eq!(IntError::Empty.message(), "cannot parse integer from empty string");
    assert_eq!(IntError::InvalidDigit.message(), "invalid digit found in string");
    assert_eq!(IntError::PosOverflow.message(), "number too large to fit in target type");
}

#[test]
fn format_then_parse_roundtrip() {
    for n in [0usize, 1, 9, 10, 99, 100, 12345, usize::MAX] {
        assert_eq!(parse_usize(&format_decimal(n as u128)), Ok(n));
    }
}

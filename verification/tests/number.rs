use pastebin::number::parse_bool;
use pastebin::number::parse_unsigned;

#[test]
fn parse_unsigned_reads_decimal_text() {
    assert_eq!(parse_unsigned("0", 10), Some(0));
    assert_eq!(parse_unsigned("10", 10), Some(10));
    assert_eq!(parse_unsigned("+7", 10), Some(7));
    assert_eq!(parse_unsigned("007", 10), Some(7));
    assert_eq!(parse_unsigned("18446744073709551615", u64::MAX), Some(u64::MAX));
}

#[test]
fn parse_unsigned_refuses_what_std_refuses() {
    for bad in ["", "+", "-", "-0", "++1", "1_000", "١٢", "11"] {
        assert_eq!(parse_unsigned(bad, 10), None, "{:?}", bad);
    }
    assert_eq!(parse_unsigned("18446744073709551616", u64::MAX), None);
}

#[test]
fn parse_unsigned_agrees_with_std_for_u16() {
    for text in ["0", "1", "65535", "65536", "+9", "-9", "", "0x10", "99999"] {
        assert_eq!(parse_unsigned(text, 65535).map(|v| v as u16), text.parse::<u16>().ok(), "{:?}", text);
    }
}

#[test]
fn parse_bool_reads_only_true_and_false() {
    assert_eq!(parse_bool("true"), Some(true));
    assert_eq!(parse_bool("false"), Some(false));
    assert_eq!(parse_bool("True"), None);
    assert_eq!(parse_bool(""), None);
    assert_eq!(parse_bool("1"), None);
}

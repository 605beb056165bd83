use solana_tracker::text::{
    decimal_string, parse_bool, parse_i64, parse_u16, same_text, starts_with,
};

#[test]
fn signed_numerals_are_read_as_the_standard_library_reads_them() {
    let cases = [
        "", "0", "7", "007", "+7", "-7", "+", "-", "--1", "+-1", "1-", " 1", "1 ", "1_000",
        "12x", "x12", "9223372036854775807", "9223372036854775808", "-9223372036854775808",
        "-9223372036854775809", "+9223372036854775807", "99999999999999999999999999",
        "-99999999999999999999999999", "000000000000000000000000000000001", "-0", "+0", "１２",
        "1.5", "0x10", "٣", "18446744073709551615", "-00000000000000000000009223372036854775808",
    ];
    for text in cases {
        assert_eq!(parse_i64(text), text.parse::<i64>().ok(), "{:?}", text);
    }
    assert_eq!(parse_i64("-12"), Some(-12));
    assert_eq!(parse_i64("9223372036854775807"), Some(i64::MAX));
    assert_eq!(parse_i64("-9223372036854775808"), Some(i64::MIN));
    assert_eq!(parse_i64("9223372036854775808"), None);
}

#[test]
fn ports_are_read_as_the_standard_library_reads_them() {
    let cases = [
        "", "0", "9090", "+9090", "-1", "-0", "65535", "65536", "065535", "99999999999", "80 ",
        "+", "-", "8o", "４",
    ];
    for text in cases {
        assert_eq!(parse_u16(text), text.parse::<u16>().ok(), "{:?}", text);
    }
    assert_eq!(parse_u16("65535"), Some(65535));
    assert_eq!(parse_u16("65536"), None);
}

#[test]
fn truth_values_are_the_two_words_only() {
    for text in ["true", "false", "True", "TRUE", "1", "0", "", " true", "truee", "fals"] {
        assert_eq!(parse_bool(text), text.parse::<bool>().ok(), "{:?}", text);
    }
    assert_eq!(parse_bool("true"), Some(true));
    assert_eq!(parse_bool("false"), Some(false));
}

#[test]
fn prefixes_are_found_as_the_standard_library_finds_them() {
    let texts = ["", "h", "http://", "http://x", "https://y", "xhttp://", "HTTP://", "héllo"];
    let prefixes = ["", "h", "http://", "https://", "hé", "héllo!"];
    for text in texts {
        for prefix in prefixes {
            assert_eq!(starts_with(text, prefix), text.starts_with(prefix), "{:?} {:?}", text, prefix);
            assert_eq!(same_text(text, prefix), text == prefix);
        }
    }
}

#[test]
fn numbers_are_written_as_the_standard_library_writes_them() {
    for n in [0u64, 1, 9, 10, 11, 99, 100, 101, 255, 1024, 65535, 1_000_000, u64::MAX] {
        assert_eq!(decimal_string(n), format!("{}", n));
    }
    assert_eq!(decimal_string(12), "12");
}

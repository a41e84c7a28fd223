use conti::text::{
    characters, parse_number, render, render_signed, same, split, trim, whitespace, NumberError,
};

#[test]
fn whitespace_is_cut_off_both_ends() {
    assert_eq!(trim("  a b\t\r\n"), "a b");
    assert_eq!(trim("\u{a0}\u{2003}x\u{3000}"), "x");
    assert_eq!(trim(" \n "), "");
    assert_eq!(trim(""), "");
}

#[test]
fn whitespace_is_that_of_unicode() {
    for u in 0..0x11000u32 {
        if let Some(c) = char::from_u32(u) {
            assert_eq!(whitespace(c), c.is_whitespace(), "{:x}", u);
        }
    }
}

#[test]
fn strings_are_cut_at_the_separator() {
    assert_eq!(split("a,b,,c", ','), vec!["a", "b", "", "c"]);
    assert_eq!(split("", ','), vec![""]);
    assert_eq!(split(",", ','), vec!["", ""]);
    assert_eq!(split("é\nü", '\n'), vec!["é", "ü"]);
}

#[test]
fn numbers_are_written_in_decimal() {
    assert_eq!(render(0), "0");
    assert_eq!(render(9), "9");
    assert_eq!(render(10), "10");
    assert_eq!(render(9876543210), "9876543210");
    assert_eq!(render(u64::MAX), "18446744073709551615");
}

#[test]
fn negative_numbers_have_a_sign() {
    assert_eq!(render_signed(0), "0");
    assert_eq!(render_signed(137), "137");
    assert_eq!(render_signed(-1), "-1");
    assert_eq!(render_signed(i64::MIN), "-9223372036854775808");
    assert_eq!(render_signed(i64::MAX), "9223372036854775807");
}

#[test]
fn numbers_are_read_up_to_a_limit() {
    assert_eq!(parse_number("587", 65535), Ok(587));
    assert_eq!(parse_number("+587", 65535), Ok(587));
    assert_eq!(parse_number("00025", 65535), Ok(25));
    assert_eq!(parse_number("65535", 65535), Ok(65535));
    assert_eq!(parse_number("65536", 65535), Err(NumberError::TooLarge));
    assert_eq!(parse_number("18446744073709551615", u64::MAX), Ok(u64::MAX));
    assert_eq!(parse_number("18446744073709551616", u64::MAX), Err(NumberError::TooLarge));
    assert_eq!(parse_number("99999999999999999999999999", u64::MAX), Err(NumberError::TooLarge));
}

#[test]
fn other_strings_are_no_numbers() {
    assert_eq!(parse_number("", u64::MAX), Err(NumberError::Empty));
    for s in ["+", "-", "-1", " 1", "1 ", "1a", "0x10", "++1", "1.0", "٣"] {
        assert_eq!(parse_number(s, u64::MAX), Err(NumberError::InvalidDigit), "{:?}", s);
    }
}

#[test]
fn first_error_in_a_number_is_told() {
    assert_eq!(parse_number("65536x", 65535), Err(NumberError::TooLarge));
    assert_eq!(parse_number("6553x6", 65535), Err(NumberError::InvalidDigit));
    assert_eq!(parse_number("65535x", 65535), Err(NumberError::InvalidDigit));
}

#[test]
fn port_numbers_are_read_as_std_reads_them() {
    let strings = [
        "", "+", "-", "+-1", "-0", "0", "+0", "000000", "587", "+587", "65535", "65536", "65536x",
        "6553x6", "65535x", "99999", "9999x", "99999x", "0000065536", "1é", "é", "1_000", " 25",
        "25 ", "25\n", "+65535", "++1", "x", "18446744073709551617",
    ];
    for s in strings {
        let read = parse_number(s, 65535).map_err(|e| e.message().to_string());
        let std = s.parse::<u16>().map(u64::from).map_err(|e| e.to_string());
        assert_eq!(read, std, "{:?}", s);
    }
}

#[test]
fn strings_are_compared_by_their_characters() {
    assert!(same("abc", "abc"));
    assert!(!same("abc", "abd"));
    assert!(!same("abc", "ab"));
    assert_eq!(characters("aé"), vec!['a', 'é']);
}

use musiklog::text::{
    chars_of, decimal_string, digit_of, digit_text, numeral_within, pair_string, quad_string,
    space_char, trim_bounds,
};

fn numeral(text: &str, low: u64, high: u64) -> Option<u64> {
    let chars = chars_of(text);
    numeral_within(&chars, 0, chars.len(), low, high)
}

fn trim(text: &str) -> String {
    let chars = chars_of(text);
    let (from, to) = trim_bounds(&chars);
    chars[from..to].iter().collect()
}

#[test]
fn chars_are_taken_one_by_one() {
    assert_eq!(chars_of(""), Vec::<char>::new());
    assert_eq!(chars_of("a-1"), vec!['a', '-', '1']);
    assert_eq!(chars_of("né\u{3000}"), vec!['n', 'é', '\u{3000}']);
}

#[test]
fn digits_are_recognised() {
    assert_eq!(digit_of('0'), Some(0));
    assert_eq!(digit_of('7'), Some(7));
    assert_eq!(digit_of('9'), Some(9));
    assert_eq!(digit_of('/'), None);
    assert_eq!(digit_of(':'), None);
    assert_eq!(digit_of('a'), None);
    assert_eq!(digit_of('٣'), None);
}

#[test]
fn numerals_are_read_with_their_value() {
    assert_eq!(numeral("2025", 1970, 3000), Some(2025));
    assert_eq!(numeral("1970", 1970, 3000), Some(1970));
    assert_eq!(numeral("3000", 1970, 3000), Some(3000));
    assert_eq!(numeral("01", 1, 12), Some(1));
    assert_eq!(numeral("+7", 1, 12), Some(7));
    assert_eq!(numeral("0000000000000000000000000012", 1, 12), Some(12));
    assert_eq!(numeral("18446744073709551615", 0, u64::MAX), Some(u64::MAX));
}

#[test]
fn numerals_out_of_range_are_refused() {
    assert_eq!(numeral("1969", 1970, 3000), None);
    assert_eq!(numeral("3001", 1970, 3000), None);
    assert_eq!(numeral("0", 1, 12), None);
    assert_eq!(numeral("13", 1, 12), None);
    assert_eq!(numeral("18446744073709551616", 0, u64::MAX), None);
    assert_eq!(numeral("99999999999999999999999999999999", 0, u64::MAX), None);
}

#[test]
fn what_is_no_numeral_is_refused() {
    assert_eq!(numeral("", 0, 100), None);
    assert_eq!(numeral("+", 0, 100), None);
    assert_eq!(numeral("++1", 0, 100), None);
    assert_eq!(numeral("-1", 0, 100), None);
    assert_eq!(numeral("1 ", 0, 100), None);
    assert_eq!(numeral(" 1", 0, 100), None);
    assert_eq!(numeral("1a", 0, 100), None);
    assert_eq!(numeral("1.0", 0, 100), None);
    assert_eq!(numeral("٣", 0, 100), None);
}

#[test]
fn a_numeral_is_read_inside_a_text() {
    let chars = chars_of("2025-11-21");
    assert_eq!(numeral_within(&chars, 0, 4, 0, 9999), Some(2025));
    assert_eq!(numeral_within(&chars, 5, 7, 0, 9999), Some(11));
    assert_eq!(numeral_within(&chars, 8, 10, 0, 9999), Some(21));
    assert_eq!(numeral_within(&chars, 4, 7, 0, 9999), None);
    assert_eq!(numeral_within(&chars, 3, 3, 0, 9999), None);
}

#[test]
fn numerals_agree_with_the_standard_parser() {
    for text in ["0", "7", "+7", "007", "12", "99", "100", "", "+", "-", "1x", "x1", "4294967296"] {
        let expected = text.parse::<u32>().ok().map(u64::from);
        assert_eq!(numeral(text, 0, u32::MAX as u64), expected, "{}", text);
    }
}

#[test]
fn white_space_is_recognised() {
    for c in [' ', '\t', '\n', '\r', '\u{0B}', '\u{0C}', '\u{85}', '\u{A0}', '\u{1680}', '\u{2000}', '\u{200A}', '\u{2028}', '\u{2029}', '\u{202F}', '\u{205F}', '\u{3000}'] {
        assert!(space_char(c));
    }
    for c in ['a', '0', '-', '\u{08}', '\u{0E}', '\u{200B}', '\u{1F}', '\u{FEFF}'] {
        assert!(!space_char(c));
    }
}

#[test]
fn white_space_agrees_with_the_standard_library() {
    for code in 0u32..0x3100 {
        if let Some(c) = char::from_u32(code) {
            assert_eq!(space_char(c), c.is_whitespace(), "{:x}", code);
        }
    }
}

#[test]
fn text_is_trimmed_at_both_ends() {
    assert_eq!(trim("y\n"), "y");
    assert_eq!(trim("  2 \r\n"), "2");
    assert_eq!(trim("a b"), "a b");
    assert_eq!(trim("\t a b \u{3000}"), "a b");
    assert_eq!(trim(""), "");
    assert_eq!(trim(" \n\t"), "");
    assert_eq!(trim("x"), "x");
}

#[test]
fn trimming_agrees_with_the_standard_library() {
    for text in ["", " ", "a", " a", "a ", " a ", "\n\ny\n", " a  b ", "\u{A0}x\u{2003}", "   "] {
        assert_eq!(trim(text), text.trim(), "{:?}", text);
    }
}

#[test]
fn numbers_are_written_in_decimal() {
    assert_eq!(decimal_string(0), "0");
    assert_eq!(decimal_string(1), "1");
    assert_eq!(decimal_string(9), "9");
    assert_eq!(decimal_string(10), "10");
    assert_eq!(decimal_string(2025), "2025");
    assert_eq!(decimal_string(1_000_000), "1000000");
    assert_eq!(decimal_string(usize::MAX), usize::MAX.to_string());
}

#[test]
fn digits_are_written() {
    for d in 0u8..10 {
        assert_eq!(digit_text(d), d.to_string());
    }
}

#[test]
fn fields_are_written_with_zeros_in_front() {
    assert_eq!(pair_string(0), "00");
    assert_eq!(pair_string(7), "07");
    assert_eq!(pair_string(12), "12");
    assert_eq!(pair_string(59), "59");
    assert_eq!(pair_string(99), "99");
    assert_eq!(pair_string(123), "23");
    assert_eq!(quad_string(0), "0000");
    assert_eq!(quad_string(33), "0033");
    assert_eq!(quad_string(1970), "1970");
    assert_eq!(quad_string(9999), "9999");
    assert_eq!(quad_string(12345), "2345");
}

use guessing_game::parser::{is_digit_char, is_whitespace_char, parse, ParseFailure};

#[test]
fn parse_plain_numbers() {
    assert_eq!(parse("0"), Ok(0));
    assert_eq!(parse("7"), Ok(7));
    assert_eq!(parse("42"), Ok(42));
    assert_eq!(parse("100"), Ok(100));
    assert_eq!(parse("2147483647"), Ok(i32::MAX));
}

#[test]
fn parse_negative_numbers() {
    assert_eq!(parse("-1"), Ok(-1));
    assert_eq!(parse("-50"), Ok(-50));
    assert_eq!(parse("-0"), Ok(0));
    assert_eq!(parse("-2147483648"), Ok(i32::MIN));
}

#[test]
fn parse_keeps_values_outside_the_target_range() {
    assert_eq!(parse("0"), Ok(0));
    assert_eq!(parse("101"), Ok(101));
    assert_eq!(parse("999999"), Ok(999999));
    assert_eq!(parse("-7"), Ok(-7));
}

#[test]
fn parse_ignores_surrounding_whitespace() {
    assert_eq!(parse("50\n"), Ok(50));
    assert_eq!(parse("50\r\n"), Ok(50));
    assert_eq!(parse("  50  "), Ok(50));
    assert_eq!(parse("\t-12 \n"), Ok(-12));
    assert_eq!(parse("\u{a0}8\u{3000}"), Ok(8));
    assert_eq!(parse("\u{2003}9\u{85}"), Ok(9));
}

#[test]
fn parse_accepts_leading_zeros() {
    assert_eq!(parse("007"), Ok(7));
    assert_eq!(parse("-0012"), Ok(-12));
    assert_eq!(parse("0000000000000000000000050"), Ok(50));
    assert_eq!(parse("00000000002147483647"), Ok(i32::MAX));
}

#[test]
fn parse_rejects_empty_and_blank_text() {
    assert_eq!(parse(""), Err(ParseFailure::NotANumber));
    assert_eq!(parse(" "), Err(ParseFailure::NotANumber));
    assert_eq!(parse("\n"), Err(ParseFailure::NotANumber));
    assert_eq!(parse(" \t \r\n"), Err(ParseFailure::NotANumber));
}

#[test]
fn parse_rejects_non_digit_content() {
    assert_eq!(parse("abc"), Err(ParseFailure::NotANumber));
    assert_eq!(parse("12a"), Err(ParseFailure::NotANumber));
    assert_eq!(parse("a12"), Err(ParseFailure::NotANumber));
    assert_eq!(parse("1 2"), Err(ParseFailure::NotANumber));
    assert_eq!(parse("1.5"), Err(ParseFailure::NotANumber));
    assert_eq!(parse("1e3"), Err(ParseFailure::NotANumber));
    assert_eq!(parse("0x10"), Err(ParseFailure::NotANumber));
    assert_eq!(parse("1_000"), Err(ParseFailure::NotANumber));
    assert_eq!(parse("\u{663}"), Err(ParseFailure::NotANumber));
    assert_eq!(parse("\u{ff15}"), Err(ParseFailure::NotANumber));
}

#[test]
fn parse_rejects_misplaced_signs() {
    assert_eq!(parse("-"), Err(ParseFailure::NotANumber));
    assert_eq!(parse("--5"), Err(ParseFailure::NotANumber));
    assert_eq!(parse("5-"), Err(ParseFailure::NotANumber));
    assert_eq!(parse("- 5"), Err(ParseFailure::NotANumber));
    assert_eq!(parse("+5"), Err(ParseFailure::NotANumber));
    assert_eq!(parse("+"), Err(ParseFailure::NotANumber));
    assert_eq!(parse("-+5"), Err(ParseFailure::NotANumber));
}

#[test]
fn parse_rejects_overflow() {
    assert_eq!(parse("2147483648"), Err(ParseFailure::NotANumber));
    assert_eq!(parse("-2147483649"), Err(ParseFailure::NotANumber));
    assert_eq!(parse("4294967296"), Err(ParseFailure::NotANumber));
    assert_eq!(parse("99999999999999999999999999"), Err(ParseFailure::NotANumber));
    assert_eq!(parse("-99999999999999999999999999"), Err(ParseFailure::NotANumber));
    assert_eq!(parse("9223372036854775808"), Err(ParseFailure::NotANumber));
    assert_eq!(parse("18446744073709551617"), Err(ParseFailure::NotANumber));
}

#[test]
fn parse_agrees_with_the_standard_parser_without_a_plus_sign() {
    let samples = vec![
        "", " ", "0", "1", "12", "123", "-1", "-", "a", "1a", "a1", " 1", "1 ", " 1 ", "1 1",
        "2147483647", "2147483648", "-2147483648", "-2147483649", "00", "-00", "0-", "--1",
        "1\t", "\n1", "\u{661}", "\u{ff11}", "1.0", "1,0", "\u{661}\u{662}\u{663}", " -5 ", "-5 5", "\u{660}", "\u{2028}3",
        "3\u{200b}", "\u{feff}3",
    ];
    for text in samples {
        let expected = text.trim().parse::<i32>().map_err(|_| ParseFailure::NotANumber);
        assert_eq!(parse(text), expected, "on {:?}", text);
    }
}

#[test]
fn parse_agrees_with_the_standard_parser_on_generated_text() {
    let alphabet: Vec<char> = vec!['0', '1', '9', '-', ' ', 'a', '\n', '2', '7'];
    let k = alphabet.len();
    let mut count = 0;
    for length in 0..5 {
        let total = k.pow(length as u32);
        for code in 0..total {
            let mut text = String::new();
            let mut rest = code;
            for _ in 0..length {
                text.push(alphabet[rest % k]);
                rest /= k;
            }
            let expected = text.trim().parse::<i32>().map_err(|_| ParseFailure::NotANumber);
            assert_eq!(parse(&text), expected, "on {:?}", text);
            count += 1;
        }
    }
    assert_eq!(count, 1 + 9 + 81 + 729 + 6561);
}

#[test]
fn parse_round_trips_every_boundary_value() {
    let values = vec![
        i32::MIN, i32::MIN + 1, -1_000_000_000, -100, -10, -9, -1, 0, 1, 9, 10, 11, 99, 100, 101,
        999_999_999, 1_000_000_000, i32::MAX - 1, i32::MAX,
    ];
    for n in values {
        assert_eq!(parse(&n.to_string()), Ok(n));
        assert_eq!(parse(&format!("  {}\n", n)), Ok(n));
    }
}

#[test]
fn parse_round_trips_a_sweep_of_values() {
    let mut n: i64 = i32::MIN as i64;
    while n <= i32::MAX as i64 {
        let v = n as i32;
        assert_eq!(parse(&v.to_string()), Ok(v));
        n += 65_521;
    }
}

#[test]
fn whitespace_test_agrees_with_the_standard_library() {
    let mut code: u32 = 0;
    while code <= 0x10FFFF {
        if let Some(c) = char::from_u32(code) {
            assert_eq!(is_whitespace_char(c), c.is_whitespace(), "on U+{:04X}", code);
        }
        code += 1;
    }
}

#[test]
fn digit_test_agrees_with_the_standard_library() {
    let mut code: u32 = 0;
    while code <= 0x10FFFF {
        if let Some(c) = char::from_u32(code) {
            assert_eq!(is_digit_char(c), c.is_ascii_digit(), "on U+{:04X}", code);
        }
        code += 1;
    }
}

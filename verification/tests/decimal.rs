use guessing_game::decimal::{push_decimal, to_decimal};
use guessing_game::parser::parse;

#[test]
fn to_decimal_writes_numbers_as_usual() {
    assert_eq!(to_decimal(0), "0");
    assert_eq!(to_decimal(7), "7");
    assert_eq!(to_decimal(10), "10");
    assert_eq!(to_decimal(50), "50");
    assert_eq!(to_decimal(100), "100");
    assert_eq!(to_decimal(-1), "-1");
    assert_eq!(to_decimal(-120), "-120");
    assert_eq!(to_decimal(i32::MAX), "2147483647");
    assert_eq!(to_decimal(i32::MIN), "-2147483648");
}

#[test]
fn to_decimal_agrees_with_the_standard_library() {
    let mut n: i64 = i32::MIN as i64;
    while n <= i32::MAX as i64 {
        let v = n as i32;
        assert_eq!(to_decimal(v), v.to_string());
        n += 104_729;
    }
}

#[test]
fn push_decimal_appends_to_what_is_there() {
    let mut text = String::from("You guessed: ");
    push_decimal(42, &mut text);
    assert_eq!(text, "You guessed: 42");
    push_decimal(-3, &mut text);
    assert_eq!(text, "You guessed: 42-3");
}

#[test]
fn parsing_what_to_decimal_wrote_gives_the_number_back() {
    for n in [i32::MIN, -2_000_000_000, -101, -1, 0, 1, 32, 100, 65_536, i32::MAX] {
        assert_eq!(parse(&to_decimal(n)), Ok(n));
    }
}

use git_prompt::text::decimal;
use git_prompt::text::parse_number;
use git_prompt::text::push_decimal;

#[test]
fn decimal_writes_single_digits() {
    assert_eq!(decimal(0), "0");
    assert_eq!(decimal(7), "7");
    assert_eq!(decimal(9), "9");
}

#[test]
fn decimal_writes_several_digits() {
    assert_eq!(decimal(10), "10");
    assert_eq!(decimal(405), "405");
    assert_eq!(decimal(1_000_000), "1000000");
}

#[test]
fn decimal_writes_the_largest_number() {
    assert_eq!(decimal(usize::MAX), format!("{}", usize::MAX));
}

#[test]
fn decimal_agrees_with_std() {
    let mut n: usize = 0;
    while n < 2_000 {
        assert_eq!(decimal(n), format!("{}", n));
        n += 1;
    }
}

#[test]
fn push_decimal_appends() {
    let mut text = String::from("M");
    push_decimal(&mut text, 31);
    assert_eq!(text, "M31");
}

#[test]
fn parse_number_reads_digits() {
    assert_eq!(parse_number("0"), Some(0));
    assert_eq!(parse_number("7"), Some(7));
    assert_eq!(parse_number("45"), Some(45));
    assert_eq!(parse_number("007"), Some(7));
}

#[test]
fn parse_number_takes_one_plus_sign() {
    assert_eq!(parse_number("+5"), Some(5));
    assert_eq!(parse_number("++5"), None);
    assert_eq!(parse_number("+"), None);
    assert_eq!(parse_number("5+"), None);
}

#[test]
fn parse_number_refuses_what_is_no_number() {
    assert_eq!(parse_number(""), None);
    assert_eq!(parse_number("-1"), None);
    assert_eq!(parse_number("-0"), None);
    assert_eq!(parse_number("12a"), None);
    assert_eq!(parse_number("a12"), None);
    assert_eq!(parse_number(" 1"), None);
    assert_eq!(parse_number("1 "), None);
    assert_eq!(parse_number("1_000"), None);
    assert_eq!(parse_number("0x10"), None);
    assert_eq!(parse_number("1.5"), None);
    assert_eq!(parse_number("٣"), None);
    assert_eq!(parse_number("é"), None);
}

#[test]
fn parse_number_stops_at_the_largest_number() {
    let largest = format!("{}", usize::MAX);
    assert_eq!(parse_number(&largest), Some(usize::MAX));
    let mut beyond = format!("{}", usize::MAX / 10);
    beyond.push_str("99");
    assert_eq!(parse_number(&beyond), None);
    assert_eq!(parse_number("99999999999999999999999999999999999999999"), None);
    assert_eq!(parse_number("000000000000000000000000000000000000000012"), Some(12));
}

#[test]
fn parse_number_agrees_with_std() {
    let cases = vec![
        "", "+", "-", "0", "+0", "-0", "1", "+1", "-1", "42", "0042", "4 2", "4_2", "42x", "x42",
        "18446744073709551615", "18446744073709551616", "4294967295", "4294967296", "+-1", "１２",
    ];
    for case in cases {
        assert_eq!(parse_number(case), usize::from_str_radix(case, 10).ok(), "{:?}", case);
    }
}

#[test]
fn parse_number_reads_back_what_decimal_writes() {
    let numbers = vec![0, 1, 9, 10, 99, 100, 12345, usize::MAX - 1, usize::MAX];
    for n in numbers {
        assert_eq!(parse_number(&decimal(n)), Some(n));
    }
}

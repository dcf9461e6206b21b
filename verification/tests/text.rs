use jupiter_swap_api_client::text::{decimal, join, parse_decimal};

#[test]
fn decimal_of_zero_is_one_digit() {
    assert_eq!(decimal(0), "0");
}

#[test]
fn decimal_of_single_digits() {
    assert_eq!(decimal(7), "7");
    assert_eq!(decimal(9), "9");
}

#[test]
fn decimal_has_no_leading_zero() {
    assert_eq!(decimal(10), "10");
    assert_eq!(decimal(404), "404");
    assert_eq!(decimal(1_000_000), "1000000");
}

#[test]
fn decimal_of_the_largest_number() {
    assert_eq!(decimal(u64::MAX), "18446744073709551615");
}

#[test]
fn decimal_agrees_with_std() {
    let mut n: u64 = 1;
    for _ in 0..19 {
        assert_eq!(decimal(n), n.to_string());
        assert_eq!(decimal(n - 1), (n - 1).to_string());
        n *= 10;
    }
}

#[test]
fn join_of_nothing_is_empty() {
    assert_eq!(join(&Vec::new(), "&"), "");
}

#[test]
fn join_of_one_part_has_no_separator() {
    assert_eq!(join(&vec!["a=1".to_string()], "&"), "a=1");
}

#[test]
fn join_puts_the_separator_between_parts() {
    let parts = vec!["a=1".to_string(), "b=2".to_string(), "c=3".to_string()];
    assert_eq!(join(&parts, "&"), "a=1&b=2&c=3");
}

#[test]
fn join_keeps_empty_parts() {
    let parts = vec![String::new(), "x".to_string(), String::new()];
    assert_eq!(join(&parts, ", "), ", x, ");
}

#[test]
fn parse_decimal_reads_numerals() {
    assert_eq!(parse_decimal("0"), Some(0));
    assert_eq!(parse_decimal("7"), Some(7));
    assert_eq!(parse_decimal("1000000"), Some(1_000_000));
    assert_eq!(parse_decimal("18446744073709551615"), Some(u64::MAX));
}

#[test]
fn parse_decimal_passes_over_leading_zeros() {
    assert_eq!(parse_decimal("007"), Some(7));
    assert_eq!(parse_decimal("0000000000000000000000000"), Some(0));
    assert_eq!(parse_decimal("00018446744073709551615"), Some(u64::MAX));
}

#[test]
fn parse_decimal_refuses_what_does_not_fit() {
    assert_eq!(parse_decimal("18446744073709551616"), None);
    assert_eq!(parse_decimal("18446744073709551620"), None);
    assert_eq!(parse_decimal("99999999999999999999"), None);
    assert_eq!(parse_decimal("100000000000000000000000"), None);
}

#[test]
fn parse_decimal_refuses_what_is_no_numeral() {
    assert_eq!(parse_decimal(""), None);
    assert_eq!(parse_decimal("+7"), None);
    assert_eq!(parse_decimal("-7"), None);
    assert_eq!(parse_decimal("7 "), None);
    assert_eq!(parse_decimal(" 7"), None);
    assert_eq!(parse_decimal("1.5"), None);
    assert_eq!(parse_decimal("1e3"), None);
    assert_eq!(parse_decimal("12a"), None);
    assert_eq!(parse_decimal("\u{665}"), None);
    assert_eq!(parse_decimal("/"), None);
    assert_eq!(parse_decimal(":"), None);
}

#[test]
fn parse_decimal_reads_back_what_decimal_wrote() {
    let mut n: u64 = 1;
    for _ in 0..64 {
        assert_eq!(parse_decimal(&decimal(n)), Some(n));
        assert_eq!(parse_decimal(&decimal(n - 1)), Some(n - 1));
        n = n.wrapping_mul(2);
    }
    assert_eq!(parse_decimal(&decimal(u64::MAX)), Some(u64::MAX));
}

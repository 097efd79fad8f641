use helix_website::fmt::{i64_to_decimal, pretty_int, u128_to_decimal, wei_to_eth};

#[test]
fn decimal_of_zero() {
    assert_eq!(u128_to_decimal(0), "0");
}

#[test]
fn decimal_of_small_number() {
    assert_eq!(u128_to_decimal(7), "7");
}

#[test]
fn decimal_of_large_number() {
    assert_eq!(u128_to_decimal(1234567890123456789), "1234567890123456789");
}

#[test]
fn signed_decimal_positive() {
    assert_eq!(i64_to_decimal(123), "123");
}

#[test]
fn signed_decimal_negative() {
    assert_eq!(i64_to_decimal(-5), "-5");
}

#[test]
fn signed_decimal_minimum() {
    assert_eq!(i64_to_decimal(i64::MIN), "-9223372036854775808");
}

#[test]
fn pretty_int_groups_thousands() {
    assert_eq!(pretty_int(&1234567), "1,234,567");
}

#[test]
fn pretty_int_small_number_ungrouped() {
    assert_eq!(pretty_int(&999), "999");
}

#[test]
fn pretty_int_zero() {
    assert_eq!(pretty_int(&0), "0");
}

#[test]
fn pretty_int_negative() {
    assert_eq!(pretty_int(&-1234), "-1,234");
}

#[test]
fn wei_to_eth_one_and_a_half() {
    assert_eq!(wei_to_eth(&1_500_000_000_000_000_000), "1.5000");
}

#[test]
fn wei_to_eth_zero() {
    assert_eq!(wei_to_eth(&0), "0.0000");
}

#[test]
fn wei_to_eth_one_wei_truncates_to_zero() {
    assert_eq!(wei_to_eth(&1), "0.0000");
}

#[test]
fn wei_to_eth_large_amount_truncates_to_six_characters() {
    assert_eq!(wei_to_eth(&(123456 * 1_000_000_000_000_000_000)), "123456");
}

#[test]
fn wei_to_eth_just_below_one_thousand() {
    assert_eq!(wei_to_eth(&999_999_999_999_999_999_999), "999.99");
}

//! Rendering raw token amounts.

use klend_client::amount::format_token_amount;

#[test]
fn renders_whole_and_fraction() {
    assert_eq!(format_token_amount(1_500_000, 6), "1.500000");
    assert_eq!(format_token_amount(12_34, 2), "12.34");
}

#[test]
fn pads_small_fractions_with_zeros() {
    assert_eq!(format_token_amount(5, 3), "0.005");
    assert_eq!(format_token_amount(0, 4), "0.0000");
}

#[test]
fn handles_zero_decimals() {
    assert_eq!(format_token_amount(123, 0), "123.0");
}

#[test]
fn handles_the_largest_amount() {
    assert_eq!(format_token_amount(u64::MAX, 0), "18446744073709551615.0");
    assert_eq!(format_token_amount(u64::MAX, 19), "1.8446744073709551615");
}

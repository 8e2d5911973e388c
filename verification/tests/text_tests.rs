use sysmon_core::text::u64_to_dec;

#[test]
fn renders_zero() {
    assert_eq!(u64_to_dec(0), "0");
}

#[test]
fn renders_single_digits() {
    assert_eq!(u64_to_dec(7), "7");
}

#[test]
fn renders_multi_digit_numbers() {
    assert_eq!(u64_to_dec(12_345), "12345");
    assert_eq!(u64_to_dec(1_000), "1000");
    assert_eq!(u64_to_dec(u64::MAX), "18446744073709551615");
}

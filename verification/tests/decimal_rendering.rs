use rev8617::decimal::u16_to_decimal;

#[test]
fn single_digits_render_as_themselves() {
    assert_eq!(u16_to_decimal(0), "0");
    assert_eq!(u16_to_decimal(7), "7");
    assert_eq!(u16_to_decimal(9), "9");
}

#[test]
fn multi_digit_values_render_most_significant_first() {
    assert_eq!(u16_to_decimal(10), "10");
    assert_eq!(u16_to_decimal(200), "200");
    assert_eq!(u16_to_decimal(9090), "9090");
    assert_eq!(u16_to_decimal(65535), "65535");
}

use fibonacci::decimal::{dec_u32, i32_dec};

#[test]
fn renders_single_digits() {
    assert_eq!(i32_dec(0), "0");
    assert_eq!(i32_dec(7), "7");
    assert_eq!(dec_u32(9), "9");
}

#[test]
fn renders_multiple_digits() {
    assert_eq!(dec_u32(10), "10");
    assert_eq!(i32_dec(2026), "2026");
    assert_eq!(dec_u32(u32::MAX), "4294967295");
}

#[test]
fn renders_negative_values() {
    assert_eq!(i32_dec(-5), "-5");
    assert_eq!(i32_dec(-120), "-120");
    assert_eq!(i32_dec(i32::MIN), "-2147483648");
    assert_eq!(i32_dec(i32::MAX), "2147483647");
}

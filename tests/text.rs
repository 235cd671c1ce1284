use lol_api::text::{decimal_i32, decimal_u64};

#[test]
fn decimal_rendering() {
    assert_eq!(decimal_u64(0), "0");
    assert_eq!(decimal_u64(9), "9");
    assert_eq!(decimal_u64(10), "10");
    assert_eq!(decimal_u64(420), "420");
    assert_eq!(decimal_u64(u64::MAX), u64::MAX.to_string());
    assert_eq!(decimal_i32(0), "0");
    assert_eq!(decimal_i32(-1), "-1");
    assert_eq!(decimal_i32(i32::MIN), "-2147483648");
    assert_eq!(decimal_i32(i32::MAX), "2147483647");
}

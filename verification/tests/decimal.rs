use ruvy::decimal::{decimal_string, push_decimal_i32, push_decimal_u64};

#[test]
fn decimal_of_small_and_extreme_integers() {
    assert_eq!(decimal_string(0), "0");
    assert_eq!(decimal_string(7), "7");
    assert_eq!(decimal_string(10), "10");
    assert_eq!(decimal_string(-1), "-1");
    assert_eq!(decimal_string(1203), "1203");
    assert_eq!(decimal_string(i32::MAX), "2147483647");
    assert_eq!(decimal_string(i32::MIN), "-2147483648");
}

#[test]
fn decimal_is_appended_to_what_is_there() {
    let mut text = "status ".to_string();
    push_decimal_i32(&mut text, -45);
    text.push(' ');
    push_decimal_u64(&mut text, u64::MAX);
    assert_eq!(text, "status -45 18446744073709551615");
}

#[test]
fn decimal_agrees_with_the_standard_rendering() {
    for i in [-100000, -999, -10, -9, 0, 9, 10, 99, 100, 101, 65535, 1000000] {
        assert_eq!(decimal_string(i), i.to_string());
    }
}

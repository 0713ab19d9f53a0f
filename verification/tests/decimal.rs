use check_brandmeister::decimal::{append_decimal, decimal_string};

#[test]
fn decimal_of_small_numbers() {
    assert_eq!(decimal_string(0), "0");
    assert_eq!(decimal_string(7), "7");
    assert_eq!(decimal_string(10), "10");
    assert_eq!(decimal_string(152), "152");
    assert_eq!(decimal_string(-1), "-1");
    assert_eq!(decimal_string(-900), "-900");
}

#[test]
fn decimal_of_the_extremes() {
    assert_eq!(decimal_string(i64::MAX), "9223372036854775807");
    assert_eq!(decimal_string(i64::MIN), "-9223372036854775808");
    assert_eq!(decimal_string(i64::MIN + 1), "-9223372036854775807");
}

#[test]
fn decimal_agrees_with_the_standard_library() {
    let mut n: i64 = 1;
    for _ in 0..18 {
        for value in [n - 1, n, n + 1, -n, -n - 1, 1 - n] {
            assert_eq!(decimal_string(value), value.to_string());
        }
        n *= 10;
    }
}

#[test]
fn append_decimal_keeps_what_was_there() {
    let mut text = String::from("id=");
    append_decimal(&mut text, 270107);
    assert_eq!(text, "id=270107");
    append_decimal(&mut text, -3);
    assert_eq!(text, "id=270107-3");
}

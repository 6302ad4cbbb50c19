use my_app::controller::posts::delete::acknowledgement;
use my_app::text::{append_decimal, decimal};

#[test]
fn single_digits() {
    assert_eq!(decimal(0), "0");
    assert_eq!(decimal(1), "1");
    assert_eq!(decimal(2), "2");
    assert_eq!(decimal(3), "3");
    assert_eq!(decimal(4), "4");
    assert_eq!(decimal(5), "5");
    assert_eq!(decimal(6), "6");
    assert_eq!(decimal(7), "7");
    assert_eq!(decimal(8), "8");
    assert_eq!(decimal(9), "9");
}

#[test]
fn several_digits_most_significant_first() {
    assert_eq!(decimal(10), "10");
    assert_eq!(decimal(42), "42");
    assert_eq!(decimal(100), "100");
    assert_eq!(decimal(1234567890), "1234567890");
    assert_eq!(decimal(1000000007), "1000000007");
}

#[test]
fn negative_numbers_carry_a_minus_sign() {
    assert_eq!(decimal(-1), "-1");
    assert_eq!(decimal(-10), "-10");
    assert_eq!(decimal(-305), "-305");
}

#[test]
fn the_ends_of_the_range() {
    assert_eq!(decimal(i32::MAX), "2147483647");
    assert_eq!(decimal(i32::MIN), "-2147483648");
}

#[test]
fn decimal_agrees_with_the_standard_formatting() {
    let samples: [i32; 12] = [0, 9, 10, 11, 99, 100, 101, 65535, -65536, 999999999, -999999999, 19];
    for n in samples {
        assert_eq!(decimal(n), format!("{}", n));
    }
}

#[test]
fn append_keeps_what_is_there() {
    let mut text = String::from("id=");
    append_decimal(&mut text, 57);
    assert_eq!(text, "id=57");
    append_decimal(&mut text, -3);
    assert_eq!(text, "id=57-3");
}

#[test]
fn acknowledgement_names_the_post() {
    assert_eq!(acknowledgement(7), "delete post [7]");
    assert_eq!(acknowledgement(0), "delete post [0]");
    assert_eq!(acknowledgement(120), "delete post [120]");
    assert_eq!(acknowledgement(-12), "delete post [-12]");
    assert_eq!(acknowledgement(i32::MIN), "delete post [-2147483648]");
}

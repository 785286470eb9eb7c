use auth_core::decimal::{i32_to_decimal, u64_to_decimal};

#[test]
fn unsigned_single_digits() {
    assert_eq!(u64_to_decimal(0), "0");
    assert_eq!(u64_to_decimal(7), "7");
    assert_eq!(u64_to_decimal(9), "9");
}

#[test]
fn unsigned_several_digits() {
    assert_eq!(u64_to_decimal(10), "10");
    assert_eq!(u64_to_decimal(3600), "3600");
    assert_eq!(u64_to_decimal(1234567890), "1234567890");
    assert_eq!(u64_to_decimal(1700000000), "1700000000");
}

#[test]
fn unsigned_largest() {
    assert_eq!(u64_to_decimal(u64::MAX), "18446744073709551615");
}

#[test]
fn signed_zero_and_positive() {
    assert_eq!(i32_to_decimal(0), "0");
    assert_eq!(i32_to_decimal(42), "42");
    assert_eq!(i32_to_decimal(i32::MAX), "2147483647");
}

#[test]
fn signed_negative() {
    assert_eq!(i32_to_decimal(-1), "-1");
    assert_eq!(i32_to_decimal(-70), "-70");
    assert_eq!(i32_to_decimal(i32::MIN), "-2147483648");
}

#[test]
fn decimal_agrees_with_std() {
    let mut n: u64 = 1;
    for _ in 0..19 {
        assert_eq!(u64_to_decimal(n), n.to_string());
        assert_eq!(u64_to_decimal(n - 1), (n - 1).to_string());
        n *= 10;
    }
    for i in [-1000000007, -99, -10, -9, 9, 10, 99, 100, 101, 65535] {
        assert_eq!(i32_to_decimal(i), i.to_string());
    }
}

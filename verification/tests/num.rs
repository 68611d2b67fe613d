use palette::num::{pow, IsValidDivisor, MinMax, One, Powu, Zero};

#[test]
fn pow_computes_integer_powers() {
    assert_eq!(pow(0, 0), 1);
    assert_eq!(pow(0, 5), 0);
    assert_eq!(pow(2, 0), 1);
    assert_eq!(pow(2, 1), 2);
    assert_eq!(pow(2, 10), 1024);
    assert_eq!(pow(3, 5), 243);
    assert_eq!(pow(10, 38), 100_000_000_000_000_000_000_000_000_000_000_000_000);
    assert_eq!(pow(2, 127), 1u128 << 127);
}

#[test]
fn powu_for_each_unsigned_type() {
    assert_eq!(2u8.powu(7), 128);
    assert_eq!(3u16.powu(10), 59049);
    assert_eq!(7u32.powu(3), 343);
    assert_eq!(10u64.powu(19), 10_000_000_000_000_000_000);
    assert_eq!(5u128.powu(0), 1);
}

#[test]
fn zero_and_one() {
    assert_eq!(u8::zero(), 0);
    assert_eq!(u16::one(), 1);
    assert_eq!(u128::zero() + u128::one(), 1);
}

#[test]
fn min_max_order_two_values() {
    assert_eq!(MinMax::min(3u8, 9), 3);
    assert_eq!(MinMax::max(3u32, 9), 9);
    assert_eq!(MinMax::min_max(9u64, 3), (3, 9));
    assert_eq!(MinMax::min_max(4u16, 4), (4, 4));
}

#[test]
fn only_zero_is_not_a_valid_divisor() {
    assert!(!0u8.is_valid_divisor());
    assert!(1u8.is_valid_divisor());
    assert!(!0u64.is_valid_divisor());
    assert!(u128::MAX.is_valid_divisor());
}

use raycaster::fraction_num::{FractionNum, SignedFractionNum};

#[test]
fn test_default() {
    assert_eq!(FractionNum::default(), FractionNum::new(0));
    assert_eq!(SignedFractionNum::default(), SignedFractionNum::new(0));
}

#[test]
fn test_conversion() {
    assert!(SignedFractionNum::try_from(FractionNum::new(1)).is_ok());
    assert!(SignedFractionNum::try_from(FractionNum::new(u64::MAX)).is_err());
    assert!(FractionNum::try_from(SignedFractionNum::new(1)).is_ok());
    assert!(FractionNum::try_from(SignedFractionNum::new(-1)).is_err());
}

#[test]
fn test_addtion() {
    assert_eq!(FractionNum::new(1) + FractionNum::new(2), FractionNum::new(3));
    assert_eq!(SignedFractionNum::new(1) + SignedFractionNum::new(2), SignedFractionNum::new(3));

    assert_eq!(SignedFractionNum::new(1) + SignedFractionNum::new(-2), SignedFractionNum::new(-1));

    assert_eq!(FractionNum::new(1) + 2, FractionNum::new(3));
    assert_eq!(SignedFractionNum::new(1) + 2, SignedFractionNum::new(3));

    assert_eq!(SignedFractionNum::new(1) + -2, SignedFractionNum::new(-1));
}

#[test]
fn test_subtraction() {
    assert_eq!(FractionNum::new(1) + FractionNum::new(2), FractionNum::new(3));
    assert_eq!(SignedFractionNum::new(1) + SignedFractionNum::new(2), SignedFractionNum::new(3));

    assert_eq!(SignedFractionNum::new(1) + SignedFractionNum::new(-2), SignedFractionNum::new(-1));

    assert_eq!(FractionNum::new(1) + 2, FractionNum::new(3));
    assert_eq!(SignedFractionNum::new(1) + 2, SignedFractionNum::new(3));

    assert_eq!(SignedFractionNum::new(1) + -2, SignedFractionNum::new(-1));
}

#[test]
fn test_abs() {
    assert_eq!(SignedFractionNum::new(2).abs(), SignedFractionNum::new(2));
    assert_eq!(SignedFractionNum::new(-2).abs(), SignedFractionNum::new(2));
}

#[test]
fn test_multiplication() {
    assert_eq!(FractionNum::new(1) * 2, FractionNum::new(2));
    assert_eq!(SignedFractionNum::new(1) * 2, SignedFractionNum::new(2));
    assert_eq!(SignedFractionNum::new(-1) * 2, SignedFractionNum::new(-2));

    assert_eq!(FractionNum::new(2) * FractionNum::new(2), FractionNum::new(4));

    let mut x = FractionNum::new(2);
    x *= x;
    assert_eq!(x, FractionNum::new(4));

    assert_eq!(SignedFractionNum::new(2) * SignedFractionNum::new(2), SignedFractionNum::new(4));

    let mut x = SignedFractionNum::new(2);
    x *= x;
    assert_eq!(x, SignedFractionNum::new(4));

    assert_eq!(SignedFractionNum::new(-2) * SignedFractionNum::new(2), SignedFractionNum::new(-4));

    let mut x = SignedFractionNum::new(-2);
    x *= x;
    assert_eq!(x, SignedFractionNum::new(4));
}

#[test]
fn test_division() {
    assert_eq!(FractionNum::new(2) / 2, FractionNum::new(1));
    assert_eq!(SignedFractionNum::new(2) / 2, SignedFractionNum::new(1));
    assert_eq!(SignedFractionNum::new(-2) / 2, SignedFractionNum::new(-1));

    assert_eq!(FractionNum::new(4) / FractionNum::new(2), FractionNum::new(2));
    assert_eq!(SignedFractionNum::new(4) / SignedFractionNum::new(2), SignedFractionNum::new(2));
    assert_eq!(SignedFractionNum::new(-4) / SignedFractionNum::new(2), SignedFractionNum::new(-2));
}

#[test]
fn test_shift_left() {
    assert_eq!(FractionNum::new(2) << 1, FractionNum::new(4));
    assert_eq!(SignedFractionNum::new(2) << 1, SignedFractionNum::new(4));
    assert_eq!(SignedFractionNum::new(-2) << 1, SignedFractionNum::new(-4));
}

#[test]
fn test_shift_right() {
    assert_eq!(FractionNum::new(2) >> 1, FractionNum::new(1));
    assert_eq!(SignedFractionNum::new(2) >> 1, SignedFractionNum::new(1));
    assert_eq!(SignedFractionNum::new(-2) >> 1, SignedFractionNum::new(-1));
}

#[test]
#[should_panic(expected = "attempt to divide by zero")]
fn division_panics() {
    let _ = FractionNum::default() / 0;
    let _ = SignedFractionNum::default() / 0;
}

#[test]
fn new_then_integer_part_round_trips() {
    for n in [0i64, 1, -1, 5, -5, 123_456, -123_456, (1 << 47) - 1, -(1 << 47)] {
        assert_eq!(SignedFractionNum::new(n).into_i64(), n);
    }
    for n in [0u64, 1, 7, 987_654_321, (1 << 48) - 1] {
        assert_eq!(FractionNum::new(n).into_u64(), n);
    }
    assert_eq!(u64::from(FractionNum::from(9u64)), 9);
    assert_eq!(i64::from(SignedFractionNum::from(-9i64)), -9);
}

#[test]
fn integer_part_rounds_toward_negative_infinity() {
    assert_eq!(SignedFractionNum::from_raw_i64(-1).into_i64(), -1);
    assert_eq!(SignedFractionNum::from_raw_i64(65535).into_i64(), 0);
    assert_eq!(FractionNum::from_raw_u64(3 * 65536 + 65535).into_u64(), 3);
}

#[test]
fn add_then_sub_is_exact_even_when_wrapping() {
    let a = SignedFractionNum::from_raw_i64(i64::MAX - 3);
    let b = SignedFractionNum::from_raw_i64(10);
    assert_eq!((a + b) - b, a);
    assert_eq!((a - b) + b, a);
    assert_eq!((a + b).into_raw_i64(), i64::MIN + 6);

    let c = FractionNum::from_raw_u64(5);
    let d = FractionNum::from_raw_u64(u64::MAX);
    assert_eq!((c + d) - d, c);
    assert_eq!((c - d) + d, c);
    assert_eq!((c + d).into_raw_u64(), 4);

    let mut e = SignedFractionNum::new(3);
    e += SignedFractionNum::new(4);
    e -= 2;
    e += 1;
    assert_eq!(e, SignedFractionNum::new(6));
    let mut f = FractionNum::new(3);
    f -= FractionNum::new(1);
    f += 5;
    f -= 1;
    assert_eq!(f, FractionNum::new(6));
}

#[test]
fn multiply_then_divide_is_within_one_raw_unit() {
    let a = SignedFractionNum::from_raw_i64(12_345);
    let b = SignedFractionNum::from_raw_i64(3 * 65536 + 7);
    let back = (a * b) / b;
    assert!((back.into_raw_i64() - a.into_raw_i64()).abs() <= 1);

    let nb = SignedFractionNum::from_raw_i64(-(5 * 65536 + 1234));
    let back = (a * nb) / nb;
    assert!((back.into_raw_i64() - a.into_raw_i64()).abs() <= 1);

    let ua = FractionNum::from_raw_u64(777_777);
    let ub = FractionNum::from_raw_u64(65536 + 99);
    let back = (ua * ub) / ub;
    assert!(ua.into_raw_u64() - back.into_raw_u64() <= 1);
}

#[test]
fn multiply_uses_a_wide_intermediate() {
    let big = SignedFractionNum::new(100_000);
    assert_eq!(big * big, SignedFractionNum::new(10_000_000_000));
    assert_eq!(big * SignedFractionNum::new(-100_000), SignedFractionNum::new(-10_000_000_000));
    let ubig = FractionNum::new(1 << 30);
    assert_eq!(ubig * FractionNum::new(4), FractionNum::new(1 << 32));
    let half = SignedFractionNum::from_raw_i64(32768);
    assert_eq!(SignedFractionNum::from_raw_i64(-1) * half, SignedFractionNum::from_raw_i64(-1));
}

#[test]
fn divide_keeps_high_bits_of_the_dividend() {
    assert_eq!(
        SignedFractionNum::new(1 << 40) / SignedFractionNum::new(2),
        SignedFractionNum::new(1 << 39)
    );
    assert_eq!(FractionNum::new(1 << 45) / FractionNum::new(4), FractionNum::new(1 << 43));
    assert_eq!(
        SignedFractionNum::new(7) / SignedFractionNum::new(-2),
        SignedFractionNum::from_raw_i64(-(7 * 65536 / 2))
    );
    assert_eq!(SignedFractionNum::from_raw_i64(-7) / 2, SignedFractionNum::from_raw_i64(-3));
    let mut g = SignedFractionNum::new(9);
    g /= SignedFractionNum::new(3);
    assert_eq!(g, SignedFractionNum::new(3));
    g /= 3;
    assert_eq!(g, SignedFractionNum::new(1));
    let mut h = FractionNum::new(8);
    h /= FractionNum::new(2);
    h /= 4;
    assert_eq!(h, FractionNum::new(1));
}

#[test]
fn abs_of_negation_and_of_the_minimum() {
    for raw in [0i64, 1, -1, 65536, -98_765, i64::MAX] {
        let x = SignedFractionNum::from_raw_i64(raw);
        let neg = SignedFractionNum::new(0) - x;
        assert!(x.abs().into_raw_i64() >= 0);
        assert_eq!(x.abs(), neg.abs());
    }
    let min = SignedFractionNum::from_raw_i64(i64::MIN);
    assert_eq!(min.abs(), min);
}

#[test]
fn conversions_check_the_range() {
    let s = SignedFractionNum::from_raw_i64(-1);
    assert!(FractionNum::try_from(s).is_err());
    let u = FractionNum::from_raw_u64(i64::MAX as u64 + 1);
    assert!(SignedFractionNum::try_from(u).is_err());
    let edge = FractionNum::from_raw_u64(i64::MAX as u64);
    assert_eq!(SignedFractionNum::try_from(edge).unwrap().into_raw_i64(), i64::MAX);
    let v = SignedFractionNum::from_raw_i64(424_242);
    let there = FractionNum::try_from(v).unwrap();
    assert_eq!(there.into_raw_u64(), 424_242);
    assert_eq!(SignedFractionNum::try_from(there).unwrap(), v);
}

#[test]
fn shifts_and_fraction() {
    assert_eq!(FractionNum::new(1) << 16u32, FractionNum::new(65536));
    assert_eq!(SignedFractionNum::new(-8) >> 2u32, SignedFractionNum::new(-2));
    assert_eq!(SignedFractionNum::from_raw_i64(3 * 65536 + 100).frac().into_raw_i64(), 100);
    assert_eq!(SignedFractionNum::from_raw_i64(-1).frac().into_raw_i64(), 65535);
}

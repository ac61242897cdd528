use cat_bridge::error::BridgeError;
use cat_bridge::normalize::{denormalize, normalize};
use cat_bridge::wide::U256;

#[test]
fn nine_decimals_exact_amount_round_trips() {
    assert_eq!(normalize(1_500_000_000, 9), Ok(150_000_000));
    assert_eq!(denormalize(150_000_000, 9), Ok(1_500_000_000));
}

#[test]
fn nine_decimals_drops_dust() {
    let wire = normalize(1_500_000_005, 9).unwrap();
    assert_eq!(wire, 150_000_000);
    let back = denormalize(wire, 9).unwrap();
    assert_eq!(back, 1_500_000_000);
    assert_eq!(1_500_000_005 - back, 5);
    assert!(1_500_000_005 - back < 10);
}

#[test]
fn fewer_decimals_scale_up_and_back() {
    assert_eq!(normalize(1_234_567, 6), Ok(123_456_700));
    assert_eq!(denormalize(123_456_700, 6), Ok(1_234_567));
    assert_eq!(normalize(42, 0), Ok(4_200_000_000));
    assert_eq!(denormalize(4_200_000_000, 0), Ok(42));
    assert_eq!(normalize(42, 8), Ok(42));
    assert_eq!(denormalize(42, 8), Ok(42));
}

#[test]
fn round_trip_is_exact_up_to_eight_decimals() {
    for d in 0u8..=8 {
        for x in [0u64, 1, 7, 999, 123_456_789, 10_000_000_000] {
            let n = normalize(x, d).unwrap();
            assert_eq!(denormalize(n, d), Ok(x));
        }
    }
}

#[test]
fn round_trip_loss_is_below_the_dropped_digits() {
    for d in 9u8..=18 {
        let unit = 10u64.pow((d - 8) as u32);
        for x in [0u64, 1, 9, 12_345, 987_654_321_012, u64::MAX] {
            let back = denormalize(normalize(x, d).unwrap(), d).unwrap();
            assert!(back <= x);
            assert!(x - back < unit);
        }
    }
}

#[test]
fn scaling_up_overflow_is_an_arithmetic_error() {
    assert_eq!(normalize(u64::MAX, 0), Err(BridgeError::ArithmeticError));
    assert_eq!(normalize(u64::MAX / 10 + 1, 7), Err(BridgeError::ArithmeticError));
    assert_eq!(normalize(u64::MAX / 10, 7), Ok(u64::MAX / 10 * 10));
    assert_eq!(denormalize(u64::MAX, 18), Err(BridgeError::ArithmeticError));
}

#[test]
fn very_many_decimals() {
    assert_eq!(normalize(u64::MAX, 40), Ok(0));
    assert_eq!(denormalize(0, 40), Ok(0));
    assert_eq!(denormalize(1, 40), Err(BridgeError::ArithmeticError));
    assert_eq!(normalize(u64::MAX, 27), Ok(1));
    assert_eq!(denormalize(1, 27), Ok(10_000_000_000_000_000_000));
}

#[test]
fn wide_integer_narrows_only_when_it_fits() {
    let x = U256::from_u64(0x0102_0304_0506_0708);
    let b = x.to_le_bytes();
    assert_eq!(&b[..8], &[8, 7, 6, 5, 4, 3, 2, 1]);
    assert!(b[8..].iter().all(|&v| v == 0));
    assert_eq!(x.to_u64(), Some(0x0102_0304_0506_0708));
    assert_eq!(U256::from_u64(u64::MAX).to_u64(), Some(u64::MAX));
    let mut big = [0u8; 32];
    big[8] = 1;
    assert_eq!(U256::from_le_bytes(big).to_u64(), None);
    let mut top = [0u8; 32];
    top[31] = 0x80;
    assert_eq!(U256::from_le_bytes(top).to_u64(), None);
}

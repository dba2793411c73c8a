use staking_contract::amount::Amount;

/// 3 * 10^27, which needs twelve bytes.
fn three_octillion() -> Amount {
    Amount::from_bytes_be(vec![
        0x09, 0xb1, 0x8a, 0xb5, 0xdf, 0x71, 0x80, 0xb6, 0xb8, 0x00, 0x00, 0x00,
    ])
}

#[test]
fn product_and_quotient_are_exact() {
    let a = Amount::from_u64(1_000_000_000_000_000_000);
    let b = Amount::from_u64(3_000_000_000);
    let product = a.times(&b);
    assert!(product == three_octillion());
    let quotient = product.divided_by(&a);
    assert!(quotient == b);
    assert!(!(quotient == a));
}

#[test]
fn zero_is_zero() {
    assert!(Amount::zero().is_zero());
    assert!(Amount::from_u64(0).is_zero());
    assert!(Amount::from_bytes_be(vec![0, 0, 0]).is_zero());
    assert!(!Amount::from_u64(1).is_zero());
    assert!(!three_octillion().is_zero());
    assert_eq!(Amount::zero(), Amount::from_u64(0));
}

#[test]
fn from_u64_writes_big_endian() {
    assert_eq!(
        Amount::from_u64(0x0102_0304_0506_0708).to_bytes_be(),
        vec![1, 2, 3, 4, 5, 6, 7, 8]
    );
    assert_eq!(
        Amount::from_u64(u64::MAX),
        Amount::from_bytes_be(vec![0xff; 8])
    );
    assert_eq!(Amount::from_u64(258), Amount::from_bytes_be(vec![1, 2]));
}

#[test]
fn leading_zero_bytes_do_not_change_the_value() {
    assert_eq!(
        Amount::from_bytes_be(vec![0, 0, 1, 0]),
        Amount::from_u64(256)
    );
    assert_ne!(Amount::from_bytes_be(vec![1, 0, 0]), Amount::from_u64(256));
}

#[test]
fn sum_carries_past_sixty_four_bits() {
    let sum = Amount::from_u64(u64::MAX).plus(&Amount::from_u64(1));
    assert_eq!(sum, Amount::from_bytes_be(vec![1, 0, 0, 0, 0, 0, 0, 0, 0]));
    assert_eq!(
        Amount::from_u64(7).plus(&Amount::from_u64(5)),
        Amount::from_u64(12)
    );
    assert_eq!(Amount::from_u64(7).plus(&Amount::zero()), Amount::from_u64(7));
}

#[test]
fn difference_borrows_across_bytes() {
    let big = Amount::from_bytes_be(vec![1, 0, 0, 0, 0, 0, 0, 0, 0]);
    assert_eq!(big.minus(&Amount::from_u64(1)), Amount::from_u64(u64::MAX));
    assert_eq!(
        Amount::from_u64(12).minus(&Amount::from_u64(5)),
        Amount::from_u64(7)
    );
    assert!(Amount::from_u64(12).minus(&Amount::from_u64(12)).is_zero());
}

#[test]
fn product_of_small_numbers() {
    assert_eq!(
        Amount::from_u64(6).times(&Amount::from_u64(7)),
        Amount::from_u64(42)
    );
    assert!(Amount::from_u64(6).times(&Amount::zero()).is_zero());
    assert_eq!(
        Amount::from_u64(u64::MAX).times(&Amount::from_u64(u64::MAX)),
        Amount::from_bytes_be(vec![
            0xff, 0xff, 0xff, 0xff, 0xff, 0xff, 0xff, 0xfe, 0, 0, 0, 0, 0, 0, 0, 1,
        ])
    );
}

#[test]
fn quotient_rounds_down() {
    assert_eq!(
        Amount::from_u64(3_000_000_000).divided_by(&Amount::from_u64(7)),
        Amount::from_u64(428_571_428)
    );
    assert_eq!(
        Amount::from_u64(41).divided_by(&Amount::from_u64(42)),
        Amount::zero()
    );
    assert_eq!(
        Amount::from_u64(42).divided_by(&Amount::from_u64(42)),
        Amount::from_u64(1)
    );
    assert_eq!(
        three_octillion().divided_by(&Amount::from_u64(3)),
        Amount::from_u64(1_000_000_000).times(&Amount::from_u64(1_000_000_000_000_000_000))
    );
}

#[test]
fn order_follows_the_numbers() {
    let small = Amount::from_u64(u64::MAX);
    let large = three_octillion();
    assert!(small.at_most(&large));
    assert!(!large.at_most(&small));
    assert!(small.at_most(&small));
    assert!(Amount::zero().at_most(&small));
    assert!(!Amount::from_u64(2).at_most(&Amount::from_u64(1)));
    // A longer string is not a larger number when it starts with zeros.
    assert!(Amount::from_bytes_be(vec![0, 0, 0, 2]).at_most(&Amount::from_u64(3)));
}

#[test]
fn clone_keeps_the_value() {
    let amount = three_octillion();
    assert_eq!(amount.clone(), amount);
}

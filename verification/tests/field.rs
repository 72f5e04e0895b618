use circuit_ledger::field::Field;

/// The limbs of the field's order less one.
const MINUS_ONE: [u64; 4] = [725501752471715840, 6461107452199829505, 6968279316240510977, 1345280370688173398];

/// The limbs of the field's order.
const ORDER: [u64; 4] = [725501752471715841, 6461107452199829505, 6968279316240510977, 1345280370688173398];

#[test]
fn small_numbers_add_and_multiply_as_integers() {
    assert_eq!(Field::from_u64(7).add(&Field::from_u64(8)), Field::from_u64(15));
    assert_eq!(Field::from_u64(3).mul(&Field::from_u64(5)), Field::from_u64(15));
    assert_eq!(Field::from_u64(3).mul(&Field::zero()), Field::zero());
    assert_eq!(Field::from_u64(3).mul(&Field::one()), Field::from_u64(3));
    assert_eq!(Field::from_u64(3).add(&Field::zero()), Field::from_u64(3));
}

#[test]
fn products_carry_into_the_next_limb() {
    let two_to_32 = Field::from_u64(1 << 32);
    let two_to_64 = Field::from_limbs([0, 1, 0, 0]).unwrap();
    assert_eq!(two_to_32.mul(&two_to_32), two_to_64);
    assert_eq!(Field::from_u64(u64::MAX).add(&Field::one()), two_to_64);
    assert_eq!(two_to_64.mul(&two_to_64), Field::from_limbs([0, 0, 1, 0]).unwrap());
}

#[test]
fn sums_wrap_at_the_order() {
    let minus_one = Field::from_limbs(MINUS_ONE).unwrap();
    assert_eq!(minus_one.add(&Field::one()), Field::zero());
    assert_eq!(minus_one.add(&Field::from_u64(2)), Field::one());
    assert_eq!(minus_one.mul(&minus_one), Field::one());
    assert_eq!(minus_one.mul(&Field::from_u64(2)).add(&Field::from_u64(2)), Field::zero());
}

#[test]
fn negation_is_the_order_less_the_element() {
    assert_eq!(Field::zero().neg(), Field::zero());
    assert_eq!(Field::one().neg(), Field::from_limbs(MINUS_ONE).unwrap());
    assert_eq!(Field::from_limbs(MINUS_ONE).unwrap().neg(), Field::one());
    assert_eq!(Field::from_u64(41).neg().add(&Field::from_u64(41)), Field::zero());
}

#[test]
fn limbs_are_accepted_below_the_order_only() {
    assert_eq!(Field::from_limbs(ORDER), None);
    assert_eq!(Field::from_limbs([0, 0, 0, u64::MAX]), None);
    assert_eq!(Field::from_limbs([u64::MAX, u64::MAX, u64::MAX, u64::MAX]), None);
    assert_eq!(Field::from_limbs([ORDER[0], ORDER[1], ORDER[2] + 1, ORDER[3] - 1]).unwrap().to_limbs()[3], ORDER[3] - 1);
    assert_eq!(Field::from_limbs([ORDER[0] + 1, ORDER[1], ORDER[2], ORDER[3]]), None);
    assert_eq!(Field::from_limbs([ORDER[0], ORDER[1] + 1, ORDER[2], ORDER[3]]), None);
    assert_eq!(Field::from_limbs(MINUS_ONE).unwrap().to_limbs(), MINUS_ONE);
    assert_eq!(Field::from_limbs([9, 0, 0, 0]), Some(Field::from_u64(9)));
}

#[test]
fn zero_and_one_are_what_they_say() {
    assert!(Field::zero().is_zero());
    assert!(!Field::one().is_zero());
    assert_eq!(Field::zero().to_limbs(), [0, 0, 0, 0]);
    assert_eq!(Field::one().to_limbs(), [1, 0, 0, 0]);
    assert_eq!(Field::from_u64(0), Field::zero());
    assert_eq!(Field::from_u64(1), Field::one());
    assert_eq!(Field::from_u64(77).to_limbs(), [77, 0, 0, 0]);
}

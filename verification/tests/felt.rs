use midenc_core::felt::{felt_assert, felt_assert_eq, felt_assertz, Felt, FeltError, FELT_MODULUS};

#[test]
fn felt_macro_smoke_test() {
    let value: u64 = 1;
    assert!(
        value <= FELT_MODULUS,
        "Invalid Felt value, must be >= 0 and <= 2^64 - 2^32 + 1"
    );
    let _ = Felt::from_u64_unchecked(value);
}

#[test]
fn new_accepts_up_to_modulus() {
    let one = Felt::new(1).unwrap();
    assert_eq!(one.as_u64(), 1);
    let wrapped = Felt::new(FELT_MODULUS).unwrap();
    assert_eq!(wrapped.as_u64(), 0);
}

#[test]
fn new_rejects_above_modulus() {
    let r = Felt::new(FELT_MODULUS + 1);
    assert!(matches!(r, Err(FeltError::InvalidValue)));
}

#[test]
fn from_u64_unchecked_reduces() {
    assert_eq!(Felt::from_u64_unchecked(FELT_MODULUS).as_u64(), 0);
    assert_eq!(
        Felt::from_u64_unchecked(FELT_MODULUS + 5).as_u64(),
        5
    );
    assert_eq!(Felt::from_u64_unchecked(7).as_u64(), 7);
}

#[test]
fn addition_wraps_at_modulus() {
    let a = Felt::from_u64_unchecked(FELT_MODULUS - 1);
    let b = Felt::from_u64_unchecked(1);
    assert_eq!(a.add(b).as_u64(), 0);
    let c = Felt::from_u64_unchecked(10);
    let d = Felt::from_u64_unchecked(32);
    assert_eq!(c.add(d).as_u64(), 42);
}

#[test]
fn subtraction_wraps_below_zero() {
    let zero = Felt::from_u64_unchecked(0);
    let one = Felt::from_u64_unchecked(1);
    assert_eq!(zero.sub(one).as_u64(), FELT_MODULUS - 1);
    let ten = Felt::from_u64_unchecked(10);
    let three = Felt::from_u64_unchecked(3);
    assert_eq!(ten.sub(three).as_u64(), 7);
}

#[test]
fn multiplication_reduces() {
    // 2^32 * 2^32 = 2^64 == 2^32 - 1 (mod 2^64 - 2^32 + 1)
    let two_to_32 = Felt::from_u64_unchecked(1u64 << 32);
    assert_eq!(two_to_32.mul(two_to_32).as_u64(), (1u64 << 32) - 1);
    let six = Felt::from_u64_unchecked(6);
    let seven = Felt::from_u64_unchecked(7);
    assert_eq!(six.mul(seven).as_u64(), 42);
}

#[test]
fn negation() {
    let zero = Felt::from_u64_unchecked(0);
    assert_eq!(zero.neg().as_u64(), 0);
    let one = Felt::from_u64_unchecked(1);
    assert_eq!(one.neg().as_u64(), FELT_MODULUS - 1);
    assert_eq!(one.add(one.neg()).as_u64(), 0);
}

#[test]
fn exponentiation() {
    let three = Felt::from_u64_unchecked(3);
    let five = Felt::from_u64_unchecked(5);
    assert_eq!(three.exp(five).as_u64(), 243);
    // 2^64 == 2^32 - 1 (mod 2^64 - 2^32 + 1)
    let two = Felt::from_u64_unchecked(2);
    let sixty_four = Felt::from_u64_unchecked(64);
    assert_eq!(two.exp(sixty_four).as_u64(), (1u64 << 32) - 1);
    let zero = Felt::from_u64_unchecked(0);
    assert_eq!(three.exp(zero).as_u64(), 1);
}

#[test]
fn power_of_two() {
    assert_eq!(Felt::from_u64_unchecked(0).pow2().as_u64(), 1);
    assert_eq!(Felt::from_u64_unchecked(10).pow2().as_u64(), 1024);
    assert_eq!(
        Felt::from_u64_unchecked(63).pow2().as_u64(),
        1u64 << 63
    );
}

#[test]
fn inverse_of_two() {
    let two = Felt::from_u64_unchecked(2);
    let inverse = two.inv();
    // (M + 1) / 2 is the inverse of 2.
    assert_eq!(inverse.as_u64(), 9223372034707292161);
    assert_eq!(two.mul(inverse).as_u64(), 1);
}

#[test]
fn division() {
    let six = Felt::from_u64_unchecked(6);
    let two = Felt::from_u64_unchecked(2);
    assert_eq!(six.div(two).as_u64(), 3);
    let one = Felt::from_u64_unchecked(1);
    let three = Felt::from_u64_unchecked(3);
    assert_eq!(one.div(three).mul(three).as_u64(), 1);
}

#[test]
fn compound_assignment() {
    let mut x = Felt::from_u64_unchecked(10);
    x.add_assign(Felt::from_u64_unchecked(5));
    assert_eq!(x.as_u64(), 15);
    x.sub_assign(Felt::from_u64_unchecked(3));
    assert_eq!(x.as_u64(), 12);
    x.mul_assign(Felt::from_u64_unchecked(2));
    assert_eq!(x.as_u64(), 24);
    x.div_assign(Felt::from_u64_unchecked(4));
    assert_eq!(x.as_u64(), 6);
}

#[test]
fn oddness() {
    assert!(Felt::from_u64_unchecked(3).is_odd());
    assert!(!Felt::from_u64_unchecked(4).is_odd());
    assert!(!Felt::from_u64_unchecked(FELT_MODULUS).is_odd());
}

#[test]
fn small_integer_embeddings() {
    assert_eq!(Felt::from_u32(4000000000).as_u64(), 4000000000);
    assert_eq!(Felt::from_u16(65535).as_u64(), 65535);
    assert_eq!(Felt::from_u8(255).as_u64(), 255);
}

#[test]
fn ordering_by_residue() {
    let one = Felt::from_u64_unchecked(1);
    let two = Felt::from_u64_unchecked(2);
    assert!(one < two);
    assert!(two > one);
    assert!(one <= one);
    assert_eq!(one, Felt::from_u64_unchecked(FELT_MODULUS + 1));
}

#[test]
fn machine_assertions_on_valid_operands() {
    felt_assert(Felt::from_u64_unchecked(1));
    felt_assertz(Felt::from_u64_unchecked(0));
    felt_assert_eq(
        Felt::from_u64_unchecked(9),
        Felt::from_u64_unchecked(9),
    );
}

use eth_transfer::uint256::Uint256;
use ethers::types::U256;

const MAX_DECIMAL: &str =
    "115792089237316195423570985008687907853269984665640564039457584007913129639935";
fn max() -> Uint256 {
    Uint256 { limbs: [u64::MAX; 4] }
}

fn decimal(text: &str) -> Uint256 {
    Uint256 { limbs: U256::from_dec_str(text).unwrap().0 }
}

#[test]
fn zero_is_zero() {
    assert!(Uint256::zero().is_zero());
    assert_eq!(Uint256::zero().limbs, [0, 0, 0, 0]);
    assert_eq!(Uint256::zero().to_decimal(), "0");
}

#[test]
fn from_u64_fills_the_lowest_limb() {
    assert_eq!(Uint256::from_u64(42).limbs, [42, 0, 0, 0]);
    assert_eq!(Uint256::from_u64(u64::MAX).limbs, [u64::MAX, 0, 0, 0]);
    assert!(!Uint256::from_u64(1).is_zero());
    assert!(Uint256::from_u64(0).is_zero());
}

#[test]
fn is_zero_looks_at_every_limb() {
    assert!(!Uint256 { limbs: [0, 1, 0, 0] }.is_zero());
    assert!(!Uint256 { limbs: [0, 0, 1, 0] }.is_zero());
    assert!(!Uint256 { limbs: [0, 0, 0, 1] }.is_zero());
}

#[test]
fn checked_add_adds() {
    let three = Uint256::from_u64(3);
    let four = Uint256::from_u64(4);
    assert_eq!(three.checked_add(&four), Some(Uint256::from_u64(7)));
}

#[test]
fn checked_add_carries_between_limbs() {
    let a = Uint256::from_u64(u64::MAX);
    let one = Uint256::from_u64(1);
    assert_eq!(a.checked_add(&one), Some(Uint256 { limbs: [0, 1, 0, 0] }));
}

#[test]
fn checked_add_refuses_overflow() {
    assert_eq!(max().checked_add(&Uint256::from_u64(1)), None);
    assert_eq!(max().checked_add(&Uint256::zero()), Some(max()));
}

#[test]
fn checked_mul_multiplies() {
    let three = Uint256::from_u64(3);
    let four = Uint256::from_u64(4);
    assert_eq!(three.checked_mul(&four), Some(Uint256::from_u64(12)));
}

#[test]
fn checked_mul_crosses_limbs() {
    let a = Uint256::from_u64(1 << 63);
    let two = Uint256::from_u64(2);
    assert_eq!(a.checked_mul(&two), Some(Uint256 { limbs: [0, 1, 0, 0] }));
}

#[test]
fn checked_mul_refuses_overflow() {
    let two_to_128 = Uint256 { limbs: [0, 0, 1, 0] };
    let two_to_127 = Uint256 { limbs: [0, 1 << 63, 0, 0] };
    assert_eq!(two_to_128.checked_mul(&two_to_128), None);
    assert_eq!(
        two_to_128.checked_mul(&two_to_127),
        Some(Uint256 { limbs: [0, 0, 0, 1 << 63] })
    );
    assert_eq!(max().checked_mul(&Uint256::from_u64(2)), None);
    assert_eq!(max().checked_mul(&Uint256::from_u64(1)), Some(max()));
    assert_eq!(max().checked_mul(&Uint256::zero()), Some(Uint256::zero()));
}

#[test]
fn to_decimal_writes_digits() {
    assert_eq!(Uint256::from_u64(42).to_decimal(), "42");
    assert_eq!(Uint256::from_u64(10).to_decimal(), "10");
    assert_eq!(Uint256 { limbs: [0, 1, 0, 0] }.to_decimal(), "18446744073709551616");
    assert_eq!(max().to_decimal(), MAX_DECIMAL);
}

#[test]
fn to_decimal_writes_what_the_outside_integer_reads() {
    for text in ["0", "1", "9", "10", "4410000", "340282366920938463463374607431768211456", MAX_DECIMAL] {
        assert_eq!(decimal(text).to_decimal(), text);
    }
}

#[test]
fn limbs_have_the_layout_of_the_outside_integer() {
    let ours = decimal("340282366920938463481821351505477763074");
    assert_eq!(ours.limbs, [2, 1, 1, 0]);
    assert_eq!(ours.checked_add(&Uint256::from_u64(3)), Some(Uint256 { limbs: [5, 1, 1, 0] }));
}

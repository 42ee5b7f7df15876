use solana_compute_budget::{CheckedUint, FixedPoint128, FixedPoint128Wide, FixedPoint256Wide};

const LOW: u64 = u64::MAX;

#[test]
fn native_checked_operations() {
    let a = FixedPoint128::from_u128(40);
    let b = FixedPoint128::from_u128(6);
    assert_eq!(a.raw, 40);
    assert_eq!(a.checked_add(b), Some(FixedPoint128 { raw: 46 }));
    assert_eq!(a.checked_sub(b), Some(FixedPoint128 { raw: 34 }));
    assert_eq!(b.checked_sub(a), None);
    assert_eq!(a.checked_mul(b), Some(FixedPoint128 { raw: 240 }));
    assert_eq!(a.checked_div(b), Some(FixedPoint128 { raw: 6 }));
    assert_eq!(a.checked_div(FixedPoint128 { raw: 0 }), None);
    let max = FixedPoint128 { raw: u128::MAX };
    assert_eq!(max.checked_add(FixedPoint128 { raw: 1 }), None);
    assert_eq!(max.checked_mul(FixedPoint128 { raw: 2 }), None);
    assert!(FixedPoint128 { raw: 0 }.is_zero());
    assert!(!a.is_zero());
    assert!(b.at_most(&a));
    assert!(a.at_most(&a));
    assert!(!a.at_most(&b));
}

#[test]
fn wide128_from_u128_splits_limbs() {
    assert_eq!(FixedPoint128Wide::from_u128(0).limbs, [0, 0]);
    assert_eq!(FixedPoint128Wide::from_u128(5).limbs, [5, 0]);
    assert_eq!(FixedPoint128Wide::from_u128(1 << 64).limbs, [0, 1]);
    assert_eq!(FixedPoint128Wide::from_u128((7 << 64) + 9).limbs, [9, 7]);
    assert_eq!(FixedPoint128Wide::from_u128(u128::MAX).limbs, [LOW, LOW]);
}

#[test]
fn wide256_from_u128_splits_limbs() {
    assert_eq!(FixedPoint256Wide::from_u128(0).limbs, [0, 0, 0, 0]);
    assert_eq!(FixedPoint256Wide::from_u128(5).limbs, [5, 0, 0, 0]);
    assert_eq!(FixedPoint256Wide::from_u128((7 << 64) + 9).limbs, [9, 7, 0, 0]);
    assert_eq!(FixedPoint256Wide::from_u128(u128::MAX).limbs, [LOW, LOW, 0, 0]);
}

#[test]
fn wide128_is_zero() {
    assert!(FixedPoint128Wide { limbs: [0, 0] }.is_zero());
    assert!(!FixedPoint128Wide { limbs: [1, 0] }.is_zero());
    assert!(!FixedPoint128Wide { limbs: [0, 1] }.is_zero());
}

#[test]
fn wide256_is_zero() {
    assert!(FixedPoint256Wide { limbs: [0, 0, 0, 0] }.is_zero());
    assert!(!FixedPoint256Wide { limbs: [1, 0, 0, 0] }.is_zero());
    assert!(!FixedPoint256Wide { limbs: [0, 0, 1, 0] }.is_zero());
    assert!(!FixedPoint256Wide { limbs: [0, 0, 0, 1] }.is_zero());
}

#[test]
fn wide128_at_most_orders_by_value() {
    let small = FixedPoint128Wide { limbs: [LOW, 0] };
    let large = FixedPoint128Wide { limbs: [0, 1] };
    assert!(small.at_most(&large));
    assert!(!large.at_most(&small));
    assert!(small.at_most(&small));
}

#[test]
fn wide256_at_most_orders_by_value() {
    let small = FixedPoint256Wide { limbs: [LOW, LOW, LOW, 0] };
    let large = FixedPoint256Wide { limbs: [0, 0, 0, 1] };
    assert!(small.at_most(&large));
    assert!(!large.at_most(&small));
    assert!(large.at_most(&large));
}

#[test]
fn wide128_checked_add() {
    let a = FixedPoint128Wide { limbs: [LOW, 0] };
    let one = FixedPoint128Wide { limbs: [1, 0] };
    assert_eq!(a.checked_add(one), Some(FixedPoint128Wide { limbs: [0, 1] }));
    let max = FixedPoint128Wide { limbs: [LOW, LOW] };
    assert_eq!(max.checked_add(one), None);
    assert_eq!(max.checked_add(FixedPoint128Wide { limbs: [0, 0] }), Some(max));
}

#[test]
fn wide256_checked_add() {
    let a = FixedPoint256Wide { limbs: [LOW, LOW, 0, 0] };
    let one = FixedPoint256Wide { limbs: [1, 0, 0, 0] };
    assert_eq!(a.checked_add(one), Some(FixedPoint256Wide { limbs: [0, 0, 1, 0] }));
    let max = FixedPoint256Wide { limbs: [LOW, LOW, LOW, LOW] };
    assert_eq!(max.checked_add(one), None);
}

#[test]
fn wide128_checked_sub() {
    let a = FixedPoint128Wide { limbs: [0, 1] };
    let one = FixedPoint128Wide { limbs: [1, 0] };
    assert_eq!(a.checked_sub(one), Some(FixedPoint128Wide { limbs: [LOW, 0] }));
    assert_eq!(one.checked_sub(a), None);
    assert_eq!(a.checked_sub(a), Some(FixedPoint128Wide { limbs: [0, 0] }));
}

#[test]
fn wide256_checked_sub() {
    let a = FixedPoint256Wide { limbs: [0, 0, 0, 1] };
    let one = FixedPoint256Wide { limbs: [1, 0, 0, 0] };
    assert_eq!(a.checked_sub(one), Some(FixedPoint256Wide { limbs: [LOW, LOW, LOW, 0] }));
    assert_eq!(one.checked_sub(a), None);
}

#[test]
fn wide128_checked_mul() {
    let a = FixedPoint128Wide { limbs: [1 << 63, 0] };
    let four = FixedPoint128Wide { limbs: [4, 0] };
    assert_eq!(a.checked_mul(four), Some(FixedPoint128Wide { limbs: [0, 2] }));
    let high = FixedPoint128Wide { limbs: [0, 1 << 62] };
    assert_eq!(high.checked_mul(four), None);
    assert_eq!(
        FixedPoint128Wide::from_u128(u64::MAX as u128)
            .checked_mul(FixedPoint128Wide::from_u128(u64::MAX as u128)),
        Some(FixedPoint128Wide::from_u128((u64::MAX as u128) * (u64::MAX as u128)))
    );
}

#[test]
fn wide256_checked_mul() {
    let a = FixedPoint256Wide::from_u128(u128::MAX);
    assert_eq!(
        a.checked_mul(a),
        Some(FixedPoint256Wide { limbs: [1, 0, LOW - 1, LOW] })
    );
    let high = FixedPoint256Wide { limbs: [0, 0, 1, 0] };
    assert_eq!(high.checked_mul(high), None);
    assert_eq!(
        high.checked_mul(FixedPoint256Wide { limbs: [0, 3, 0, 0] }),
        Some(FixedPoint256Wide { limbs: [0, 0, 0, 3] })
    );
}

#[test]
fn wide128_checked_div() {
    let a = FixedPoint128Wide { limbs: [0, 2] };
    let four = FixedPoint128Wide { limbs: [4, 0] };
    assert_eq!(a.checked_div(four), Some(FixedPoint128Wide { limbs: [1 << 63, 0] }));
    assert_eq!(a.checked_div(FixedPoint128Wide { limbs: [0, 0] }), None);
    assert_eq!(
        FixedPoint128Wide::from_u128(17).checked_div(FixedPoint128Wide::from_u128(5)),
        Some(FixedPoint128Wide::from_u128(3))
    );
    assert_eq!(four.checked_div(a), Some(FixedPoint128Wide { limbs: [0, 0] }));
}

#[test]
fn wide256_checked_div() {
    let a = FixedPoint256Wide { limbs: [1, 0, LOW - 1, LOW] };
    let d = FixedPoint256Wide::from_u128(u128::MAX);
    assert_eq!(a.checked_div(d), Some(d));
    assert_eq!(a.checked_div(FixedPoint256Wide { limbs: [0, 0, 0, 0] }), None);
    assert_eq!(
        FixedPoint256Wide::from_u128(17).checked_div(FixedPoint256Wide::from_u128(5)),
        Some(FixedPoint256Wide::from_u128(3))
    );
}

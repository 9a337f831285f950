use presale_settlement::amounts::{
    expected_base_units, meets_tolerance, referral_bonus_base_units, to_base_units,
};

#[test]
fn expected_base_units_is_exact() {
    assert_eq!(expected_base_units(100, 45_000), 4_500_000u128);
    assert_eq!(expected_base_units(0, 45_000), 0u128);
    assert_eq!(
        expected_base_units(u64::MAX, u64::MAX),
        (u64::MAX as u128) * (u64::MAX as u128)
    );
}

#[test]
fn tolerance_accepts_exactly_ninety_nine_percent() {
    // The tolerance boundary: 99% of the expected amount is accepted...
    assert!(meets_tolerance(4_455_000, 4_500_000));
    // ...and so is anything above it.
    assert!(meets_tolerance(4_500_000, 4_500_000));
    assert!(meets_tolerance(5_000_000, 4_500_000));
}

#[test]
fn tolerance_rejects_ninety_eight_point_nine_percent() {
    // 98.9% of the expected amount is rejected.
    assert!(!meets_tolerance(4_450_500, 4_500_000));
    // One base unit below the boundary is rejected too.
    assert!(!meets_tolerance(4_454_999, 4_500_000));
    // A negative delta is always rejected.
    assert!(!meets_tolerance(-1, 0));
    assert!(!meets_tolerance(-4_500_000, 4_500_000));
}

#[test]
fn tolerance_on_zero_expected() {
    assert!(meets_tolerance(0, 0));
    assert!(meets_tolerance(1, 0));
}

#[test]
fn to_base_units_scales_by_decimals() {
    assert_eq!(to_base_units(100, 9), Some(100_000_000_000));
    assert_eq!(to_base_units(1, 0), Some(1));
    assert_eq!(to_base_units(0, 30), Some(0));
    assert_eq!(to_base_units(1, 19), Some(10_000_000_000_000_000_000));
}

#[test]
fn to_base_units_reports_overflow() {
    assert_eq!(to_base_units(2, 19), None);
    assert_eq!(to_base_units(u64::MAX, 1), None);
    assert_eq!(to_base_units(1, 20), None);
}

#[test]
fn referral_bonus_is_exact_in_base_units() {
    // Five percent of 100 tokens on a nine-decimal mint: five whole
    // tokens, in base units.
    assert_eq!(referral_bonus_base_units(100, 9, 5), Some(5_000_000_000));
    // Fractional bonuses survive: five percent of 10 tokens is half a
    // token.
    assert_eq!(referral_bonus_base_units(10, 9, 5), Some(500_000_000));
    assert_eq!(referral_bonus_base_units(19, 9, 5), Some(950_000_000));
    assert_eq!(referral_bonus_base_units(u64::MAX, 1, 100), None);
}

#[test]
fn referral_bonus_accrual_is_additive() {
    // Two purchases earn the referrer exactly what one purchase of their
    // sum would, in any unit split.
    let a = referral_bonus_base_units(10, 9, 5).unwrap();
    let b = referral_bonus_base_units(10, 9, 5).unwrap();
    let whole = referral_bonus_base_units(20, 9, 5).unwrap();
    assert_eq!(a + b, whole);
    let c = referral_bonus_base_units(13, 6, 7).unwrap();
    let d = referral_bonus_base_units(29, 6, 7).unwrap();
    assert_eq!(c + d, referral_bonus_base_units(42, 6, 7).unwrap());
}

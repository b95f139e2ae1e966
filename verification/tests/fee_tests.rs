use tabwallet::fee::{drain_amounts, estimated_weight, virtual_size, DrainAmounts, DrainError, FeeRate};

#[test]
fn virtual_size_is_a_quarter_rounded_up() {
    assert_eq!(virtual_size(0), 0);
    assert_eq!(virtual_size(1), 1);
    assert_eq!(virtual_size(4), 1);
    assert_eq!(virtual_size(5), 2);
    assert_eq!(virtual_size(561), 141);
    assert_eq!(virtual_size(u64::MAX), 4611686018427387904);
}

#[test]
fn fee_is_rate_times_size_rounded_up() {
    let rate = FeeRate::from_milli_per_vbyte(1250);
    assert_eq!(rate.fee(0), Some(0));
    assert_eq!(rate.fee(1), Some(2));
    assert_eq!(rate.fee(4), Some(5));
    assert_eq!(rate.fee(141), Some(177));
    assert_eq!(rate.fee(1000), Some(1250));
    assert_eq!(FeeRate::from_milli_per_vbyte(1000).fee(141), Some(141));
    assert_eq!(FeeRate::from_milli_per_vbyte(0).fee(141), Some(0));
    assert_eq!(FeeRate::from_milli_per_vbyte(1).fee(1), Some(1));
}

#[test]
fn fee_too_large_to_hold_is_none() {
    assert_eq!(FeeRate::from_milli_per_vbyte(u64::MAX).fee(u64::MAX), None);
    assert_eq!(FeeRate::from_milli_per_vbyte(1000).fee(u64::MAX), Some(u64::MAX));
    assert_eq!(FeeRate::from_milli_per_vbyte(1001).fee(u64::MAX), None);
}

#[test]
fn full_drain_pays_value_minus_fee() {
    let rate = FeeRate::from_milli_per_vbyte(1250);
    let r = drain_amounts(20000, rate, 561);
    assert_eq!(r, Ok(DrainAmounts { amount: 19823, fee: 177 }));
    let a = r.unwrap();
    assert_eq!(a.amount + a.fee, 20000);
    // the fee is the rate times the size, rounded up by less than one unit
    assert!(1250 * 141 <= 1000 * a.fee && 1000 * a.fee < 1250 * 141 + 1000);
}

#[test]
fn full_drain_over_many_values_and_sizes() {
    for &value in &[15_000u64, 20_000, 1_000_000, 2_100_000_000_000_000] {
        for &milli in &[1000u64, 1250, 2500, 99_999] {
            for weight in 400u64..460 {
                let a = drain_amounts(value, FeeRate::from_milli_per_vbyte(milli), weight).unwrap();
                let vsize = (weight + 3) / 4;
                assert_eq!(a.amount + a.fee, value);
                assert!(milli * vsize <= 1000 * a.fee);
                assert!(1000 * a.fee < milli * vsize + 1000);
            }
        }
    }
}

#[test]
fn drain_needs_more_than_the_fee() {
    let rate = FeeRate::from_milli_per_vbyte(1250);
    assert_eq!(drain_amounts(177, rate, 561), Err(DrainError::FeeExceedsValue { fee: 177, value: 177 }));
    assert_eq!(drain_amounts(0, rate, 561), Err(DrainError::FeeExceedsValue { fee: 177, value: 0 }));
    assert_eq!(drain_amounts(178, rate, 561), Ok(DrainAmounts { amount: 1, fee: 177 }));
    assert_eq!(
        drain_amounts(5, FeeRate::from_milli_per_vbyte(u64::MAX), u64::MAX),
        Err(DrainError::FeeOverflow)
    );
}

#[test]
fn weight_is_estimated_before_signing() {
    assert_eq!(estimated_weight(0, 0, 0), Some(2));
    assert_eq!(estimated_weight(400, 1, 159), Some(561));
    assert_eq!(estimated_weight(500, 3, 65_000), Some(195_502));
    assert_eq!(estimated_weight(500, 0, usize::MAX), Some(502));
    assert_eq!(estimated_weight(usize::MAX, 0, 0), (usize::MAX as u64).checked_add(2));
    assert_eq!(estimated_weight(0, usize::MAX, 2), None);
    assert_eq!(estimated_weight(usize::MAX, usize::MAX, usize::MAX), None);
}

#[test]
fn fee_within_one_unit_of_the_rate() {
    let rate = FeeRate::from_milli_per_vbyte(1250);
    // 141 virtual bytes at 1.25 are 176.25
    assert!(rate.is_paid_within_one_unit(176, 561));
    assert!(rate.is_paid_within_one_unit(177, 561));
    assert!(!rate.is_paid_within_one_unit(175, 561));
    assert!(!rate.is_paid_within_one_unit(178, 561));
    // 4 virtual bytes at 1.25 are 5: only the exact fee is within one unit
    assert!(rate.is_paid_within_one_unit(5, 16));
    assert!(!rate.is_paid_within_one_unit(4, 16));
    assert!(!rate.is_paid_within_one_unit(6, 16));
    assert!(FeeRate::from_milli_per_vbyte(0).is_paid_within_one_unit(0, 561));
    assert!(!FeeRate::from_milli_per_vbyte(0).is_paid_within_one_unit(1, 561));
    assert!(!FeeRate::from_milli_per_vbyte(u64::MAX).is_paid_within_one_unit(u64::MAX, u64::MAX));
    // what a full drain pays is within one unit for the weight it was computed over
    for weight in 400u64..460 {
        let a = drain_amounts(20000, rate, weight).unwrap();
        assert!(rate.is_paid_within_one_unit(a.fee, weight));
    }
    // and no longer for a transaction that turns out lighter by far
    assert!(!rate.is_paid_within_one_unit(177, 400));
}

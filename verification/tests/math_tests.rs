use basket_core::error::BasketError;
use basket_core::math::{normalise_amount, normalize, split_fee};

#[test]
fn split_fee_thirty_bps() {
    assert_eq!(split_fee(1_000_000, 30), Ok((997_000, 3_000)));
    assert_eq!(split_fee(1_000_000_000, 30), Ok((997_000_000, 3_000_000)));
}

#[test]
fn split_fee_net_plus_fee_is_amount() {
    let samples: Vec<(u64, u16)> = vec![
        (0, 0),
        (1, 30),
        (9_999, 50),
        (10_000, 10),
        (u64::MAX, 50),
        (u64::MAX, 10_000),
        (123_456_789, 1),
    ];
    for (amount, bps) in samples {
        let (net, fee) = split_fee(amount, bps).unwrap();
        assert_eq!(net + fee, amount);
        assert_eq!(fee as u128, (amount as u128) * (bps as u128) / 10_000);
    }
}

#[test]
fn split_fee_rounds_down() {
    // 333 * 30 / 10_000 = 0.999, which truncates to zero.
    assert_eq!(split_fee(333, 30), Ok((333, 0)));
    // 334 * 30 / 10_000 = 1.002, which truncates to one.
    assert_eq!(split_fee(334, 30), Ok((333, 1)));
}

#[test]
fn split_fee_full_rate_takes_everything() {
    assert_eq!(split_fee(12_345, 10_000), Ok((0, 12_345)));
}

#[test]
fn split_fee_above_full_rate_is_rejected() {
    assert_eq!(split_fee(12_345, 10_001), Err(BasketError::ArithmeticOverflow));
    // Zero of anything is still zero, so no overflow there.
    assert_eq!(split_fee(0, u16::MAX), Ok((0, 0)));
}

#[test]
fn normalize_scales_down_with_truncation() {
    assert_eq!(normalize(1_000_000_000, 9, 6), Ok(1_000_000));
    assert_eq!(normalize(999, 9, 6), Ok(0));
    assert_eq!(normalize(1_999, 9, 6), Ok(1));
}

#[test]
fn normalize_scales_up_exactly() {
    assert_eq!(normalize(5, 0, 6), Ok(5_000_000));
    assert_eq!(normalize(12, 3, 6), Ok(12_000));
}

#[test]
fn normalize_equal_precisions_is_identity() {
    assert_eq!(normalize(997_000, 6, 6), Ok(997_000));
    assert_eq!(normalize(0, 6, 6), Ok(0));
}

#[test]
fn normalize_rejects_unrepresentable_scale() {
    // A precision gap of 39 decimal places needs 10^39, which does not fit
    // in 128 bits.
    assert_eq!(normalize(5, 45, 6), Err(BasketError::ArithmeticOverflow));
    // Even a zero amount is rejected when the scale factor itself does not
    // fit: the factor is computed first.
    assert_eq!(normalize(0, 45, 6), Err(BasketError::ArithmeticOverflow));
    // Scaling up can overflow on the product as well.
    assert_eq!(normalize(u64::MAX, 0, 26), Err(BasketError::ArithmeticOverflow));
}

#[test]
fn normalise_amount_uses_share_precision() {
    assert_eq!(normalise_amount(1_000_000_000, 9), Ok(1_000_000));
    assert_eq!(normalise_amount(997_000, 6), Ok(997_000));
    assert_eq!(normalise_amount(7, 0), Ok(7_000_000));
    assert_eq!(normalise_amount(7, 45), Err(BasketError::ArithmeticOverflow));
}

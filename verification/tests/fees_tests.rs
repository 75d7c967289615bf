use booster_swap::fees::{fee_share, pre_fee_amount, trading_fee, FeeConfig, FEE_RATE_DENOMINATOR};

#[test]
fn config_accepts_only_rates_under_the_denominator() {
    assert!(FeeConfig::new(30, 40, 500_000, 250_000, 7).is_some());
    assert!(FeeConfig::new(FEE_RATE_DENOMINATOR, 0, 0, 0, 0).is_none());
    assert!(FeeConfig::new(0, FEE_RATE_DENOMINATOR, 0, 0, 0).is_none());
    assert!(FeeConfig::new(0, 0, FEE_RATE_DENOMINATOR, 0, 0).is_none());
    assert!(FeeConfig::new(0, 0, 0, FEE_RATE_DENOMINATOR, 0).is_none());
    // The two carved-out shares may not together exceed the whole fee.
    assert!(FeeConfig::new(0, 0, 600_000, 400_001, 0).is_none());
    assert!(FeeConfig::new(0, 0, 600_000, 400_000, 0).is_some());
}

#[test]
fn trading_fee_rounds_up() {
    assert_eq!(trading_fee(10_000, 30), 1); // 0.3 rounds up
    assert_eq!(trading_fee(1_000_000, 30), 30); // exact
    assert_eq!(trading_fee(1_000_001, 30), 31);
    assert_eq!(trading_fee(0, 999_999), 0);
    assert_eq!(trading_fee(u64::MAX, 999_999), u64::MAX - 18_446_744_073_709);
}

#[test]
fn fee_share_rounds_down() {
    assert_eq!(fee_share(30, 500_000), 15);
    assert_eq!(fee_share(30, 250_000), 7); // 7.5 rounds down
    assert_eq!(fee_share(1, 999_999), 0);
    assert_eq!(fee_share(7, FEE_RATE_DENOMINATOR), 7);
}

#[test]
fn pre_fee_amount_inverts_the_deduction() {
    // Zero rate: the gross is the net.
    assert_eq!(pre_fee_amount(12_345, 0), Some(12_345));
    // The least gross whose net after the fee reaches the target.
    let gross = pre_fee_amount(9_970, 30).unwrap();
    assert_eq!(gross - trading_fee(gross, 30), 9_970);
    let smaller = gross - 1;
    assert!(smaller - trading_fee(smaller, 30) < 9_970);
    // A target too close to the width limit cannot be grossed up.
    assert_eq!(pre_fee_amount(u64::MAX, 30), None);
}

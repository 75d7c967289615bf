use booster_swap::errors::PoolError;
use booster_swap::observation::{token_price_x32, PriceObservation};
use booster_swap::pool::{PoolPhase, PoolState, TradeDirection};

fn active_pool() -> PoolState {
    PoolState::initialize(1_000, 50_000, 1_000, 900_000, 10_000_000)
}

#[test]
fn effective_reserves_applies_both_offsets() {
    let pool = active_pool();
    let (curve_res, base_res) = pool.effective_reserves(901_000, 50_000);
    assert_eq!(curve_res, 900_000);
    assert_eq!(base_res, 100_000);
}

#[test]
fn effective_reserves_idempotent_on_unchanged_balances() {
    let pool = active_pool();
    let first = pool.effective_reserves(901_000, 50_000);
    let second = pool.effective_reserves(901_000, 50_000);
    assert_eq!(first, second);
}

#[test]
fn vault_amounts_without_fees_sets_owed_fees_aside() {
    let mut pool = active_pool();
    pool.record_fees(TradeDirection::ZeroForOne, 15, 7).unwrap();
    pool.record_fees(TradeDirection::OneForZero, 3, 2).unwrap();
    let (curve_net, base_net) = pool.vault_amounts_without_fees(901_000, 50_000);
    assert_eq!(curve_net, 901_000 - 22);
    assert_eq!(base_net, 50_000 - 5);
}

#[test]
fn record_fees_accrues_on_the_input_leg() {
    let mut pool = active_pool();
    pool.record_fees(TradeDirection::ZeroForOne, 15, 7).unwrap();
    assert_eq!(pool.protocol_fees_curve, 15);
    assert_eq!(pool.fund_fees_curve, 7);
    assert_eq!(pool.protocol_fees_base, 0);
    assert_eq!(pool.fund_fees_base, 0);
    pool.record_fees(TradeDirection::OneForZero, 3, 2).unwrap();
    assert_eq!(pool.protocol_fees_base, 3);
    assert_eq!(pool.fund_fees_base, 2);
    assert_eq!(pool.protocol_fees_curve, 15);
}

#[test]
fn record_fees_overflow_aborts_without_mutation() {
    let mut pool = active_pool();
    pool.record_fees(TradeDirection::ZeroForOne, u64::MAX, 0).unwrap();
    let before = pool;
    let r = pool.record_fees(TradeDirection::ZeroForOne, 1, 0);
    assert_eq!(r, Err(PoolError::ArithmeticFault));
    assert_eq!(pool, before);
}

#[test]
fn collect_caps_at_accrued_and_empties_accumulator() {
    let mut pool = active_pool();
    pool.record_fees(TradeDirection::ZeroForOne, 100, 40).unwrap();
    // Requesting one more than is accrued pays exactly the accrued amount.
    let (paid_curve, paid_base) = pool.collect_protocol_fees(101, 0).unwrap();
    assert_eq!(paid_curve, 100);
    assert_eq!(paid_base, 0);
    assert_eq!(pool.protocol_fees_curve, 0);
    let (paid_curve, _) = pool.collect_fund_fees(41, 0).unwrap();
    assert_eq!(paid_curve, 40);
    assert_eq!(pool.fund_fees_curve, 0);
}

#[test]
fn collect_partial_request_leaves_remainder() {
    let mut pool = active_pool();
    pool.record_fees(TradeDirection::OneForZero, 100, 60).unwrap();
    let (paid_curve, paid_base) = pool.collect_protocol_fees(0, 30).unwrap();
    assert_eq!((paid_curve, paid_base), (0, 30));
    assert_eq!(pool.protocol_fees_base, 70);
    let (_, paid_base) = pool.collect_fund_fees(0, 60).unwrap();
    assert_eq!(paid_base, 60);
    assert_eq!(pool.fund_fees_base, 0);
}

#[test]
fn collect_is_forbidden_once_locked() {
    let mut pool = active_pool();
    pool.record_fees(TradeDirection::ZeroForOne, 10, 10).unwrap();
    pool.lock().unwrap();
    let before = pool;
    assert_eq!(pool.collect_protocol_fees(5, 5), Err(PoolError::GuardViolation));
    assert_eq!(pool.collect_fund_fees(5, 5), Err(PoolError::GuardViolation));
    assert_eq!(pool, before);
}

#[test]
fn lock_moves_active_to_locked_once() {
    let mut pool = active_pool();
    assert_eq!(pool.phase, PoolPhase::Active);
    pool.lock().unwrap();
    assert_eq!(pool.phase, PoolPhase::Locked);
    // A double lock is a "not approved" rejection and changes nothing.
    assert_eq!(pool.lock(), Err(PoolError::GuardViolation));
    assert_eq!(pool.phase, PoolPhase::Locked);
}

#[test]
fn trade_direction_decoding() {
    assert_eq!(TradeDirection::from_raw(0), Some(TradeDirection::ZeroForOne));
    assert_eq!(TradeDirection::from_raw(1), Some(TradeDirection::OneForZero));
    assert_eq!(TradeDirection::from_raw(2), None);
}

#[test]
fn observation_duplicate_timestamp_is_a_no_op() {
    let mut obs = PriceObservation::new();
    obs.update(100, 500, 700).unwrap();
    let after_first = obs;
    // The identical update again must leave the cumulative fields unchanged.
    obs.update(100, 500, 700).unwrap();
    assert_eq!(obs, after_first);
    // So must an update that claims an earlier timestamp.
    obs.update(99, 123_456, 654_321).unwrap();
    assert_eq!(obs, after_first);
}

#[test]
fn observation_accrues_price_times_elapsed() {
    let mut obs = PriceObservation::new();
    obs.update(100, 500, 700).unwrap();
    assert_eq!(obs.last_update_time, 100);
    assert_eq!(obs.cumulative_price_0, 500 * 100);
    assert_eq!(obs.cumulative_price_1, 700 * 100);
    obs.update(130, 900, 1_100).unwrap();
    assert_eq!(obs.last_update_time, 130);
    assert_eq!(obs.cumulative_price_0, 500 * 100 + 900 * 30);
    assert_eq!(obs.cumulative_price_1, 700 * 100 + 1_100 * 30);
    assert_eq!(obs.cumulative_snapshot(), (obs.cumulative_price_0, obs.cumulative_price_1));
}

#[test]
fn observation_overflow_aborts_without_mutation() {
    let mut obs = PriceObservation::new();
    obs.update(1, u128::MAX, 0).unwrap();
    let before = obs;
    let r = obs.update(3, u128::MAX / 2, 0);
    assert_eq!(r, Err(PoolError::ArithmeticFault));
    assert_eq!(obs, before);
}

#[test]
fn token_prices_are_q32_ratios() {
    let (price_0, price_1) = token_price_x32(2, 8);
    assert_eq!(price_0, 8u128 << 32 >> 1); // 8 * 2^32 / 2
    assert_eq!(price_1, 1u128 << 30); // 2 * 2^32 / 8
    let (price_0, price_1) = token_price_x32(900_000, 100_000);
    assert_eq!(price_0, (100_000u128 << 32) / 900_000);
    assert_eq!(price_1, (900_000u128 << 32) / 100_000);
}

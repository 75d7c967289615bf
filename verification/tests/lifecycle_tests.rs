use booster_swap::errors::PoolError;
use booster_swap::fees::FeeConfig;
use booster_swap::lifecycle::{
    evaluate_graduation, graduate, initialize_pool, swap_base_input, swap_base_output,
};
use booster_swap::observation::PriceObservation;
use booster_swap::pool::{PoolPhase, PoolState, TradeDirection};

const OPEN_TIME: u64 = 1_000;
const FROZEN: u64 = 1_000;
const BASE_OFFSET: u64 = 50_000;
const SELLABLE: u64 = 1_000_000;

// Vault balances giving effective reserves (curve = 900_000, base = 100_000).
const CURVE_VAULT: u64 = 901_000;
const BASE_VAULT: u64 = 50_000;

fn config() -> FeeConfig {
    FeeConfig::new(30, 40, 500_000, 250_000, 0).unwrap()
}

fn pool() -> PoolState {
    PoolState::initialize(FROZEN, BASE_OFFSET, OPEN_TIME, SELLABLE, 10_000_000)
}

#[test]
fn swap_rejected_before_open_time_and_accepted_after() {
    let cfg = config();
    let mut p = pool();
    let mut obs = PriceObservation::new();
    // One second before the pool opens (and at the open time itself): rejected.
    for now in [OPEN_TIME - 1, OPEN_TIME] {
        let r = swap_base_input(
            &mut p,
            &mut obs,
            &cfg,
            TradeDirection::ZeroForOne,
            now,
            CURVE_VAULT,
            BASE_VAULT,
            10_000,
            0,
        );
        assert_eq!(r, Err(PoolError::GuardViolation));
        assert_eq!(p, pool());
        assert_eq!(obs, PriceObservation::new());
    }
    // The identical swap one second after the open time succeeds.
    let r = swap_base_input(
        &mut p,
        &mut obs,
        &cfg,
        TradeDirection::ZeroForOne,
        OPEN_TIME + 1,
        CURVE_VAULT,
        BASE_VAULT,
        10_000,
        0,
    );
    assert!(r.is_ok());
}

#[test]
fn swap_zero_amount_is_a_guard_violation() {
    let cfg = config();
    let mut p = pool();
    let mut obs = PriceObservation::new();
    let r = swap_base_input(
        &mut p,
        &mut obs,
        &cfg,
        TradeDirection::ZeroForOne,
        OPEN_TIME + 1,
        CURVE_VAULT,
        BASE_VAULT,
        0,
        0,
    );
    assert_eq!(r, Err(PoolError::GuardViolation));
}

#[test]
fn swap_curve_in_nets_fee_out_of_base_output() {
    let cfg = config();
    let mut p = pool();
    let mut obs = PriceObservation::new();
    let ex = swap_base_input(
        &mut p,
        &mut obs,
        &cfg,
        TradeDirection::ZeroForOne,
        OPEN_TIME + 1,
        CURVE_VAULT,
        BASE_VAULT,
        10_000,
        0,
    )
    .unwrap();
    // Curve-level outcome as in the calculator scenario.
    assert_eq!(ex.outcome.destination_amount_produced, 1_098);
    assert_eq!(ex.outcome.trade_fee, 1);
    // The base-side fee ceil(1_098 * 30 / 10^6) = 1 is netted out of the
    // curve output and stays in the base vault; no sink fee this way.
    assert_eq!(ex.user_pays, 10_000);
    assert_eq!(ex.user_receives, 1_097);
    assert_eq!(ex.sink_fee, 0);
    assert_eq!(ex.new_curve_vault_balance, CURVE_VAULT + 10_000);
    assert_eq!(ex.new_base_vault_balance, BASE_VAULT - 1_097);
    // Fees accrue on the input (curve) leg; the trade fee was 1, split 0/0.
    assert_eq!(p.protocol_fees_curve, 0);
    assert_eq!(p.fund_fees_curve, 0);
    // The oracle saw the post-trade effective reserves.
    assert_eq!(obs.last_update_time, OPEN_TIME + 1);
    let new_curve_res = (CURVE_VAULT + 10_000 - FROZEN) as u128;
    let new_base_res = (BASE_VAULT - 1_097 + BASE_OFFSET) as u128;
    let elapsed = (OPEN_TIME + 1) as u128;
    assert_eq!(
        obs.cumulative_price_0,
        (new_base_res << 32) / new_curve_res * elapsed
    );
    assert_eq!(
        obs.cumulative_price_1,
        (new_curve_res << 32) / new_base_res * elapsed
    );
}

#[test]
fn swap_base_in_charges_flat_fee_at_the_sink() {
    let cfg = config();
    let mut p = pool();
    let mut obs = PriceObservation::new();
    let ex = swap_base_input(
        &mut p,
        &mut obs,
        &cfg,
        TradeDirection::OneForZero,
        OPEN_TIME + 1,
        CURVE_VAULT,
        BASE_VAULT,
        10_000,
        0,
    )
    .unwrap();
    // Trade fee ceil(10_000 * 40 / 10^6) = 1 on the base input; the same
    // amount is charged on top, to the fee sink; the output is paid whole.
    assert_eq!(ex.outcome.trade_fee, 1);
    assert_eq!(ex.sink_fee, 1);
    assert_eq!(ex.user_pays, 10_000);
    assert_eq!(ex.user_receives, ex.outcome.destination_amount_produced);
    assert_eq!(ex.new_curve_vault_balance, CURVE_VAULT - ex.user_receives);
    assert_eq!(ex.new_base_vault_balance, BASE_VAULT + 10_000);
    // Fees accrue on the input (base) leg.
    assert_eq!(p.protocol_fees_base, 0);
    assert_eq!(p.protocol_fees_curve, 0);
}

#[test]
fn swap_slippage_rejection_leaves_state_unchanged() {
    let cfg = config();
    let mut p = pool();
    let mut obs = PriceObservation::new();
    let r = swap_base_input(
        &mut p,
        &mut obs,
        &cfg,
        TradeDirection::ZeroForOne,
        OPEN_TIME + 1,
        CURVE_VAULT,
        BASE_VAULT,
        10_000,
        1_098, // more than the 1_097 actually receivable
    );
    assert_eq!(r, Err(PoolError::SlippageExceeded));
    assert_eq!(p, pool());
    assert_eq!(obs, PriceObservation::new());
}

#[test]
fn swap_exact_output_delivers_and_bounds_input() {
    let cfg = config();
    let mut p = pool();
    let mut obs = PriceObservation::new();
    let ex = swap_base_output(
        &mut p,
        &mut obs,
        &cfg,
        TradeDirection::ZeroForOne,
        OPEN_TIME + 1,
        CURVE_VAULT,
        BASE_VAULT,
        1_098,
        20_000,
    )
    .unwrap();
    assert_eq!(ex.outcome.destination_amount_produced, 1_098);
    assert!(ex.user_pays <= 20_000);
    // Requesting the amount an exact-input swap produced costs at most
    // what that swap consumed.
    assert!(ex.user_pays <= 10_000);
    assert_eq!(ex.user_receives, 1_098 - 1); // base-side fee netted out
}

#[test]
fn swap_exact_output_max_input_is_enforced() {
    let cfg = config();
    let mut p = pool();
    let mut obs = PriceObservation::new();
    let r = swap_base_output(
        &mut p,
        &mut obs,
        &cfg,
        TradeDirection::ZeroForOne,
        OPEN_TIME + 1,
        CURVE_VAULT,
        BASE_VAULT,
        1_098,
        9_000, // the curve needs more than this
    );
    assert_eq!(r, Err(PoolError::SlippageExceeded));
    assert_eq!(p, pool());
}

#[test]
fn swap_on_locked_pool_is_rejected() {
    let cfg = config();
    let mut p = pool();
    p.lock().unwrap();
    let mut obs = PriceObservation::new();
    let r = swap_base_input(
        &mut p,
        &mut obs,
        &cfg,
        TradeDirection::ZeroForOne,
        OPEN_TIME + 1,
        CURVE_VAULT,
        BASE_VAULT,
        10_000,
        0,
    );
    assert_eq!(r, Err(PoolError::GuardViolation));
}

#[test]
fn graduation_with_nothing_sold_is_not_a_fault() {
    let mut p = pool();
    p.lock().unwrap();
    // Effective curve reserve equals the sellable supply: nothing sold.
    let curve_vault = FROZEN + SELLABLE;
    let r = evaluate_graduation(&p, OPEN_TIME + 1, curve_vault, BASE_VAULT, 100, 0);
    assert_eq!(r, Err(PoolError::MarketCapNotMet));
    // Even an over-full vault is the same business rejection, not a fault.
    let r = evaluate_graduation(&p, OPEN_TIME + 1, curve_vault + 5, BASE_VAULT, 100, 0);
    assert_eq!(r, Err(PoolError::MarketCapNotMet));
}

#[test]
fn graduation_requires_a_locked_pool_and_a_fresh_price() {
    let p = pool();
    let r = evaluate_graduation(&p, OPEN_TIME + 1, CURVE_VAULT, BASE_VAULT, 100, 0);
    assert_eq!(r, Err(PoolError::GuardViolation)); // still active
    let mut locked = pool();
    locked.lock().unwrap();
    let r = evaluate_graduation(&locked, OPEN_TIME + 1, CURVE_VAULT, BASE_VAULT, 100, 11);
    assert_eq!(r, Err(PoolError::GuardViolation)); // stale oracle reading
    let r = evaluate_graduation(&locked, OPEN_TIME, CURVE_VAULT, BASE_VAULT, 100, 0);
    assert_eq!(r, Err(PoolError::GuardViolation)); // before the open time
}

#[test]
fn graduation_market_cap_exact_value() {
    // Effective reserves: curve = 500_000, base = 2_000_000.
    let mut p = PoolState::initialize(FROZEN, BASE_OFFSET, OPEN_TIME, SELLABLE, 0);
    p.lock().unwrap();
    let curve_vault = FROZEN + 500_000;
    let base_vault = 2_000_000 - BASE_OFFSET;
    let unit_price_x32 = (2_000_000u128 << 32) / 500_000; // 4 * 2^32
    let expected_cap = unit_price_x32 * 100 * (SELLABLE - 500_000) as u128;
    let r = evaluate_graduation(&p, OPEN_TIME + 1, curve_vault, base_vault, 100, 0);
    assert_eq!(r, Ok(expected_cap));
}

#[test]
fn graduation_below_threshold_must_be_retried() {
    let mut p = PoolState::initialize(FROZEN, BASE_OFFSET, OPEN_TIME, SELLABLE, u128::MAX);
    p.lock().unwrap();
    let r = evaluate_graduation(&p, OPEN_TIME + 1, CURVE_VAULT, BASE_VAULT, 100, 0);
    assert_eq!(r, Err(PoolError::MarketCapNotMet));
}

#[test]
fn graduate_closes_the_pool_and_plans_the_burn() {
    let mut p = PoolState::initialize(FROZEN, BASE_OFFSET, OPEN_TIME, SELLABLE, 0);
    p.lock().unwrap();
    let plan = graduate(&mut p, OPEN_TIME + 1, CURVE_VAULT, BASE_VAULT, 100, 0).unwrap();
    assert_eq!(p.phase, PoolPhase::Closed);
    // Everything beyond the frozen reserve is burned.
    assert_eq!(plan.burn_curve_amount, CURVE_VAULT - FROZEN);
    assert_eq!(plan.record.curve_reserve_before, 900_000);
    assert_eq!(plan.record.base_reserve_before, 100_000);
    assert!(plan.record.market_cap > 0);
    // Graduation is one-way: a second attempt is rejected unchanged.
    let again = graduate(&mut p, OPEN_TIME + 2, CURVE_VAULT, BASE_VAULT, 100, 0);
    assert_eq!(again, Err(PoolError::GuardViolation));
    assert_eq!(p.phase, PoolPhase::Closed);
}

#[test]
fn graduate_failure_keeps_the_pool_locked() {
    let mut p = PoolState::initialize(FROZEN, BASE_OFFSET, OPEN_TIME, SELLABLE, u128::MAX);
    p.lock().unwrap();
    let before = p;
    let r = graduate(&mut p, OPEN_TIME + 1, CURVE_VAULT, BASE_VAULT, 100, 0);
    assert_eq!(r, Err(PoolError::MarketCapNotMet));
    assert_eq!(p, before);
}

#[test]
fn initialize_pool_liquidity_is_the_integer_root() {
    let (p, obs, liquidity) = initialize_pool(1, 3, 4, 5, OPEN_TIME, 0).unwrap();
    // supply 4, virtual base 9, sqrt(36) = 6.
    assert_eq!(liquidity, 6);
    assert_eq!(p.phase, PoolPhase::Active);
    assert_eq!(p.frozen_curve_amount, 1);
    assert_eq!(p.total_sellable_supply, 3);
    assert_eq!(obs, PriceObservation::new());
    // An inexact square rounds down.
    let (_, _, liquidity) = initialize_pool(0, 7, 0, 7, OPEN_TIME, 0).unwrap();
    assert_eq!(liquidity, 7);
    let (_, _, liquidity) = initialize_pool(0, 2, 0, 3, OPEN_TIME, 0).unwrap();
    assert_eq!(liquidity, 2); // sqrt(6) rounds to 2
}

#[test]
fn initialize_pool_rejects_empty_and_overflowing_supply() {
    assert_eq!(
        initialize_pool(0, 0, 10, 10, OPEN_TIME, 0),
        Err(PoolError::GuardViolation)
    );
    assert_eq!(
        initialize_pool(u64::MAX, 1, 10, 10, OPEN_TIME, 0),
        Err(PoolError::ArithmeticFault)
    );
    assert_eq!(
        initialize_pool(1, 1, u64::MAX, 1, OPEN_TIME, 0),
        Err(PoolError::ArithmeticFault)
    );
}

#[test]
fn swap_paying_beyond_the_real_base_balance_is_a_fault() {
    // The virtual offset inflates the base reserve; a large enough sale
    // would ask the base vault for more than it really holds.
    let cfg = config();
    let mut p = pool();
    let mut obs = PriceObservation::new();
    let r = swap_base_input(
        &mut p,
        &mut obs,
        &cfg,
        TradeDirection::ZeroForOne,
        OPEN_TIME + 1,
        CURVE_VAULT,
        BASE_VAULT,
        1_000_000,
        0,
    );
    assert_eq!(r, Err(PoolError::ArithmeticFault));
    assert_eq!(p, pool());
    assert_eq!(obs, PriceObservation::new());
}

#[test]
fn swap_payout_is_capped_by_the_fee_backed_balance() {
    // Base vault 10 backs 5 of owed fees; the virtual offset of 1000
    // inflates the tradable base reserve far beyond the real balance.
    let cfg = FeeConfig::new(30, 30, 500_000, 250_000, 0).unwrap();
    let mut p = PoolState::initialize(0, 1_000, OPEN_TIME, SELLABLE, 0);
    p.record_fees(TradeDirection::OneForZero, 3, 2).unwrap();
    let mut obs = PriceObservation::new();
    let ex = swap_base_input(
        &mut p,
        &mut obs,
        &cfg,
        TradeDirection::ZeroForOne,
        OPEN_TIME + 1,
        1_000,
        10,
        8,
        0,
    )
    .unwrap();
    // The trader is paid out of the net balance only: the 5 owed units
    // never leave the base vault.
    assert_eq!(ex.user_receives, 5);
    assert_eq!(ex.new_base_vault_balance, 5);
    assert!(p.protocol_fees_base + p.fund_fees_base <= ex.new_base_vault_balance);
}

#[test]
fn swap_that_would_dip_into_owed_fees_is_rejected() {
    // With 8 of 10 base units owed as fees, the same trade would need to
    // pay more than the 2 tradable units: it must abort, not underfund.
    let cfg = FeeConfig::new(30, 30, 500_000, 250_000, 0).unwrap();
    let mut p = PoolState::initialize(0, 1_000, OPEN_TIME, SELLABLE, 0);
    p.record_fees(TradeDirection::OneForZero, 5, 3).unwrap();
    let before = p;
    let mut obs = PriceObservation::new();
    let r = swap_base_input(
        &mut p,
        &mut obs,
        &cfg,
        TradeDirection::ZeroForOne,
        OPEN_TIME + 1,
        1_000,
        10,
        8,
        0,
    );
    assert_eq!(r, Err(PoolError::ArithmeticFault));
    assert_eq!(p, before);
    assert_eq!(obs, PriceObservation::new());
}

#[test]
fn owed_fees_are_not_part_of_the_tradable_reserve() {
    // Two pools with the same live balances; the one with owed base fees
    // quotes a worse price because its tradable base reserve is smaller.
    let cfg = config();
    let mut clean = pool();
    let mut obs_clean = PriceObservation::new();
    let paid_clean = swap_base_input(
        &mut clean,
        &mut obs_clean,
        &cfg,
        TradeDirection::ZeroForOne,
        OPEN_TIME + 1,
        CURVE_VAULT,
        BASE_VAULT,
        10_000,
        0,
    )
    .unwrap()
    .user_receives;
    let mut owing = pool();
    owing.record_fees(TradeDirection::OneForZero, 20_000, 10_000).unwrap();
    let mut obs_owing = PriceObservation::new();
    let paid_owing = swap_base_input(
        &mut owing,
        &mut obs_owing,
        &cfg,
        TradeDirection::ZeroForOne,
        OPEN_TIME + 1,
        CURVE_VAULT,
        BASE_VAULT,
        10_000,
        0,
    )
    .unwrap()
    .user_receives;
    assert!(paid_owing < paid_clean);
}

#[test]
fn graduation_overflow_is_an_arithmetic_fault() {
    let mut p = PoolState::initialize(0, 0, OPEN_TIME, SELLABLE, 0);
    p.lock().unwrap();
    // One curve token against an enormous base reserve, priced at the
    // largest external price: the market-cap product cannot be held.
    let r = evaluate_graduation(&p, OPEN_TIME + 1, 1, u64::MAX, u64::MAX, 0);
    assert_eq!(r, Err(PoolError::ArithmeticFault));
}

#[test]
fn swap_then_collect_flow() {
    let cfg = config();
    let mut p = pool();
    let mut obs = PriceObservation::new();
    let ex = swap_base_input(
        &mut p,
        &mut obs,
        &cfg,
        TradeDirection::OneForZero,
        OPEN_TIME + 1,
        CURVE_VAULT,
        BASE_VAULT,
        1_000_000,
        0,
    )
    .unwrap();
    assert_eq!(ex.outcome.trade_fee, 40); // ceil(1_000_000 * 40 / 10^6)
    assert_eq!(p.protocol_fees_base, 20);
    assert_eq!(p.fund_fees_base, 10);
    let (_, paid) = p.collect_protocol_fees(u64::MAX, u64::MAX).unwrap();
    assert_eq!(paid, 20);
    assert_eq!(p.protocol_fees_base, 0);
}

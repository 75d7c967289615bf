//! The pool lifecycle orchestrator: the guarded swap entry points, the
//! graduation check and the graduation itself, and pool initialization.
//!
//! Every function here computes the complete effect of one instruction on
//! plain values — the live vault balances are handed in, the asset
//! movements to perform are handed back — and mutates the pool record and
//! the price accumulator all-or-nothing: any failure leaves both exactly
//! as they were. The tradable reserves are derived fresh on every call:
//! each leg's owed protocol and fund fees are netted out of its balance
//! first, so accrued fees are never traded away, and only then are the
//! frozen amount and the virtual base offset applied.
//!
//! The trade fee is applied through two deliberately different accounting
//! paths, one per direction. When the curve token is the input, a fee at
//! the trade-fee rate is netted out of the curve's base-asset output and
//! stays in the base vault. When the base asset is the input, the same
//! trade fee is charged on top as a flat amount the trader pays to the
//! fee-sink address.

use crate::curve::{
    swap_exact_input, swap_exact_input_outcome, swap_exact_input_succeeds, swap_exact_output,
    swap_exact_output_outcome, swap_exact_output_succeeds, SwapOutcome,
};
use crate::errors::PoolError;
use crate::fees::{trade_fee_of, trading_fee, FeeConfig};
use crate::math::{integer_sqrt, is_integer_sqrt};
use crate::observation::{token_price_x32, PriceObservation, PRICE_SCALE_X32};
use crate::pool::{PoolPhase, PoolState, TradeDirection};
use vstd::prelude::*;

verus! {

/// Oracle readings older than this many seconds are treated as
/// unavailable and abort the graduation check.
pub const STALENESS_THRESHOLD_SECONDS: u64 = 10;

/// The asset movements one successful swap requires of the runtime,
/// together with the curve outcome they were computed from.
#[derive(Clone, Copy, Debug, PartialEq, Eq, Structural)]
pub struct SwapExecution {
    /// The curve-level outcome of the trade.
    pub outcome: SwapOutcome,
    /// Which leg was the input.
    pub direction: TradeDirection,
    /// Gross amount the trader pays into the input-leg vault.
    pub user_pays: u64,
    /// Amount the output-leg vault pays the trader.
    pub user_receives: u64,
    /// Flat base-asset fee the trader pays to the fee sink on top of the
    /// input; nonzero only when the base asset is the input.
    pub sink_fee: u64,
    /// Curve-token vault balance after the transfers.
    pub new_curve_vault_balance: u64,
    /// Base-asset vault balance after the transfers.
    pub new_base_vault_balance: u64,
}

/// The trade-fee rate the schedule prescribes for a direction.
pub open spec fn trade_rate(config: FeeConfig, direction: TradeDirection) -> int {
    match direction {
        TradeDirection::ZeroForOne => config.trade_fee_zero_to_one as int,
        TradeDirection::OneForZero => config.trade_fee_one_to_zero as int,
    }
}

/// The pool after one trade's protocol and fund fees are added to the
/// input leg's accumulators, or `None` on overflow.
pub open spec fn spec_record_fees(
    pool: PoolState,
    direction: TradeDirection,
    protocol_fee: u64,
    fund_fee: u64,
) -> Option<PoolState> {
    match direction {
        TradeDirection::ZeroForOne => if pool.protocol_fees_curve + protocol_fee <= u64::MAX
            && pool.fund_fees_curve + fund_fee <= u64::MAX {
            Some(
                PoolState {
                    protocol_fees_curve: (pool.protocol_fees_curve + protocol_fee) as u64,
                    fund_fees_curve: (pool.fund_fees_curve + fund_fee) as u64,
                    ..pool
                },
            )
        } else {
            None
        },
        TradeDirection::OneForZero => if pool.protocol_fees_base + protocol_fee <= u64::MAX
            && pool.fund_fees_base + fund_fee <= u64::MAX {
            Some(
                PoolState {
                    protocol_fees_base: (pool.protocol_fees_base + protocol_fee) as u64,
                    fund_fees_base: (pool.fund_fees_base + fund_fee) as u64,
                    ..pool
                },
            )
        } else {
            None
        },
    }
}

/// Instantaneous Q32 prices of both legs computed from the post-trade
/// vault balances and the pool's virtual offsets.
pub open spec fn spec_post_trade_prices(
    pool: PoolState,
    new_curve_vault: u64,
    new_base_vault: u64,
) -> (u128, u128) {
    let curve_res = new_curve_vault - pool.frozen_curve_amount;
    let base_res = new_base_vault + pool.virtual_base_offset;
    (
        (base_res * PRICE_SCALE_X32 / curve_res) as u128,
        (curve_res * PRICE_SCALE_X32 / base_res) as u128,
    )
}

/// The settlement of a swap whose curve outcome and transfer amounts are
/// already fixed: fee recording, then the oracle update from the
/// post-trade vault balances with the virtual offsets applied. Fails on
/// accumulator overflow or an oracle overflow, with nothing changed.
pub open spec fn spec_settle_swap(
    pool: PoolState,
    obs: PriceObservation,
    direction: TradeDirection,
    now: u64,
    outcome: SwapOutcome,
    user_pays: u64,
    user_receives: u64,
    sink_fee: u64,
    new_curve_vault: u64,
    new_base_vault: u64,
) -> Result<(SwapExecution, PoolState, PriceObservation), PoolError> {
    match spec_record_fees(pool, direction, outcome.protocol_fee, outcome.fund_fee) {
        None => Err(PoolError::ArithmeticFault),
        Some(pool_after) => {
            let prices = spec_post_trade_prices(pool, new_curve_vault, new_base_vault);
            if now > obs.last_update_time && !obs.update_fits(now, prices.0, prices.1) {
                Err(PoolError::ArithmeticFault)
            } else {
                Ok(
                    (
                        SwapExecution {
                            outcome,
                            direction,
                            user_pays,
                            user_receives,
                            sink_fee,
                            new_curve_vault_balance: new_curve_vault,
                            new_base_vault_balance: new_base_vault,
                        },
                        pool_after,
                        obs.spec_updated(now, prices.0, prices.1),
                    ),
                )
            }
        },
    }
}

/// Records the fees of one trade and folds the post-trade prices into the
/// price accumulator, all-or-nothing.
fn settle_swap(
    pool: &mut PoolState,
    obs: &mut PriceObservation,
    direction: TradeDirection,
    now: u64,
    outcome: SwapOutcome,
    user_pays: u64,
    user_receives: u64,
    sink_fee: u64,
    new_curve_vault: u64,
    new_base_vault: u64,
) -> (r: Result<SwapExecution, PoolError>)
    requires
        new_curve_vault >= old(pool).frozen_curve_amount + 1,
        1 <= new_base_vault + old(pool).virtual_base_offset <= u64::MAX,
    ensures
        ({
            let s = spec_settle_swap(
                *old(pool),
                *old(obs),
                direction,
                now,
                outcome,
                user_pays,
                user_receives,
                sink_fee,
                new_curve_vault,
                new_base_vault,
            );
            match s {
                Ok((ex, pool_after, obs_after)) => r == Ok::<SwapExecution, PoolError>(ex)
                    && *final(pool) == pool_after && *final(obs) == obs_after,
                Err(e) => r == Err::<SwapExecution, PoolError>(e) && *final(pool) == *old(pool)
                    && *final(obs) == *old(obs),
            }
        }),
{
    let mut pool_after: PoolState = *pool;
    match pool_after.record_fees(direction, outcome.protocol_fee, outcome.fund_fee) {
        Ok(()) => (),
        Err(e) => {
            return Err(e);
        },
    }
    let (curve_res, base_res) = pool.effective_reserves(new_curve_vault, new_base_vault);
    let (price_0, price_1) = token_price_x32(curve_res, base_res);
    let mut obs_after: PriceObservation = *obs;
    match obs_after.update(now, price_0, price_1) {
        Ok(()) => (),
        Err(e) => {
            return Err(e);
        },
    }
    *pool = pool_after;
    *obs = obs_after;
    Ok(
        SwapExecution {
            outcome,
            direction,
            user_pays,
            user_receives,
            sink_fee,
            new_curve_vault_balance: new_curve_vault,
            new_base_vault_balance: new_base_vault,
        },
    )
}

/// The full effect of a guarded exact-input swap on the pool record, the
/// price accumulator and the vaults.
pub open spec fn spec_swap_base_input(
    pool: PoolState,
    obs: PriceObservation,
    config: FeeConfig,
    direction: TradeDirection,
    now: u64,
    curve_vault_balance: u64,
    base_vault_balance: u64,
    amount_in: u64,
    minimum_amount_out: u64,
) -> Result<(SwapExecution, PoolState, PriceObservation), PoolError> {
    let rate = trade_rate(config, direction);
    if !pool.can_trade(now) || amount_in == 0 {
        Err(PoolError::GuardViolation)
    } else if !pool.fees_covered(curve_vault_balance as int, base_vault_balance as int) {
        Err(PoolError::ArithmeticFault)
    } else {
        let nets = pool.spec_vault_amounts_without_fees(
            curve_vault_balance as int,
            base_vault_balance as int,
        );
        if nets.0 < pool.frozen_curve_amount || base_vault_balance + pool.virtual_base_offset
            > u64::MAX {
            Err(PoolError::ArithmeticFault)
        } else {
            spec_swap_base_input_on_reserves(
                pool,
                obs,
                config,
                direction,
                now,
                curve_vault_balance,
                base_vault_balance,
                amount_in,
                minimum_amount_out,
            )
        }
    }
}

/// The exact-input swap once the guards have passed and the owed fees are
/// known to be backed: reserves are the net balances with the virtual
/// offsets applied.
pub open spec fn spec_swap_base_input_on_reserves(
    pool: PoolState,
    obs: PriceObservation,
    config: FeeConfig,
    direction: TradeDirection,
    now: u64,
    curve_vault_balance: u64,
    base_vault_balance: u64,
    amount_in: u64,
    minimum_amount_out: u64,
) -> Result<(SwapExecution, PoolState, PriceObservation), PoolError> {
    let rate = trade_rate(config, direction);
    let nets = pool.spec_vault_amounts_without_fees(
        curve_vault_balance as int,
        base_vault_balance as int,
    );
    {
        let curve_res = nets.0 - pool.frozen_curve_amount;
        let base_res = nets.1 + pool.virtual_base_offset;
        let reserve_in = if direction is ZeroForOne {
            curve_res
        } else {
            base_res
        };
        let reserve_out = if direction is ZeroForOne {
            base_res
        } else {
            curve_res
        };
        if reserve_in < 1 || reserve_out < 1 {
            Err(PoolError::ArithmeticFault)
        } else if !swap_exact_input_succeeds(amount_in as int, reserve_in, reserve_out, rate) {
            Err(PoolError::ArithmeticFault)
        } else {
            let o = swap_exact_input_outcome(
                amount_in as int,
                reserve_in,
                reserve_out,
                rate,
                config.protocol_fee_rate as int,
                config.fund_fee_rate as int,
            );
            if direction is ZeroForOne {
                let fee_out = trade_fee_of(o.destination_amount_produced as int, rate);
                let user_receives = o.destination_amount_produced - fee_out;
                if user_receives <= 0 {
                    Err(PoolError::ArithmeticFault)
                } else if user_receives < minimum_amount_out {
                    Err(PoolError::SlippageExceeded)
                } else if user_receives > nets.1 {
                    Err(PoolError::ArithmeticFault)
                } else if curve_vault_balance + amount_in > u64::MAX {
                    Err(PoolError::ArithmeticFault)
                } else {
                    spec_settle_swap(
                        pool,
                        obs,
                        direction,
                        now,
                        o,
                        amount_in,
                        user_receives as u64,
                        0,
                        (curve_vault_balance + amount_in) as u64,
                        (base_vault_balance - user_receives) as u64,
                    )
                }
            } else {
                let user_receives = o.destination_amount_produced;
                if user_receives < minimum_amount_out {
                    Err(PoolError::SlippageExceeded)
                } else if base_vault_balance + amount_in + pool.virtual_base_offset > u64::MAX {
                    Err(PoolError::ArithmeticFault)
                } else {
                    spec_settle_swap(
                        pool,
                        obs,
                        direction,
                        now,
                        o,
                        amount_in,
                        user_receives,
                        o.trade_fee,
                        (curve_vault_balance - user_receives) as u64,
                        (base_vault_balance + amount_in) as u64,
                    )
                }
            }
        }
    }
}

/// Swaps an exact input against the pool, guarded by phase and time.
///
/// Derives the tradable reserves fresh from the live balances — first
/// netting out each leg's owed protocol and fund fees, then applying the
/// virtual offsets — runs the curve, enforces the trader's minimum output,
/// caps the payout at the output leg's net balance, accounts the fee split
/// on the input leg, and folds the post-trade prices into the accumulator.
/// On any rejection the pool record and the accumulator are untouched.
/// The constant product of the tradable reserves never decreases, owed
/// fees stay backed by the vault of their leg, and the frozen amount never
/// leaves the curve vault.
pub fn swap_base_input(
    pool: &mut PoolState,
    obs: &mut PriceObservation,
    config: &FeeConfig,
    direction: TradeDirection,
    now: u64,
    curve_vault_balance: u64,
    base_vault_balance: u64,
    amount_in: u64,
    minimum_amount_out: u64,
) -> (r: Result<SwapExecution, PoolError>)
    requires
        config.wf(),
    ensures
        ({
            let s = spec_swap_base_input(
                *old(pool),
                *old(obs),
                *config,
                direction,
                now,
                curve_vault_balance,
                base_vault_balance,
                amount_in,
                minimum_amount_out,
            );
            match s {
                Ok((ex, pool_after, obs_after)) => r == Ok::<SwapExecution, PoolError>(ex)
                    && *final(pool) == pool_after && *final(obs) == obs_after,
                Err(e) => r == Err::<SwapExecution, PoolError>(e) && *final(pool) == *old(pool)
                    && *final(obs) == *old(obs),
            }
        }),
        r is Ok ==> old(pool).can_trade(now),
        r is Err ==> *final(pool) == *old(pool) && *final(obs) == *old(obs),
        r matches Ok(ex) ==> ex.user_receives >= minimum_amount_out && ex.user_receives >= 1,
        // A swap only goes through when the owed fees were backed by the
        // balances, and it keeps them backed: each leg's accrued fees stay
        // within that leg's vault, and the frozen amount stays in the
        // curve vault.
        r is Ok ==> old(pool).fees_covered(curve_vault_balance as int, base_vault_balance as int),
        r matches Ok(ex) ==> final(pool).fees_covered(
            ex.new_curve_vault_balance as int,
            ex.new_base_vault_balance as int,
        ) && ex.new_curve_vault_balance >= final(pool).frozen_curve_amount,
        // The constant product of the tradable reserves never decreases.
        r matches Ok(ex) ==> ({
            let nets = old(pool).spec_vault_amounts_without_fees(
                curve_vault_balance as int,
                base_vault_balance as int,
            );
            ex.outcome.new_source_reserve * ex.outcome.new_destination_reserve
                >= (nets.0 - old(pool).frozen_curve_amount) * (nets.1 + old(
                pool,
            ).virtual_base_offset)
        }),
{
    let trading_open = matches!(pool.phase, PoolPhase::Active) && now > pool.open_time;
    if !trading_open || amount_in == 0 {
        return Err(PoolError::GuardViolation);
    }
    // Owed fees must be backed by the live balances before anything is
    // tradable; the tradable reserves are derived from the net balances.
    let curve_owed = match pool.protocol_fees_curve.checked_add(pool.fund_fees_curve) {
        Some(v) => v,
        None => {
            return Err(PoolError::ArithmeticFault);
        },
    };
    let base_owed = match pool.protocol_fees_base.checked_add(pool.fund_fees_base) {
        Some(v) => v,
        None => {
            return Err(PoolError::ArithmeticFault);
        },
    };
    if curve_owed > curve_vault_balance || base_owed > base_vault_balance {
        return Err(PoolError::ArithmeticFault);
    }
    let (curve_net, base_net) = pool.vault_amounts_without_fees(
        curve_vault_balance,
        base_vault_balance,
    );
    if curve_net < pool.frozen_curve_amount {
        return Err(PoolError::ArithmeticFault);
    }
    if base_vault_balance > u64::MAX - pool.virtual_base_offset {
        return Err(PoolError::ArithmeticFault);
    }
    let (curve_res, base_res) = pool.effective_reserves(curve_net, base_net);
    let (reserve_in, reserve_out, rate) = match direction {
        TradeDirection::ZeroForOne => (curve_res, base_res, config.trade_fee_zero_to_one),
        TradeDirection::OneForZero => (base_res, curve_res, config.trade_fee_one_to_zero),
    };
    if reserve_in == 0 || reserve_out == 0 {
        return Err(PoolError::ArithmeticFault);
    }
    let outcome = match swap_exact_input(
        amount_in,
        reserve_in,
        reserve_out,
        rate,
        config.protocol_fee_rate,
        config.fund_fee_rate,
    ) {
        Some(o) => o,
        None => {
            return Err(PoolError::ArithmeticFault);
        },
    };
    // The caller-side curve-invariant check is discharged statically: the
    // outcome can never shrink the constant product.
    proof {
        assert(outcome.new_source_reserve * outcome.new_destination_reserve >= reserve_in
            * reserve_out);
    }
    match direction {
        TradeDirection::ZeroForOne => {
            let fee_out = trading_fee(outcome.destination_amount_produced, rate);
            let user_receives = outcome.destination_amount_produced - fee_out;
            if user_receives == 0 {
                return Err(PoolError::ArithmeticFault);
            }
            if user_receives < minimum_amount_out {
                return Err(PoolError::SlippageExceeded);
            }
            if user_receives > base_net {
                return Err(PoolError::ArithmeticFault);
            }
            let new_curve_vault = match curve_vault_balance.checked_add(amount_in) {
                Some(v) => v,
                None => {
                    return Err(PoolError::ArithmeticFault);
                },
            };
            let new_base_vault = base_vault_balance - user_receives;
            settle_swap(
                pool,
                obs,
                direction,
                now,
                outcome,
                amount_in,
                user_receives,
                0,
                new_curve_vault,
                new_base_vault,
            )
        },
        TradeDirection::OneForZero => {
            let user_receives = outcome.destination_amount_produced;
            if user_receives < minimum_amount_out {
                return Err(PoolError::SlippageExceeded);
            }
            let new_base_vault = match base_vault_balance.checked_add(amount_in) {
                Some(v) => v,
                None => {
                    return Err(PoolError::ArithmeticFault);
                },
            };
            if new_base_vault > u64::MAX - pool.virtual_base_offset {
                return Err(PoolError::ArithmeticFault);
            }
            let new_curve_vault = curve_vault_balance - user_receives;
            settle_swap(
                pool,
                obs,
                direction,
                now,
                outcome,
                amount_in,
                user_receives,
                outcome.trade_fee,
                new_curve_vault,
                new_base_vault,
            )
        },
    }
}

/// The full effect of a guarded exact-output swap on the pool record, the
/// price accumulator and the vaults.
pub open spec fn spec_swap_base_output(
    pool: PoolState,
    obs: PriceObservation,
    config: FeeConfig,
    direction: TradeDirection,
    now: u64,
    curve_vault_balance: u64,
    base_vault_balance: u64,
    amount_out: u64,
    max_amount_in: u64,
) -> Result<(SwapExecution, PoolState, PriceObservation), PoolError> {
    let rate = trade_rate(config, direction);
    if !pool.can_trade(now) || amount_out == 0 {
        Err(PoolError::GuardViolation)
    } else if !pool.fees_covered(curve_vault_balance as int, base_vault_balance as int) {
        Err(PoolError::ArithmeticFault)
    } else {
        let nets = pool.spec_vault_amounts_without_fees(
            curve_vault_balance as int,
            base_vault_balance as int,
        );
        if nets.0 < pool.frozen_curve_amount || base_vault_balance + pool.virtual_base_offset
            > u64::MAX {
            Err(PoolError::ArithmeticFault)
        } else {
            spec_swap_base_output_on_reserves(
                pool,
                obs,
                config,
                direction,
                now,
                curve_vault_balance,
                base_vault_balance,
                amount_out,
                max_amount_in,
            )
        }
    }
}

/// The exact-output swap once the guards have passed and the owed fees are
/// known to be backed: reserves are the net balances with the virtual
/// offsets applied.
pub open spec fn spec_swap_base_output_on_reserves(
    pool: PoolState,
    obs: PriceObservation,
    config: FeeConfig,
    direction: TradeDirection,
    now: u64,
    curve_vault_balance: u64,
    base_vault_balance: u64,
    amount_out: u64,
    max_amount_in: u64,
) -> Result<(SwapExecution, PoolState, PriceObservation), PoolError> {
    let rate = trade_rate(config, direction);
    let nets = pool.spec_vault_amounts_without_fees(
        curve_vault_balance as int,
        base_vault_balance as int,
    );
    {
        let curve_res = nets.0 - pool.frozen_curve_amount;
        let base_res = nets.1 + pool.virtual_base_offset;
        let reserve_in = if direction is ZeroForOne {
            curve_res
        } else {
            base_res
        };
        let reserve_out = if direction is ZeroForOne {
            base_res
        } else {
            curve_res
        };
        if reserve_in < 1 || reserve_out < 1 {
            Err(PoolError::ArithmeticFault)
        } else if !swap_exact_output_succeeds(amount_out as int, reserve_in, reserve_out, rate) {
            Err(PoolError::ArithmeticFault)
        } else {
            let o = swap_exact_output_outcome(
                amount_out as int,
                reserve_in,
                reserve_out,
                rate,
                config.protocol_fee_rate as int,
                config.fund_fee_rate as int,
            );
            if o.source_amount_consumed > max_amount_in {
                Err(PoolError::SlippageExceeded)
            } else if direction is ZeroForOne {
                let fee_out = trade_fee_of(amount_out as int, rate);
                let user_receives = amount_out - fee_out;
                if user_receives > nets.1 {
                    Err(PoolError::ArithmeticFault)
                } else if curve_vault_balance + o.source_amount_consumed > u64::MAX {
                    Err(PoolError::ArithmeticFault)
                } else {
                    spec_settle_swap(
                        pool,
                        obs,
                        direction,
                        now,
                        o,
                        o.source_amount_consumed,
                        user_receives as u64,
                        0,
                        (curve_vault_balance + o.source_amount_consumed) as u64,
                        (base_vault_balance - user_receives) as u64,
                    )
                }
            } else if base_vault_balance + o.source_amount_consumed + pool.virtual_base_offset
                > u64::MAX {
                Err(PoolError::ArithmeticFault)
            } else {
                spec_settle_swap(
                    pool,
                    obs,
                    direction,
                    now,
                    o,
                    o.source_amount_consumed,
                    amount_out,
                    o.trade_fee,
                    (curve_vault_balance - amount_out) as u64,
                    (base_vault_balance + o.source_amount_consumed) as u64,
                )
            }
        }
    }
}

/// Swaps for an exact output against the pool, guarded by phase and time.
///
/// The curve fixes the gross input required; the trader's maximum-input
/// bound is enforced against it. Reserve derivation (balances net of owed
/// fees, then the virtual offsets), fee accounting, the oracle update and
/// the all-or-nothing failure behaviour match the exact-input entry. On
/// the curve-token-in path the output-side fee is netted out of what the
/// trader receives and deliberately stays in the base vault — it is never
/// forwarded to the fee sink; only the base-asset-in path pays the sink.
pub fn swap_base_output(
    pool: &mut PoolState,
    obs: &mut PriceObservation,
    config: &FeeConfig,
    direction: TradeDirection,
    now: u64,
    curve_vault_balance: u64,
    base_vault_balance: u64,
    amount_out: u64,
    max_amount_in: u64,
) -> (r: Result<SwapExecution, PoolError>)
    requires
        config.wf(),
    ensures
        ({
            let s = spec_swap_base_output(
                *old(pool),
                *old(obs),
                *config,
                direction,
                now,
                curve_vault_balance,
                base_vault_balance,
                amount_out,
                max_amount_in,
            );
            match s {
                Ok((ex, pool_after, obs_after)) => r == Ok::<SwapExecution, PoolError>(ex)
                    && *final(pool) == pool_after && *final(obs) == obs_after,
                Err(e) => r == Err::<SwapExecution, PoolError>(e) && *final(pool) == *old(pool)
                    && *final(obs) == *old(obs),
            }
        }),
        r is Ok ==> old(pool).can_trade(now),
        r is Err ==> *final(pool) == *old(pool) && *final(obs) == *old(obs),
        r matches Ok(ex) ==> ex.user_pays <= max_amount_in && ex.user_pays >= 1,
        r matches Ok(ex) ==> ex.outcome.destination_amount_produced == amount_out,
        // A swap only goes through when the owed fees were backed by the
        // balances, and it keeps them backed: each leg's accrued fees stay
        // within that leg's vault, and the frozen amount stays in the
        // curve vault.
        r is Ok ==> old(pool).fees_covered(curve_vault_balance as int, base_vault_balance as int),
        r matches Ok(ex) ==> final(pool).fees_covered(
            ex.new_curve_vault_balance as int,
            ex.new_base_vault_balance as int,
        ) && ex.new_curve_vault_balance >= final(pool).frozen_curve_amount,
        // The constant product of the tradable reserves never decreases.
        r matches Ok(ex) ==> ({
            let nets = old(pool).spec_vault_amounts_without_fees(
                curve_vault_balance as int,
                base_vault_balance as int,
            );
            ex.outcome.new_source_reserve * ex.outcome.new_destination_reserve
                >= (nets.0 - old(pool).frozen_curve_amount) * (nets.1 + old(
                pool,
            ).virtual_base_offset)
        }),
{
    let trading_open = matches!(pool.phase, PoolPhase::Active) && now > pool.open_time;
    if !trading_open || amount_out == 0 {
        return Err(PoolError::GuardViolation);
    }
    // Owed fees must be backed by the live balances before anything is
    // tradable; the tradable reserves are derived from the net balances.
    let curve_owed = match pool.protocol_fees_curve.checked_add(pool.fund_fees_curve) {
        Some(v) => v,
        None => {
            return Err(PoolError::ArithmeticFault);
        },
    };
    let base_owed = match pool.protocol_fees_base.checked_add(pool.fund_fees_base) {
        Some(v) => v,
        None => {
            return Err(PoolError::ArithmeticFault);
        },
    };
    if curve_owed > curve_vault_balance || base_owed > base_vault_balance {
        return Err(PoolError::ArithmeticFault);
    }
    let (curve_net, base_net) = pool.vault_amounts_without_fees(
        curve_vault_balance,
        base_vault_balance,
    );
    if curve_net < pool.frozen_curve_amount {
        return Err(PoolError::ArithmeticFault);
    }
    if base_vault_balance > u64::MAX - pool.virtual_base_offset {
        return Err(PoolError::ArithmeticFault);
    }
    let (curve_res, base_res) = pool.effective_reserves(curve_net, base_net);
    let (reserve_in, reserve_out, rate) = match direction {
        TradeDirection::ZeroForOne => (curve_res, base_res, config.trade_fee_zero_to_one),
        TradeDirection::OneForZero => (base_res, curve_res, config.trade_fee_one_to_zero),
    };
    if reserve_in == 0 || reserve_out == 0 {
        return Err(PoolError::ArithmeticFault);
    }
    let outcome = match swap_exact_output(
        amount_out,
        reserve_in,
        reserve_out,
        rate,
        config.protocol_fee_rate,
        config.fund_fee_rate,
    ) {
        Some(o) => o,
        None => {
            return Err(PoolError::ArithmeticFault);
        },
    };
    if outcome.source_amount_consumed > max_amount_in {
        return Err(PoolError::SlippageExceeded);
    }
    proof {
        // The gross input is positive: delivering any output moves the
        // needed source reserve strictly above the current one.
        assert(outcome.new_source_reserve * outcome.new_destination_reserve >= reserve_in
            * reserve_out);
        if outcome.source_amount_consumed == 0 {
            assert(reserve_in * (reserve_out - amount_out) >= reserve_in * reserve_out);
            assert(reserve_in * (reserve_out - amount_out) < reserve_in * reserve_out)
                by (nonlinear_arith)
                requires
                    reserve_in >= 1,
                    amount_out >= 1,
                    reserve_out >= 1,
            ;
        }
    }
    match direction {
        TradeDirection::ZeroForOne => {
            let fee_out = trading_fee(amount_out, rate);
            let user_receives = amount_out - fee_out;
            if user_receives > base_net {
                return Err(PoolError::ArithmeticFault);
            }
            let new_curve_vault = match curve_vault_balance.checked_add(
                outcome.source_amount_consumed,
            ) {
                Some(v) => v,
                None => {
                    return Err(PoolError::ArithmeticFault);
                },
            };
            let new_base_vault = base_vault_balance - user_receives;
            settle_swap(
                pool,
                obs,
                direction,
                now,
                outcome,
                outcome.source_amount_consumed,
                user_receives,
                0,
                new_curve_vault,
                new_base_vault,
            )
        },
        TradeDirection::OneForZero => {
            let new_base_vault = match base_vault_balance.checked_add(
                outcome.source_amount_consumed,
            ) {
                Some(v) => v,
                None => {
                    return Err(PoolError::ArithmeticFault);
                },
            };
            if new_base_vault > u64::MAX - pool.virtual_base_offset {
                return Err(PoolError::ArithmeticFault);
            }
            let new_curve_vault = curve_vault_balance - amount_out;
            settle_swap(
                pool,
                obs,
                direction,
                now,
                outcome,
                outcome.source_amount_consumed,
                amount_out,
                outcome.trade_fee,
                new_curve_vault,
                new_base_vault,
            )
        },
    }
}

/// What a graduation leaves behind for the record books: the effective
/// reserves it saw and the market cap it computed.
#[derive(Clone, Copy, Debug, PartialEq, Eq, Structural)]
pub struct GraduationRecord {
    /// Tradable curve-token reserve just before graduation.
    pub curve_reserve_before: u64,
    /// Virtual base-asset reserve just before graduation.
    pub base_reserve_before: u64,
    /// The market cap that cleared the threshold.
    pub market_cap: u128,
}

/// The asset movements a graduation requires of the runtime: burn the
/// tradable curve-token surplus, then retire every pool account and sweep
/// the residue to the fee sink.
#[derive(Clone, Copy, Debug, PartialEq, Eq, Structural)]
pub struct GraduationPlan {
    /// Curve tokens in the vault beyond the frozen amount, to be burned.
    pub burn_curve_amount: u64,
    /// The graduation record to emit.
    pub record: GraduationRecord,
}

/// The graduation eligibility check: the market cap of the sold supply at
/// the pool's instantaneous price, priced in the external unit.
///
/// The curve-token price is the Q32 base-per-curve ratio times the
/// externally supplied base-asset price; the cap is that price times the
/// supply already sold out of the pool. A stale external price, a pool
/// that is not locked, or a closed time window is a guard violation; an
/// unsold pool or a cap under the threshold must be retried later; only
/// genuine overflow is an arithmetic fault.
pub open spec fn spec_evaluate_graduation(
    pool: PoolState,
    now: u64,
    curve_vault_balance: u64,
    base_vault_balance: u64,
    external_base_price: u64,
    price_age: u64,
) -> Result<u128, PoolError> {
    if !(pool.phase is Locked) || now <= pool.open_time {
        Err(PoolError::GuardViolation)
    } else if price_age > STALENESS_THRESHOLD_SECONDS {
        Err(PoolError::GuardViolation)
    } else if curve_vault_balance < pool.frozen_curve_amount || base_vault_balance
        + pool.virtual_base_offset > u64::MAX {
        Err(PoolError::ArithmeticFault)
    } else {
        let curve_res = curve_vault_balance - pool.frozen_curve_amount;
        let base_res = base_vault_balance + pool.virtual_base_offset;
        if curve_res < 1 || base_res < 1 {
            Err(PoolError::ArithmeticFault)
        } else if curve_res >= pool.total_sellable_supply {
            // Nothing has been sold (or accounting is degenerate): retry
            // later, never an arithmetic fault.
            Err(PoolError::MarketCapNotMet)
        } else {
            let unit_price = (base_res * PRICE_SCALE_X32 / curve_res) * external_base_price;
            if unit_price > u128::MAX {
                Err(PoolError::ArithmeticFault)
            } else {
                let market_cap = unit_price * (pool.total_sellable_supply - curve_res);
                if market_cap > u128::MAX {
                    Err(PoolError::ArithmeticFault)
                } else if market_cap < pool.graduation_threshold {
                    Err(PoolError::MarketCapNotMet)
                } else {
                    Ok(market_cap as u128)
                }
            }
        }
    }
}

/// Checks whether the pool has earned its graduation; returns the market
/// cap that cleared the threshold.
pub fn evaluate_graduation(
    pool: &PoolState,
    now: u64,
    curve_vault_balance: u64,
    base_vault_balance: u64,
    external_base_price: u64,
    price_age: u64,
) -> (r: Result<u128, PoolError>)
    ensures
        r == spec_evaluate_graduation(
            *pool,
            now,
            curve_vault_balance,
            base_vault_balance,
            external_base_price,
            price_age,
        ),
        r matches Ok(market_cap) ==> market_cap >= pool.graduation_threshold,
        r is Ok ==> pool.phase is Locked,
{
    if !matches!(pool.phase, PoolPhase::Locked) || now <= pool.open_time {
        return Err(PoolError::GuardViolation);
    }
    if price_age > STALENESS_THRESHOLD_SECONDS {
        return Err(PoolError::GuardViolation);
    }
    if curve_vault_balance < pool.frozen_curve_amount {
        return Err(PoolError::ArithmeticFault);
    }
    if base_vault_balance > u64::MAX - pool.virtual_base_offset {
        return Err(PoolError::ArithmeticFault);
    }
    let (curve_res, base_res) = pool.effective_reserves(curve_vault_balance, base_vault_balance);
    if curve_res == 0 || base_res == 0 {
        return Err(PoolError::ArithmeticFault);
    }
    if curve_res >= pool.total_sellable_supply {
        return Err(PoolError::MarketCapNotMet);
    }
    let (price_x32, _) = token_price_x32(curve_res, base_res);
    let unit_price = match price_x32.checked_mul(external_base_price as u128) {
        Some(v) => v,
        None => {
            return Err(PoolError::ArithmeticFault);
        },
    };
    let remaining: u64 = pool.total_sellable_supply - curve_res;
    let market_cap = match unit_price.checked_mul(remaining as u128) {
        Some(v) => v,
        None => {
            return Err(PoolError::ArithmeticFault);
        },
    };
    if market_cap < pool.graduation_threshold {
        return Err(PoolError::MarketCapNotMet);
    }
    Ok(market_cap)
}

/// Graduates the pool: re-checks eligibility, then closes the pool and
/// hands back the burn-and-retire plan. The phase change and the plan are
/// one atomic step — on any rejection the pool is untouched and still
/// locked, and no partial retirement is ever prescribed.
pub fn graduate(
    pool: &mut PoolState,
    now: u64,
    curve_vault_balance: u64,
    base_vault_balance: u64,
    external_base_price: u64,
    price_age: u64,
) -> (r: Result<GraduationPlan, PoolError>)
    ensures
        ({
            let s = spec_evaluate_graduation(
                *old(pool),
                now,
                curve_vault_balance,
                base_vault_balance,
                external_base_price,
                price_age,
            );
            match s {
                Ok(market_cap) => r == Ok::<GraduationPlan, PoolError>(
                    GraduationPlan {
                        burn_curve_amount: (curve_vault_balance - old(
                            pool,
                        ).frozen_curve_amount) as u64,
                        record: GraduationRecord {
                            curve_reserve_before: (curve_vault_balance - old(
                                pool,
                            ).frozen_curve_amount) as u64,
                            base_reserve_before: (base_vault_balance + old(
                                pool,
                            ).virtual_base_offset) as u64,
                            market_cap,
                        },
                    },
                ) && *final(pool) == (PoolState { phase: PoolPhase::Closed, ..*old(pool) }),
                Err(e) => r == Err::<GraduationPlan, PoolError>(e) && *final(pool) == *old(pool),
            }
        }),
        r is Ok ==> final(pool).phase is Closed,
        r is Err ==> *final(pool) == *old(pool),
{
    let market_cap = match evaluate_graduation(
        pool,
        now,
        curve_vault_balance,
        base_vault_balance,
        external_base_price,
        price_age,
    ) {
        Ok(v) => v,
        Err(e) => {
            return Err(e);
        },
    };
    let curve_res = curve_vault_balance - pool.frozen_curve_amount;
    let base_res = base_vault_balance + pool.virtual_base_offset;
    pool.phase = PoolPhase::Closed;
    Ok(
        GraduationPlan {
            burn_curve_amount: curve_res,
            record: GraduationRecord {
                curve_reserve_before: curve_res,
                base_reserve_before: base_res,
                market_cap,
            },
        },
    )
}

/// Creates a pool around a freshly minted supply: the frozen amount plus
/// the sellable amount sit in the curve vault, no real base asset has
/// been deposited yet, and the virtual offset alone seeds the price.
/// Returns the pool record, a zeroed price accumulator, and the initial
/// liquidity figure (the integer square root of the product of the
/// starting effective reserves).
pub fn initialize_pool(
    frozen_curve_amount: u64,
    total_sellable_supply: u64,
    virtual_base_offset: u64,
    base_vault_balance: u64,
    open_time: u64,
    graduation_threshold: u128,
) -> (r: Result<(PoolState, PriceObservation, u64), PoolError>)
    ensures
        frozen_curve_amount + total_sellable_supply > u64::MAX ==> r == Err::<
            (PoolState, PriceObservation, u64),
            PoolError,
        >(PoolError::ArithmeticFault),
        frozen_curve_amount + total_sellable_supply == 0 ==> r == Err::<
            (PoolState, PriceObservation, u64),
            PoolError,
        >(PoolError::GuardViolation),
        (0 < frozen_curve_amount + total_sellable_supply <= u64::MAX && base_vault_balance
            + virtual_base_offset > u64::MAX) ==> r == Err::<
            (PoolState, PriceObservation, u64),
            PoolError,
        >(PoolError::ArithmeticFault),
        (0 < frozen_curve_amount + total_sellable_supply <= u64::MAX && base_vault_balance
            + virtual_base_offset <= u64::MAX) ==> (r matches Ok((pool, obs, liquidity)) && {
            &&& pool == (PoolState {
                frozen_curve_amount,
                virtual_base_offset,
                open_time,
                total_sellable_supply,
                graduation_threshold,
                phase: PoolPhase::Active,
                protocol_fees_curve: 0,
                protocol_fees_base: 0,
                fund_fees_curve: 0,
                fund_fees_base: 0,
            })
            &&& obs == (PriceObservation {
                last_update_time: 0,
                cumulative_price_0: 0,
                cumulative_price_1: 0,
            })
            &&& is_integer_sqrt(
                (frozen_curve_amount + total_sellable_supply) * (base_vault_balance
                    + virtual_base_offset),
                liquidity as int,
            )
        }),
{
    let supply = match frozen_curve_amount.checked_add(total_sellable_supply) {
        Some(v) => v,
        None => {
            return Err(PoolError::ArithmeticFault);
        },
    };
    if supply == 0 {
        return Err(PoolError::GuardViolation);
    }
    let virtual_base = match base_vault_balance.checked_add(virtual_base_offset) {
        Some(v) => v,
        None => {
            return Err(PoolError::ArithmeticFault);
        },
    };
    proof {
        assert(supply as int * virtual_base as int <= u128::MAX) by (nonlinear_arith)
            requires
                supply <= u64::MAX,
                virtual_base <= u64::MAX,
        ;
    }
    let liquidity = integer_sqrt((supply as u128) * (virtual_base as u128));
    let pool = PoolState::initialize(
        frozen_curve_amount,
        virtual_base_offset,
        open_time,
        total_sellable_supply,
        graduation_threshold,
    );
    let obs = PriceObservation::new();
    Ok((pool, obs, liquidity))
}

} // verus!

//! The fee schedule and the arithmetic of fee deduction and fee splitting.
//!
//! All rates are integers over the fixed denominator
//! [`FEE_RATE_DENOMINATOR`]: a rate of 30 means 30 parts per million. The
//! trade fee is rounded up (in favour of the pool); the protocol and fund
//! shares carved out of it are rounded down, so their sum never exceeds the
//! fee they are carved from.

use crate::math::{ceil_div_u128, div_up, lemma_div_up_bounds, lemma_div_up_le};
use vstd::prelude::*;

verus! {

/// Denominator of every fee rate: rates are parts per million.
pub const FEE_RATE_DENOMINATOR: u64 = 1_000_000;

/// Trade fee owed on `amount` at `rate`, rounded up.
pub open spec fn trade_fee_of(amount: int, rate: int) -> int {
    div_up(amount * rate, FEE_RATE_DENOMINATOR as int)
}

/// The sub-portion of a collected fee owed at `rate`, rounded down.
pub open spec fn fee_share_of(total: int, rate: int) -> int {
    total * rate / (FEE_RATE_DENOMINATOR as int)
}

/// Gross amount that leaves exactly `post` after the trade fee at `rate`
/// has been deducted from it (the least such amount).
pub open spec fn pre_fee_of(post: int, rate: int) -> int {
    if rate == 0 {
        post
    } else {
        div_up(post * FEE_RATE_DENOMINATOR as int, FEE_RATE_DENOMINATOR as int - rate)
    }
}

/// Named fee schedule referenced by a pool; immutable once created.
#[derive(Clone, Copy, Debug, PartialEq, Eq, Structural)]
pub struct FeeConfig {
    /// Trade fee rate when the curve token is the input.
    pub trade_fee_zero_to_one: u64,
    /// Trade fee rate when the base asset is the input.
    pub trade_fee_one_to_zero: u64,
    /// Portion of each trade fee owed to the protocol treasury.
    pub protocol_fee_rate: u64,
    /// Portion of each trade fee owed to the fund owner.
    pub fund_fee_rate: u64,
    /// Flat fee charged once when a pool is created.
    pub creation_fee: u64,
}

impl FeeConfig {
    /// Every rate lies under the denominator and the two carved-out shares
    /// leave room for the pool's own share.
    pub open spec fn wf(self) -> bool {
        &&& self.trade_fee_zero_to_one < FEE_RATE_DENOMINATOR
        &&& self.trade_fee_one_to_zero < FEE_RATE_DENOMINATOR
        &&& self.protocol_fee_rate < FEE_RATE_DENOMINATOR
        &&& self.fund_fee_rate < FEE_RATE_DENOMINATOR
        &&& self.protocol_fee_rate + self.fund_fee_rate <= FEE_RATE_DENOMINATOR
    }

    /// Validates and builds a schedule; rejects any rate at or over the
    /// denominator and shares that together exceed the whole.
    pub fn new(
        trade_fee_zero_to_one: u64,
        trade_fee_one_to_zero: u64,
        protocol_fee_rate: u64,
        fund_fee_rate: u64,
        creation_fee: u64,
    ) -> (r: Option<FeeConfig>)
        ensures
            match r {
                Some(c) => {
                    &&& c.wf()
                    &&& c.trade_fee_zero_to_one == trade_fee_zero_to_one
                    &&& c.trade_fee_one_to_zero == trade_fee_one_to_zero
                    &&& c.protocol_fee_rate == protocol_fee_rate
                    &&& c.fund_fee_rate == fund_fee_rate
                    &&& c.creation_fee == creation_fee
                },
                None => !(FeeConfig {
                    trade_fee_zero_to_one,
                    trade_fee_one_to_zero,
                    protocol_fee_rate,
                    fund_fee_rate,
                    creation_fee,
                }).wf(),
            },
    {
        let config = FeeConfig {
            trade_fee_zero_to_one,
            trade_fee_one_to_zero,
            protocol_fee_rate,
            fund_fee_rate,
            creation_fee,
        };
        if trade_fee_zero_to_one < FEE_RATE_DENOMINATOR && trade_fee_one_to_zero
            < FEE_RATE_DENOMINATOR && protocol_fee_rate < FEE_RATE_DENOMINATOR && fund_fee_rate
            < FEE_RATE_DENOMINATOR && protocol_fee_rate <= FEE_RATE_DENOMINATOR - fund_fee_rate {
            Some(config)
        } else {
            None
        }
    }
}

/// Trade fee owed on `amount` at `rate`; never more than the amount itself.
pub fn trading_fee(amount: u64, rate: u64) -> (fee: u64)
    requires
        rate < FEE_RATE_DENOMINATOR,
    ensures
        fee == trade_fee_of(amount as int, rate as int),
        fee <= amount,
{
    proof {
        assert(amount as int * rate as int <= u128::MAX) by (nonlinear_arith)
            requires
                amount <= u64::MAX,
                rate <= u64::MAX,
        ;
    }
    let wide: u128 = (amount as u128) * (rate as u128);
    let fee: u128 = ceil_div_u128(wide, FEE_RATE_DENOMINATOR as u128);
    proof {
        let d = FEE_RATE_DENOMINATOR as int;
        assert(amount as int * rate as int <= amount as int * d) by (nonlinear_arith)
            requires
                0 <= rate as int <= d,
                amount >= 0,
        ;
        lemma_div_up_le(amount as int * rate as int, d, amount as int);
    }
    fee as u64
}

/// Sub-portion of a collected fee owed at `rate`; never more than the fee.
pub fn fee_share(total: u64, rate: u64) -> (share: u64)
    requires
        rate <= FEE_RATE_DENOMINATOR,
    ensures
        share == fee_share_of(total as int, rate as int),
        share <= total,
{
    proof {
        assert(total as int * rate as int <= u128::MAX) by (nonlinear_arith)
            requires
                total <= u64::MAX,
                rate <= u64::MAX,
        ;
    }
    let wide: u128 = (total as u128) * (rate as u128);
    let share: u128 = wide / (FEE_RATE_DENOMINATOR as u128);
    proof {
        let d = FEE_RATE_DENOMINATOR as int;
        assert(total as int * rate as int <= total as int * d) by (nonlinear_arith)
            requires
                0 <= rate as int <= d,
                total >= 0,
        ;
        vstd::arithmetic::div_mod::lemma_div_is_ordered(
            total as int * rate as int,
            total as int * d,
            d,
        );
        vstd::arithmetic::div_mod::lemma_div_by_multiple(total as int, d);
    }
    share as u64
}

/// Least gross amount whose net, after the trade fee at `rate`, is `post`;
/// `None` when that amount does not fit in a `u64`.
pub fn pre_fee_amount(post: u64, rate: u64) -> (r: Option<u64>)
    requires
        rate < FEE_RATE_DENOMINATOR,
    ensures
        match r {
            Some(gross) => gross == pre_fee_of(post as int, rate as int),
            None => pre_fee_of(post as int, rate as int) > u64::MAX,
        },
        r matches Some(gross) ==> gross >= post,
{
    if rate == 0 {
        return Some(post);
    }
    let d: u128 = FEE_RATE_DENOMINATOR as u128;
    let wide: u128 = (post as u128) * d;
    let gross: u128 = ceil_div_u128(wide, d - (rate as u128));
    proof {
        let di = FEE_RATE_DENOMINATOR as int;
        let p = post as int;
        let g = pre_fee_of(p, rate as int);
        lemma_div_up_bounds(p * di, di - rate as int);
        assert((di - rate as int) * g >= p * di);
        assert(g >= p) by (nonlinear_arith)
            requires
                (di - rate as int) * g >= p * di,
                0 < di - rate as int <= di,
                p >= 0,
                g >= 0,
        ;
    }
    if gross <= u64::MAX as u128 {
        Some(gross as u64)
    } else {
        None
    }
}

/// The two shares carved out of one trade fee never exceed the fee: the
/// remainder stays in the pool as organic reserve growth.
pub proof fn lemma_fee_split_bounded(trade_fee: int, protocol_rate: int, fund_rate: int)
    requires
        trade_fee >= 0,
        protocol_rate >= 0,
        fund_rate >= 0,
        protocol_rate + fund_rate <= FEE_RATE_DENOMINATOR,
    ensures
        fee_share_of(trade_fee, protocol_rate) + fee_share_of(trade_fee, fund_rate) <= trade_fee,
{
    let d = FEE_RATE_DENOMINATOR as int;
    let p = trade_fee * protocol_rate;
    let f = trade_fee * fund_rate;
    vstd::arithmetic::div_mod::lemma_fundamental_div_mod(p, d);
    vstd::arithmetic::div_mod::lemma_fundamental_div_mod(f, d);
    assert(p + f <= trade_fee * d) by (nonlinear_arith)
        requires
            p == trade_fee * protocol_rate,
            f == trade_fee * fund_rate,
            protocol_rate >= 0,
            fund_rate >= 0,
            protocol_rate + fund_rate <= d,
            trade_fee >= 0,
    ;
    assert(p / d + f / d <= trade_fee) by (nonlinear_arith)
        requires
            d > 0,
            p == d * (p / d) + p % d,
            f == d * (f / d) + f % d,
            0 <= p % d,
            0 <= f % d,
            p + f <= trade_fee * d,
            trade_fee >= 0,
        ;
}

/// Deducting the trade fee and then grossing the net back up never asks for
/// more than the original amount: the round trip through the fee arithmetic
/// is lossy in the pool's favour.
pub proof fn lemma_pre_fee_of_net_le(amount: int, rate: int)
    requires
        amount >= 0,
        0 <= rate < FEE_RATE_DENOMINATOR,
    ensures
        pre_fee_of(amount - trade_fee_of(amount, rate), rate) <= amount,
        trade_fee_of(amount, rate) <= amount,
{
    let d = FEE_RATE_DENOMINATOR as int;
    let tf = trade_fee_of(amount, rate);
    lemma_div_up_bounds(amount * rate, d);
    assert(amount * rate <= amount * d) by (nonlinear_arith)
        requires
            0 <= rate <= d,
            amount >= 0,
    ;
    lemma_div_up_le(amount * rate, d, amount);
    let net = amount - tf;
    if rate > 0 {
        assert(d * tf >= amount * rate);
        assert(net * d <= amount * (d - rate)) by (nonlinear_arith)
            requires
                net == amount - tf,
                d * tf >= amount * rate,
        ;
        assert(amount * (d - rate) == amount * d - amount * rate) by (nonlinear_arith);
        assert(amount * (d - rate) <= (d - rate) * amount) by (nonlinear_arith);
        lemma_div_up_le(net * d, d - rate, amount);
    }
}

} // verus!

//! The constant-product curve calculator.
//!
//! Both operations take the reserves as they stand before the trade
//! together with a fee schedule, and return the complete outcome of the
//! trade: amounts moved, the trade fee and its protocol and fund
//! sub-portions, and the reserves after the trade. Both are pure, and both
//! guarantee that the constant product of the reserves never decreases.
//!
//! All intermediate products and quotients are computed at twice the
//! reserve width (`u128` for `u64` reserves), so the product of two
//! reserves can never be silently truncated.

use crate::fees::{
    fee_share, fee_share_of, pre_fee_amount, pre_fee_of, trade_fee_of, trading_fee,
    lemma_fee_split_bounded, lemma_pre_fee_of_net_le, FEE_RATE_DENOMINATOR,
};
use crate::math::{ceil_div_u128, div_up, lemma_div_up_bounds, lemma_div_up_le, lemma_div_up_mono};
use vstd::prelude::*;

verus! {

/// Everything a single swap computes; ephemeral, never persisted.
#[derive(Clone, Copy, Debug, PartialEq, Eq, Structural)]
pub struct SwapOutcome {
    /// Gross input the trader hands over, fee included.
    pub source_amount_consumed: u64,
    /// Output the curve releases from the destination reserve.
    pub destination_amount_produced: u64,
    /// Trade fee deducted on the input side.
    pub trade_fee: u64,
    /// Portion of the trade fee owed to the protocol treasury.
    pub protocol_fee: u64,
    /// Portion of the trade fee owed to the fund owner.
    pub fund_fee: u64,
    /// Input-side reserve after the trade (grows by the gross input).
    pub new_source_reserve: u64,
    /// Output-side reserve after the trade.
    pub new_destination_reserve: u64,
}

/// The tradable part of the input once the trade fee is deducted.
pub open spec fn net_amount_in(amount_in: int, trade_fee_rate: int) -> int {
    amount_in - trade_fee_of(amount_in, trade_fee_rate)
}

/// Destination reserve after trading `net_in` against the curve: the least
/// value that keeps the constant product from decreasing.
pub open spec fn curve_new_destination(reserve_in: int, reserve_out: int, net_in: int) -> int {
    div_up(reserve_in * reserve_out, reserve_in + net_in)
}

/// Exactly when [`swap_exact_input`] returns an outcome: a positive input,
/// a positive tradable remainder after the fee, a positive output, and an
/// input-side reserve that still fits its width.
pub open spec fn swap_exact_input_succeeds(
    amount_in: int,
    reserve_in: int,
    reserve_out: int,
    trade_fee_rate: int,
) -> bool {
    let net = net_amount_in(amount_in, trade_fee_rate);
    &&& amount_in > 0
    &&& net > 0
    &&& reserve_out - curve_new_destination(reserve_in, reserve_out, net) > 0
    &&& reserve_in + amount_in <= u64::MAX
}

/// The outcome [`swap_exact_input`] returns when it succeeds.
pub open spec fn swap_exact_input_outcome(
    amount_in: int,
    reserve_in: int,
    reserve_out: int,
    trade_fee_rate: int,
    protocol_fee_rate: int,
    fund_fee_rate: int,
) -> SwapOutcome {
    let fee = trade_fee_of(amount_in, trade_fee_rate);
    let net = amount_in - fee;
    let new_dest = curve_new_destination(reserve_in, reserve_out, net);
    SwapOutcome {
        source_amount_consumed: amount_in as u64,
        destination_amount_produced: (reserve_out - new_dest) as u64,
        trade_fee: fee as u64,
        protocol_fee: fee_share_of(fee, protocol_fee_rate) as u64,
        fund_fee: fee_share_of(fee, fund_fee_rate) as u64,
        new_source_reserve: (reserve_in + amount_in) as u64,
        new_destination_reserve: new_dest as u64,
    }
}

/// Swaps an exact gross input for as much output as the curve allows.
///
/// The trade fee is deducted from the input; the constant-product formula
/// then fixes the output; the protocol and fund shares are carved out of
/// the fee and the remainder stays in the pool. Fails exactly when the
/// input is zero, the fee swallows the whole input, the trade would round
/// down to no output, or the new input-side reserve would overflow.
pub fn swap_exact_input(
    amount_in: u64,
    reserve_in: u64,
    reserve_out: u64,
    trade_fee_rate: u64,
    protocol_fee_rate: u64,
    fund_fee_rate: u64,
) -> (r: Option<SwapOutcome>)
    requires
        reserve_in >= 1,
        reserve_out >= 1,
        trade_fee_rate < FEE_RATE_DENOMINATOR,
        protocol_fee_rate < FEE_RATE_DENOMINATOR,
        fund_fee_rate < FEE_RATE_DENOMINATOR,
        protocol_fee_rate + fund_fee_rate <= FEE_RATE_DENOMINATOR,
    ensures
        r is Some <==> swap_exact_input_succeeds(
            amount_in as int,
            reserve_in as int,
            reserve_out as int,
            trade_fee_rate as int,
        ),
        r matches Some(o) ==> o == swap_exact_input_outcome(
            amount_in as int,
            reserve_in as int,
            reserve_out as int,
            trade_fee_rate as int,
            protocol_fee_rate as int,
            fund_fee_rate as int,
        ),
        // The constant product of the reserves never decreases.
        r matches Some(o) ==> o.new_source_reserve * o.new_destination_reserve
            >= reserve_in * reserve_out,
        // The fee split never exceeds the fee it is carved from.
        r matches Some(o) ==> o.protocol_fee + o.fund_fee <= o.trade_fee,
        r matches Some(o) ==> {
            &&& o.trade_fee <= amount_in
            &&& 1 <= o.new_destination_reserve <= reserve_out
            &&& o.destination_amount_produced == reserve_out - o.new_destination_reserve
            &&& o.new_source_reserve == reserve_in + amount_in
            &&& 1 <= o.destination_amount_produced
        },
{
    if amount_in == 0 {
        return None;
    }
    let fee: u64 = trading_fee(amount_in, trade_fee_rate);
    let net: u64 = amount_in - fee;
    if net == 0 {
        return None;
    }
    proof {
        assert(reserve_in as int * reserve_out as int <= u128::MAX) by (nonlinear_arith)
            requires
                reserve_in <= u64::MAX,
                reserve_out <= u64::MAX,
        ;
    }
    let invariant_product: u128 = (reserve_in as u128) * (reserve_out as u128);
    let grown_source: u128 = reserve_in as u128 + net as u128;
    let new_dest_wide: u128 = ceil_div_u128(invariant_product, grown_source);
    proof {
        let rin = reserve_in as int;
        let rout = reserve_out as int;
        let g = rin + net as int;
        assert(rin * rout <= rout * g) by (nonlinear_arith)
            requires
                rin >= 1,
                rout >= 1,
                g >= rin,
        ;
        lemma_div_up_le(rin * rout, g, rout);
        lemma_div_up_bounds(rin * rout, g);
    }
    let new_dest: u64 = new_dest_wide as u64;
    let amount_out: u64 = reserve_out - new_dest;
    if amount_out == 0 {
        return None;
    }
    let new_source: u64 = match reserve_in.checked_add(amount_in) {
        Some(v) => v,
        None => {
            return None;
        },
    };
    let protocol: u64 = fee_share(fee, protocol_fee_rate);
    let fund: u64 = fee_share(fee, fund_fee_rate);
    proof {
        let rin = reserve_in as int;
        let rout = reserve_out as int;
        let g = rin + net as int;
        let nd = new_dest as int;
        assert(rin * rout >= 1) by (nonlinear_arith)
            requires
                rin >= 1,
                rout >= 1,
        ;
        assert((rin + amount_in as int) * nd >= rin * rout) by (nonlinear_arith)
            requires
                g * nd >= rin * rout,
                rin + amount_in as int >= g,
                nd >= 0,
        ;
        lemma_fee_split_bounded(fee as int, protocol_fee_rate as int, fund_fee_rate as int);
    }
    Some(
        SwapOutcome {
            source_amount_consumed: amount_in,
            destination_amount_produced: amount_out,
            trade_fee: fee,
            protocol_fee: protocol,
            fund_fee: fund,
            new_source_reserve: new_source,
            new_destination_reserve: new_dest,
        },
    )
}

/// Input-side reserve required so that removing `amount_out` keeps the
/// constant product from decreasing: the least such reserve.
pub open spec fn curve_needed_source(reserve_in: int, reserve_out: int, amount_out: int) -> int {
    div_up(reserve_in * reserve_out, reserve_out - amount_out)
}

/// Net input the curve requires to deliver `amount_out`.
pub open spec fn net_amount_in_for_output(
    reserve_in: int,
    reserve_out: int,
    amount_out: int,
) -> int {
    curve_needed_source(reserve_in, reserve_out, amount_out) - reserve_in
}

/// Exactly when [`swap_exact_output`] returns an outcome: the curve can
/// deliver the requested output and the grossed-up input still fits.
pub open spec fn swap_exact_output_succeeds(
    amount_out: int,
    reserve_in: int,
    reserve_out: int,
    trade_fee_rate: int,
) -> bool {
    let gross = pre_fee_of(
        net_amount_in_for_output(reserve_in, reserve_out, amount_out),
        trade_fee_rate,
    );
    &&& amount_out < reserve_out
    &&& gross <= u64::MAX
    &&& reserve_in + gross <= u64::MAX
}

/// The outcome [`swap_exact_output`] returns when it succeeds.
pub open spec fn swap_exact_output_outcome(
    amount_out: int,
    reserve_in: int,
    reserve_out: int,
    trade_fee_rate: int,
    protocol_fee_rate: int,
    fund_fee_rate: int,
) -> SwapOutcome {
    let net_in = net_amount_in_for_output(reserve_in, reserve_out, amount_out);
    let gross = pre_fee_of(net_in, trade_fee_rate);
    let fee = gross - net_in;
    SwapOutcome {
        source_amount_consumed: gross as u64,
        destination_amount_produced: amount_out as u64,
        trade_fee: fee as u64,
        protocol_fee: fee_share_of(fee, protocol_fee_rate) as u64,
        fund_fee: fee_share_of(fee, fund_fee_rate) as u64,
        new_source_reserve: (reserve_in + gross) as u64,
        new_destination_reserve: (reserve_out - amount_out) as u64,
    }
}

/// Swaps for an exact output, reporting the gross input required.
///
/// The net input is the least amount that keeps the constant product from
/// decreasing once `amount_out` leaves the destination reserve; it is then
/// grossed up for the trade fee so the caller can enforce a maximum-input
/// bound. Fails exactly when the curve cannot deliver the requested output
/// or the grossed-up input overflows.
pub fn swap_exact_output(
    amount_out: u64,
    reserve_in: u64,
    reserve_out: u64,
    trade_fee_rate: u64,
    protocol_fee_rate: u64,
    fund_fee_rate: u64,
) -> (r: Option<SwapOutcome>)
    requires
        reserve_in >= 1,
        reserve_out >= 1,
        trade_fee_rate < FEE_RATE_DENOMINATOR,
        protocol_fee_rate < FEE_RATE_DENOMINATOR,
        fund_fee_rate < FEE_RATE_DENOMINATOR,
        protocol_fee_rate + fund_fee_rate <= FEE_RATE_DENOMINATOR,
    ensures
        r is Some <==> swap_exact_output_succeeds(
            amount_out as int,
            reserve_in as int,
            reserve_out as int,
            trade_fee_rate as int,
        ),
        r matches Some(o) ==> o == swap_exact_output_outcome(
            amount_out as int,
            reserve_in as int,
            reserve_out as int,
            trade_fee_rate as int,
            protocol_fee_rate as int,
            fund_fee_rate as int,
        ),
        // The constant product of the reserves never decreases.
        r matches Some(o) ==> o.new_source_reserve * o.new_destination_reserve
            >= reserve_in * reserve_out,
        // The fee split never exceeds the fee it is carved from.
        r matches Some(o) ==> o.protocol_fee + o.fund_fee <= o.trade_fee,
        r matches Some(o) ==> {
            &&& o.destination_amount_produced == amount_out
            &&& o.new_destination_reserve == reserve_out - amount_out
            &&& o.new_source_reserve == reserve_in + o.source_amount_consumed
            &&& o.trade_fee <= o.source_amount_consumed
        },
{
    if amount_out >= reserve_out {
        return None;
    }
    proof {
        assert(reserve_in as int * reserve_out as int <= u128::MAX) by (nonlinear_arith)
            requires
                reserve_in <= u64::MAX,
                reserve_out <= u64::MAX,
        ;
    }
    let invariant_product: u128 = (reserve_in as u128) * (reserve_out as u128);
    let new_dest: u64 = reserve_out - amount_out;
    let needed_wide: u128 = ceil_div_u128(invariant_product, new_dest as u128);
    proof {
        let rin = reserve_in as int;
        let rout = reserve_out as int;
        let nd = new_dest as int;
        lemma_div_up_bounds(rin * rout, nd);
        let needed = div_up(rin * rout, nd);
        assert(needed >= rin) by (nonlinear_arith)
            requires
                needed * nd >= rin * rout,
                rout >= nd >= 1,
                rin >= 1,
                needed >= 0,
        ;
    }
    let net_in_wide: u128 = needed_wide - reserve_in as u128;
    if net_in_wide > u64::MAX as u128 {
        proof {
            lemma_pre_fee_ge(net_in_wide as int, trade_fee_rate as int);
        }
        return None;
    }
    let net_in: u64 = net_in_wide as u64;
    let gross: u64 = match pre_fee_amount(net_in, trade_fee_rate) {
        Some(v) => v,
        None => {
            return None;
        },
    };
    let new_source: u64 = match reserve_in.checked_add(gross) {
        Some(v) => v,
        None => {
            return None;
        },
    };
    let fee: u64 = gross - net_in;
    let protocol: u64 = fee_share(fee, protocol_fee_rate);
    let fund: u64 = fee_share(fee, fund_fee_rate);
    proof {
        let rin = reserve_in as int;
        let rout = reserve_out as int;
        let nd = new_dest as int;
        let needed = div_up(rin * rout, nd);
        lemma_div_up_bounds(rin * rout, nd);
        assert(new_source as int * nd >= rin * rout) by (nonlinear_arith)
            requires
                needed * nd >= rin * rout,
                new_source as int >= needed,
                nd >= 0,
        ;
        lemma_fee_split_bounded(fee as int, protocol_fee_rate as int, fund_fee_rate as int);
    }
    Some(
        SwapOutcome {
            source_amount_consumed: gross,
            destination_amount_produced: amount_out,
            trade_fee: fee,
            protocol_fee: protocol,
            fund_fee: fund,
            new_source_reserve: new_source,
            new_destination_reserve: new_dest,
        },
    )
}

/// Grossing up never returns less than the net amount it is given.
pub proof fn lemma_pre_fee_ge(post: int, rate: int)
    requires
        post >= 0,
        0 <= rate < FEE_RATE_DENOMINATOR,
    ensures
        pre_fee_of(post, rate) >= post,
{
    let d = FEE_RATE_DENOMINATOR as int;
    if rate > 0 {
        lemma_div_up_bounds(post * d, d - rate);
        let g = pre_fee_of(post, rate);
        assert(g >= post) by (nonlinear_arith)
            requires
                (d - rate) * g >= post * d,
                0 < d - rate <= d,
                post >= 0,
                g >= 0,
        ;
    }
}

/// Grossing up is monotone in the net amount.
pub proof fn lemma_pre_fee_mono(post1: int, post2: int, rate: int)
    requires
        0 <= post1 <= post2,
        0 <= rate < FEE_RATE_DENOMINATOR,
    ensures
        pre_fee_of(post1, rate) <= pre_fee_of(post2, rate),
{
    let d = FEE_RATE_DENOMINATOR as int;
    if rate > 0 {
        assert(post1 * d <= post2 * d) by (nonlinear_arith)
            requires
                post1 <= post2,
                d > 0,
        ;
        lemma_div_up_mono(post1 * d, post2 * d, d - rate);
    }
}

/// A swap for an exact input, followed by a swap requesting exactly the
/// output it produced, asks for an input no larger than the original: fees
/// and rounding make the round trip lossy, never profitable.
pub proof fn lemma_round_trip_lossy(
    amount_in: u64,
    reserve_in: u64,
    reserve_out: u64,
    trade_fee_rate: u64,
    protocol_fee_rate: u64,
    fund_fee_rate: u64,
)
    requires
        reserve_in >= 1,
        reserve_out >= 1,
        trade_fee_rate < FEE_RATE_DENOMINATOR,
        swap_exact_input_succeeds(
            amount_in as int,
            reserve_in as int,
            reserve_out as int,
            trade_fee_rate as int,
        ),
    ensures
        ({
            let produced = swap_exact_input_outcome(
                amount_in as int,
                reserve_in as int,
                reserve_out as int,
                trade_fee_rate as int,
                protocol_fee_rate as int,
                fund_fee_rate as int,
            ).destination_amount_produced;
            &&& swap_exact_output_succeeds(
                produced as int,
                reserve_in as int,
                reserve_out as int,
                trade_fee_rate as int,
            )
            &&& swap_exact_output_outcome(
                produced as int,
                reserve_in as int,
                reserve_out as int,
                trade_fee_rate as int,
                protocol_fee_rate as int,
                fund_fee_rate as int,
            ).source_amount_consumed <= amount_in
        }),
{
    let rin = reserve_in as int;
    let rout = reserve_out as int;
    let rate = trade_fee_rate as int;
    let a = amount_in as int;
    let fee = trade_fee_of(a, rate);
    let net = a - fee;
    let q = curve_new_destination(rin, rout, net);
    let out = rout - q;
    assert(rin * rout >= 1) by (nonlinear_arith)
        requires
            rin >= 1,
            rout >= 1,
    ;
    lemma_div_up_bounds(rin * rout, rin + net);
    // The forward outcome's produced amount is in range and equals `out`.
    assert(q >= 1);
    assert(1 <= out < rout);
    // Requesting `out` back needs a new destination reserve of exactly `q`,
    // and the source reserve the curve then requires is at most `rin + net`.
    let needed = curve_needed_source(rin, rout, out);
    lemma_div_up_bounds(rin * rout, q);
    assert((rin + net) * q >= rin * rout);
    assert(rin * rout <= (rin + net) * q);
    lemma_div_up_le(rin * rout, q, rin + net);
    assert(needed <= rin + net);
    assert(needed >= rin) by (nonlinear_arith)
        requires
            needed * q >= rin * rout,
            rout >= q >= 1,
            rin >= 1,
            needed >= 0,
    ;
    let net_back = needed - rin;
    assert(net_back <= net);
    // Grossing the smaller net back up stays at or under the original input.
    lemma_pre_fee_mono(net_back, net, rate);
    lemma_pre_fee_of_net_le(a, rate);
    let gross_back = pre_fee_of(net_back, rate);
    assert(gross_back <= a);
}

} // verus!

//! The pool record: virtual reserve offsets, fee accumulators and the
//! lifecycle phase, together with the reserve and fee accounting that every
//! trade and collection goes through.

use crate::errors::PoolError;
use vstd::prelude::*;

verus! {

/// Which leg of the pair is the input of a trade.
#[derive(Clone, Copy, Debug, PartialEq, Eq, Structural)]
pub enum TradeDirection {
    /// The curve token goes in, the base asset comes out.
    ZeroForOne,
    /// The base asset goes in, the curve token comes out.
    OneForZero,
}

impl TradeDirection {
    /// Decodes the wire encoding of a direction.
    pub fn from_raw(value: u8) -> (r: Option<TradeDirection>)
        ensures
            r == if value == 0 {
                Some(TradeDirection::ZeroForOne)
            } else if value == 1 {
                Some(TradeDirection::OneForZero)
            } else {
                None::<TradeDirection>
            },
    {
        if value == 0 {
            Some(TradeDirection::ZeroForOne)
        } else if value == 1 {
            Some(TradeDirection::OneForZero)
        } else {
            None
        }
    }
}

/// Lifecycle phase of a pool. Transitions only ever move forward:
/// `Active` to `Locked` to `Closed`, never back.
#[derive(Clone, Copy, Debug, PartialEq, Eq, Structural)]
pub enum PoolPhase {
    /// Swaps and fee collection are permitted once the open time has
    /// passed.
    Active,
    /// The graduation check is in progress; swaps and fee collection are
    /// forbidden.
    Locked,
    /// Terminal: every pool account has been retired.
    Closed,
}

/// One bonding-curve market. The authoritative vault balances live in the
/// ledger and are handed in fresh on every call; this record holds only
/// the virtual offsets, the accrued fees and the phase.
#[derive(Clone, Copy, Debug, PartialEq, Eq, Structural)]
pub struct PoolState {
    /// Curve-token units pre-minted into the vault and permanently
    /// excluded from the tradable supply.
    pub frozen_curve_amount: u64,
    /// Constant added to the real base-asset balance to seed the virtual
    /// price before any real deposit exists.
    pub virtual_base_offset: u64,
    /// Swaps are illegal at or before this timestamp.
    pub open_time: u64,
    /// Fixed configuration constant: the curve-token supply that was
    /// minted for sale.
    pub total_sellable_supply: u64,
    /// Market cap the pool must reach before it may graduate.
    pub graduation_threshold: u128,
    /// Current lifecycle phase.
    pub phase: PoolPhase,
    /// Protocol fees accrued in curve tokens, owed but not yet withdrawn.
    pub protocol_fees_curve: u64,
    /// Protocol fees accrued in the base asset.
    pub protocol_fees_base: u64,
    /// Fund fees accrued in curve tokens.
    pub fund_fees_curve: u64,
    /// Fund fees accrued in the base asset.
    pub fund_fees_base: u64,
}

impl PoolState {
    /// Swaps are legal: the pool is active and the open time has passed.
    pub open spec fn can_trade(self, now: u64) -> bool {
        self.phase is Active && now > self.open_time
    }

    /// The accrued fees on each leg are backed by that leg's real vault
    /// balance.
    pub open spec fn fees_covered(self, curve_vault_balance: int, base_vault_balance: int) -> bool {
        &&& self.protocol_fees_curve + self.fund_fees_curve <= curve_vault_balance
        &&& self.protocol_fees_base + self.fund_fees_base <= base_vault_balance
    }

    /// A fresh pool: active, fee accumulators at zero.
    pub fn initialize(
        frozen_curve_amount: u64,
        virtual_base_offset: u64,
        open_time: u64,
        total_sellable_supply: u64,
        graduation_threshold: u128,
    ) -> (pool: PoolState)
        ensures
            pool == (PoolState {
                frozen_curve_amount,
                virtual_base_offset,
                open_time,
                total_sellable_supply,
                graduation_threshold,
                phase: PoolPhase::Active,
                protocol_fees_curve: 0,
                protocol_fees_base: 0,
                fund_fees_curve: 0,
                fund_fees_base: 0,
            }),
    {
        PoolState {
            frozen_curve_amount,
            virtual_base_offset,
            open_time,
            total_sellable_supply,
            graduation_threshold,
            phase: PoolPhase::Active,
            protocol_fees_curve: 0,
            protocol_fees_base: 0,
            fund_fees_curve: 0,
            fund_fees_base: 0,
        }
    }

    /// The reserves the curve operates on, as a function of the live vault
    /// balances: the frozen amount is subtracted from the curve leg and
    /// the virtual offset is added to the base leg.
    pub open spec fn spec_effective_reserves(
        self,
        curve_vault_balance: int,
        base_vault_balance: int,
    ) -> (int, int) {
        (
            curve_vault_balance - self.frozen_curve_amount,
            base_vault_balance + self.virtual_base_offset,
        )
    }

    /// Computes the effective reserves fresh from the live balances. The
    /// caller must hand in balances satisfying the standing invariants:
    /// the curve vault always holds at least the frozen amount, and the
    /// virtual base reserve fits its width.
    pub fn effective_reserves(&self, curve_vault_balance: u64, base_vault_balance: u64) -> (r: (
        u64,
        u64,
    ))
        requires
            curve_vault_balance >= self.frozen_curve_amount,
            base_vault_balance + self.virtual_base_offset <= u64::MAX,
        ensures
            r.0 == curve_vault_balance - self.frozen_curve_amount,
            r.1 == base_vault_balance + self.virtual_base_offset,
            (r.0 as int, r.1 as int) == self.spec_effective_reserves(
                curve_vault_balance as int,
                base_vault_balance as int,
            ),
    {
        (
            curve_vault_balance - self.frozen_curve_amount,
            base_vault_balance + self.virtual_base_offset,
        )
    }

    /// The vault balances with each leg's owed protocol and fund fees set
    /// aside: what is actually tradable, before the virtual offsets are
    /// applied. Owed fees are never part of the tradable reserve.
    pub open spec fn spec_vault_amounts_without_fees(
        self,
        curve_vault_balance: int,
        base_vault_balance: int,
    ) -> (int, int) {
        (
            curve_vault_balance - (self.protocol_fees_curve + self.fund_fees_curve),
            base_vault_balance - (self.protocol_fees_base + self.fund_fees_base),
        )
    }

    /// Nets each leg's accrued fees out of its live vault balance.
    pub fn vault_amounts_without_fees(
        &self,
        curve_vault_balance: u64,
        base_vault_balance: u64,
    ) -> (r: (u64, u64))
        requires
            self.fees_covered(curve_vault_balance as int, base_vault_balance as int),
        ensures
            (r.0 as int, r.1 as int) == self.spec_vault_amounts_without_fees(
                curve_vault_balance as int,
                base_vault_balance as int,
            ),
    {
        (
            curve_vault_balance - self.protocol_fees_curve - self.fund_fees_curve,
            base_vault_balance - self.protocol_fees_base - self.fund_fees_base,
        )
    }

    /// Adds the two fee sub-portions of one trade to the accumulators of
    /// the input leg. Any overflow aborts without touching either
    /// accumulator: accounted fees are never silently wrapped.
    pub fn record_fees(
        &mut self,
        direction: TradeDirection,
        protocol_fee: u64,
        fund_fee: u64,
    ) -> (r: Result<(), PoolError>)
        ensures
            r is Ok <==> match direction {
                TradeDirection::ZeroForOne => old(self).protocol_fees_curve + protocol_fee
                    <= u64::MAX && old(self).fund_fees_curve + fund_fee <= u64::MAX,
                TradeDirection::OneForZero => old(self).protocol_fees_base + protocol_fee
                    <= u64::MAX && old(self).fund_fees_base + fund_fee <= u64::MAX,
            },
            r is Err ==> *final(self) == *old(self),
            r matches Err(e) ==> e == PoolError::ArithmeticFault,
            r is Ok ==> *final(self) == match direction {
                TradeDirection::ZeroForOne => PoolState {
                    protocol_fees_curve: (old(self).protocol_fees_curve + protocol_fee) as u64,
                    fund_fees_curve: (old(self).fund_fees_curve + fund_fee) as u64,
                    ..*old(self)
                },
                TradeDirection::OneForZero => PoolState {
                    protocol_fees_base: (old(self).protocol_fees_base + protocol_fee) as u64,
                    fund_fees_base: (old(self).fund_fees_base + fund_fee) as u64,
                    ..*old(self)
                },
            },
    {
        match direction {
            TradeDirection::ZeroForOne => {
                let new_protocol = self.protocol_fees_curve.checked_add(protocol_fee);
                let new_fund = self.fund_fees_curve.checked_add(fund_fee);
                match (new_protocol, new_fund) {
                    (Some(p), Some(f)) => {
                        self.protocol_fees_curve = p;
                        self.fund_fees_curve = f;
                        Ok(())
                    },
                    _ => Err(PoolError::ArithmeticFault),
                }
            },
            TradeDirection::OneForZero => {
                let new_protocol = self.protocol_fees_base.checked_add(protocol_fee);
                let new_fund = self.fund_fees_base.checked_add(fund_fee);
                match (new_protocol, new_fund) {
                    (Some(p), Some(f)) => {
                        self.protocol_fees_base = p;
                        self.fund_fees_base = f;
                        Ok(())
                    },
                    _ => Err(PoolError::ArithmeticFault),
                }
            },
        }
    }

    /// Pays out accrued protocol fees, capped at what is actually accrued:
    /// a request beyond the accrued balance is not an error, it is
    /// silently capped. Forbidden outside the `Active` phase.
    pub fn collect_protocol_fees(
        &mut self,
        amount_curve_requested: u64,
        amount_base_requested: u64,
    ) -> (r: Result<(u64, u64), PoolError>)
        ensures
            old(self).phase is Active ==> (r matches Ok(paid) && {
                &&& paid.0 == if amount_curve_requested <= old(self).protocol_fees_curve {
                    amount_curve_requested as int
                } else {
                    old(self).protocol_fees_curve as int
                }
                &&& paid.1 == if amount_base_requested <= old(self).protocol_fees_base {
                    amount_base_requested as int
                } else {
                    old(self).protocol_fees_base as int
                }
                &&& *final(self) == PoolState {
                    protocol_fees_curve: (old(self).protocol_fees_curve - paid.0) as u64,
                    protocol_fees_base: (old(self).protocol_fees_base - paid.1) as u64,
                    ..*old(self)
                }
            }),
            !(old(self).phase is Active) ==> r == Err::<(u64, u64), PoolError>(
                PoolError::GuardViolation,
            ) && *final(self) == *old(self),
    {
        if !matches!(self.phase, PoolPhase::Active) {
            return Err(PoolError::GuardViolation);
        }
        let paid_curve: u64 = if amount_curve_requested <= self.protocol_fees_curve {
            amount_curve_requested
        } else {
            self.protocol_fees_curve
        };
        let paid_base: u64 = if amount_base_requested <= self.protocol_fees_base {
            amount_base_requested
        } else {
            self.protocol_fees_base
        };
        self.protocol_fees_curve = self.protocol_fees_curve - paid_curve;
        self.protocol_fees_base = self.protocol_fees_base - paid_base;
        Ok((paid_curve, paid_base))
    }

    /// Pays out accrued fund fees; same capping policy as the protocol
    /// collection.
    pub fn collect_fund_fees(
        &mut self,
        amount_curve_requested: u64,
        amount_base_requested: u64,
    ) -> (r: Result<(u64, u64), PoolError>)
        ensures
            old(self).phase is Active ==> (r matches Ok(paid) && {
                &&& paid.0 == if amount_curve_requested <= old(self).fund_fees_curve {
                    amount_curve_requested as int
                } else {
                    old(self).fund_fees_curve as int
                }
                &&& paid.1 == if amount_base_requested <= old(self).fund_fees_base {
                    amount_base_requested as int
                } else {
                    old(self).fund_fees_base as int
                }
                &&& *final(self) == PoolState {
                    fund_fees_curve: (old(self).fund_fees_curve - paid.0) as u64,
                    fund_fees_base: (old(self).fund_fees_base - paid.1) as u64,
                    ..*old(self)
                }
            }),
            !(old(self).phase is Active) ==> r == Err::<(u64, u64), PoolError>(
                PoolError::GuardViolation,
            ) && *final(self) == *old(self),
    {
        if !matches!(self.phase, PoolPhase::Active) {
            return Err(PoolError::GuardViolation);
        }
        let paid_curve: u64 = if amount_curve_requested <= self.fund_fees_curve {
            amount_curve_requested
        } else {
            self.fund_fees_curve
        };
        let paid_base: u64 = if amount_base_requested <= self.fund_fees_base {
            amount_base_requested
        } else {
            self.fund_fees_base
        };
        self.fund_fees_curve = self.fund_fees_curve - paid_curve;
        self.fund_fees_base = self.fund_fees_base - paid_base;
        Ok((paid_curve, paid_base))
    }

    /// Locks the pool ahead of the graduation check. Legal only from
    /// `Active`; a pool that is already locked or closed reports a guard
    /// violation ("not approved") and is left untouched.
    pub fn lock(&mut self) -> (r: Result<(), PoolError>)
        ensures
            old(self).phase is Active ==> r is Ok && *final(self) == (PoolState {
                phase: PoolPhase::Locked,
                ..*old(self)
            }),
            !(old(self).phase is Active) ==> (r == Err::<(), PoolError>(PoolError::GuardViolation)
                && *final(self) == *old(self)),
    {
        if matches!(self.phase, PoolPhase::Active) {
            self.phase = PoolPhase::Locked;
            Ok(())
        } else {
            Err(PoolError::GuardViolation)
        }
    }
}

/// Computing the effective reserves is a pure read of the offsets and the
/// live balances: repeated with unchanged balances — even across pool
/// snapshots that differ only in their fee accounting or phase — it always
/// yields the same pair.
pub proof fn lemma_effective_reserves_idempotent(
    pool_before: PoolState,
    pool_after: PoolState,
    curve_vault_balance: int,
    base_vault_balance: int,
)
    requires
        pool_before.frozen_curve_amount == pool_after.frozen_curve_amount,
        pool_before.virtual_base_offset == pool_after.virtual_base_offset,
    ensures
        pool_before.spec_effective_reserves(curve_vault_balance, base_vault_balance)
            == pool_after.spec_effective_reserves(curve_vault_balance, base_vault_balance),
{
}

/// Requesting one unit more than the accrued amount pays out exactly the
/// accrued amount and empties the accumulator: collection is capped, never
/// overdrawn.
pub proof fn lemma_collect_caps_at_accrued(pool: PoolState, requested: u64)
    requires
        pool.phase is Active,
        pool.protocol_fees_curve < u64::MAX,
        requested == pool.protocol_fees_curve + 1,
    ensures
        ({
            let paid = if requested <= pool.protocol_fees_curve {
                requested as int
            } else {
                pool.protocol_fees_curve as int
            };
            &&& paid == pool.protocol_fees_curve
            &&& pool.protocol_fees_curve - paid == 0
        }),
{
}

} // verus!

//! The rolling cumulative-price accumulator consumed by the graduation
//! check. Prices are Q32 fixed-point; each update adds `price * elapsed`
//! to the running sums, and an update at an unchanged or earlier timestamp
//! is a harmless no-op so duplicate triggers within one execution slot are
//! tolerated.

use crate::errors::PoolError;
use vstd::prelude::*;

verus! {

/// The Q32 fixed-point scale used for instantaneous prices.
pub const PRICE_SCALE_X32: u64 = 0x1_0000_0000;

/// Rolling cumulative-price record for one pool.
#[derive(Clone, Copy, Debug, PartialEq, Eq, Structural)]
pub struct PriceObservation {
    /// Timestamp of the last accepted update.
    pub last_update_time: u64,
    /// Cumulative Q32 price of the curve token in base units, weighted by
    /// elapsed time.
    pub cumulative_price_0: u128,
    /// Cumulative Q32 price of the base asset in curve-token units.
    pub cumulative_price_1: u128,
}

impl PriceObservation {
    /// A fresh accumulator with nothing observed yet.
    pub fn new() -> (obs: PriceObservation)
        ensures
            obs == (PriceObservation {
                last_update_time: 0,
                cumulative_price_0: 0,
                cumulative_price_1: 0,
            }),
    {
        PriceObservation { last_update_time: 0, cumulative_price_0: 0, cumulative_price_1: 0 }
    }

    /// Both cumulative sums fit their width after accruing the given
    /// prices over the time elapsed since the last update.
    pub open spec fn update_fits(self, now: u64, price_0: u128, price_1: u128) -> bool {
        &&& self.cumulative_price_0 + price_0 * (now - self.last_update_time) <= u128::MAX
        &&& self.cumulative_price_1 + price_1 * (now - self.last_update_time) <= u128::MAX
    }

    /// The record after folding in one observation: unchanged for a
    /// timestamp at or before the last update, otherwise grown by
    /// `price * elapsed` on both legs.
    pub open spec fn spec_updated(self, now: u64, price_0: u128, price_1: u128) -> PriceObservation {
        if now <= self.last_update_time {
            self
        } else {
            PriceObservation {
                last_update_time: now,
                cumulative_price_0: (self.cumulative_price_0 + price_0 * (now
                    - self.last_update_time)) as u128,
                cumulative_price_1: (self.cumulative_price_1 + price_1 * (now
                    - self.last_update_time)) as u128,
            }
        }
    }

    /// Folds one observation into the accumulator.
    ///
    /// A timestamp at or before the last update leaves the record
    /// untouched and succeeds. A later timestamp accrues
    /// `price * elapsed` into both cumulative sums with checked
    /// arithmetic; overflow aborts without touching the record. The
    /// cumulative sums and the timestamp never decrease.
    pub fn update(&mut self, now: u64, price_0: u128, price_1: u128) -> (r: Result<(), PoolError>)
        ensures
            r is Ok ==> *final(self) == old(self).spec_updated(now, price_0, price_1),
            r is Err <==> (now > old(self).last_update_time && !old(self).update_fits(
                now,
                price_0,
                price_1,
            )),
            now <= old(self).last_update_time ==> (r is Ok && *final(self) == *old(self)),
            now > old(self).last_update_time && old(self).update_fits(now, price_0, price_1)
                ==> (r is Ok && *final(self) == (PriceObservation {
                last_update_time: now,
                cumulative_price_0: (old(self).cumulative_price_0 + price_0 * (now - old(
                    self,
                ).last_update_time)) as u128,
                cumulative_price_1: (old(self).cumulative_price_1 + price_1 * (now - old(
                    self,
                ).last_update_time)) as u128,
            })),
            now > old(self).last_update_time && !old(self).update_fits(now, price_0, price_1)
                ==> (r == Err::<(), PoolError>(PoolError::ArithmeticFault) && *final(self) == *old(
                self,
            )),
            final(self).cumulative_price_0 >= old(self).cumulative_price_0,
            final(self).cumulative_price_1 >= old(self).cumulative_price_1,
            final(self).last_update_time >= old(self).last_update_time,
    {
        if now <= self.last_update_time {
            return Ok(());
        }
        let elapsed: u128 = (now - self.last_update_time) as u128;
        let grown_0: Option<u128> = match price_0.checked_mul(elapsed) {
            Some(delta) => self.cumulative_price_0.checked_add(delta),
            None => None,
        };
        let grown_1: Option<u128> = match price_1.checked_mul(elapsed) {
            Some(delta) => self.cumulative_price_1.checked_add(delta),
            None => None,
        };
        proof {
            if price_0 * elapsed > u128::MAX {
                assert(old(self).cumulative_price_0 + price_0 * elapsed > u128::MAX);
            }
            if price_1 * elapsed > u128::MAX {
                assert(old(self).cumulative_price_1 + price_1 * elapsed > u128::MAX);
            }
        }
        match (grown_0, grown_1) {
            (Some(c0), Some(c1)) => {
                self.cumulative_price_0 = c0;
                self.cumulative_price_1 = c1;
                self.last_update_time = now;
                Ok(())
            },
            _ => Err(PoolError::ArithmeticFault),
        }
    }

    /// Pure read of both cumulative sums.
    pub fn cumulative_snapshot(&self) -> (r: (u128, u128))
        ensures
            r.0 == self.cumulative_price_0,
            r.1 == self.cumulative_price_1,
    {
        (self.cumulative_price_0, self.cumulative_price_1)
    }
}

/// Instantaneous Q32 fixed-point prices of both legs, computed from the
/// effective reserves: the curve token priced in base units and the base
/// asset priced in curve-token units.
pub fn token_price_x32(curve_reserve: u64, base_reserve: u64) -> (r: (u128, u128))
    requires
        curve_reserve >= 1,
        base_reserve >= 1,
    ensures
        r.0 == base_reserve * PRICE_SCALE_X32 / (curve_reserve as int),
        r.1 == curve_reserve * PRICE_SCALE_X32 / (base_reserve as int),
{
    proof {
        assert(base_reserve * PRICE_SCALE_X32 <= u128::MAX && curve_reserve * PRICE_SCALE_X32
            <= u128::MAX) by (nonlinear_arith)
            requires
                base_reserve <= u64::MAX,
                curve_reserve <= u64::MAX,
                PRICE_SCALE_X32 == 0x1_0000_0000u64,
        ;
    }
    let price_0: u128 = (base_reserve as u128) * (PRICE_SCALE_X32 as u128) / (curve_reserve
        as u128);
    let price_1: u128 = (curve_reserve as u128) * (PRICE_SCALE_X32 as u128) / (base_reserve
        as u128);
    (price_0, price_1)
}

} // verus!

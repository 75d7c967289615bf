//! The rejection taxonomy shared by every fallible operation of the pool.

use vstd::prelude::*;

verus! {

/// Why an instruction against the pool was refused. Every failure aborts the
/// whole operation: no partial state change is ever kept.
#[derive(Clone, Copy, Debug, PartialEq, Eq, Structural)]
pub enum PoolError {
    /// A phase, timing or input guard was not met (swap before the open
    /// time, a locked pool, a zero amount, a double lock).
    GuardViolation,
    /// Overflow, underflow, a degenerate reserve, or a curve outcome that
    /// would round a trade down to nothing.
    ArithmeticFault,
    /// The computed output fell below the caller's minimum, or the required
    /// input rose above the caller's maximum.
    SlippageExceeded,
    /// Graduation was attempted before the market-cap threshold was
    /// reached; the caller may retry later.
    MarketCapNotMet,
}

} // verus!

//! Bonding-curve liquidity pool core.
//!
//! A single curve token is minted entirely into a pool vault and traded
//! against a native base asset under a constant-product curve with virtual
//! reserve offsets. Once a market-cap threshold is crossed the pool is
//! locked, its excess curve-token supply is burned and the pool is closed
//! ("graduation"). This crate holds the pricing and accounting engine and
//! the pool lifecycle state machine; asset transfers, account management
//! and oracle access are left to the embedding runtime.

pub mod curve;
pub mod errors;
pub mod fees;
pub mod lifecycle;
pub mod math;
pub mod observation;
pub mod pool;

//! A controller that keeps the scaling factors of two-asset stableswap pools
//! in step with the redemption rate of a liquid-staking derivative token.
//!
//! The library holds the verified core: the pool registry with its admin
//! guard, the validator that reconciles a registered pool against the live
//! pool snapshot, and the conversion from a decimal redemption rate into an
//! integer scaling-factor pair. Storage, message serialization and the
//! oracle and pool queries live outside; the handlers here take their
//! results as plain values.

pub mod contract;
pub mod decimal;
pub mod digits;
pub mod error;
pub mod helpers;
pub mod msg;
pub mod state;

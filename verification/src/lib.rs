//! Core engine of an on-chain creature-collection and battling economy:
//! deterministic stat derivation, pseudo-random seed generation, a turn-based
//! battle simulator with luck-based crits and dodges, and wager settlement
//! arithmetic, all with machine-checked contracts.
//!
//! The host ledger supplies entropy, the clock, and all value movement;
//! this crate holds the decisions and the arithmetic.

pub mod constants;
pub mod errors;
pub mod state;
pub mod seed;
pub mod factory;
pub mod combat;
pub mod settle;
pub mod ops;

//! Pari-mutuel prediction-market ledger: market lifecycle, pool accounting,
//! per-user positions, fee extraction and proportional payouts.

pub mod basic;
mod clock;
pub mod errors;
pub mod extended;
pub mod identity;
pub mod laws;
pub mod market;
pub mod settlement;

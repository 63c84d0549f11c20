//! Liquidity and price data of token-pair pools, gathered from several
//! venues, brought into one model, and analysed.
//!
//! The venues disagree on how they write their data; the modules `sailor`,
//! `dragonswap` and `price_data_client` absorb that. What comes out is the
//! model of `model`. On it work the statistics of `price_analysis`, the
//! analysis of `price_history`, the tick arithmetic of `tick_math` and the
//! joining of pool lists in `pool_service`.
//!
//! Amounts and prices are fixed-point decimals (`decimal`): eight fractional
//! digits, exact, and never a float.

pub mod data_service;
pub mod decimal;
pub mod decimal_text;
pub mod dragonswap;
pub mod error;
pub mod json;
pub mod liquidity_service;
pub mod model;
pub mod pool_service;
pub mod price_analysis;
pub mod price_data_client;
pub mod price_history;
pub mod records;
pub mod requests;
pub mod sailor;
pub mod text;
pub mod tick_math;
pub mod venue;
pub mod wide;

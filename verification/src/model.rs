//! The canonical model: the values every venue's data is brought into.
//!
//! An amount that a venue did not report is absent (`None`); it is never
//! replaced by zero.

use crate::decimal::{parse_small, small_number, Decimal, FixedPrice};
use vstd::prelude::*;

verus! {

/// Decimal precision assumed for a token whose precision cannot be read.
pub const DEFAULT_DECIMALS: u8 = 18;

/// A token's decimal precision as a venue reports it.
#[derive(Debug)]
pub enum DecimalsValue {
    /// Reported as text.
    Text(String),
    /// Reported as a non-negative whole number.
    Number(u64),
    /// Reported as anything else, or not at all.
    Other,
}

/// A token of a pool.
#[derive(Debug)]
pub struct Token {
    pub id: String,
    pub name: String,
    pub symbol: String,
    pub url: String,
    pub decimals: DecimalsValue,
    pub verified: bool,
}

/// The precision that `value` stands for: text or a whole number that gives
/// a precision from 0 to 255 stands for it, and all else for the default.
pub open spec fn normalized_decimals(value: DecimalsValue) -> u8 {
    match value {
        DecimalsValue::Text(text) => match small_number(text@) {
            Some(n) => n,
            None => DEFAULT_DECIMALS,
        },
        DecimalsValue::Number(n) => if n <= 255 {
            n as u8
        } else {
            DEFAULT_DECIMALS
        },
        DecimalsValue::Other => DEFAULT_DECIMALS,
    }
}

impl Token {
    /// The token's decimal precision, 18 where the venue's value is no
    /// precision from 0 to 255.
    pub fn get_decimals(&self) -> (decimals: u8)
        ensures
            decimals == normalized_decimals(self.decimals),
    {
        match &self.decimals {
            DecimalsValue::Text(text) => match parse_small(text.as_str()) {
                Some(n) => n,
                None => DEFAULT_DECIMALS,
            },
            DecimalsValue::Number(n) => if *n <= 255 {
                *n as u8
            } else {
                DEFAULT_DECIMALS
            },
            DecimalsValue::Other => DEFAULT_DECIMALS,
        }
    }
}

/// A pool of some venue, in the form shared by all venues.
#[derive(Debug)]
pub struct UnifiedPool {
    pub id: String,
    pub protocol: String,
    pub token0: Token,
    pub token1: Token,
    pub tvl: Option<Decimal>,
    pub daily_volume: Option<Decimal>,
    pub apr: Option<Decimal>,
    pub fee_tier: String,
}

/// One candle: the prices of one interval, which opened at `tick` seconds.
#[derive(Clone, Copy, Debug)]
pub struct PricePoint {
    pub tick: i64,
    pub open: FixedPrice,
    pub high: FixedPrice,
    pub low: FixedPrice,
    pub close: FixedPrice,
    pub volume: Option<Decimal>,
}

/// Liquidity at one tick. Prices stay in the venue's own notation.
#[derive(Debug)]
pub struct LiquidityTick {
    pub tick_idx: String,
    pub liquidity_net: String,
    pub price0: String,
    pub price1: String,
}

/// Lowest, highest and mean price of a series.
#[derive(Clone, Copy, Debug)]
pub struct PriceRange {
    pub min: FixedPrice,
    pub max: FixedPrice,
    pub average: FixedPrice,
}

/// A percentage counted in units of 10^-6 percent. A ratio of `u` units of
/// 10^-8 is, as a percentage, `u` of these units: a hundred times the ratio.
#[derive(Clone, Copy, Debug, PartialEq, Eq, Structural)]
pub struct Percent {
    pub units: u64,
}

impl Percent {
    /// The ratio `ratio` as a percentage.
    pub fn of_ratio(ratio: Decimal) -> (percent: Percent)
        ensures
            percent.units == ratio.units,
    {
        Percent { units: ratio.units }
    }
}

/// Volatility as a ratio, as a percentage, and as a level.
#[derive(Debug)]
pub struct VolatilityInfo {
    pub value: Decimal,
    pub percentage: Percent,
    pub level: String,
}

/// What is known of the pool behind a price history.
#[derive(Debug)]
pub struct PoolInfo {
    pub pool_id: Option<String>,
    pub tvl: Option<Decimal>,
    pub fee_tier: Option<Decimal>,
}

/// One of the latest candles of a price history.
#[derive(Clone, Copy, Debug)]
pub struct RecentPrice {
    pub price: FixedPrice,
    pub high: FixedPrice,
    pub low: FixedPrice,
    pub timestamp: i64,
}

/// What a liquidity range should be built around.
#[derive(Debug)]
pub struct RecommendationContext {
    pub center_price: FixedPrice,
    pub suggested_range_width_percent: Decimal,
    pub trend: String,
}

/// The analysis of a pair's price history.
#[derive(Debug)]
pub struct PriceHistoryResponse {
    pub pair: String,
    pub price_range: PriceRange,
    pub volatility: VolatilityInfo,
    pub data_points: usize,
    pub interval_minutes: u32,
    pub pool_info: Option<PoolInfo>,
    pub recent_prices: Vec<RecentPrice>,
    pub recommendation_context: RecommendationContext,
}

} // verus!

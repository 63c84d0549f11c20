//! What the service is asked, and what it asks the venues.
//!
//! A request is checked before anything is fetched: a request that cannot be
//! answered is `InvalidInput`.

use crate::error::DataError;
use crate::text::{eq_ignoring_ascii_case, same_ignoring_ascii_case};
use vstd::prelude::*;
use vstd::string::*;

verus! {

/// Interval in minutes of a price chart that names none.
pub const DEFAULT_CHART_INTERVAL: u32 = 15;

/// Interval in minutes of a price history that names none.
pub const DEFAULT_HISTORY_INTERVAL: u32 = 1440;

/// Candles of a price chart or history that names no limit.
pub const DEFAULT_LIMIT: u32 = 200;

/// Candles of a graph of candles that names no limit.
pub const DEFAULT_GRAPH_LIMIT: u32 = 100;

/// Interval in minutes of the window from which a liquidity range is derived.
pub const RANGE_WINDOW_INTERVAL: u32 = 15;

/// Candles of the window from which a liquidity range is derived.
pub const RANGE_WINDOW_LIMIT: u32 = 30;

/// The query of a price chart.
#[derive(Debug)]
pub struct PriceHistoryQuery {
    pub interval: Option<u32>,
    pub limit: Option<u32>,
}

/// A request for the analysis of a pair's price history.
#[derive(Debug)]
pub struct PriceHistoryRequest {
    pub token0: String,
    pub token1: String,
    pub interval: Option<u32>,
    pub limit: Option<u32>,
}

/// The query of a liquidity chart.
#[derive(Debug)]
pub struct LiquidityDataQuery {
    pub pool_address: String,
}

/// The kind of data a graph shows.
#[derive(Clone, Copy, Debug, PartialEq, Eq, Structural)]
pub enum GraphDataType {
    LiquidityDistribution,
    PriceCandles,
}

/// A request for the data of a graph.
#[derive(Debug)]
pub struct GraphDataParams<'a> {
    pub data_type: GraphDataType,
    pub pool_address: Option<&'a str>,
    pub token0_symbol: Option<&'a str>,
    pub token1_symbol: Option<&'a str>,
    pub interval: Option<&'a str>,
    pub limit: Option<u32>,
}

/// What is to be fetched for a graph.
#[derive(Debug)]
pub enum GraphDataPlan {
    /// The liquidity of the pool at this address.
    Liquidity { pool_address: String },
    /// The candles of this pair.
    Candles { token0: String, token1: String, interval: String, limit: u32 },
}

/// `value`, or `default` where there is none.
pub open spec fn or_default(value: Option<u32>, default: u32) -> u32 {
    match value {
        Some(v) => v,
        None => default,
    }
}

/// Whether a pair and a limit can be asked for: both tokens are named, they
/// differ by more than the case of their letters, and the limit is at least
/// one candle.
pub open spec fn is_valid_request(token0: Seq<char>, token1: Seq<char>, limit: u32) -> bool {
    &&& token0.len() > 0
    &&& token1.len() > 0
    &&& !same_ignoring_ascii_case(token0, token1)
    &&& limit > 0
}

/// A pair of one token with itself is never valid, however its letters are
/// cased and whatever the limit.
pub proof fn lemma_same_token_is_invalid(token: Seq<char>, limit: u32)
    ensures
        !is_valid_request(token, token, limit),
{
}

/// Checks a pair and a limit before anything is fetched.
pub fn validate_request(token0: &str, token1: &str, limit: u32) -> (result: Result<(), DataError>)
    ensures
        result is Ok <==> is_valid_request(token0@, token1@, limit),
        result matches Err(e) ==> e is InvalidInput,
{
    if token0.is_empty() || token1.is_empty() {
        return Err(DataError::InvalidInput("both token0 and token1 are required".to_owned()));
    }
    if eq_ignoring_ascii_case(token0, token1) {
        return Err(DataError::InvalidInput("token0 and token1 cannot be the same".to_owned()));
    }
    if limit == 0 {
        return Err(DataError::InvalidInput("limit must be at least 1".to_owned()));
    }
    Ok(())
}

/// Checks a request for a price history and fills in what it leaves open:
/// the interval is a day and the limit 200 candles unless it says otherwise.
pub fn check_price_history_request(request: &PriceHistoryRequest) -> (result: Result<
    (u32, u32),
    DataError,
>)
    ensures
        result is Ok <==> is_valid_request(
            request.token0@,
            request.token1@,
            or_default(request.limit, DEFAULT_LIMIT),
        ),
        result matches Ok(plan) ==> plan.0 == or_default(
            request.interval,
            DEFAULT_HISTORY_INTERVAL,
        ) && plan.1 == or_default(request.limit, DEFAULT_LIMIT),
        result matches Err(e) ==> e is InvalidInput,
{
    let interval = match request.interval {
        Some(v) => v,
        None => DEFAULT_HISTORY_INTERVAL,
    };
    let limit = match request.limit {
        Some(v) => v,
        None => DEFAULT_LIMIT,
    };
    match validate_request(request.token0.as_str(), request.token1.as_str(), limit) {
        Ok(()) => Ok((interval, limit)),
        Err(e) => Err(e),
    }
}

/// The interval and limit of a price chart: 15 minutes and 200 candles
/// unless the query says otherwise.
pub fn chart_window(query: &PriceHistoryQuery) -> (window: (u32, u32))
    ensures
        window.0 == or_default(query.interval, DEFAULT_CHART_INTERVAL),
        window.1 == or_default(query.limit, DEFAULT_LIMIT),
{
    let interval = match query.interval {
        Some(v) => v,
        None => DEFAULT_CHART_INTERVAL,
    };
    let limit = match query.limit {
        Some(v) => v,
        None => DEFAULT_LIMIT,
    };
    (interval, limit)
}

/// Whether a request for a graph names what its kind of data needs: a pool
/// for liquidity, both tokens for candles.
pub open spec fn is_complete(params: GraphDataParams) -> bool {
    match params.data_type {
        GraphDataType::LiquidityDistribution => params.pool_address is Some,
        GraphDataType::PriceCandles => params.token0_symbol is Some && params.token1_symbol
            is Some,
    }
}

/// Whether `plan` is what `params` asks for.
pub open spec fn is_plan_of(params: GraphDataParams, plan: GraphDataPlan) -> bool {
    match params.data_type {
        GraphDataType::LiquidityDistribution => plan matches GraphDataPlan::Liquidity {
            pool_address,
        } && pool_address@ == params.pool_address.unwrap()@,
        GraphDataType::PriceCandles => {
            &&& plan matches GraphDataPlan::Candles { token0, token1, interval, limit }
            &&& token0@ == params.token0_symbol.unwrap()@
            &&& token1@ == params.token1_symbol.unwrap()@
            &&& interval@ == match params.interval {
                Some(text) => text@,
                None => "15"@,
            }
            &&& limit == or_default(params.limit, DEFAULT_GRAPH_LIMIT)
        },
    }
}

/// Decides what to fetch for a graph. A request that does not name what its
/// kind of data needs is `InvalidInput`.
pub fn plan_graph_data(params: GraphDataParams<'_>) -> (result: Result<GraphDataPlan, DataError>)
    ensures
        result is Ok <==> is_complete(params),
        result matches Ok(plan) ==> is_plan_of(params, plan),
        result matches Err(e) ==> e is InvalidInput,
{
    match params.data_type {
        GraphDataType::LiquidityDistribution => match params.pool_address {
            Some(address) => Ok(GraphDataPlan::Liquidity { pool_address: address.to_owned() }),
            None => Err(
                DataError::InvalidInput(
                    "pool_address is required for LiquidityDistribution".to_owned(),
                ),
            ),
        },
        GraphDataType::PriceCandles => {
            let token0 = match params.token0_symbol {
                Some(symbol) => symbol,
                None => {
                    return Err(
                        DataError::InvalidInput(
                            "token0_symbol is required for PriceCandles".to_owned(),
                        ),
                    );
                },
            };
            let token1 = match params.token1_symbol {
                Some(symbol) => symbol,
                None => {
                    return Err(
                        DataError::InvalidInput(
                            "token1_symbol is required for PriceCandles".to_owned(),
                        ),
                    );
                },
            };
            let interval = match params.interval {
                Some(text) => text,
                None => "15",
            };
            let limit = match params.limit {
                Some(v) => v,
                None => DEFAULT_GRAPH_LIMIT,
            };
            Ok(
                GraphDataPlan::Candles {
                    token0: token0.to_owned(),
                    token1: token1.to_owned(),
                    interval: interval.to_owned(),
                    limit,
                },
            )
        },
    }
}

} // verus!

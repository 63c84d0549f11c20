//! Analysis of a pair's price history: range, volatility, trend and a
//! recommendation, assembled from a series of candles.

use crate::decimal::{Decimal, FixedPrice};
use crate::error::DataError;
use crate::model::{
    Percent, PoolInfo, PriceHistoryResponse, PricePoint, PriceRange, RecentPrice, RecommendationContext,
    VolatilityInfo,
};
use crate::price_data_client::PriceDataClient;
use crate::price_analysis::{
    calculate_suggested_range_width, calculate_volatility, determine_trend,
    determine_volatility_level, is_volatility, level_label, mean_price, range_width_units, sum,
    trend_label,
    units_of,
};
use vstd::prelude::*;
use vstd::string::*;

verus! {

/// How many of the latest candles an analysis reports.
pub const RECENT_PRICES: usize = 10;

pub open spec fn closes(points: Seq<PricePoint>) -> Seq<FixedPrice> {
    points.map_values(|p: PricePoint| p.close)
}

pub open spec fn lows(points: Seq<PricePoint>) -> Seq<nat> {
    points.map_values(|p: PricePoint| p.low@)
}

pub open spec fn highs(points: Seq<PricePoint>) -> Seq<nat> {
    points.map_values(|p: PricePoint| p.high@)
}

/// The least member of `s`; 0 for the empty sequence.
pub open spec fn lowest(s: Seq<nat>) -> nat
    decreases s.len(),
{
    if s.len() == 0 {
        0
    } else if s.len() == 1 {
        s[0]
    } else if s.last() < lowest(s.drop_last()) {
        s.last()
    } else {
        lowest(s.drop_last())
    }
}

/// The greatest member of `s`; 0 for the empty sequence.
pub open spec fn highest(s: Seq<nat>) -> nat
    decreases s.len(),
{
    if s.len() == 0 {
        0
    } else if s.len() == 1 {
        s[0]
    } else if s.last() > highest(s.drop_last()) {
        s.last()
    } else {
        highest(s.drop_last())
    }
}

/// The candle as it is reported among the latest.
pub open spec fn as_recent(p: PricePoint) -> RecentPrice {
    RecentPrice { price: p.close, high: p.high, low: p.low, timestamp: p.tick }
}

/// The latest candles, newest first, at most [`RECENT_PRICES`] of them.
pub open spec fn recent_of(points: Seq<PricePoint>) -> Seq<RecentPrice> {
    Seq::new(
        if points.len() < RECENT_PRICES {
            points.len()
        } else {
            RECENT_PRICES as nat
        },
        |i: int| as_recent(points[points.len() - 1 - i]),
    )
}

/// The lowest member is a member and no member is lower; likewise the highest.
pub proof fn lemma_extremes(s: Seq<nat>)
    requires
        s.len() > 0,
    ensures
        s.contains(lowest(s)),
        s.contains(highest(s)),
        forall|i: int| 0 <= i < s.len() ==> lowest(s) <= #[trigger] s[i] <= highest(s),
    decreases s.len(),
{
    if s.len() == 1 {
        assert(s[0] == lowest(s));
        assert(s[0] == highest(s));
    } else {
        let head = s.drop_last();
        lemma_extremes(head);
        let lo = choose|i: int| 0 <= i < head.len() && head[i] == lowest(head);
        let hi = choose|i: int| 0 <= i < head.len() && head[i] == highest(head);
        assert(s[lo] == head[lo] && s[hi] == head[hi]);
        assert(s[s.len() - 1] == s.last());
        assert forall|i: int| 0 <= i < s.len() implies lowest(s) <= #[trigger] s[i] <= highest(
            s,
        ) by {
            if i < head.len() {
                assert(head[i] == s[i]);
            }
        }
    }
}

/// The lowest low and the highest high of a window of candles; both zero
/// for an empty window.
pub fn calculate_price_range_from_kline(data: &[PricePoint]) -> (range: (FixedPrice, FixedPrice))
    ensures
        range.0@ == lowest(lows(data@)),
        range.1@ == highest(highs(data@)),
{
    if data.len() == 0 {
        return (FixedPrice::zero(), FixedPrice::zero());
    }
    let mut min_price = data[0].low;
    let mut max_price = data[0].high;
    let mut i: usize = 1;
    while i < data.len()
        invariant
            1 <= i <= data.len(),
            min_price@ == lowest(lows(data@).take(i as int)),
            max_price@ == highest(highs(data@).take(i as int)),
        decreases data.len() - i,
    {
        proof {
            assert(lows(data@).take(i + 1).drop_last() =~= lows(data@).take(i as int));
            assert(highs(data@).take(i + 1).drop_last() =~= highs(data@).take(i as int));
        }
        if data[i].low.units() < min_price.units() {
            min_price = data[i].low;
        }
        if data[i].high.units() > max_price.units() {
            max_price = data[i].high;
        }
        i = i + 1;
    }
    proof {
        assert(lows(data@).take(data.len() as int) =~= lows(data@));
        assert(highs(data@).take(data.len() as int) =~= highs(data@));
    }
    (min_price, max_price)
}

/// The analysis of `points` for the pair `token0`/`token1` at `interval` minutes.
pub open spec fn is_analysis(
    token0: Seq<char>,
    token1: Seq<char>,
    interval: u32,
    points: Seq<PricePoint>,
    r: PriceHistoryResponse,
) -> bool {
    let series = units_of(closes(points));
    &&& r.pair@ == token0 + "/"@ + token1
    &&& r.price_range.min@ == lowest(lows(points))
    &&& r.price_range.max@ == highest(highs(points))
    &&& r.price_range.average@ == sum(series) / points.len()
    &&& is_volatility(series, r.volatility.value.units as nat)
    &&& r.volatility.percentage == (Percent { units: r.volatility.value.units })
    &&& r.volatility.level@ == level_label(r.volatility.value.units as nat)
    &&& r.data_points == points.len()
    &&& r.interval_minutes == interval
    &&& r.pool_info == Some(PoolInfo { pool_id: None, tvl: None, fee_tier: None })
    &&& r.recent_prices@ == recent_of(points)
    &&& r.recommendation_context.center_price@ == sum(series) / points.len()
    &&& r.recommendation_context.suggested_range_width_percent.units == range_width_units(
        r.volatility.value.units as nat,
    )
    &&& r.recommendation_context.trend@ == trend_label(series)
}

/// The closing prices of `data`, in order.
fn closing_prices(data: &Vec<PricePoint>) -> (prices: Vec<FixedPrice>)
    ensures
        prices@ == closes(data@),
{
    let mut prices: Vec<FixedPrice> = Vec::new();
    let mut i: usize = 0;
    while i < data.len()
        invariant
            i <= data.len(),
            prices@ == closes(data@).take(i as int),
        decreases data.len() - i,
    {
        prices.push(data[i].close);
        proof {
            assert(prices@ =~= closes(data@).take(i + 1));
        }
        i = i + 1;
    }
    proof {
        assert(closes(data@).take(data.len() as int) =~= closes(data@));
    }
    prices
}

/// The latest candles of `data`, newest first.
fn latest_prices(data: &Vec<PricePoint>) -> (recent: Vec<RecentPrice>)
    ensures
        recent@ == recent_of(data@),
{
    let n = data.len();
    let count: usize = if n < RECENT_PRICES {
        n
    } else {
        RECENT_PRICES
    };
    let mut recent: Vec<RecentPrice> = Vec::new();
    let mut i: usize = 0;
    while i < count
        invariant
            i <= count <= n,
            n == data.len(),
            recent@ == recent_of(data@).take(i as int),
            recent_of(data@).len() == count,
        decreases count - i,
    {
        let p = &data[n - 1 - i];
        recent.push(RecentPrice { price: p.close, high: p.high, low: p.low, timestamp: p.tick });
        proof {
            assert(recent@ =~= recent_of(data@).take(i + 1));
        }
        i = i + 1;
    }
    proof {
        assert(recent_of(data@).take(count as int) =~= recent_of(data@));
    }
    recent
}

/// The service that analyses price histories, on the candles of a feed.
#[derive(Debug)]
pub struct PriceHistoryService {
    pub price_client: PriceDataClient,
}

impl PriceHistoryService {
    /// The service on the candles of `price_client`.
    pub fn new(price_client: PriceDataClient) -> (service: PriceHistoryService)
        ensures
            service.price_client == price_client,
    {
        PriceHistoryService { price_client }
    }

    /// Analyses the candles of a pair.
    ///
    /// An empty series cannot be analysed and gives `NoDataAvailable`. Every
    /// other series is analysed.
    pub fn analyze_price_data(
        &self,
        token0: &str,
        token1: &str,
        interval: u32,
        data: Vec<PricePoint>,
    ) -> (result: Result<PriceHistoryResponse, DataError>)
        ensures
            data.len() == 0 <==> result matches Err(DataError::NoDataAvailable(_)),
            data.len() > 0 <==> result is Ok,
            result matches Ok(r) ==> is_analysis(token0@, token1@, interval, data@, r),
    {
        if data.len() == 0 {
            return Err(DataError::NoDataAvailable("no price data for the pair".to_owned()));
        }
        let prices = closing_prices(&data);
        let (min_price, max_price) = calculate_price_range_from_kline(data.as_slice());
        let avg_price = mean_price(prices.as_slice());
        let volatility = calculate_volatility(prices.as_slice());
        let volatility_level = determine_volatility_level(volatility);
        let recent_prices = latest_prices(&data);
        let recommendation_context = RecommendationContext {
            center_price: avg_price,
            suggested_range_width_percent: calculate_suggested_range_width(volatility),
            trend: determine_trend(prices.as_slice()),
        };
        let pair = token0.to_owned().concat("/").concat(token1);
        Ok(
            PriceHistoryResponse {
                pair,
                price_range: PriceRange { min: min_price, max: max_price, average: avg_price },
                volatility: VolatilityInfo {
                    value: volatility,
                    percentage: Percent::of_ratio(volatility),
                    level: volatility_level,
                },
                data_points: data.len(),
                interval_minutes: interval,
                pool_info: Some(PoolInfo { pool_id: None, tvl: None, fee_tier: None }),
                recent_prices,
                recommendation_context,
            },
        )
    }
}

} // verus!

use liquidity_gateway::decimal::{FixedPrice, SCALE};
use liquidity_gateway::error::DataError;
use liquidity_gateway::liquidity_service::{get_optimal_liquidity_range, optimal_price_bounds};
use liquidity_gateway::model::PricePoint;
use liquidity_gateway::price_data_client::PriceDataClient;
use liquidity_gateway::price_history::{calculate_price_range_from_kline, PriceHistoryService};

fn analyze_price_data(
    token0: &str,
    token1: &str,
    interval: u32,
    data: Vec<PricePoint>,
) -> Result<liquidity_gateway::model::PriceHistoryResponse, DataError> {
    PriceHistoryService::new(PriceDataClient::new(String::new()))
        .analyze_price_data(token0, token1, interval, data)
}

fn price(text: &str) -> FixedPrice {
    FixedPrice::parse(text).unwrap()
}

fn candle(tick: i64, low: &str, high: &str, close: &str) -> PricePoint {
    PricePoint {
        tick,
        open: price(close),
        high: price(high),
        low: price(low),
        close: price(close),
        volume: None,
    }
}

#[test]
fn an_empty_series_is_no_data() {
    let result = analyze_price_data("SEI", "USDC", 15, Vec::new());
    assert!(matches!(result, Err(DataError::NoDataAvailable(_))));
}

#[test]
fn a_long_series_is_analysed() {
    let mut data = vec![candle(0, "100000000", "100000000", "100000000"); 2500];
    data.extend(vec![candle(1, "0", "0", "0"); 2500]);
    let r = analyze_price_data("SEI", "USDC", 15, data).unwrap();
    assert_eq!(r.data_points, 5000);
    assert_eq!(r.price_range.min.units(), 0);
    assert_eq!(r.price_range.max.units(), 10_000_000_000_000_000);
    assert_eq!(r.price_range.average.units(), 5_000_000_000_000_000);
    // half at the bound, half at zero: the deviation equals the mean
    assert_eq!(r.volatility.value.units, SCALE);
    assert_eq!(r.volatility.percentage.units, 100_000_000);
    assert_eq!(r.volatility.level, "HIGH");
    assert_eq!(r.recommendation_context.trend, "DOWNWARD");
    assert_eq!(r.recent_prices.len(), 10);
}

#[test]
fn analysis_of_three_candles() {
    let data = vec![
        candle(100, "0.9", "1.1", "1"),
        candle(200, "1.8", "2.5", "2"),
        candle(300, "2.7", "3.3", "3"),
    ];
    let r = analyze_price_data("SEI", "USDC", 15, data).unwrap();
    assert_eq!(r.pair, "SEI/USDC");
    assert_eq!(r.price_range.min.units(), 90_000_000);
    assert_eq!(r.price_range.max.units(), 330_000_000);
    assert_eq!(r.price_range.average.units(), 2 * SCALE);
    assert_eq!(r.volatility.value.units, 40_824_829);
    // 40.824829 percent, in units of a millionth of a percent
    assert_eq!(r.volatility.percentage.units, 40_824_829);
    assert_eq!(r.volatility.level, "HIGH");
    assert_eq!(r.data_points, 3);
    assert_eq!(r.interval_minutes, 15);
    let pool = r.pool_info.unwrap();
    assert!(pool.pool_id.is_none() && pool.tvl.is_none() && pool.fee_tier.is_none());
    assert_eq!(r.recommendation_context.center_price.units(), 2 * SCALE);
    assert_eq!(r.recommendation_context.suggested_range_width_percent.units, 30 * SCALE);
    assert_eq!(r.recommendation_context.trend, "UPWARD");
    let times: Vec<i64> = r.recent_prices.iter().map(|p| p.timestamp).collect();
    assert_eq!(times, vec![300, 200, 100]);
    assert_eq!(r.recent_prices[0].price.units(), 3 * SCALE);
    assert_eq!(r.recent_prices[0].high.units(), 330_000_000);
    assert_eq!(r.recent_prices[0].low.units(), 270_000_000);
}

#[test]
fn only_the_ten_latest_candles_are_reported() {
    let data: Vec<PricePoint> = (0..25).map(|k| candle(k, "1", "1", "1")).collect();
    let r = analyze_price_data("a", "b", 60, data).unwrap();
    let times: Vec<i64> = r.recent_prices.iter().map(|p| p.timestamp).collect();
    assert_eq!(times, vec![24, 23, 22, 21, 20, 19, 18, 17, 16, 15]);
    assert_eq!(r.volatility.level, "LOW");
    assert_eq!(r.recommendation_context.suggested_range_width_percent.units, 5 * SCALE);
    assert_eq!(r.recommendation_context.trend, "SIDEWAYS");
}

#[test]
fn a_single_candle_is_analysed() {
    let r = analyze_price_data("a", "b", 1, vec![candle(9, "4", "6", "5")]).unwrap();
    assert_eq!(r.volatility.value.units, 0);
    assert_eq!(r.recommendation_context.trend, "SIDEWAYS");
    assert_eq!(r.price_range.average.units(), 5 * SCALE);
    assert_eq!(r.recent_prices.len(), 1);
}

#[test]
fn price_range_of_a_window() {
    let data = vec![candle(1, "5", "6", "5"), candle(2, "3", "9", "5"), candle(3, "4", "7", "5")];
    let (low, high) = calculate_price_range_from_kline(&data);
    assert_eq!(low.units(), 3 * SCALE);
    assert_eq!(high.units(), 9 * SCALE);
    let (low, high) = calculate_price_range_from_kline(&[]);
    assert_eq!((low.units(), high.units()), (0, 0));
}

#[test]
fn price_bounds_need_prices_above_zero() {
    let data = vec![candle(1, "5", "6", "5"), candle(2, "3", "9", "5")];
    let (low, high) = optimal_price_bounds(&data).unwrap();
    assert_eq!((low.units(), high.units()), (3 * SCALE, 9 * SCALE));
    assert!(matches!(optimal_price_bounds(&[]), Err(DataError::NoDataAvailable(_))));
    let data = vec![candle(1, "0", "6", "5")];
    assert!(matches!(optimal_price_bounds(&data), Err(DataError::InvalidInput(_))));
    let data = vec![candle(1, "0", "0", "0")];
    assert!(matches!(optimal_price_bounds(&data), Err(DataError::InvalidInput(_))));
}

#[test]
fn liquidity_range_is_aligned() {
    assert_eq!(get_optimal_liquidity_range(-91, 91, 60).unwrap(), (-120, 120));
    assert_eq!(get_optimal_liquidity_range(-29, 29, 60).unwrap(), (0, 0));
    assert_eq!(get_optimal_liquidity_range(6931, 6932, 1).unwrap(), (6931, 6932));
    assert!(matches!(get_optimal_liquidity_range(1, 2, 0), Err(DataError::InvalidInput(_))));
    assert!(matches!(get_optimal_liquidity_range(1, i32::MAX, 2), Err(DataError::InvalidInput(_))));
}

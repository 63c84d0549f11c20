use liquidity_gateway::decimal::{Decimal, FixedPrice, SCALE};
use liquidity_gateway::model::DecimalsValue;
use liquidity_gateway::sailor::{
    estimate_apr, is_above_floor, ActiveLiquidity, ActiveLiquidityResponse, KlineData,
    KlineResponse, SailorDataProvider, SailorPoolStats, SailorTimePeriodStats, SailorTokenInfo,
    SailorTotalLiquidity,
};

fn amount(text: &str) -> Option<Decimal> {
    Some(Decimal::parse(text).unwrap())
}

fn period(volume: Option<Decimal>) -> SailorTimePeriodStats {
    SailorTimePeriodStats { volume, max_price: None, min_price: None, price: None }
}

fn token(symbol: &str) -> SailorTokenInfo {
    SailorTokenInfo {
        id: format!("0x{}", symbol),
        symbol: symbol.to_string(),
        name: format!("{} token", symbol),
        decimals: "6".to_string(),
        price: None,
        url: format!("https://tokens/{}", symbol),
    }
}

fn pool(id: &str, fee_tier: &str, volume: Option<Decimal>, tvl: Option<Decimal>, boost: Option<Decimal>) -> SailorPoolStats {
    SailorPoolStats {
        chain: "sei".to_string(),
        fee_tier: fee_tier.to_string(),
        id: id.to_string(),
        protocol_version: "v3".to_string(),
        total_liquidity: SailorTotalLiquidity { value: "1".to_string() },
        tx_count: "10".to_string(),
        day: period(volume),
        week: period(None),
        month: period(None),
        boost_apr: boost,
        tvl,
        token0: token("SEI"),
        token1: token("USDC"),
    }
}

#[test]
fn a_sailor_pool_in_canonical_form() {
    let unified = SailorDataProvider::transform_sailor_pool(pool("p1", "3000", amount("10000"), amount("50000"), amount("0.05")));
    assert_eq!(unified.id, "p1");
    assert_eq!(unified.protocol, "Sailor");
    assert_eq!(unified.token0.id, "0xSEI");
    assert_eq!(unified.token0.symbol, "SEI");
    assert_eq!(unified.token0.name, "SEI token");
    assert_eq!(unified.token0.url, "https://tokens/SEI");
    assert!(matches!(&unified.token0.decimals, DecimalsValue::Text(t) if t == "6"));
    assert_eq!(unified.token0.get_decimals(), 6);
    assert!(!unified.token0.verified);
    assert_eq!(unified.token1.symbol, "USDC");
    assert_eq!(unified.tvl, amount("50000"));
    assert_eq!(unified.daily_volume, amount("10000"));
    // 10000 * 0.3 / 50000 * 365 + 0.05 * 100 = 21.9 + 5
    assert_eq!(unified.apr, amount("26.9"));
    assert_eq!(unified.fee_tier, "0.3");
}

#[test]
fn absent_amounts_stay_absent() {
    let unified = SailorDataProvider::transform_sailor_pool(pool("p", "500", None, None, None));
    assert_eq!(unified.tvl, None);
    assert_eq!(unified.daily_volume, None);
    assert_eq!(unified.apr, amount("0"));
    assert_eq!(unified.fee_tier, "0.05");
}

#[test]
fn without_value_locked_the_yield_is_the_boost() {
    let unified = SailorDataProvider::transform_sailor_pool(pool("p", "3000", amount("10000"), amount("0"), amount("0.07")));
    assert_eq!(unified.apr, amount("7"));
    let unified = SailorDataProvider::transform_sailor_pool(pool("p", "3000", amount("10000"), None, amount("0.07")));
    assert_eq!(unified.apr, amount("7"));
}

#[test]
fn a_fee_tier_that_is_no_number() {
    let unified = SailorDataProvider::transform_sailor_pool(pool("p", "dynamic", amount("10000"), amount("50000"), None));
    assert_eq!(unified.fee_tier, "N/A");
    assert_eq!(unified.apr, amount("0"));
    let unified = SailorDataProvider::transform_sailor_pool(pool("p", "0", amount("10000"), amount("50000"), None));
    assert_eq!(unified.fee_tier, "N/A");
}

#[test]
fn the_yield_is_rounded_down_once() {
    let d = |units| Decimal::from_units(units);
    // 1 * 0.00000001 / 3 * 365, in units: 1e8 * 1 * 365 / 3e8 = 121.67: 121
    assert_eq!(estimate_apr(d(SCALE), d(1), d(3 * SCALE), d(0)), Some(d(121)));
    assert_eq!(estimate_apr(d(7), d(11), d(2), d(3)), Some(d(7 * 11 * 365 / 2 + 300)));
}

#[test]
fn a_yield_too_large_is_absent() {
    let d = |units| Decimal::from_units(units);
    assert_eq!(estimate_apr(d(u64::MAX), d(SCALE), d(1), d(0)), None);
    assert_eq!(estimate_apr(d(0), d(0), d(0), d(u64::MAX)), None);
    assert_eq!(estimate_apr(d(0), d(0), d(0), d(u64::MAX / 100)), Some(d(u64::MAX / 100 * 100)));
}

#[test]
fn the_floor_is_open_and_absent_is_below() {
    assert!(!is_above_floor(&None));
    assert!(!is_above_floor(&amount("0")));
    assert!(!is_above_floor(&amount("1000")));
    assert!(is_above_floor(&amount("1000.00000001")));
    assert!(is_above_floor(&amount("5000")));
}

#[test]
fn only_active_pools_are_listed() {
    let pools = vec![
        pool("active", "3000", amount("5000"), amount("5000"), None),
        pool("no tvl", "3000", amount("5000"), None, None),
        pool("no volume", "3000", None, amount("5000"), None),
        pool("small tvl", "3000", amount("5000"), amount("1000"), None),
        pool("small volume", "3000", amount("999.99"), amount("5000"), None),
        pool("also active", "500", amount("1000.01"), amount("1000.01"), None),
    ];
    let listed = SailorDataProvider::get_pool_list(pools);
    let ids: Vec<&str> = listed.iter().map(|p| p.id.as_str()).collect();
    assert_eq!(ids, vec!["active", "also active"]);
    assert_eq!(listed[1].fee_tier, "0.05");
    assert!(SailorDataProvider::get_pool_list(Vec::new()).is_empty());
}

#[test]
fn sailor_candles() {
    let p = |text: &str| FixedPrice::parse(text).unwrap();
    let response = KlineResponse {
        success: true,
        data: vec![
            KlineData { time: 10, open: p("1"), high: p("2"), low: p("0.5"), close: p("1.5"), volume: Decimal::from_units(7) },
            KlineData { time: 20, open: p("3"), high: p("4"), low: p("2.5"), close: p("3.5"), volume: Decimal::from_units(8) },
        ],
    };
    let points = SailorDataProvider::get_price_data(&response);
    assert_eq!(points.len(), 2);
    assert_eq!(points[1].tick, 20);
    assert_eq!(points[1].open.units(), 3 * SCALE);
    assert_eq!(points[1].high.units(), 4 * SCALE);
    assert_eq!(points[1].low.units(), 250_000_000);
    assert_eq!(points[1].close.units(), 350_000_000);
    assert_eq!(points[1].volume, Some(Decimal::from_units(8)));
}

#[test]
fn sailor_liquidity_in_canonical_form() {
    let response = ActiveLiquidityResponse {
        status: "ok".to_string(),
        active_liquidity: vec![
            ActiveLiquidity { tick: "-60".to_string(), price: "0.250000000123".to_string(), liquidity: "1000".to_string() },
            ActiveLiquidity { tick: "60".to_string(), price: "4".to_string(), liquidity: "-1000".to_string() },
        ],
        data: Vec::new(),
    };
    let canonical = SailorDataProvider::get_liquidity_data(response);
    assert_eq!(canonical.status, "ok");
    assert!(canonical.active_liquidity.is_empty());
    assert_eq!(canonical.data.len(), 2);
    assert_eq!(canonical.data[0].tick_idx, "-60");
    assert_eq!(canonical.data[0].liquidity_net, "1000");
    assert_eq!(canonical.data[0].price0, "0.250000000123");
    assert_eq!(canonical.data[0].price1, "0");
    assert_eq!(canonical.data[1].tick_idx, "60");
    assert_eq!(canonical.data[1].price0, "4");
}

#[test]
fn where_sailor_is_asked() {
    let sailor = SailorDataProvider::new("https://sailor".to_string());
    assert_eq!(
        sailor.price_data_url("SEI", "Usdc", 15, 30),
        "https://sailor/sailor_kline_api/smart_kline/sei/usdc?interval=15&limit=30"
    );
    assert_eq!(
        sailor.liquidity_data_url("0xPool"),
        "https://sailor/sailor_poolapi/getActiveLiquidity?address=0xPool"
    );
    assert_eq!(sailor.pool_list_url(), "https://sailor/sailor_poolapi/getPoolList");
    assert_eq!(sailor.token_list_url(), "https://sailor/sailor_poolapi/getTokenListV2");
    assert_eq!(
        sailor.price_list_url(&vec!["0xa".to_string(), "0xb".to_string(), "0xc".to_string()]),
        "https://sailor/sailor_poolapi/getPriceList?tokens=0xa,0xb,0xc"
    );
    assert_eq!(
        sailor.price_list_url(&vec!["0xa".to_string()]),
        "https://sailor/sailor_poolapi/getPriceList?tokens=0xa"
    );
    assert_eq!(
        sailor.price_list_url(&Vec::new()),
        "https://sailor/sailor_poolapi/getPriceList?tokens="
    );
}

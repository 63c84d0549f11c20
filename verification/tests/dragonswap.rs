use liquidity_gateway::decimal::Decimal;
use liquidity_gateway::dragonswap::{
    DragonSwapDataProvider, DragonSwapPool, DragonSwapResponse, DragonSwapTick,
    DragonSwapTicksData, DragonSwapTicksResponse, DragonSwapToken,
};
use liquidity_gateway::model::DecimalsValue;

fn amount(text: &str) -> Option<Decimal> {
    Some(Decimal::parse(text).unwrap())
}

fn token(address: &str, symbol: &str, decimals: i64) -> DragonSwapToken {
    DragonSwapToken {
        address: address.to_string(),
        name: format!("{} token", symbol),
        symbol: symbol.to_string(),
        usd_price: None,
        decimals,
    }
}

fn pool(address: &str, token0: &str, token1: &str, kind: &str, volume: Option<Decimal>) -> DragonSwapPool {
    DragonSwapPool {
        pool_address: address.to_string(),
        token0_address: token0.to_string(),
        token1_address: token1.to_string(),
        daily_volume: volume,
        liquidity: amount("123.5"),
        pool_type: kind.to_string(),
        fee_tier: amount("0.3"),
        apr: amount("12"),
    }
}

fn directory() -> Vec<DragonSwapToken> {
    vec![token("0xAa", "SEI", 18), token("0xBb", "USDC", 6), token("0xAa", "WSEI", -1)]
}

#[test]
fn the_later_entry_of_an_address_stands() {
    let map = DragonSwapDataProvider::token_directory(directory());
    assert_eq!(map.len(), 2);
    assert_eq!(map.get("0xAa").unwrap().symbol, "WSEI");
    assert_eq!(map.get("0xBb").unwrap().symbol, "USDC");
    assert!(map.get("0xaa").is_none());
    assert!(DragonSwapDataProvider::token_directory(Vec::new()).is_empty());
}

#[test]
fn a_dragonswap_pool_in_canonical_form() {
    let tokens = DragonSwapDataProvider::token_directory(directory());
    let unified = DragonSwapDataProvider::transform_dragonswap_pool(pool("p", "0xBb", "0xAa", "V3_POOL", amount("5")), &tokens).unwrap();
    assert_eq!(unified.id, "p");
    assert_eq!(unified.protocol, "DragonSwap");
    assert_eq!(unified.token0.id, "0xBb");
    assert_eq!(unified.token0.symbol, "USDC");
    assert_eq!(unified.token0.name, "USDC token");
    assert_eq!(unified.token0.url, "");
    assert_eq!(unified.token0.get_decimals(), 6);
    assert!(!unified.token0.verified);
    assert_eq!(unified.token1.symbol, "WSEI");
    assert!(matches!(unified.token1.decimals, DecimalsValue::Other));
    assert_eq!(unified.token1.get_decimals(), 18);
    assert_eq!(unified.tvl, amount("123.5"));
    assert_eq!(unified.daily_volume, amount("5"));
    assert_eq!(unified.apr, amount("12"));
    assert_eq!(unified.fee_tier, "0.3");
}

#[test]
fn a_pool_without_fee_tier() {
    let mut raw = pool("p", "0xBb", "0xAa", "V3_POOL", None);
    raw.fee_tier = None;
    raw.apr = None;
    raw.liquidity = None;
    let unified = DragonSwapDataProvider::transform_dragonswap_pool(
        raw,
        &DragonSwapDataProvider::token_directory(directory()),
    )
    .unwrap();
    assert_eq!(unified.fee_tier, "unknown");
    assert_eq!(unified.apr, None);
    assert_eq!(unified.tvl, None);
    assert_eq!(unified.daily_volume, None);
}

#[test]
fn a_pool_with_an_unlisted_token_is_left_out() {
    let tokens = DragonSwapDataProvider::token_directory(directory());
    assert!(DragonSwapDataProvider::transform_dragonswap_pool(pool("p", "0xCc", "0xAa", "V3_POOL", None), &tokens).is_none());
    assert!(DragonSwapDataProvider::transform_dragonswap_pool(pool("p", "0xAa", "0xCc", "V3_POOL", None), &tokens).is_none());
    assert!(DragonSwapDataProvider::transform_dragonswap_pool(pool("p", "0xaa", "0xBb", "V3_POOL", None), &tokens).is_none());
}

#[test]
fn the_dragonswap_pool_list() {
    let response = DragonSwapResponse {
        status: "ok".to_string(),
        tokens: directory(),
        pools: vec![
            pool("listed", "0xAa", "0xBb", "V3_POOL", amount("5000")),
            pool("v2", "0xAa", "0xBb", "V2_POOL", amount("5000")),
            pool("quiet", "0xAa", "0xBb", "V3_POOL", amount("1000")),
            pool("silent", "0xAa", "0xBb", "V3_POOL", None),
            pool("unlisted token", "0xAa", "0xCc", "V3_POOL", amount("5000")),
            pool("listed too", "0xBb", "0xAa", "V3_POOL", amount("1000.5")),
        ],
    };
    let listed = DragonSwapDataProvider::get_pool_list(response);
    let ids: Vec<&str> = listed.iter().map(|p| p.id.as_str()).collect();
    assert_eq!(ids, vec!["listed", "listed too"]);
    assert_eq!(listed[0].token0.symbol, "WSEI");
    assert_eq!(listed[1].token0.symbol, "USDC");
}

#[test]
fn an_address_resolves_without_regard_to_case() {
    let tokens = directory();
    let t = DragonSwapDataProvider::transform_token_address_to_symbol(Some(&tokens), "0XAA");
    assert_eq!(t.symbol, "WSEI");
    assert_eq!(t.id, "0xAa");
    let t = DragonSwapDataProvider::transform_token_address_to_symbol(Some(&tokens), "0xbb");
    assert_eq!(t.symbol, "USDC");
    assert_eq!(t.get_decimals(), 6);
    let mut tokens = directory();
    tokens.push(token("0XAA", "LATER", 9));
    let t = DragonSwapDataProvider::transform_token_address_to_symbol(Some(&tokens), "0xaa");
    assert_eq!(t.symbol, "LATER");
    assert_eq!(t.id, "0XAA");
}

#[test]
fn an_address_that_is_not_held_is_unknown() {
    let tokens = directory();
    for t in [
        DragonSwapDataProvider::transform_token_address_to_symbol(Some(&tokens), "0xCc"),
        DragonSwapDataProvider::transform_token_address_to_symbol(None, "0xCc"),
        DragonSwapDataProvider::transform_token_address_to_symbol(Some(&Vec::new()), "0xCc"),
    ] {
        assert_eq!(t.id, "0xCc");
        assert_eq!(t.symbol, "Unknown");
        assert_eq!(t.name, "Unknown");
        assert_eq!(t.url, "");
        assert_eq!(t.get_decimals(), 0);
        assert!(!t.verified);
    }
}

#[test]
fn dragonswap_ticks_in_canonical_form() {
    let tick = |idx: &str| DragonSwapTick {
        tick_idx: idx.to_string(),
        liquidity_net: format!("net {}", idx),
        price0: format!("p0 {}", idx),
        price1: format!("p1 {}", idx),
        pool_address: "0xpool".to_string(),
    };
    let response = DragonSwapTicksResponse { data: DragonSwapTicksData { ticks: vec![tick("-10"), tick("10")] } };
    let canonical = DragonSwapDataProvider::get_liquidity_data(response);
    assert_eq!(canonical.status, "");
    assert!(canonical.active_liquidity.is_empty());
    assert_eq!(canonical.data.len(), 2);
    assert_eq!(canonical.data[0].tick_idx, "-10");
    assert_eq!(canonical.data[0].liquidity_net, "net -10");
    assert_eq!(canonical.data[0].price0, "p0 -10");
    assert_eq!(canonical.data[0].price1, "p1 -10");
    assert_eq!(canonical.data[1].tick_idx, "10");
}

#[test]
fn where_dragonswap_is_asked() {
    let dragonswap = DragonSwapDataProvider::new("https://ds/api/v1".to_string());
    assert_eq!(
        dragonswap.liquidity_data_url("0xPool"),
        "https://ds/api/v1/graph/factory/ticks?pool_address=0xPool&skip=0"
    );
    assert_eq!(dragonswap.pool_list_url(), "https://ds/api/v1/pools");
    assert_eq!(dragonswap.pool_url("0xPool"), "https://ds/api/v1/pools/0xPool");
}

use liquidity_gateway::decimal::Decimal;
use liquidity_gateway::error::{report, ApiError, DataError};
use liquidity_gateway::model::{DecimalsValue, Token, UnifiedPool};
use liquidity_gateway::pool_service::get_pool_list;
use liquidity_gateway::records::{Chat, ChatDocument, Item, ItemResponse};
use liquidity_gateway::data_service::get_graph_data;
use liquidity_gateway::liquidity_service::find_token_by_symbol;
use liquidity_gateway::requests::{
    chart_window, check_price_history_request, plan_graph_data, validate_request,
    GraphDataParams, GraphDataPlan, GraphDataType, PriceHistoryQuery, PriceHistoryRequest,
};
use liquidity_gateway::venue::{get_data_provider, require_capability, supports, Operation, Venue};

fn token(symbol: &str) -> Token {
    Token {
        id: symbol.to_string(),
        name: symbol.to_string(),
        symbol: symbol.to_string(),
        url: String::new(),
        decimals: DecimalsValue::Number(18),
        verified: true,
    }
}

fn pool(id: &str, tvl: Option<Decimal>) -> UnifiedPool {
    UnifiedPool {
        id: id.to_string(),
        protocol: "Sailor".to_string(),
        token0: token("SEI"),
        token1: token("USDC"),
        tvl,
        daily_volume: None,
        apr: None,
        fee_tier: "0.3".to_string(),
    }
}

fn ids(pools: &[UnifiedPool]) -> Vec<&str> {
    pools.iter().map(|p| p.id.as_str()).collect()
}

#[test]
fn pool_lists_are_joined_in_order() {
    let list = get_pool_list(vec![
        Ok(vec![pool("d1", None), pool("d2", None)]),
        Ok(vec![]),
        Ok(vec![pool("s1", None), pool("d1", None)]),
    ]);
    assert_eq!(ids(&list.pools), vec!["d1", "d2", "s1", "d1"]);
    assert!(list.failure.is_none());
}

#[test]
fn a_failing_venue_does_not_fail_the_list() {
    let list = get_pool_list(vec![
        Err(DataError::UpstreamFailure("down".to_string())),
        Ok(vec![pool("s1", None), pool("s2", None)]),
    ]);
    assert_eq!(ids(&list.pools), vec!["s1", "s2"]);
    assert!(matches!(list.failure, Some(DataError::AggregationPartialFailure(_))));

    let list = get_pool_list(vec![
        Ok(vec![pool("d1", None)]),
        Err(DataError::UpstreamFailure("down".to_string())),
    ]);
    assert_eq!(ids(&list.pools), vec!["d1"]);
    assert!(matches!(list.failure, Some(DataError::AggregationPartialFailure(_))));
}

#[test]
fn no_venue_and_all_venues_failing() {
    let list = get_pool_list(Vec::new());
    assert!(list.pools.is_empty() && list.failure.is_none());
    let list = get_pool_list(vec![
        Err(DataError::UpstreamFailure("a".to_string())),
        Err(DataError::CapabilityUnsupported("b".to_string())),
    ]);
    assert!(list.pools.is_empty());
    assert!(matches!(list.failure, Some(DataError::AggregationPartialFailure(_))));
}

#[test]
fn the_same_token_twice_is_invalid() {
    assert!(matches!(validate_request("SEI", "SEI", 100), Err(DataError::InvalidInput(_))));
    assert!(matches!(validate_request("SEI", "sei", 100), Err(DataError::InvalidInput(_))));
    assert!(matches!(validate_request("sEi", "SeI", 100), Err(DataError::InvalidInput(_))));
    let request = PriceHistoryRequest {
        token0: "SEI".to_string(),
        token1: "SEI".to_string(),
        interval: Some(15),
        limit: Some(100),
    };
    assert!(matches!(check_price_history_request(&request), Err(DataError::InvalidInput(_))));
}

#[test]
fn tokens_must_be_named_and_the_limit_in_range() {
    assert!(matches!(validate_request("", "USDC", 100), Err(DataError::InvalidInput(_))));
    assert!(matches!(validate_request("SEI", "", 100), Err(DataError::InvalidInput(_))));
    assert!(matches!(validate_request("SEI", "USDC", 0), Err(DataError::InvalidInput(_))));
    assert!(validate_request("SEI", "USDC", 1001).is_ok());
    assert!(validate_request("SEI", "USDC", u32::MAX).is_ok());
    assert!(validate_request("SEI", "USDC", 1).is_ok());
    assert!(validate_request("SEI", "USDC", 1000).is_ok());
    assert!(validate_request("SEI", "SEI2", 100).is_ok());
    assert!(validate_request("É", "é", 100).is_ok());
}

#[test]
fn a_price_history_request_is_filled_in() {
    let request = PriceHistoryRequest {
        token0: "SEI".to_string(),
        token1: "USDC".to_string(),
        interval: None,
        limit: None,
    };
    assert_eq!(check_price_history_request(&request).unwrap(), (1440, 200));
    let request = PriceHistoryRequest {
        token0: "SEI".to_string(),
        token1: "USDC".to_string(),
        interval: Some(15),
        limit: Some(100),
    };
    assert_eq!(check_price_history_request(&request).unwrap(), (15, 100));
    let request = PriceHistoryRequest {
        token0: "SEI".to_string(),
        token1: "USDC".to_string(),
        interval: Some(15),
        limit: Some(0),
    };
    assert!(matches!(check_price_history_request(&request), Err(DataError::InvalidInput(_))));
    assert_eq!(chart_window(&PriceHistoryQuery { interval: None, limit: None }), (15, 200));
    assert_eq!(chart_window(&PriceHistoryQuery { interval: Some(60), limit: Some(5) }), (60, 5));
}

#[test]
fn what_a_graph_needs() {
    let params = GraphDataParams {
        data_type: GraphDataType::LiquidityDistribution,
        pool_address: Some("0xpool"),
        token0_symbol: None,
        token1_symbol: None,
        interval: None,
        limit: None,
    };
    assert!(matches!(
        plan_graph_data(params),
        Ok(GraphDataPlan::Liquidity { pool_address }) if pool_address == "0xpool"
    ));
    let params = GraphDataParams {
        data_type: GraphDataType::LiquidityDistribution,
        pool_address: None,
        token0_symbol: Some("SEI"),
        token1_symbol: Some("USDC"),
        interval: None,
        limit: None,
    };
    assert!(matches!(plan_graph_data(params), Err(DataError::InvalidInput(_))));
    let params = GraphDataParams {
        data_type: GraphDataType::PriceCandles,
        pool_address: None,
        token0_symbol: Some("SEI"),
        token1_symbol: Some("USDC"),
        interval: None,
        limit: None,
    };
    assert!(matches!(
        plan_graph_data(params),
        Ok(GraphDataPlan::Candles { token0, token1, interval, limit })
            if token0 == "SEI" && token1 == "USDC" && interval == "15" && limit == 100
    ));
    let params = GraphDataParams {
        data_type: GraphDataType::PriceCandles,
        pool_address: None,
        token0_symbol: Some("SEI"),
        token1_symbol: Some("USDC"),
        interval: Some("60"),
        limit: Some(7),
    };
    assert!(matches!(
        plan_graph_data(params),
        Ok(GraphDataPlan::Candles { interval, limit, .. }) if interval == "60" && limit == 7
    ));
    for (token0, token1) in [(None, Some("USDC")), (Some("SEI"), None), (None, None)] {
        let params = GraphDataParams {
            data_type: GraphDataType::PriceCandles,
            pool_address: Some("0xpool"),
            token0_symbol: token0,
            token1_symbol: token1,
            interval: None,
            limit: None,
        };
        assert!(matches!(plan_graph_data(params), Err(DataError::InvalidInput(_))));
    }
}

#[test]
fn what_the_venues_offer() {
    assert!(supports(Venue::Binance, Operation::FetchCandles));
    assert!(!supports(Venue::Binance, Operation::FetchLiquidity));
    assert!(!supports(Venue::Binance, Operation::ListPools));
    assert!(!supports(Venue::Binance, Operation::DetectOwnership));
    assert!(!supports(Venue::DragonSwap, Operation::FetchCandles));
    assert!(supports(Venue::DragonSwap, Operation::FetchLiquidity));
    assert!(supports(Venue::DragonSwap, Operation::ListPools));
    assert!(supports(Venue::DragonSwap, Operation::DetectOwnership));
    assert!(supports(Venue::Sailor, Operation::FetchCandles));
    assert!(supports(Venue::Sailor, Operation::FetchLiquidity));
    assert!(supports(Venue::Sailor, Operation::ListPools));
    assert!(!supports(Venue::Sailor, Operation::DetectOwnership));
    assert!(require_capability(Venue::Sailor, Operation::FetchCandles).is_ok());
    assert!(matches!(
        require_capability(Venue::DragonSwap, Operation::FetchCandles),
        Err(DataError::CapabilityUnsupported(_))
    ));
}

#[test]
fn venues_by_name() {
    assert_eq!(get_data_provider(&"binance".to_string()), Some(Venue::Binance));
    assert_eq!(get_data_provider(&"dragonswap".to_string()), Some(Venue::DragonSwap));
    assert_eq!(get_data_provider(&"sailor".to_string()), Some(Venue::Sailor));
    assert_eq!(get_data_provider(&"Sailor".to_string()), None);
    assert_eq!(get_data_provider(&"".to_string()), None);
}

#[test]
fn the_owner_of_a_pool_answers_for_it() {
    assert!(matches!(get_graph_data(Ok(true)), Ok(Venue::DragonSwap)));
    assert!(matches!(get_graph_data(Ok(false)), Ok(Venue::Sailor)));
    assert!(matches!(
        get_graph_data(Err(DataError::UpstreamFailure("down".to_string()))),
        Err(DataError::UpstreamFailure(message)) if message == "down"
    ));
}

#[test]
fn how_errors_are_reported() {
    assert!(matches!(report(DataError::InvalidInput("a".to_string())), ApiError::InvalidInput(m) if m == "a"));
    assert!(matches!(report(DataError::CapabilityUnsupported("b".to_string())), ApiError::ServiceError(m) if m == "b"));
    assert!(matches!(report(DataError::NoDataAvailable("c".to_string())), ApiError::ServiceError(m) if m == "c"));
    assert!(matches!(report(DataError::UpstreamFailure("d".to_string())), ApiError::ExternalApiError(m) if m == "d"));
    assert!(matches!(
        report(DataError::AggregationPartialFailure("e".to_string())),
        ApiError::ExternalApiError(m) if m == "e"
    ));
    assert_eq!(ApiError::InvalidInput(String::new()).status_code(), 400);
    assert_eq!(ApiError::ServiceError(String::new()).status_code(), 500);
    assert_eq!(ApiError::ExternalApiError(String::new()).status_code(), 502);
    assert_eq!(ApiError::InternalError.status_code(), 500);
}

#[test]
fn decimals_of_a_token() {
    let with = |decimals: DecimalsValue| {
        let mut t = token("SEI");
        t.decimals = decimals;
        t.get_decimals()
    };
    assert_eq!(with(DecimalsValue::Text("6".to_string())), 6);
    assert_eq!(with(DecimalsValue::Text("255".to_string())), 255);
    assert_eq!(with(DecimalsValue::Text("256".to_string())), 18);
    assert_eq!(with(DecimalsValue::Text("six".to_string())), 18);
    assert_eq!(with(DecimalsValue::Text("".to_string())), 18);
    assert_eq!(with(DecimalsValue::Number(0)), 0);
    assert_eq!(with(DecimalsValue::Number(9)), 9);
    assert_eq!(with(DecimalsValue::Number(255)), 255);
    assert_eq!(with(DecimalsValue::Number(256)), 18);
    assert_eq!(with(DecimalsValue::Number(300)), 18);
    assert_eq!(with(DecimalsValue::Number(u64::MAX)), 18);
    assert_eq!(with(DecimalsValue::Other), 18);
}

#[test]
fn items_and_chats() {
    let item = Item::new(7, "name".to_string(), "what it is".to_string());
    assert_eq!((item.id, item.name.as_str(), item.description.as_str()), (7, "name", "what it is"));
    let response = ItemResponse::from_item(&item);
    assert_eq!((response.id, response.name.as_str(), response.description.as_str()), (7, "name", "what it is"));
    let mut chat = Chat::new("key".to_string(), "hello".to_string());
    assert_eq!((chat.public_key.as_str(), chat.conversation.as_str()), ("key", "hello"));
    chat.update_conversation("hello again".to_string());
    assert_eq!((chat.public_key.as_str(), chat.conversation.as_str()), ("key", "hello again"));
    let document = ChatDocument::from_chat(chat);
    assert_eq!((document.public_key.as_str(), document.conversation.as_str()), ("key", "hello again"));
    let chat = document.into_chat();
    assert_eq!((chat.public_key.as_str(), chat.conversation.as_str()), ("key", "hello again"));
}

#[test]
fn tokens_by_symbol() {
    let tokens = vec![token("SEI"), token("usdc"), token("Sei")];
    assert_eq!(find_token_by_symbol(&tokens, "sei"), Some(0));
    assert_eq!(find_token_by_symbol(&tokens, "USDC"), Some(1));
    assert_eq!(find_token_by_symbol(&tokens, "SEI "), None);
    assert_eq!(find_token_by_symbol(&tokens, "SE"), None);
    assert_eq!(find_token_by_symbol(&Vec::new(), "SEI"), None);
}

#[test]
fn letters_outside_ascii_keep_their_case() {
    assert!(validate_request("É", "é", 1).is_ok());
    assert!(validate_request("aé", "Aé", 1).is_err());
    assert!(validate_request("a[", "A{", 1).is_ok());
    assert!(validate_request("@", "`", 1).is_ok());
    assert!(validate_request("z", "Z", 1).is_err());
}

use zeroclaw::orders::route_market;
use zeroclaw::orders::order_ticket;
use zeroclaw::orders::{order_credentials, MissingCredential};
use zeroclaw::orders::{
    account_query, base_url, build_signed_order, cancel_query, client_base_url, client_order_id,
    hmac_sha256_hex, next_place_step, order_query, order_url, FuturesClient, MarketType,
    OrderRejection, PlaceOutcome, PlaceStep, PositionLedger, SpotClient, MAX_PLACE_ATTEMPTS,
};
use zeroclaw::query::{serialize_params, sorted_params, Param};

#[test]
fn test_spot_client_creation() {
    let client = SpotClient::with_credentials("test_key", "test_secret");
    assert_eq!(client.market_type(), MarketType::Spot);
    assert_eq!(client.base_url(), "https://api.binance.com");
}

#[test]
fn test_futures_client_creation() {
    let client = FuturesClient::with_credentials("test_key", "test_secret");
    assert_eq!(client.market_type(), MarketType::Futures);
    assert_eq!(client.base_url(), "https://fapi.binance.com");
}

#[test]
fn test_generate_client_order_id() {
    let client = SpotClient::with_credentials("test", "test");
    let order_id = client.generate_client_order_id(1_700_000_000_123);
    assert!(order_id.starts_with("zeroclaw_"));
    assert_eq!(order_id, "zeroclaw_1700000000123");
    assert_eq!(client_order_id(-5), "zeroclaw_-5");
}

#[test]
fn hmac_signature_matches_known_vector() {
    assert_eq!(
        hmac_sha256_hex("key", "The quick brown fox jumps over the lazy dog"),
        "f7bc83f430538424b13298e6aa6fb143ef4d59a14946175997479dbc2d1a3cd8"
    );
    let client = FuturesClient::with_credentials("k", "key");
    assert_eq!(
        client.credentials().sign("The quick brown fox jumps over the lazy dog"),
        "f7bc83f430538424b13298e6aa6fb143ef4d59a14946175997479dbc2d1a3cd8"
    );
    assert_eq!(client.credentials().api_key(), "k");
}

#[test]
fn endpoints() {
    assert_eq!(base_url(true, "FUTURES"), "https://demo-fapi.binance.com");
    assert_eq!(base_url(true, "SPOT"), "https://testnet.binance.vision");
    assert_eq!(base_url(false, "FUTURES"), "https://fapi.binance.com");
    assert_eq!(base_url(false, "SPOT"), "https://api.binance.com");
    assert_eq!(order_url(false, "FUTURES"), "https://fapi.binance.com/fapi/v1/order");
    assert_eq!(order_url(true, "SPOT"), "https://testnet.binance.vision/api/v3/order");
    assert_eq!(client_base_url(MarketType::Futures), "https://fapi.binance.com");
}

#[test]
fn serialized_params_are_sorted() {
    let params = vec![Param::new("symbol", "BTCUSDT"), Param::new("side", "BUY"), Param::new("quantity", "1")];
    assert_eq!(serialize_params(&params), "quantity=1&side=BUY&symbol=BTCUSDT");
    let sorted = sorted_params(&params);
    assert_eq!(sorted[0].name, "quantity");
    assert_eq!(serialize_params(&vec![]), "");
}

#[test]
fn signed_order_form() {
    let form = build_signed_order("BTCUSDT", "BUY", "LIMIT", "0.5", Some("50000"), 1000, "secret");
    let names: Vec<&str> = form.iter().map(|p| p.name.as_str()).collect();
    assert_eq!(names, vec!["symbol", "side", "type", "quantity", "newOrderRespType", "price", "timeInForce", "timestamp", "signature"]);
    let unsigned: Vec<Param> = form[..8].iter().map(|p| Param::new(&p.name, &p.value)).collect();
    let query = serialize_params(&unsigned);
    assert_eq!(query, "newOrderRespType=FULL&price=50000&quantity=0.5&side=BUY&symbol=BTCUSDT&timeInForce=GTC&timestamp=1000&type=LIMIT");
    assert_eq!(form[8].value, hmac_sha256_hex("secret", &query));
    let market = build_signed_order("ETHUSDT", "SELL", "MARKET", "2", Some("1"), -7, "s");
    assert_eq!(market.len(), 7);
    assert_eq!(market[5].value, "-7");
}

#[test]
fn order_query_strings() {
    assert_eq!(
        order_query(MarketType::Spot, "BTCUSDT", "BUY", "LIMIT", "1", Some("2"), Some("GTC"), true, "zeroclaw_1", 5),
        "symbol=BTCUSDT&side=BUY&type=LIMIT&quantity=1&timestamp=5&recvWindow=5000&price=2&timeInForce=GTC&newOrderRespType=FULL&newClientOrderId=zeroclaw_1"
    );
    assert_eq!(
        order_query(MarketType::Futures, "BTCUSDT", "SELL", "MARKET", "1", Some("2"), None, true, "c", 5),
        "symbol=BTCUSDT&side=SELL&type=MARKET&quantity=1&timestamp=5&recvWindow=5000&timeInForce=GTX&newOrderRespType=RESULT&newClientOrderId=c"
    );
    assert_eq!(cancel_query("BTCUSDT", "77", 9), "symbol=BTCUSDT&orderId=77&timestamp=9&recvWindow=5000");
    assert_eq!(account_query(9), "timestamp=9&recvWindow=5000");
}

#[test]
fn ledger_refuses_limit_and_duplicates() {
    let mut ledger = PositionLedger::new();
    assert!(ledger.check_order("BTCUSDT", 2).is_ok());
    ledger.record_fill("BTCUSDT");
    assert!(ledger.has_position("BTCUSDT"));
    assert_eq!(ledger.check_order("BTCUSDT", 2), Err(OrderRejection::PositionExists("BTCUSDT".to_string())));
    ledger.record_fill("ETHUSDT");
    assert_eq!(ledger.daily_trades(), 2);
    assert_eq!(ledger.check_order("SOLUSDT", 2), Err(OrderRejection::DailyTradeLimit));
    ledger.close_position("BTCUSDT");
    assert!(!ledger.has_position("BTCUSDT"));
    assert!(ledger.check_order("BTCUSDT", 3).is_ok());
}

#[test]
fn placement_retries() {
    assert_eq!(MAX_PLACE_ATTEMPTS, 3);
    assert_eq!(next_place_step(0, PlaceOutcome::Placed { expired: false }), PlaceStep::Done);
    assert_eq!(next_place_step(0, PlaceOutcome::Placed { expired: true }), PlaceStep::Retry { attempts: 1, delay_ms: 100 });
    assert_eq!(next_place_step(3, PlaceOutcome::Placed { expired: true }), PlaceStep::Done);
    assert_eq!(next_place_step(2, PlaceOutcome::Failed), PlaceStep::Retry { attempts: 3, delay_ms: 500 });
    assert_eq!(next_place_step(3, PlaceOutcome::Failed), PlaceStep::GiveUp);
}

#[test]
fn commands_route_by_market() {
    assert_eq!(route_market("FUTURES"), MarketType::Futures);
    assert_eq!(route_market("SPOT"), MarketType::Spot);
    assert_eq!(route_market("futures"), MarketType::Spot);
}

#[test]
fn order_tickets_price_only_limit_orders() {
    let limit = order_ticket("BTCUSDT", "BUY", "LIMIT", true, 1700000000000);
    assert_eq!(limit.symbol, "BTCUSDT");
    assert_eq!(limit.side, "BUY");
    assert_eq!(limit.order_type, "LIMIT");
    assert!(limit.carries_price);
    assert_eq!(limit.time_in_force, Some("GTC".to_string()));
    assert!(limit.post_only);
    assert_eq!(limit.client_order_id, "zeroclaw_1700000000000");
    let market = order_ticket("ETHUSDT", "SELL", "MARKET", false, 5);
    assert!(!market.carries_price);
    assert_eq!(market.time_in_force, None);
    assert!(!market.post_only);
    assert_eq!(market.client_order_id, "zeroclaw_5");
}

#[test]
fn order_credentials_need_key_then_secret() {
    let missing_key = order_credentials(true, "SPOT", None, Some("s")).err().unwrap();
    assert_eq!(missing_key, MissingCredential::ApiKey);
    assert_eq!(missing_key.message(), "Binance API key not configured");
    assert_eq!(order_credentials(true, "SPOT", None, None).err().unwrap(), MissingCredential::ApiKey);
    let missing_secret = order_credentials(false, "FUTURES", Some("k"), None).err().unwrap();
    assert_eq!(missing_secret, MissingCredential::ApiSecret);
    assert_eq!(missing_secret.message(), "Binance API secret not configured");
    let c = order_credentials(false, "FUTURES", Some("key"), Some("secret")).ok().unwrap();
    assert_eq!(c.api_key(), "key");
    assert_eq!(c.secret_key(), "secret");
    assert_eq!(c.base_url(), "https://fapi.binance.com");
    let t = order_credentials(true, "SPOT", Some("k"), Some("s")).ok().unwrap();
    assert_eq!(t.base_url(), "https://testnet.binance.vision");
}

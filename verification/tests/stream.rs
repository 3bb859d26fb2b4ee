use zeroclaw::stream::BootstrapDataLoader;
use zeroclaw::stream::{
    after_connection_end, build_combined_url, build_single_url, event_after_connection_end,
    fetch_retry_delay_ms, first_out_of_order, is_healthy_at, klines_url, klines_until_url,
    react_to_message, reconnect_delay_secs, stream_symbol, BinanceWsConfig, KlineInterval,
    ReconnectStep, WsEvent, WsMessageKind, WsReaction, WsState, BINANCE_WS_BASE,
    COMBINED_STREAM_URL,
};

#[test]
fn test_ws_config_default() {
    let config = BinanceWsConfig::default();
    assert!(config.auto_reconnect);
    assert!(config.enable_heartbeat);
    assert_eq!(config.max_reconnect_attempts, 0);
}

#[test]
fn test_stream_symbol() {
    assert_eq!(stream_symbol("BTCUSDT", KlineInterval::Minute1), "btcusdt@kline_1m");
    assert_eq!(stream_symbol("ETHUSDT", KlineInterval::Hour1), "ethusdt@kline_1h");
}

#[test]
fn test_build_single_url() {
    let url = build_single_url("BTCUSDT", KlineInterval::Minute1);
    assert!(url.starts_with(BINANCE_WS_BASE));
    assert!(url.contains("btcusdt@kline_1m"));
    assert_eq!(url, "wss://stream.binance.com:9443/ws/btcusdt@kline_1m");
}

#[test]
fn test_build_combined_url() {
    let streams = &[("BTCUSDT", KlineInterval::Minute1), ("ETHUSDT", KlineInterval::Minute5)];
    let url = build_combined_url(streams);
    assert!(url.starts_with(COMBINED_STREAM_URL));
    assert!(url.contains("btcusdt@kline_1m"));
    assert!(url.contains("ethusdt@kline_5m"));
    assert_eq!(url, "wss://stream.binance.com:9443/stream?streams=btcusdt@kline_1m/ethusdt@kline_5m");
}

#[test]
fn interval_codes_round_trip() {
    let all = [
        KlineInterval::Minute1, KlineInterval::Minute3, KlineInterval::Minute5,
        KlineInterval::Minute15, KlineInterval::Minute30, KlineInterval::Hour1,
        KlineInterval::Hour2, KlineInterval::Hour4, KlineInterval::Hour6, KlineInterval::Hour8,
        KlineInterval::Hour12, KlineInterval::Day1, KlineInterval::Day3, KlineInterval::Week1,
        KlineInterval::Month1,
    ];
    for i in all {
        assert_eq!(KlineInterval::from_str(i.as_str()), Some(i));
    }
    assert_eq!(KlineInterval::Hour4.as_str(), "4h");
    assert_eq!(KlineInterval::from_str("2m"), None);
}

#[test]
fn rest_urls() {
    assert_eq!(
        klines_url("https://api.binance.com", "btcusdt", KlineInterval::Minute5, 1100),
        "https://api.binance.com/api/v3/klines?symbol=BTCUSDT&interval=5m&limit=1100"
    );
    assert_eq!(
        klines_until_url("https://x", "ethusdt", KlineInterval::Day1, 1700000000000, 500),
        "https://x/api/v3/klines?symbol=ETHUSDT&interval=1d&endTime=1700000000000&limit=500"
    );
}

#[test]
fn ws_state_codes_round_trip() {
    for s in [WsState::Disconnected, WsState::Connecting, WsState::Connected, WsState::Reconnecting] {
        assert_eq!(WsState::from_code(s.code()), s);
    }
    assert_eq!(WsState::from_code(99), WsState::Disconnected);
}

#[test]
fn reconnect_backoff_doubles_and_caps() {
    assert_eq!(reconnect_delay_secs(0), 5);
    assert_eq!(reconnect_delay_secs(1), 10);
    assert_eq!(reconnect_delay_secs(5), 160);
    assert_eq!(reconnect_delay_secs(6), 300);
    assert_eq!(reconnect_delay_secs(61), 300);
    assert_eq!(reconnect_delay_secs(62), 300);
    assert_eq!(reconnect_delay_secs(1000), 300);
    assert_eq!(reconnect_delay_secs(u32::MAX), 300);
}

#[test]
fn unlimited_reconnection_goes_on() {
    // A limit of 0 means unlimited reconnection, the delay capped at 300 s.
    let config = BinanceWsConfig::default();
    assert_eq!(after_connection_end(&config, 6), ReconnectStep::Reconnect { attempt: 7, delay_secs: 300 });
    assert_eq!(after_connection_end(&config, 100), ReconnectStep::Reconnect { attempt: 101, delay_secs: 300 });
    assert_eq!(
        after_connection_end(&config, u32::MAX),
        ReconnectStep::Reconnect { attempt: u32::MAX, delay_secs: 300 }
    );
}

#[test]
fn reconnect_policy() {
    let mut config = BinanceWsConfig::default();
    assert_eq!(after_connection_end(&config, 0), ReconnectStep::Reconnect { attempt: 1, delay_secs: 5 });
    config.max_reconnect_attempts = 2;
    assert_eq!(after_connection_end(&config, 1), ReconnectStep::Reconnect { attempt: 2, delay_secs: 10 });
    assert_eq!(after_connection_end(&config, 2), ReconnectStep::Stop);
    config.auto_reconnect = false;
    assert_eq!(after_connection_end(&config, 0), ReconnectStep::Stop);
}

#[test]
fn reconnect_events() {
    let e: WsEvent<u8> = event_after_connection_end(ReconnectStep::Reconnect { attempt: 3, delay_secs: 20 });
    assert!(matches!(e, WsEvent::Reconnecting { attempt: 3, delay_secs: 20 }));
    let e: WsEvent<u8> = event_after_connection_end(ReconnectStep::Stop);
    assert!(matches!(e, WsEvent::Disconnected));
}

#[test]
fn message_reactions() {
    assert_eq!(react_to_message(false, WsMessageKind::Text), WsReaction::ForwardKline);
    assert_eq!(react_to_message(false, WsMessageKind::Ping), WsReaction::ReplyPong);
    assert_eq!(react_to_message(false, WsMessageKind::Pong), WsReaction::Ignore);
    assert_eq!(react_to_message(false, WsMessageKind::Close), WsReaction::Stop);
    assert_eq!(react_to_message(false, WsMessageKind::Binary), WsReaction::Ignore);
    assert_eq!(react_to_message(false, WsMessageKind::Frame), WsReaction::Ignore);
    assert_eq!(react_to_message(false, WsMessageKind::Failed), WsReaction::Fail);
    assert_eq!(react_to_message(true, WsMessageKind::Text), WsReaction::Stop);
}

#[test]
fn health_window() {
    assert!(is_healthy_at(1000, 900));
    assert!(!is_healthy_at(1000, 880));
}

#[test]
fn fetch_retry_schedule() {
    assert_eq!(fetch_retry_delay_ms(0), Some(1000));
    assert_eq!(fetch_retry_delay_ms(1), Some(2000));
    assert_eq!(fetch_retry_delay_ms(2), None);
}

#[test]
fn kline_order_check() {
    assert_eq!(first_out_of_order(&vec![1, 2, 3]), None);
    assert_eq!(first_out_of_order(&vec![1, 3, 3, 4]), Some(2));
    assert_eq!(first_out_of_order(&vec![]), None);
}

#[test]
fn test_bootstrap_data_loader_creation() {
    let loader = BootstrapDataLoader::new(Some(100), Some(1000));
    assert_eq!(loader.warmup_candles(), 100);
    assert_eq!(loader.working_candles(), 1000);
}

#[test]
fn test_bootstrap_data_loader_defaults() {
    let loader = BootstrapDataLoader::new(None, None);
    assert_eq!(loader.warmup_candles(), 100);
    assert_eq!(loader.working_candles(), 1000);
    assert_eq!(loader.total_candles(), 1100);
    assert_eq!(BootstrapDataLoader::new(Some(20), None).total_candles(), 1020);
}

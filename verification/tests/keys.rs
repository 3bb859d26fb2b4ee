use zeroclaw::keys::{
    create_redis_store, position_key, prefixed_key, prefixed_symbol_key, BrainConfig, CommandDispatcher, RedisListener,
    RedisSignalStore, RedisSignalStoreBuilder, SignalConsumer,
};

#[test]
fn consumer_test_get_signal_key() {
    let consumer = SignalConsumer::new(Some("market:signal"));
    assert_eq!(consumer.get_signal_key("BTCUSDT"), "market:signal:BTCUSDT");
    assert_eq!(consumer.get_signal_key("ethusdt"), "market:signal:ETHUSDT");
}

#[test]
fn dispatcher_test_get_queue_key() {
    let dispatcher = CommandDispatcher::new(Some("execution:queue"));
    assert_eq!(dispatcher.get_queue_key("BTCUSDT"), "execution:queue:BTCUSDT");
    assert_eq!(dispatcher.get_queue_key("ethusdt"), "execution:queue:ETHUSDT");
}

#[test]
fn redis_listener_test_get_queue_key() {
    let listener = RedisListener::new("redis://localhost:6379").ok().unwrap();
    assert_eq!(listener.get_queue_key("BTCUSDT"), "execution:queue:BTCUSDT");
}

#[test]
fn redis_store_test_get_signal_key() {
    let store = RedisSignalStore::new("redis://localhost:6379", Some("test")).ok().unwrap();
    assert_eq!(store.get_signal_key("BTCUSDT"), "test:BTCUSDT");
    assert_eq!(store.get_signal_key("ethusdt"), "test:ETHUSDT");
}

#[test]
fn test_redis_store_builder() {
    let store = RedisSignalStoreBuilder::new("redis://localhost:6379")
        .key_prefix("test:signal")
        .max_connections(10)
        .build();
    assert!(store.is_err() || store.ok().unwrap().key_prefix() == "test:signal");
}

#[test]
fn default_prefixes_apply_when_none_given() {
    assert_eq!(SignalConsumer::new(None).get_signal_key("solusdt"), "market:signal:SOLUSDT");
    assert_eq!(CommandDispatcher::new(None).get_queue_key("xrpusdt"), "execution:queue:XRPUSDT");
    let store = create_redis_store("redis://127.0.0.1:6379").ok().unwrap();
    assert_eq!(store.key_prefix(), "market:signal");
    let built = RedisSignalStoreBuilder::new("redis://127.0.0.1:6379").build().ok().unwrap();
    assert_eq!(built.key_prefix(), "market:signal");
}

#[test]
fn unparsable_redis_url_is_refused() {
    match RedisSignalStore::new("not a url", None) {
        Err(e) => assert_eq!(e.redis_url, "not a url"),
        Ok(_) => panic!("a malformed URL was accepted"),
    }
    assert!(RedisListener::new("ftp://example.com").is_err());
}

#[test]
fn symbol_keys_upper_case_the_symbol() {
    assert_eq!(prefixed_symbol_key("p", "bnbUsdt"), "p:BNBUSDT");
    assert_eq!(prefixed_symbol_key("", "x"), ":X");
}

#[test]
fn brain_config_defaults() {
    let c = BrainConfig::default();
    assert_eq!(c.redis_url, "redis://localhost:6379");
    assert_eq!(c.llm_endpoint, "http://localhost:11434/api/generate");
    assert_eq!(c.llm_api_key, "");
    assert_eq!(c.llm_model, "llama2");
}

#[test]
fn exact_and_position_keys() {
    assert_eq!(prefixed_key("execution:queue", "btcusdt"), "execution:queue:btcusdt");
    assert_eq!(position_key("BTCUSDT"), "market:position:BTCUSDT");
}

#[test]
fn connection_limit_leaves_build_unchanged() {
    let plain = RedisSignalStoreBuilder::new("redis://127.0.0.1:6379").key_prefix("p").build().ok().unwrap();
    let limited = RedisSignalStoreBuilder::new("redis://127.0.0.1:6379")
        .key_prefix("p")
        .max_connections(4)
        .build()
        .ok()
        .unwrap();
    assert_eq!(plain.key_prefix(), limited.key_prefix());
    assert!(RedisSignalStoreBuilder::new("nope").max_connections(4).build().is_err());
}

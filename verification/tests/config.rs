use zeroclaw::config::VERSION;
use zeroclaw::config::{
    MuscleConfig, MusclePerformanceConfig, TradingConfig, TradingMemoryConfig,
    TradingPromptConfig, TradingProviderConfig, DEFAULT_MAX_LATENCY_MS, DEFAULT_TOTAL_CANDLES,
    DEFAULT_WARMUP_CANDLES, DEFAULT_WORKING_CANDLES,
};

#[test]
fn test_default_constants() {
    assert_eq!(DEFAULT_WARMUP_CANDLES, 100);
    assert_eq!(DEFAULT_WORKING_CANDLES, 1000);
    assert_eq!(DEFAULT_TOTAL_CANDLES, 1100);
    assert_eq!(DEFAULT_MAX_LATENCY_MS, 500);
}

#[test]
fn test_performance_config_default() {
    let perf = MusclePerformanceConfig::default();
    assert_eq!(perf.max_allowed_latency_ms, 500);
    assert_eq!(perf.warmup_candles, 100);
    assert_eq!(perf.total_candles, 1100);
}

#[test]
fn test_muscle_config_default() {
    let config = MuscleConfig::default();
    assert!(!config.enabled);
    assert_eq!(config.pairs, vec!["BTCUSDT"]);
    assert_eq!(config.intervals, vec!["1m", "5m"]);
    assert_eq!(config.redis_url, "redis://localhost:6379");
}

#[test]
fn trading_config_defaults() {
    let c = TradingConfig::default();
    assert!(!c.enabled);
    assert_eq!(c.symbols, vec!["BTCUSDT", "ETHUSDT"]);
    assert_eq!(c.check_interval_ms, 5000);
    assert_eq!(c.provider.name, "anthropic");
    assert_eq!(c.provider.max_tokens, 1000);
    assert_eq!(c.provider.timeout_secs, 30);
    assert_eq!(c.risk.min_confluence_score, 5);
    assert!(c.prompt.system_prompt.contains("Never risk more than 2% per trade"));
    let m = TradingMemoryConfig::default();
    assert!(!m.enabled && m.store_decisions && m.store_signals);
    assert_eq!(m.recall_limit, 10);
    assert_eq!(TradingProviderConfig::default().model, "");
    assert!(TradingPromptConfig::default().system_prompt.starts_with("You are a professional cryptocurrency trader"));
}

#[test]
fn test_version() {
    assert!(!VERSION.is_empty());
}

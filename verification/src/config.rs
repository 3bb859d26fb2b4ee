//! Settings of the signal engine and of the trading agent, with their
//! defaults (whole-number and text fields).

use vstd::prelude::*;
use crate::safety::TradingSafetyConfig;

verus! {

/// The library's version, as its package declares it.
pub const VERSION: &'static str = "0.1.0";

/// Warm-up candles for indicator convergence.
pub const DEFAULT_WARMUP_CANDLES: usize = 100;

/// Candles in the working window.
pub const DEFAULT_WORKING_CANDLES: usize = 1000;

/// Candles fetched at start: warm-up plus working window.
pub const DEFAULT_TOTAL_CANDLES: usize = DEFAULT_WARMUP_CANDLES + DEFAULT_WORKING_CANDLES;

/// Latency above which advice is forced to WAIT.
pub const DEFAULT_MAX_LATENCY_MS: i64 = 500;

/// Performance and safety settings of the signal engine.
pub struct MusclePerformanceConfig {
    /// Maximum allowed ingestion latency in milliseconds (default: 500ms)
    pub max_allowed_latency_ms: i64,
    /// Number of warm-up candles for indicator convergence (default: 100)
    pub warmup_candles: usize,
    /// Total candles to fetch from REST API (warmup + working window, default: 1100)
    pub total_candles: usize,
}

impl Default for MusclePerformanceConfig {
    fn default() -> (c: Self)
        ensures
            c.max_allowed_latency_ms == 500,
            c.warmup_candles == 100,
            c.total_candles == 1100,
    {
        MusclePerformanceConfig {
            max_allowed_latency_ms: DEFAULT_MAX_LATENCY_MS,
            warmup_candles: DEFAULT_WARMUP_CANDLES,
            total_candles: DEFAULT_TOTAL_CANDLES,
        }
    }
}

/// Settings of the signal engine (the strategy weights and smoother
/// coefficients, which are fractions, are held beside it).
pub struct MuscleConfig {
    /// Enable/disable the muscle signal engine
    pub enabled: bool,
    /// Trading pairs to monitor (e.g., ["BTCUSDT", "ETHUSDT"])
    pub pairs: Vec<String>,
    /// Time intervals (e.g., ["1m", "5m", "15m", "1h"])
    pub intervals: Vec<String>,
    /// Redis connection URL (default: "redis://localhost:6379")
    pub redis_url: String,
    /// Performance and safety settings
    pub performance: MusclePerformanceConfig,
}

/// A vector of strings holds exactly the given texts.
pub open spec fn holds_texts(v: Seq<String>, texts: Seq<Seq<char>>) -> bool {
    v.len() == texts.len() && forall|i: int| 0 <= i < v.len() ==> #[trigger] v[i]@ == texts[i]
}

impl Default for MuscleConfig {
    fn default() -> (c: Self)
        ensures
            !c.enabled,
            holds_texts(c.pairs@, seq!["BTCUSDT"@]),
            holds_texts(c.intervals@, seq!["1m"@, "5m"@]),
            c.redis_url@ == "redis://localhost:6379"@,
            c.performance.max_allowed_latency_ms == 500,
            c.performance.warmup_candles == 100,
            c.performance.total_candles == 1100,
    {
        let mut pairs: Vec<String> = Vec::new();
        pairs.push(String::from_str("BTCUSDT"));
        let mut intervals: Vec<String> = Vec::new();
        intervals.push(String::from_str("1m"));
        intervals.push(String::from_str("5m"));
        MuscleConfig {
            enabled: false,
            pairs,
            intervals,
            redis_url: String::from_str("redis://localhost:6379"),
            performance: MusclePerformanceConfig::default(),
        }
    }
}

/// Model provider settings (the sampling temperature, a fraction, is held beside it).
pub struct TradingProviderConfig {
    /// Provider name (e.g., "anthropic", "openai", "openrouter", "ollama")
    pub name: String,
    /// Model to use for trading decisions (empty until configured: no
    /// model is built in)
    pub model: String,
    /// Max tokens for response
    pub max_tokens: u32,
    /// Timeout in seconds
    pub timeout_secs: u64,
}

impl Default for TradingProviderConfig {
    fn default() -> (c: Self)
        ensures
            c.name@ == "anthropic"@,
            c.model@ == Seq::<char>::empty(),
            c.max_tokens == 1000,
            c.timeout_secs == 30,
    {
        TradingProviderConfig {
            name: String::from_str("anthropic"),
            model: String::new(),
            max_tokens: 1000,
            timeout_secs: 30,
        }
    }
}

/// What the trading memory keeps and recalls.
pub struct TradingMemoryConfig {
    /// Enable trading memory
    pub enabled: bool,
    /// Store decisions
    pub store_decisions: bool,
    /// Store signals
    pub store_signals: bool,
    /// Recall limit
    pub recall_limit: usize,
}

impl Default for TradingMemoryConfig {
    fn default() -> (c: Self)
        ensures
            !c.enabled,
            c.store_decisions,
            c.store_signals,
            c.recall_limit == 10,
    {
        TradingMemoryConfig {
            enabled: false,
            store_decisions: true,
            store_signals: true,
            recall_limit: 10,
        }
    }
}

/// The default system prompt of the trading agent.
pub const DEFAULT_SYSTEM_PROMPT: &'static str =
    "You are a professional cryptocurrency trader with 10+ years of experience.
You specialize in technical analysis and risk management.

Rules:
1. Never risk more than 2% per trade
2. Always use stop loss
3. Only trade when confluence score >= 7
4. Prefer trending markets (ADX > 25)
5. Avoid trading during high volatility unless regime is clearly trending

Return decisions in JSON format with clear reasoning.";

/// The trading agent's prompt settings.
pub struct TradingPromptConfig {
    /// Custom system prompt
    pub system_prompt: String,
}

impl Default for TradingPromptConfig {
    fn default() -> (c: Self)
        ensures
            c.system_prompt@ == DEFAULT_SYSTEM_PROMPT@,
    {
        TradingPromptConfig { system_prompt: String::from_str(DEFAULT_SYSTEM_PROMPT) }
    }
}

/// Settings of the trading integration.
pub struct TradingConfig {
    /// Enable trading integration
    pub enabled: bool,
    /// Symbols to monitor
    pub symbols: Vec<String>,
    /// Check interval in milliseconds
    pub check_interval_ms: u64,
    /// Redis URL
    pub redis_url: String,
    /// Provider configuration
    pub provider: TradingProviderConfig,
    /// Risk configuration
    pub risk: TradingSafetyConfig,
    /// Safety configuration (alias for risk)
    pub safety: TradingSafetyConfig,
    /// Memory configuration
    pub memory: TradingMemoryConfig,
    /// Prompt configuration
    pub prompt: TradingPromptConfig,
}

impl Default for TradingConfig {
    fn default() -> (c: Self)
        ensures
            !c.enabled,
            holds_texts(c.symbols@, seq!["BTCUSDT"@, "ETHUSDT"@]),
            c.check_interval_ms == 5000,
            c.redis_url@ == "redis://localhost:6379"@,
            c.provider.max_tokens == 1000,
            c.risk.max_daily_trades == 20,
            c.safety.max_daily_trades == 20,
            c.memory.recall_limit == 10,
            c.prompt.system_prompt@ == DEFAULT_SYSTEM_PROMPT@,
    {
        let mut symbols: Vec<String> = Vec::new();
        symbols.push(String::from_str("BTCUSDT"));
        symbols.push(String::from_str("ETHUSDT"));
        TradingConfig {
            enabled: false,
            symbols,
            check_interval_ms: 5000,
            redis_url: String::from_str("redis://localhost:6379"),
            provider: TradingProviderConfig::default(),
            risk: TradingSafetyConfig::default(),
            safety: TradingSafetyConfig::default(),
            memory: TradingMemoryConfig::default(),
            prompt: TradingPromptConfig::default(),
        }
    }
}

} // verus!

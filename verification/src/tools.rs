//! The agent's trading tools: argument checks and replies of the execution
//! bridge, the market analyzer's key and latency notes, and the replies of
//! the trading decision tool.

use vstd::prelude::*;
use crate::keys::{opt_string_view, symbol_key};
use crate::safety::TradingSafetyConfig;
use crate::text::{concat, i64_to_string, signed_decimal, str_eq, to_upper, unicode_upper};

verus! {

/// What a tool hands back to the agent.
pub struct ToolResult {
    /// Whether the tool did its work.
    pub success: bool,
    /// The tool's output text.
    pub output: String,
    /// The error message, when it failed.
    pub error: Option<String>,
}

/// A failed result with the given message.
pub open spec fn is_failure(r: ToolResult, message: Seq<char>) -> bool {
    !r.success && r.output@ == Seq::<char>::empty() && opt_string_view(r.error) == Some(message)
}

/// A successful result with the given output.
pub open spec fn is_success(r: ToolResult, output: Seq<char>) -> bool {
    r.success && r.output@ == output && r.error is None
}

fn failure(message: &str) -> (r: ToolResult)
    ensures
        is_failure(r, message@),
{
    ToolResult { success: false, output: String::new(), error: Some(String::from_str(message)) }
}

fn success(output: String) -> (r: ToolResult)
    ensures
        is_success(r, output@),
{
    ToolResult { success: true, output, error: None }
}

/// Message for a leverage outside 1..=10.
pub const LEVERAGE_RANGE_MESSAGE: &'static str = "Leverage must be between 1 and 10";

/// Message for a risk share outside 1%..=5%.
pub const RISK_RANGE_MESSAGE: &'static str = "Risk percent must be between 0.01 (1%) and 0.05 (5%)";

/// Message for a side other than BUY or SELL.
pub const SIDE_MESSAGE: &'static str = "Side must be either 'BUY' or 'SELL'";

/// The tool that pushes execution commands onto the Redis queue.
pub struct ExecutionBridgeTool {
    redis_url: String,
    key_prefix: String,
}

/// Whether a side names BUY or SELL once upper-cased.
pub open spec fn side_accepted(side: Seq<char>) -> bool {
    unicode_upper(side) == "BUY"@ || unicode_upper(side) == "SELL"@
}

impl ExecutionBridgeTool {
    /// The Redis URL.
    pub closed spec fn url(&self) -> Seq<char> {
        self.redis_url@
    }

    /// The queue key prefix.
    pub closed spec fn prefix(&self) -> Seq<char> {
        self.key_prefix@
    }

    /// A bridge to the given Redis, queueing under `execution:queue`.
    pub fn new(redis_url: &str) -> (t: Self)
        ensures
            t.url() == redis_url@,
            t.prefix() == "execution:queue"@,
    {
        ExecutionBridgeTool {
            redis_url: String::from_str(redis_url),
            key_prefix: String::from_str("execution:queue"),
        }
    }

    /// A bridge with its own queue key prefix.
    pub fn with_prefix(redis_url: &str, key_prefix: &str) -> (t: Self)
        ensures
            t.url() == redis_url@,
            t.prefix() == key_prefix@,
    {
        ExecutionBridgeTool {
            redis_url: String::from_str(redis_url),
            key_prefix: String::from_str(key_prefix),
        }
    }

    /// The Redis URL.
    pub fn redis_url(&self) -> (u: &str)
        ensures
            u@ == self.url(),
    {
        self.redis_url.as_str()
    }

    /// The tool's name.
    pub fn name(&self) -> (n: &'static str)
        ensures
            n@ == "dispatch_execution"@,
    {
        "dispatch_execution"
    }

    /// The tool's description.
    pub fn description(&self) -> (d: &'static str)
        ensures
            d@
                == "Dispatch a trading execution command to the Execution Engine via Redis. Use this after analyzing market signals and deciding to execute a trade. Requires symbol, side (BUY/SELL), leverage, stop_loss, take_profit, and risk_percent."@,
    {
        "Dispatch a trading execution command to the Execution Engine via Redis. Use this after analyzing market signals and deciding to execute a trade. Requires symbol, side (BUY/SELL), leverage, stop_loss, take_profit, and risk_percent."
    }

    /// The queue a command for `symbol` goes to: `{prefix}:{symbol}`, the
    /// symbol taken as the command carries it (already upper-cased).
    pub fn queue_key(&self, symbol: &str) -> (k: String)
        ensures
            k@ == self.prefix() + ":"@ + symbol@,
    {
        let mut k = concat(self.key_prefix.as_str(), ":");
        k.append(symbol);
        k
    }

    /// The argument checks made before dispatching, in order: leverage in
    /// 1..=10, risk share in 1%..=5% (tested by the caller on the
    /// floating-point value), side BUY or SELL once upper-cased. The failed
    /// result of the first check that fails, or `None` when all pass.
    pub fn check_args(&self, leverage: u32, risk_percent_in_range: bool, side: &str) -> (r: Option<
        ToolResult,
    >)
        ensures
            r is None <==> (1 <= leverage <= 10 && risk_percent_in_range && side_accepted(side@)),
            !(1 <= leverage <= 10) ==> (r matches Some(f) && is_failure(f, LEVERAGE_RANGE_MESSAGE@)),
            1 <= leverage <= 10 && !risk_percent_in_range ==> (r matches Some(f) && is_failure(
                f,
                RISK_RANGE_MESSAGE@,
            )),
            1 <= leverage <= 10 && risk_percent_in_range && !side_accepted(side@) ==> (r matches Some(
                f,
            ) && is_failure(f, SIDE_MESSAGE@)),
    {
        if leverage < 1 || leverage > 10 {
            return Some(failure(LEVERAGE_RANGE_MESSAGE));
        }
        if !risk_percent_in_range {
            return Some(failure(RISK_RANGE_MESSAGE));
        }
        let upper = to_upper(side);
        if !str_eq(upper.as_str(), "BUY") && !str_eq(upper.as_str(), "SELL") {
            return Some(failure(SIDE_MESSAGE));
        }
        None
    }
}

/// The tool that reads the latest signal of a symbol.
pub struct MarketAnalyzerTool {
    redis_url: String,
    max_latency_ms: i64,
}

/// The latency line of a signal summary.
pub open spec fn latency_note_text(latency_ms: i64, max_latency_ms: i64) -> Seq<char> {
    if latency_ms > max_latency_ms {
        "\n⚠️ DATA STALE: HIGH LATENCY DETECTED ("@ + signed_decimal(latency_ms as int) + "ms > "@
            + signed_decimal(max_latency_ms as int) + "ms)"@
    } else {
        "\nLatency: "@ + signed_decimal(latency_ms as int) + "ms (OK)"@
    }
}

impl MarketAnalyzerTool {
    /// The Redis URL.
    pub closed spec fn url(&self) -> Seq<char> {
        self.redis_url@
    }

    /// The latency limit.
    pub closed spec fn latency_limit(&self) -> i64 {
        self.max_latency_ms
    }

    /// An analyzer on the given Redis with a 500 ms latency limit.
    pub fn new(redis_url: &str) -> (t: Self)
        ensures
            t.url() == redis_url@,
            t.latency_limit() == 500,
    {
        MarketAnalyzerTool { redis_url: String::from_str(redis_url), max_latency_ms: 500 }
    }

    /// An analyzer with its own latency limit.
    pub fn with_latency(redis_url: &str, max_latency_ms: i64) -> (t: Self)
        ensures
            t.url() == redis_url@,
            t.latency_limit() == max_latency_ms,
    {
        MarketAnalyzerTool { redis_url: String::from_str(redis_url), max_latency_ms }
    }

    /// The Redis URL.
    pub fn redis_url(&self) -> (u: &str)
        ensures
            u@ == self.url(),
    {
        self.redis_url.as_str()
    }

    /// The tool's name.
    pub fn name(&self) -> (n: &'static str)
        ensures
            n@ == "get_market_signal"@,
    {
        "get_market_signal"
    }

    /// The tool's description.
    pub fn description(&self) -> (d: &'static str)
        ensures
            d@
                == "Fetch current market signal from Muscle-Kit via Redis. Returns price, market regime, confluence score, and Muscle's trading advice. Use this to analyze market conditions before making trading decisions."@,
    {
        "Fetch current market signal from Muscle-Kit via Redis. Returns price, market regime, confluence score, and Muscle's trading advice. Use this to analyze market conditions before making trading decisions."
    }

    /// The key the signal of `symbol` is read from: `market:signal:{SYMBOL}`.
    pub fn signal_key(&self, symbol: &str) -> (k: String)
        ensures
            k@ == symbol_key("market:signal"@, symbol@),
    {
        let mut k = String::from_str("market:signal:");
        let upper = to_upper(symbol);
        k.append(upper.as_str());
        proof {
            reveal_strlit("market:signal:");
            reveal_strlit("market:signal");
            reveal_strlit(":");
            assert("market:signal:"@ =~= "market:signal"@ + ":"@);
        }
        k
    }

    /// The latency line of the summary: a stale-data warning when the
    /// latency exceeds the limit, the latency marked OK otherwise.
    pub fn latency_note(&self, latency_ms: i64) -> (s: String)
        ensures
            s@ == latency_note_text(latency_ms, self.latency_limit()),
    {
        if latency_ms > self.max_latency_ms {
            let mut s = String::from_str("\n⚠️ DATA STALE: HIGH LATENCY DETECTED (");
            let l = i64_to_string(latency_ms);
            s.append(l.as_str());
            s.append("ms > ");
            let m = i64_to_string(self.max_latency_ms);
            s.append(m.as_str());
            s.append("ms)");
            s
        } else {
            let mut s = String::from_str("\nLatency: ");
            let l = i64_to_string(latency_ms);
            s.append(l.as_str());
            s.append("ms (OK)");
            s
        }
    }

    /// The reply when no signal is stored for `symbol`.
    pub fn no_signal_message(&self, symbol: &str) -> (s: String)
        ensures
            s@ == "No signal found for "@ + unicode_upper(symbol@),
    {
        let upper = to_upper(symbol);
        concat("No signal found for ", upper.as_str())
    }
}

/// Settings of the trading decision tool (whole-number parts).
pub struct TradingDecisionToolConfig {
    /// Redis URL
    pub redis_url: String,
    /// Symbols to monitor
    pub symbols: Vec<String>,
    /// Check interval in milliseconds
    pub check_interval_ms: u64,
    /// Safety configuration
    pub safety: TradingSafetyConfig,
}

impl Default for TradingDecisionToolConfig {
    fn default() -> (c: Self)
        ensures
            c.redis_url@ == "redis://localhost:6379"@,
            c.symbols@.len() == 1,
            c.symbols@[0]@ == "BTCUSDT"@,
            c.check_interval_ms == 5000,
            c.safety.max_latency_ms == 500,
            c.safety.min_confluence_score == 5,
            c.safety.max_leverage == 10,
            c.safety.max_daily_trades == 20,
    {
        let mut symbols: Vec<String> = Vec::new();
        symbols.push(String::from_str("BTCUSDT"));
        TradingDecisionToolConfig {
            redis_url: String::from_str("redis://localhost:6379"),
            symbols,
            check_interval_ms: 5000,
            safety: TradingSafetyConfig::default(),
        }
    }
}

/// The reply of the trading decision tool to an action on a symbol.
pub open spec fn decision_reply_ok(action: Seq<char>, symbol: Seq<char>) -> Option<Seq<char>> {
    if action == "analyze"@ {
        Some(
            "Analysis requested for "@ + symbol
                + ". Use get_prompt to retrieve the actual prompt for LLM."@,
        )
    } else if action == "get_prompt"@ {
        Some("Prompt generation for "@ + symbol + " - requires Agent LLM integration"@)
    } else if action == "process_decision"@ {
        Some("Decision processing for "@ + symbol + " - requires Agent LLM integration"@)
    } else {
        None
    }
}

/// The tool that asks the model for trading decisions.
pub struct TradingDecisionTool {
    config: TradingDecisionToolConfig,
}

impl TradingDecisionTool {
    /// The settings.
    pub closed spec fn settings(&self) -> TradingDecisionToolConfig {
        self.config
    }

    /// A tool with the given settings.
    pub fn new(config: TradingDecisionToolConfig) -> (t: Self)
        ensures
            t.settings() == config,
    {
        TradingDecisionTool { config }
    }

    /// The settings.
    pub fn config(&self) -> (c: &TradingDecisionToolConfig)
        ensures
            *c == self.settings(),
    {
        &self.config
    }

    /// The tool's name.
    pub fn name(&self) -> (n: &'static str)
        ensures
            n@ == "trading_decision"@,
    {
        "trading_decision"
    }

    /// The tool's description.
    pub fn description(&self) -> (d: &'static str)
        ensures
            d@
                == "Analyze market signals and make trading decisions using AI. Use this tool to get trading recommendations based on technical analysis. Input: {\"symbol\": \"BTCUSDT\", \"action\": \"analyze\"} Output: Trading decision with entry, stop loss, and take profit levels."@,
    {
        "Analyze market signals and make trading decisions using AI. Use this tool to get trading recommendations based on technical analysis. Input: {\"symbol\": \"BTCUSDT\", \"action\": \"analyze\"} Output: Trading decision with entry, stop loss, and take profit levels."
    }

    /// The reply to an action: a success text for `analyze`, `get_prompt`
    /// and `process_decision`, an unknown-action failure otherwise.
    pub fn reply(&self, symbol: &str, action: &str) -> (r: ToolResult)
        ensures
            decision_reply_ok(action@, symbol@) matches Some(text) ==> is_success(r, text),
            decision_reply_ok(action@, symbol@) is None ==> is_failure(
                r,
                "Unknown action: "@ + action@,
            ),
    {
        if str_eq(action, "analyze") {
            let mut s = concat("Analysis requested for ", symbol);
            s.append(". Use get_prompt to retrieve the actual prompt for LLM.");
            success(s)
        } else if str_eq(action, "get_prompt") {
            let mut s = concat("Prompt generation for ", symbol);
            s.append(" - requires Agent LLM integration");
            success(s)
        } else if str_eq(action, "process_decision") {
            let mut s = concat("Decision processing for ", symbol);
            s.append(" - requires Agent LLM integration");
            success(s)
        } else {
            let m = concat("Unknown action: ", action);
            failure(m.as_str())
        }
    }
}

} // verus!

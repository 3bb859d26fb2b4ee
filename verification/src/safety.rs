//! Safety checks between a signal and an order: the reliability gate, the
//! three-layer safety checks on signals and model decisions, and the step of
//! the trading loop that turns a signal into a dispatch.

use vstd::prelude::*;
use crate::signal::{
    LATENCY_SPIKE,
    Signal,
    SignalOutput,
    action_label,
    executes,
    is_latency_spike,
    override_view,
    reliable,
    side_of,
    side_for_action,
};
use crate::text::{concat, str_eq};

verus! {

/// Whole-number risk limits of the decision layer.
pub struct RiskConfig {
    /// Maximum allowed ingestion latency in milliseconds (default: 500ms)
    pub max_latency_ms: i64,
    /// Maximum leverage allowed (default: 10x)
    pub max_leverage: u32,
}

impl Default for RiskConfig {
    fn default() -> (c: Self)
        ensures
            c.max_latency_ms == 500,
            c.max_leverage == 10,
    {
        RiskConfig { max_latency_ms: 500, max_leverage: 10 }
    }
}

/// Gate that lets only reliable signals through.
pub struct SafetyGate {
    config: RiskConfig,
}

impl SafetyGate {
    /// The configured latency limit.
    pub closed spec fn max_latency(&self) -> i64 {
        self.config.max_latency_ms
    }

    /// The configured leverage limit.
    pub closed spec fn max_leverage(&self) -> u32 {
        self.config.max_leverage
    }

    /// A gate with the default limits.
    pub fn new() -> (g: SafetyGate)
        ensures
            g.max_latency() == 500,
            g.max_leverage() == 10,
    {
        SafetyGate { config: RiskConfig::default() }
    }

    /// A gate with the given limits.
    pub fn with_config(config: RiskConfig) -> (g: SafetyGate)
        ensures
            g.max_latency() == config.max_latency_ms,
            g.max_leverage() == config.max_leverage,
    {
        SafetyGate { config }
    }

    /// Whether the signal's data is reliable: its latency is within the
    /// limit and it was not overridden for a latency spike.
    pub fn is_data_reliable(&self, signal: &SignalOutput) -> (r: bool)
        ensures
            r == reliable(
                signal.ingestion_latency_ms,
                override_view(signal.override_reason),
                self.max_latency(),
            ),
    {
        if signal.ingestion_latency_ms > self.config.max_latency_ms {
            return false;
        }
        if is_latency_spike(&signal.override_reason) {
            return false;
        }
        true
    }

    /// The signal's action when its data is reliable, `WAIT` otherwise.
    pub fn get_safe_action(&self, signal: &SignalOutput) -> (s: &'static str)
        ensures
            reliable(
                signal.ingestion_latency_ms,
                override_view(signal.override_reason),
                self.max_latency(),
            ) ==> s@ == action_label(signal.trade_advice),
            !reliable(
                signal.ingestion_latency_ms,
                override_view(signal.override_reason),
                self.max_latency(),
            ) ==> s@ == action_label(Signal::Wait),
    {
        if self.is_data_reliable(signal) {
            signal.action()
        } else {
            "WAIT"
        }
    }

    /// The latency limit.
    pub fn max_latency_ms(&self) -> (m: i64)
        ensures
            m == self.max_latency(),
    {
        self.config.max_latency_ms
    }

    /// Replaces the limits.
    pub fn set_config(&mut self, config: RiskConfig)
        ensures
            final(self).max_latency() == config.max_latency_ms,
            final(self).max_leverage() == config.max_leverage,
    {
        self.config = config;
    }
}

/// Whole-number settings of the trading safety layer.
pub struct TradingSafetyConfig {
    /// Maximum allowed ingestion latency in milliseconds
    pub max_latency_ms: i64,
    /// Minimum confluence score for signals
    pub min_confluence_score: i8,
    /// Maximum leverage allowed
    pub max_leverage: u32,
    /// Maximum daily trades
    pub max_daily_trades: usize,
    /// Require LLM reasoning in response
    pub require_llm_reasoning: bool,
    /// Validate decision format
    pub validate_decision_format: bool,
    /// Override leverage max (override LLM if higher)
    pub override_leverage_max: u32,
}

impl Default for TradingSafetyConfig {
    fn default() -> (c: Self)
        ensures
            c.max_latency_ms == 500,
            c.min_confluence_score == 5,
            c.max_leverage == 10,
            c.max_daily_trades == 20,
            c.require_llm_reasoning,
            c.validate_decision_format,
            c.override_leverage_max == 5,
    {
        TradingSafetyConfig {
            max_latency_ms: 500,
            min_confluence_score: 5,
            max_leverage: 10,
            max_daily_trades: 20,
            require_llm_reasoning: true,
            validate_decision_format: true,
            override_leverage_max: 5,
        }
    }
}

/// Why the safety layer refused a signal or a decision.
#[derive(Debug)]
pub enum SafetyError {
    /// Signal latency above the limit: (latency, limit).
    HighLatency(i64, i64),
    /// Signal overridden for a latency spike.
    LatencySpike,
    /// Confluence too weak: (score, minimum).
    WeakSignal(i8, i8),
    /// Decision word is not EXECUTE or WAIT.
    InvalidDecision(String),
    /// Executing decision without LONG or SHORT.
    InvalidAction(String),
    /// Leverage above the limit: (leverage, limit).
    LeverageTooHigh(u32, u32),
    /// Risk share above the limit.
    RiskTooHigh,
    /// No stop loss.
    StopLossRequired,
    /// No take profit.
    TakeProfitRequired,
    /// Daily trade limit reached: (trades, limit).
    DailyTradeLimit(usize, usize),
    /// Decision contradicts the signal's direction.
    SignalContradiction,
}

/// Absolute value of a confluence score.
pub open spec fn score_abs(s: i8) -> int {
    if s < 0 {
        -s
    } else {
        s as int
    }
}

/// The outcome of the signal pre-check: latency, then latency spike, then confluence.
pub open spec fn pre_check_passes(signal: SignalOutput, config: TradingSafetyConfig) -> bool {
    signal.ingestion_latency_ms <= config.max_latency_ms && override_view(signal.override_reason)
        != Some(LATENCY_SPIKE@) && score_abs(signal.confluence_score)
        >= config.min_confluence_score
}

/// The error of a failed pre-check: latency above the limit first, then a
/// latency spike, then a weak confluence.
pub open spec fn pre_check_error(signal: SignalOutput, config: TradingSafetyConfig) -> SafetyError {
    if signal.ingestion_latency_ms > config.max_latency_ms {
        SafetyError::HighLatency(signal.ingestion_latency_ms, config.max_latency_ms)
    } else if override_view(signal.override_reason) == Some(LATENCY_SPIKE@) {
        SafetyError::LatencySpike
    } else {
        SafetyError::WeakSignal(signal.confluence_score, config.min_confluence_score)
    }
}

/// Results of the checks on a decision's prices, made by the caller on the
/// floating-point values.
pub struct PriceChecks {
    /// The decision's risk share exceeds the configured maximum.
    pub risk_too_high: bool,
    /// The stop loss is zero.
    pub stop_loss_missing: bool,
    /// The take profit is zero.
    pub take_profit_missing: bool,
}

/// A trading decision as the model returns it (whole-number fields).
pub struct TradingDecision {
    /// Decision: "EXECUTE" or "WAIT"
    pub decision: String,
    /// Action: "LONG", "SHORT", or "NONE"
    pub action: String,
    /// Leverage (1-10)
    pub leverage: u32,
    /// Reasoning for the decision
    pub reasoning: String,
}

impl TradingDecision {
    /// Whether the decision is to execute.
    pub fn should_execute(&self) -> (r: bool)
        ensures
            r == executes(self.decision@, self.action@),
    {
        str_eq(self.decision.as_str(), "EXECUTE") && !str_eq(self.action.as_str(), "NONE")
    }

    /// The order side of the decision's action.
    pub fn side(&self) -> (r: Option<&'static str>)
        ensures
            match r {
                Some(s) => side_of(self.action@) == Some(s@),
                None => side_of(self.action@) is None,
            },
    {
        side_for_action(self.action.as_str())
    }
}

/// The decision format is acceptable: EXECUTE or WAIT, and an executing
/// decision goes LONG or SHORT.
pub open spec fn format_ok(decision: Seq<char>, action: Seq<char>) -> bool {
    (decision == "EXECUTE"@ || decision == "WAIT"@) && (executes(decision, action) ==> (action
        == "LONG"@ || action == "SHORT"@))
}

/// Whether the post-check accepts a decision.
pub open spec fn post_check_passes(
    d: TradingDecision,
    checks: PriceChecks,
    config: TradingSafetyConfig,
) -> bool {
    (config.validate_decision_format ==> format_ok(d.decision@, d.action@)) && d.leverage
        <= config.max_leverage && !checks.risk_too_high && !checks.stop_loss_missing
        && !checks.take_profit_missing
}

/// Three-layer safety validation of trading decisions.
pub struct SafetyLayer {
    config: TradingSafetyConfig,
}

impl SafetyLayer {
    /// The settings.
    pub closed spec fn settings(&self) -> TradingSafetyConfig {
        self.config
    }

    /// A safety layer with the given settings.
    pub fn new(config: TradingSafetyConfig) -> (l: SafetyLayer)
        ensures
            l.settings() == config,
    {
        SafetyLayer { config }
    }

    /// A safety layer with the default settings.
    pub fn with_default_config() -> (l: SafetyLayer)
        ensures
            l.settings().max_latency_ms == 500,
            l.settings().min_confluence_score == 5,
            l.settings().max_leverage == 10,
            l.settings().max_daily_trades == 20,
            l.settings().validate_decision_format,
    {
        SafetyLayer { config: TradingSafetyConfig::default() }
    }

    /// Pre-check of a signal before the model is asked: latency, latency
    /// spike, then confluence strength.
    pub fn pre_check(&self, signal: &SignalOutput) -> (r: Result<(), SafetyError>)
        requires
            signal.confluence_score != i8::MIN,
        ensures
            r is Ok <==> pre_check_passes(*signal, self.settings()),
            !pre_check_passes(*signal, self.settings()) ==> r == Err::<(), SafetyError>(
                pre_check_error(*signal, self.settings()),
            ),
            signal.ingestion_latency_ms > self.settings().max_latency_ms ==> (r matches Err(
                SafetyError::HighLatency(l, m),
            ) && l == signal.ingestion_latency_ms && m == self.settings().max_latency_ms),
            signal.ingestion_latency_ms <= self.settings().max_latency_ms && override_view(
                signal.override_reason,
            ) == Some(LATENCY_SPIKE@) ==> r matches Err(SafetyError::LatencySpike),
            signal.ingestion_latency_ms <= self.settings().max_latency_ms && override_view(
                signal.override_reason,
            ) != Some(LATENCY_SPIKE@) && score_abs(signal.confluence_score)
                < self.settings().min_confluence_score ==> (r matches Err(
                SafetyError::WeakSignal(s, m),
            ) && s == signal.confluence_score && m == self.settings().min_confluence_score),
    {
        if signal.ingestion_latency_ms > self.config.max_latency_ms {
            return Err(SafetyError::HighLatency(signal.ingestion_latency_ms, self.config.max_latency_ms));
        }
        if is_latency_spike(&signal.override_reason) {
            return Err(SafetyError::LatencySpike);
        }
        let score = signal.confluence_score;
        let abs: i8 = if score < 0 {
            -score
        } else {
            score
        };
        if abs < self.config.min_confluence_score {
            return Err(SafetyError::WeakSignal(score, self.config.min_confluence_score));
        }
        Ok(())
    }

    /// Post-check of a model decision: format (when enabled), leverage,
    /// risk share, stop loss, then take profit. A missing reasoning and a
    /// direction contrary to the signal's confluence are only warnings.
    pub fn post_check(&self, decision: &TradingDecision, checks: &PriceChecks) -> (r: Result<
        (),
        SafetyError,
    >)
        ensures
            r is Ok <==> post_check_passes(*decision, *checks, self.settings()),
            self.settings().validate_decision_format && !(decision.decision@ == "EXECUTE"@
                || decision.decision@ == "WAIT"@) ==> (r matches Err(
                SafetyError::InvalidDecision(d),
            ) && d@ == decision.decision@),
            (self.settings().validate_decision_format ==> format_ok(
                decision.decision@,
                decision.action@,
            )) && decision.leverage > self.settings().max_leverage ==> (r matches Err(
                SafetyError::LeverageTooHigh(l, m),
            ) && l == decision.leverage && m == self.settings().max_leverage),
            r matches Err(SafetyError::InvalidAction(a)) ==> a@ == decision.action@
                && self.settings().validate_decision_format && executes(
                decision.decision@,
                decision.action@,
            ),
            r matches Err(SafetyError::RiskTooHigh) ==> checks.risk_too_high && decision.leverage
                <= self.settings().max_leverage,
            r matches Err(SafetyError::StopLossRequired) ==> checks.stop_loss_missing
                && !checks.risk_too_high,
            r matches Err(SafetyError::TakeProfitRequired) ==> checks.take_profit_missing
                && !checks.stop_loss_missing && !checks.risk_too_high,
    {
        if self.config.validate_decision_format {
            let d = decision.decision.as_str();
            if !(str_eq(d, "EXECUTE") || str_eq(d, "WAIT")) {
                return Err(SafetyError::InvalidDecision(decision.decision.clone()));
            }
            let a = decision.action.as_str();
            if decision.should_execute() && !(str_eq(a, "LONG") || str_eq(a, "SHORT")) {
                return Err(SafetyError::InvalidAction(decision.action.clone()));
            }
        }
        if decision.leverage > self.config.max_leverage {
            return Err(SafetyError::LeverageTooHigh(decision.leverage, self.config.max_leverage));
        }
        if checks.risk_too_high {
            return Err(SafetyError::RiskTooHigh);
        }
        if checks.stop_loss_missing {
            return Err(SafetyError::StopLossRequired);
        }
        if checks.take_profit_missing {
            return Err(SafetyError::TakeProfitRequired);
        }
        Ok(())
    }

    /// The daily-count part of the risk check: refused once today's trades
    /// reach the daily maximum.
    pub fn check_daily_trades(&self, daily_trades: usize) -> (r: Result<(), SafetyError>)
        ensures
            r is Ok <==> daily_trades < self.settings().max_daily_trades,
            r matches Err(e) ==> e matches SafetyError::DailyTradeLimit(t, m) && t == daily_trades
                && m == self.settings().max_daily_trades,
    {
        if daily_trades >= self.config.max_daily_trades {
            return Err(SafetyError::DailyTradeLimit(daily_trades, self.config.max_daily_trades));
        }
        Ok(())
    }

    /// The minimum confluence score.
    pub fn min_confluence_score(&self) -> (m: i8)
        ensures
            m == self.settings().min_confluence_score,
    {
        self.config.min_confluence_score
    }
}

/// Key of the day's trade counter for a date written `YYYY-MM-DD`.
pub fn daily_count_key(date: &str) -> (k: String)
    ensures
        k@ == "trading:daily_count:"@ + date@,
{
    concat("trading:daily_count:", date)
}

/// Key of the day's PnL for a date written `YYYY-MM-DD`.
pub fn daily_pnl_key(date: &str) -> (k: String)
    ensures
        k@ == "trading:daily_pnl:"@ + date@,
{
    concat("trading:daily_pnl:", date)
}

/// What the trading loop does with one symbol's signal.
#[derive(Debug)]
pub enum LoopAction {
    /// Nothing: confluence too weak, or the advice is to wait.
    Skip,
    /// The signal failed the pre-check.
    Rejected(SafetyError),
    /// Dispatch a market order on the given side.
    Dispatch(&'static str),
}

/// The trading loop's decision for a signal: skip it when its confluence is
/// below the minimum, refuse it when the pre-check fails, and otherwise
/// dispatch BUY for a LONG advice, SELL for a SHORT advice, nothing for WAIT.
pub fn trading_loop_step(signal: &SignalOutput, layer: &SafetyLayer) -> (a: LoopAction)
    requires
        signal.confluence_score != i8::MIN,
    ensures
        score_abs(signal.confluence_score) < layer.settings().min_confluence_score ==> a
            is Skip,
        score_abs(signal.confluence_score) >= layer.settings().min_confluence_score
            && !pre_check_passes(*signal, layer.settings()) ==> (a matches LoopAction::Rejected(e)
            && e == pre_check_error(*signal, layer.settings())),
        pre_check_passes(*signal, layer.settings()) ==> match signal.trade_advice {
            Signal::Long => a matches LoopAction::Dispatch(s) && s@ == "BUY"@,
            Signal::Short => a matches LoopAction::Dispatch(s) && s@ == "SELL"@,
            Signal::Wait => a is Skip,
        },
{
    let score = signal.confluence_score;
    let abs: i8 = if score < 0 {
        -score
    } else {
        score
    };
    if abs < layer.min_confluence_score() {
        return LoopAction::Skip;
    }
    match layer.pre_check(signal) {
        Err(e) => LoopAction::Rejected(e),
        Ok(()) => match signal.trade_advice {
            Signal::Long => LoopAction::Dispatch("BUY"),
            Signal::Short => LoopAction::Dispatch("SELL"),
            Signal::Wait => LoopAction::Skip,
        },
    }
}

/// Whatever a signal's advice, the trading loop never dispatches an order for
/// a signal that the safety gate with the same latency limit finds unreliable.
pub proof fn lemma_unreliable_never_dispatched(signal: SignalOutput, config: TradingSafetyConfig)
    requires
        !reliable(
            signal.ingestion_latency_ms,
            override_view(signal.override_reason),
            config.max_latency_ms,
        ),
    ensures
        !pre_check_passes(signal, config),
{
}

} // verus!

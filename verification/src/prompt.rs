//! Prompts handed to the language model: the fixed system prompt and the
//! assembly of a signal's prompt around its indicator and account lines.

use vstd::prelude::*;
use crate::signal::{SignalOutput, action_label, regime_label};
use crate::text::{concat, i64_to_string, signed_decimal};

verus! {

/// The system prompt that fixes the decision's JSON format.
pub const SYSTEM_PROMPT: &'static str =
    "You are a trading decision AI. Analyze the market data and return a JSON decision.\n\nREQUIRED JSON FORMAT:\n{\n\"decision\": \"EXECUTE\" or \"WATCH\",\n\"action\": \"LONG\", \"SHORT\", or \"NONE\",\n\"params\": {\n\"leverage\": 1-10,\n\"stop_loss\": price_level,\n\"take_profit\": price_level,\n\"risk_percent\": 0.01-0.05\n}\n}\n\nRules:\n- Only EXECUTE if confluence score >= 5 and data is reliable\n- Use appropriate stop loss and take profit levels\n- Never risk more than 5% per trade";

/// The closing question and answer format of a signal prompt.
pub const PROMPT_FOOTER: &'static str =
    "\nWhat is your decision?\nReturn JSON: {\"decision\": \"EXECUTE\"|\"WATCH\", \"action\": \"LONG\"|\"SHORT\"|\"NONE\", \"params\": {\"leverage\": N, \"stop_loss\": N, \"take_profit\": N, \"risk_percent\": N}}";

/// The prompt for a signal: regime and confluence, the indicator lines,
/// the engine's advice, the account lines, then the question.
pub open spec fn prompt_text(
    signal: SignalOutput,
    indicator_lines: Seq<char>,
    account_lines: Seq<char>,
) -> Seq<char> {
    "Market Regime: "@ + regime_label(signal.market_regime) + " | Confluence Score: "@
        + signed_decimal(signal.confluence_score as int) + "/10\n"@ + indicator_lines
        + "Muscle Advice: "@ + action_label(signal.trade_advice) + "\n"@ + account_lines
        + PROMPT_FOOTER@
}

/// Opening of the decision prompt, before the symbol.
pub const DECISION_PROMPT_HEAD: &'static str = "You are a professional cryptocurrency trader.\n\n## Market Data for ";

/// Closing of the decision prompt, after the signal's description.
pub const DECISION_PROMPT_TAIL: &'static str =
    "\n\n## Decision Required\n\nReturn JSON:\n{\n  \"decision\": \"EXECUTE\" or \"WAIT\",\n  \"action\": \"LONG\", \"SHORT\", or \"NONE\",\n  \"leverage\": 1-10,\n  \"stop_loss\": price,\n  \"take_profit\": price,\n  \"risk_percent\": 0.01-0.05,\n  \"reasoning\": \"explanation\"\n}";

/// Opening of the analysis prompt, before the symbol.
pub const ANALYSIS_PROMPT_HEAD: &'static str =
    "You are a professional cryptocurrency trader with 10+ years of experience.\nYou specialize in technical analysis and risk management.\n\n## Market Data for ";

/// Closing of the analysis prompt, after the signal's description.
pub const ANALYSIS_PROMPT_TAIL: &'static str =
    "\n\n## Your Task\n\nAnalyze this market data and make a trading decision.\n\n## Rules\n\n1. Never risk more than 2% per trade\n2. Always use stop loss\n3. Only trade when confluence score >= 7\n4. Prefer trending markets (ADX > 25)\n5. Avoid trading during high volatility unless regime is clearly trending\n\n## Response Format\n\nReturn your decision in JSON format:\n{\n  \"decision\": \"EXECUTE\" or \"WAIT\",\n  \"action\": \"LONG\", \"SHORT\", or \"NONE\",\n  \"leverage\": 1-10,\n  \"stop_loss\": price_level,\n  \"take_profit\": price_level,\n  \"risk_percent\": 0.01-0.05,\n  \"reasoning\": \"Detailed explanation of your analysis\"\n}";

fn framed(head: &str, symbol: &str, signal_prompt: &str, tail: &str) -> (p: String)
    ensures
        p@ == head@ + symbol@ + "\n\n"@ + signal_prompt@ + tail@,
{
    let mut p = concat(head, symbol);
    p.append("\n\n");
    p.append(signal_prompt);
    p.append(tail);
    p
}

/// The prompt that asks the model for a decision on a symbol, around the
/// description of its signal.
pub fn decision_prompt(symbol: &str, signal_prompt: &str) -> (p: String)
    ensures
        p@ == DECISION_PROMPT_HEAD@ + symbol@ + "\n\n"@ + signal_prompt@ + DECISION_PROMPT_TAIL@,
{
    framed(DECISION_PROMPT_HEAD, symbol, signal_prompt, DECISION_PROMPT_TAIL)
}

/// The prompt that asks the model for a full analysis of a symbol, with
/// the trading rules, around the description of its signal.
pub fn analysis_prompt(symbol: &str, signal_prompt: &str) -> (p: String)
    ensures
        p@ == ANALYSIS_PROMPT_HEAD@ + symbol@ + "\n\n"@ + signal_prompt@ + ANALYSIS_PROMPT_TAIL@,
{
    framed(ANALYSIS_PROMPT_HEAD, symbol, signal_prompt, ANALYSIS_PROMPT_TAIL)
}

/// Builds the prompts sent to the language model.
pub struct PromptFactory;

impl PromptFactory {
    /// A prompt factory.
    pub fn new() -> (f: Self) {
        PromptFactory
    }

    /// The prompt for a signal. The indicator lines (RSI, band width,
    /// smoother value, MACD) and the account lines (balance and position,
    /// when known) are written by the caller, which formats their decimals.
    pub fn create_prompt(&self, signal: &SignalOutput, indicator_lines: &str, account_lines: &str) -> (p:
        String)
        ensures
            p@ == prompt_text(*signal, indicator_lines@, account_lines@),
    {
        let mut p = String::from_str("Market Regime: ");
        p.append(signal.market_regime.as_str());
        p.append(" | Confluence Score: ");
        let score = i64_to_string(signal.confluence_score as i64);
        p.append(score.as_str());
        p.append("/10\n");
        p.append(indicator_lines);
        p.append("Muscle Advice: ");
        p.append(signal.action());
        p.append("\n");
        p.append(account_lines);
        p.append(PROMPT_FOOTER);
        p
    }

    /// The system prompt that fixes the decision's JSON format.
    pub fn system_prompt() -> (s: &'static str)
        ensures
            s@ == SYSTEM_PROMPT@,
    {
        SYSTEM_PROMPT
    }
}

impl Default for PromptFactory {
    fn default() -> (f: Self) {
        PromptFactory::new()
    }
}

} // verus!

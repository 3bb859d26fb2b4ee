//! Trading signals as the engine publishes them and as the decision layer
//! reads them: market regime, trade direction, latency and override marks,
//! and the decisions returned by the language model.

use vstd::prelude::*;
use vstd::string::*;
use crate::text::str_eq;

verus! {

/// Market regime classification.
#[derive(Debug, Clone, Copy, PartialEq, Eq, Structural)]
pub enum MarketRegime {
    /// Strong trend market (ADX > 25)
    Trending,
    /// Range-bound market (ADX < 20, low volatility)
    Ranging,
    /// High volatility market
    Volatile,
}

/// The upper-case label under which a regime is displayed and serialized.
pub open spec fn regime_label(r: MarketRegime) -> Seq<char> {
    match r {
        MarketRegime::Trending => "TRENDING"@,
        MarketRegime::Ranging => "RANGING"@,
        MarketRegime::Volatile => "VOLATILE"@,
    }
}

impl MarketRegime {
    /// Display label of the regime.
    pub fn as_str(&self) -> (s: &'static str)
        ensures
            s@ == regime_label(*self),
    {
        match self {
            MarketRegime::Trending => "TRENDING",
            MarketRegime::Ranging => "RANGING",
            MarketRegime::Volatile => "VOLATILE",
        }
    }

    /// Display label of the regime, as an owned string.
    pub fn to_string(&self) -> (s: String)
        ensures
            s@ == regime_label(*self),
    {
        String::from_str(self.as_str())
    }
}

/// Trading signal direction.
#[derive(Debug, Clone, Copy, PartialEq, Eq, Structural)]
pub enum Signal {
    /// Long (buy)
    Long,
    /// Short (sell)
    Short,
    /// No position / wait
    Wait,
}

/// The action word of a direction.
pub open spec fn action_label(s: Signal) -> Seq<char> {
    match s {
        Signal::Long => "LONG"@,
        Signal::Short => "SHORT"@,
        Signal::Wait => "WAIT"@,
    }
}

impl Signal {
    /// The action word: `LONG`, `SHORT` or `WAIT`.
    pub fn action(&self) -> (s: &'static str)
        ensures
            s@ == action_label(*self),
    {
        match self {
            Signal::Long => "LONG",
            Signal::Short => "SHORT",
            Signal::Wait => "WAIT",
        }
    }
}

impl Default for Signal {
    fn default() -> (s: Self)
        ensures
            s == Signal::Wait,
    {
        Signal::Wait
    }
}

/// Override reason of a signal whose ingestion was too slow.
pub const LATENCY_SPIKE: &'static str = "LATENCY_SPIKE";

/// A published signal: time, regime, confluence, advice, ingestion latency
/// and the reason its advice was overridden, if it was.
pub struct SignalOutput {
    /// Timestamp of the signal in milliseconds since epoch
    pub timestamp_ms: i64,
    /// Current market regime
    pub market_regime: MarketRegime,
    /// Aggregated confluence score (-10 to +10)
    pub confluence_score: i8,
    /// Final trade advice after aggregation and safety checks
    pub trade_advice: Signal,
    /// Ingestion latency in milliseconds
    pub ingestion_latency_ms: i64,
    /// Reason if trade_advice was overridden by safety mechanisms
    pub override_reason: Option<String>,
}

/// The override reason of a signal, as characters.
pub open spec fn override_view(o: Option<String>) -> Option<Seq<char>> {
    match o {
        Some(s) => Some(s@),
        None => None,
    }
}

/// A signal is reliable for a latency limit when its latency is within the
/// limit and it was not overridden for a latency spike.
pub open spec fn reliable(latency_ms: i64, reason: Option<Seq<char>>, max_latency_ms: i64) -> bool {
    latency_ms <= max_latency_ms && reason != Some(LATENCY_SPIKE@)
}

/// Whether an override reason is the latency spike mark.
pub fn is_latency_spike(reason: &Option<String>) -> (r: bool)
    ensures
        r == (override_view(*reason) == Some(LATENCY_SPIKE@)),
{
    match reason {
        Some(s) => str_eq(s.as_str(), LATENCY_SPIKE),
        None => false,
    }
}

impl SignalOutput {
    /// A new signal. Its ingestion latency is the time from the close of the
    /// kline it was computed from to `now_ms`.
    pub fn new(
        timestamp_ms: i64,
        market_regime: MarketRegime,
        confluence_score: i8,
        trade_advice: Signal,
        kline_timestamp_ms: i64,
        now_ms: i64,
    ) -> (s: SignalOutput)
        requires
            i64::MIN <= now_ms - kline_timestamp_ms <= i64::MAX,
        ensures
            s.timestamp_ms == timestamp_ms,
            s.market_regime == market_regime,
            s.confluence_score == confluence_score,
            s.trade_advice == trade_advice,
            s.ingestion_latency_ms == now_ms - kline_timestamp_ms,
            s.override_reason is None,
    {
        SignalOutput {
            timestamp_ms,
            market_regime,
            confluence_score,
            trade_advice,
            ingestion_latency_ms: now_ms - kline_timestamp_ms,
            override_reason: None,
        }
    }

    /// Forces the advice to `Wait`, marked `LATENCY_SPIKE`, when the latency
    /// exceeds the limit; otherwise leaves the signal as it is.
    pub fn apply_latency_safety_check(&mut self, max_latency_ms: i64)
        ensures
            final(self).timestamp_ms == old(self).timestamp_ms,
            final(self).market_regime == old(self).market_regime,
            final(self).confluence_score == old(self).confluence_score,
            final(self).ingestion_latency_ms == old(self).ingestion_latency_ms,
            old(self).ingestion_latency_ms > max_latency_ms ==> final(self).trade_advice
                == Signal::Wait && override_view(final(self).override_reason) == Some(
                LATENCY_SPIKE@,
            ),
            old(self).ingestion_latency_ms <= max_latency_ms ==> final(self).trade_advice == old(
                self,
            ).trade_advice && override_view(final(self).override_reason) == override_view(
                old(self).override_reason,
            ),
    {
        if self.ingestion_latency_ms > max_latency_ms {
            self.trade_advice = Signal::Wait;
            self.override_reason = Some(String::from_str(LATENCY_SPIKE));
        }
    }

    /// Whether the signal is reliable for a latency limit.
    pub fn is_reliable(&self, max_latency_ms: i64) -> (r: bool)
        ensures
            r == reliable(
                self.ingestion_latency_ms,
                override_view(self.override_reason),
                max_latency_ms,
            ),
    {
        self.ingestion_latency_ms <= max_latency_ms && !is_latency_spike(&self.override_reason)
    }

    /// The recommended action word.
    pub fn action(&self) -> (s: &'static str)
        ensures
            s@ == action_label(self.trade_advice),
    {
        self.trade_advice.action()
    }
}

/// A signal whose advice the latency check overrode is unreliable for every
/// limit, and one it left alone keeps its reliability for the limit it was
/// checked against.
pub proof fn lemma_latency_override_unreliable(
    latency_ms: i64,
    checked_against: i64,
    before: Option<Seq<char>>,
    after: Option<Seq<char>>,
)
    requires
        latency_ms > checked_against ==> after == Some(LATENCY_SPIKE@),
        latency_ms <= checked_against ==> after == before,
    ensures
        latency_ms > checked_against ==> forall|m: i64| !reliable(latency_ms, after, m),
        latency_ms <= checked_against ==> reliable(latency_ms, after, checked_against) == (before
            != Some(LATENCY_SPIKE@)),
{
}

/// Parameters of a model decision that are whole numbers.
pub struct DecisionParams {
    /// Leverage (1x, 2x, etc.)
    pub leverage: u32,
}

/// A decision returned by the language model.
pub struct LLMDecision {
    /// Decision: "EXECUTE" or "WATCH"
    pub decision: String,
    /// Action: "LONG", "SHORT", or "NONE"
    pub action: String,
    /// Decision parameters
    pub params: DecisionParams,
}

/// A decision executes when it says EXECUTE with an action other than NONE.
pub open spec fn executes(decision: Seq<char>, action: Seq<char>) -> bool {
    decision == "EXECUTE"@ && action != "NONE"@
}

/// Which decisions execute: only those whose word is EXECUTE, and of those
/// every one whose action is not NONE; in particular an EXECUTE decision to go
/// LONG or SHORT executes, and every action that has an order side executes
/// exactly when the word is EXECUTE.
pub proof fn lemma_execute_decisions(decision: Seq<char>, action: Seq<char>)
    ensures
        executes(decision, action) ==> decision == "EXECUTE"@,
        executes(decision, action) ==> action != "NONE"@,
        decision == "EXECUTE"@ && action != "NONE"@ ==> executes(decision, action),
        executes("EXECUTE"@, "LONG"@),
        executes("EXECUTE"@, "SHORT"@),
        !executes(decision, "NONE"@),
        side_of(action) is Some ==> (executes(decision, action) <==> decision == "EXECUTE"@),
{
    reveal_strlit("LONG");
    reveal_strlit("SHORT");
    reveal_strlit("NONE");
    assert("LONG"@[0] != "NONE"@[0]);
    assert("SHORT"@[0] != "NONE"@[0]);
}

/// The order side of an action: BUY for LONG, SELL for SHORT, none otherwise.
pub open spec fn side_of(action: Seq<char>) -> Option<Seq<char>> {
    if action == "LONG"@ {
        Some("BUY"@)
    } else if action == "SHORT"@ {
        Some("SELL"@)
    } else {
        None
    }
}

/// The order side of an action.
pub fn side_for_action(action: &str) -> (r: Option<&'static str>)
    ensures
        match r {
            Some(s) => side_of(action@) == Some(s@),
            None => side_of(action@) is None,
        },
{
    if str_eq(action, "LONG") {
        Some("BUY")
    } else if str_eq(action, "SHORT") {
        Some("SELL")
    } else {
        None
    }
}

impl LLMDecision {
    /// Whether the decision is to execute.
    pub fn should_execute(&self) -> (r: bool)
        ensures
            r == executes(self.decision@, self.action@),
    {
        str_eq(self.decision.as_str(), "EXECUTE") && !str_eq(self.action.as_str(), "NONE")
    }

    /// The order side of the decision's action.
    pub fn side(&self) -> (r: Option<&'static str>)
        ensures
            match r {
                Some(s) => side_of(self.action@) == Some(s@),
                None => side_of(self.action@) is None,
            },
    {
        side_for_action(self.action.as_str())
    }
}

/// The side of the command built from a decision: its order side, BUY when
/// its action has none.
pub fn command_side(decision: &LLMDecision) -> (s: &'static str)
    ensures
        side_of(decision.action@) matches Some(side) ==> s@ == side,
        side_of(decision.action@) is None ==> s@ == "BUY"@,
{
    match decision.side() {
        Some(side) => side,
        None => "BUY",
    }
}

/// The part of a model reply that holds its JSON object: from the first `{`
/// to the last `}`, both included, when both occur in that order.
pub open spec fn json_span(t: Seq<char>) -> Option<Seq<char>> {
    match (t.index_of_first('{'), t.index_of_last('}')) {
        (Some(a), Some(b)) => if a <= b {
            Some(t.subrange(a, b + 1))
        } else {
            None
        },
        _ => None,
    }
}

/// Cuts the JSON object out of a model reply that is not JSON as a whole.
/// A reply whose last `}` comes before its first `{` holds no object.
pub fn decision_json_span(text: &str) -> (r: Option<String>)
    ensures
        match r {
            Some(s) => json_span(text@) == Some(s@),
            None => json_span(text@) is None,
        },
{
    let n = text.unicode_len();
    let mut a: usize = 0;
    while a < n && text.get_char(a) != '{'
        invariant
            n == text@.len(),
            a <= n,
            forall|j: int| 0 <= j < a ==> text@[j] != '{',
        decreases n - a,
    {
        a = a + 1;
    }
    let mut b: usize = n;
    while b > 0 && text.get_char(b - 1) != '}'
        invariant
            n == text@.len(),
            b <= n,
            forall|j: int| b <= j < n ==> text@[j] != '}',
        decreases b,
    {
        b = b - 1;
    }
    proof {
        text@.index_of_first_ensures('{');
        text@.index_of_last_ensures('}');
    }
    if a < n && b > 0 {
        proof {
            assert(text@[a as int] == '{');
            assert(text@[b - 1] == '}');
            assert(text@.contains('{'));
            assert(text@.contains('}'));
        }
        if a <= b - 1 {
            let span = text.substring_char(a, b);
            return Some(String::from_str(span));
        }
        return None;
    }
    proof {
        if a == n {
            assert(!text@.contains('{'));
        } else {
            assert(!text@.contains('}'));
        }
    }
    None
}

/// Why a model decision is malformed.
#[derive(Debug)]
pub enum DecisionError {
    /// The decision word is neither EXECUTE nor WATCH.
    InvalidDecision(String),
    /// An executing decision has an action other than LONG or SHORT.
    InvalidAction(String),
    /// The leverage is outside 1..=10.
    InvalidLeverage(u32),
    /// The risk share is outside [0, 0.1].
    InvalidRiskPercent,
}

/// Checks the format of a model decision in order: the decision word, the
/// action of an executing decision, the leverage, then the risk share, whose
/// range test (`risk_percent_in_range`) is made on the floating-point value
/// by the caller.
pub fn validate_decision(
    decision: &LLMDecision,
    risk_percent_in_range: bool,
) -> (r: Result<(), DecisionError>)
    ensures
        r is Ok <==> ((decision.decision@ == "EXECUTE"@ || decision.decision@ == "WATCH"@) && (
        executes(decision.decision@, decision.action@) ==> (decision.action@ == "LONG"@
            || decision.action@ == "SHORT"@)) && 1 <= decision.params.leverage <= 10
            && risk_percent_in_range),
        !(decision.decision@ == "EXECUTE"@ || decision.decision@ == "WATCH"@) ==> (r matches Err(
            DecisionError::InvalidDecision(d),
        ) && d@ == decision.decision@),
        (decision.decision@ == "EXECUTE"@ || decision.decision@ == "WATCH"@) && executes(
            decision.decision@,
            decision.action@,
        ) && !(decision.action@ == "LONG"@ || decision.action@ == "SHORT"@) ==> (r matches Err(
            DecisionError::InvalidAction(a),
        ) && a@ == decision.action@),
        r matches Err(DecisionError::InvalidLeverage(l)) ==> l == decision.params.leverage,
        r matches Err(DecisionError::InvalidRiskPercent) ==> 1 <= decision.params.leverage <= 10,
{
    let d = decision.decision.as_str();
    if !(str_eq(d, "EXECUTE") || str_eq(d, "WATCH")) {
        return Err(DecisionError::InvalidDecision(decision.decision.clone()));
    }
    let a = decision.action.as_str();
    if decision.should_execute() && !(str_eq(a, "LONG") || str_eq(a, "SHORT")) {
        return Err(DecisionError::InvalidAction(decision.action.clone()));
    }
    if decision.params.leverage < 1 || decision.params.leverage > 10 {
        return Err(DecisionError::InvalidLeverage(decision.params.leverage));
    }
    if !risk_percent_in_range {
        return Err(DecisionError::InvalidRiskPercent);
    }
    Ok(())
}

} // verus!

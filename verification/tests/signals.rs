use zeroclaw::signal::{command_side, decision_json_span};
use zeroclaw::prompt::{analysis_prompt, decision_prompt};
use zeroclaw::signal::{
    validate_decision, DecisionError, DecisionParams, LLMDecision, MarketRegime, Signal,
    SignalOutput, LATENCY_SPIKE,
};
use zeroclaw::safety::{RiskConfig, SafetyGate};
use zeroclaw::prompt::PromptFactory;

fn create_test_signal(latency: i64, override_reason: Option<&str>) -> SignalOutput {
    SignalOutput {
        timestamp_ms: 1000,
        market_regime: MarketRegime::Trending,
        confluence_score: 5,
        trade_advice: Signal::Long,
        ingestion_latency_ms: latency,
        override_reason: override_reason.map(String::from),
    }
}

fn decision(word: &str, action: &str, leverage: u32) -> LLMDecision {
    LLMDecision {
        decision: word.to_string(),
        action: action.to_string(),
        params: DecisionParams { leverage },
    }
}

#[test]
fn test_market_regime_display() {
    assert_eq!(MarketRegime::Trending.to_string(), "TRENDING");
    assert_eq!(MarketRegime::Ranging.to_string(), "RANGING");
    assert_eq!(MarketRegime::Volatile.to_string(), "VOLATILE");
}

#[test]
fn test_signal_action() {
    assert_eq!(Signal::Long.action(), "LONG");
    assert_eq!(Signal::Short.action(), "SHORT");
    assert_eq!(Signal::Wait.action(), "WAIT");
}

#[test]
fn test_signal_output_is_reliable() {
    let signal = SignalOutput {
        timestamp_ms: 1000,
        market_regime: MarketRegime::Trending,
        confluence_score: 5,
        trade_advice: Signal::Long,
        ingestion_latency_ms: 100,
        override_reason: None,
    };
    assert!(signal.is_reliable(500));
    assert!(!signal.is_reliable(50));
}

#[test]
fn test_llm_decision_should_execute() {
    assert!(decision("EXECUTE", "LONG", 1).should_execute());
    assert!(!decision("WATCH", "NONE", 1).should_execute());
}

#[test]
fn llm_decision_side_maps_actions() {
    assert_eq!(decision("EXECUTE", "LONG", 1).side(), Some("BUY"));
    assert_eq!(decision("EXECUTE", "SHORT", 1).side(), Some("SELL"));
    assert_eq!(decision("EXECUTE", "NONE", 1).side(), None);
}

#[test]
fn test_validate_decision_valid() {
    assert!(validate_decision(&decision("EXECUTE", "LONG", 5), true).is_ok());
}

#[test]
fn test_validate_decision_invalid() {
    assert!(validate_decision(&decision("INVALID", "LONG", 5), true).is_err());
}

#[test]
fn validate_decision_reports_each_error() {
    match validate_decision(&decision("MAYBE", "LONG", 5), true) {
        Err(DecisionError::InvalidDecision(d)) => assert_eq!(d, "MAYBE"),
        other => panic!("unexpected {:?}", other),
    }
    match validate_decision(&decision("EXECUTE", "HOLD", 5), true) {
        Err(DecisionError::InvalidAction(a)) => assert_eq!(a, "HOLD"),
        other => panic!("unexpected {:?}", other),
    }
    match validate_decision(&decision("WATCH", "NONE", 0), true) {
        Err(DecisionError::InvalidLeverage(l)) => assert_eq!(l, 0),
        other => panic!("unexpected {:?}", other),
    }
    match validate_decision(&decision("WATCH", "NONE", 11), true) {
        Err(DecisionError::InvalidLeverage(l)) => assert_eq!(l, 11),
        other => panic!("unexpected {:?}", other),
    }
    assert!(matches!(
        validate_decision(&decision("EXECUTE", "SHORT", 10), false),
        Err(DecisionError::InvalidRiskPercent)
    ));
    assert!(validate_decision(&decision("WATCH", "NONE", 1), true).is_ok());
}

#[test]
fn signal_output_new_measures_latency() {
    let s = SignalOutput::new(2000, MarketRegime::Ranging, -4, Signal::Short, 1000, 1250);
    assert_eq!(s.ingestion_latency_ms, 250);
    assert_eq!(s.confluence_score, -4);
    assert!(s.override_reason.is_none());
}

#[test]
fn latency_check_overrides_slow_signals() {
    let mut slow = create_test_signal(600, None);
    slow.apply_latency_safety_check(500);
    assert_eq!(slow.trade_advice, Signal::Wait);
    assert_eq!(slow.override_reason.as_deref(), Some(LATENCY_SPIKE));
    assert!(!slow.is_reliable(1_000_000));

    let mut fast = create_test_signal(100, None);
    fast.apply_latency_safety_check(500);
    assert_eq!(fast.trade_advice, Signal::Long);
    assert!(fast.override_reason.is_none());
}

#[test]
fn test_is_data_reliable_ok() {
    let gate = SafetyGate::new();
    let signal = create_test_signal(100, None);
    assert!(gate.is_data_reliable(&signal));
}

#[test]
fn test_is_data_reliable_latency_too_high() {
    let gate = SafetyGate::new();
    let signal = create_test_signal(600, None);
    assert!(!gate.is_data_reliable(&signal));
}

#[test]
fn test_is_data_reliable_latency_spike() {
    let gate = SafetyGate::new();
    let signal = create_test_signal(100, Some("LATENCY_SPIKE"));
    assert!(!gate.is_data_reliable(&signal));
}

#[test]
fn test_get_safe_action() {
    let gate = SafetyGate::new();
    let signal = create_test_signal(100, None);
    assert_eq!(gate.get_safe_action(&signal), "LONG");
    let signal = create_test_signal(600, None);
    assert_eq!(gate.get_safe_action(&signal), "WAIT");
}

#[test]
fn test_custom_config() {
    let config = RiskConfig { max_latency_ms: 1000, ..Default::default() };
    let mut gate = SafetyGate::with_config(config);
    let signal = create_test_signal(800, None);
    assert!(gate.is_data_reliable(&signal));
    gate.set_config(RiskConfig::default());
    assert!(!gate.is_data_reliable(&signal));
    assert_eq!(gate.max_latency_ms(), 500);
}

#[test]
fn test_system_prompt() {
    let prompt = PromptFactory::system_prompt();
    assert!(prompt.contains("EXECUTE"));
    assert!(prompt.contains("WATCH"));
    assert!(prompt.contains("JSON"));
}

#[test]
fn test_create_prompt_basic() {
    let factory = PromptFactory::new();
    let signal = SignalOutput {
        timestamp_ms: 1000,
        market_regime: MarketRegime::Trending,
        confluence_score: 7,
        trade_advice: Signal::Long,
        ingestion_latency_ms: 50,
        override_reason: None,
    };
    let indicators = "Indicators: RSI(65.0), BB_Width(5.00%), US_Value(49800.00)\nMACD: 100.00 | Signal: 80.00 | Histogram: 20.00\n";
    let prompt = factory.create_prompt(&signal, indicators, "");
    assert!(prompt.contains("TRENDING"));
    assert!(prompt.contains("Confluence Score: 7/10"));
    assert!(prompt.contains("RSI(65.0)"));
    assert!(prompt.contains("Muscle Advice: LONG"));
}

#[test]
fn create_prompt_orders_its_parts() {
    let factory = PromptFactory::default();
    let signal = SignalOutput {
        timestamp_ms: 1,
        market_regime: MarketRegime::Volatile,
        confluence_score: -6,
        trade_advice: Signal::Short,
        ingestion_latency_ms: 5,
        override_reason: None,
    };
    let prompt = factory.create_prompt(&signal, "IND\n", "ACC\n");
    assert!(prompt.starts_with("Market Regime: VOLATILE | Confluence Score: -6/10\nIND\nMuscle Advice: SHORT\nACC\n\nWhat is your decision?\n"));
    assert!(prompt.ends_with("\"risk_percent\": N}}"));
}

#[test]
fn json_span_cuts_the_object_out() {
    assert_eq!(
        decision_json_span("Sure! {\"decision\": \"WATCH\"} hope this helps").as_deref(),
        Some("{\"decision\": \"WATCH\"}")
    );
    assert_eq!(decision_json_span("a {x} b {y} c").as_deref(), Some("{x} b {y}"));
    assert_eq!(decision_json_span("no object here"), None);
    assert_eq!(decision_json_span("} backwards {"), None);
    assert_eq!(decision_json_span("é{ü}"), Some("{ü}".to_string()));
}

#[test]
fn command_side_defaults_to_buy() {
    assert_eq!(command_side(&decision("EXECUTE", "SHORT", 1)), "SELL");
    assert_eq!(command_side(&decision("EXECUTE", "LONG", 1)), "BUY");
    assert_eq!(command_side(&decision("WATCH", "NONE", 1)), "BUY");
}

#[test]
fn decision_and_analysis_prompts() {
    let p = decision_prompt("BTCUSDT", "SIGNAL");
    assert!(p.starts_with("You are a professional cryptocurrency trader.\n\n## Market Data for BTCUSDT\n\nSIGNAL\n\n## Decision Required"));
    assert!(p.ends_with("\"reasoning\": \"explanation\"\n}"));
    let a = analysis_prompt("ETHUSDT", "S");
    assert!(a.contains("## Market Data for ETHUSDT\n\nS\n\n## Your Task"));
    assert!(a.contains("3. Only trade when confluence score >= 7"));
}

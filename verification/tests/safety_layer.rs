use zeroclaw::safety::{
    daily_count_key, daily_pnl_key, trading_loop_step, LoopAction, PriceChecks, SafetyError,
    SafetyLayer, TradingDecision, TradingSafetyConfig,
};
use zeroclaw::signal::{MarketRegime, Signal, SignalOutput};

fn create_test_signal() -> SignalOutput {
    SignalOutput {
        timestamp_ms: 1000,
        market_regime: MarketRegime::Trending,
        confluence_score: 7,
        trade_advice: Signal::Long,
        ingestion_latency_ms: 100,
        override_reason: None,
    }
}

fn create_test_decision() -> TradingDecision {
    TradingDecision {
        decision: "EXECUTE".to_string(),
        action: "LONG".to_string(),
        leverage: 5,
        reasoning: "Test reasoning".to_string(),
    }
}

fn prices_ok() -> PriceChecks {
    PriceChecks { risk_too_high: false, stop_loss_missing: false, take_profit_missing: false }
}

#[test]
fn test_pre_check_ok() {
    let layer = SafetyLayer::with_default_config();
    assert!(layer.pre_check(&create_test_signal()).is_ok());
}

#[test]
fn test_pre_check_latency() {
    let layer = SafetyLayer::with_default_config();
    let mut signal = create_test_signal();
    signal.ingestion_latency_ms = 600;
    assert!(layer.pre_check(&signal).is_err());
}

#[test]
fn test_post_check_ok() {
    let layer = SafetyLayer::with_default_config();
    assert!(layer.post_check(&create_test_decision(), &prices_ok()).is_ok());
}

#[test]
fn test_post_check_leverage() {
    let layer = SafetyLayer::with_default_config();
    let mut decision = create_test_decision();
    decision.leverage = 15;
    assert!(layer.post_check(&decision, &prices_ok()).is_err());
}

#[test]
fn test_safety_layer_pre_check() {
    let safety = SafetyLayer::with_default_config();
    let mut signal = create_test_signal();
    signal.ingestion_latency_ms = 50;
    assert!(safety.pre_check(&signal).is_ok());
    let mut high_latency_signal = create_test_signal();
    high_latency_signal.ingestion_latency_ms = 600;
    assert!(safety.pre_check(&high_latency_signal).is_err());
}

#[test]
fn test_safety_layer_post_check() {
    let safety = SafetyLayer::with_default_config();
    let mut decision = create_test_decision();
    decision.reasoning = "Strong bullish signal with confluence".to_string();
    assert!(safety.post_check(&decision, &prices_ok()).is_ok());
    let mut high_leverage_decision = decision;
    high_leverage_decision.leverage = 15;
    assert!(safety.post_check(&high_leverage_decision, &prices_ok()).is_err());
}

#[test]
fn pre_check_reports_each_error() {
    let layer = SafetyLayer::with_default_config();
    let mut s = create_test_signal();
    s.ingestion_latency_ms = 501;
    assert!(matches!(layer.pre_check(&s), Err(SafetyError::HighLatency(501, 500))));
    let mut s = create_test_signal();
    s.override_reason = Some("LATENCY_SPIKE".to_string());
    assert!(matches!(layer.pre_check(&s), Err(SafetyError::LatencySpike)));
    let mut s = create_test_signal();
    s.confluence_score = -4;
    assert!(matches!(layer.pre_check(&s), Err(SafetyError::WeakSignal(-4, 5))));
    s.confluence_score = -5;
    assert!(layer.pre_check(&s).is_ok());
}

#[test]
fn post_check_reports_each_error() {
    let layer = SafetyLayer::new(TradingSafetyConfig::default());
    let mut d = create_test_decision();
    d.decision = "WATCH".to_string();
    assert!(matches!(layer.post_check(&d, &prices_ok()), Err(SafetyError::InvalidDecision(ref w)) if w == "WATCH"));
    let mut d = create_test_decision();
    d.action = "HOLD".to_string();
    assert!(matches!(layer.post_check(&d, &prices_ok()), Err(SafetyError::InvalidAction(ref a)) if a == "HOLD"));
    let d = create_test_decision();
    let risky = PriceChecks { risk_too_high: true, ..prices_ok() };
    assert!(matches!(layer.post_check(&d, &risky), Err(SafetyError::RiskTooHigh)));
    let no_sl = PriceChecks { stop_loss_missing: true, ..prices_ok() };
    assert!(matches!(layer.post_check(&d, &no_sl), Err(SafetyError::StopLossRequired)));
    let no_tp = PriceChecks { take_profit_missing: true, ..prices_ok() };
    assert!(matches!(layer.post_check(&d, &no_tp), Err(SafetyError::TakeProfitRequired)));
}

#[test]
fn daily_trade_limit_is_enforced() {
    let layer = SafetyLayer::with_default_config();
    assert!(layer.check_daily_trades(19).is_ok());
    assert!(matches!(layer.check_daily_trades(20), Err(SafetyError::DailyTradeLimit(20, 20))));
}

#[test]
fn daily_keys_carry_the_date() {
    assert_eq!(daily_count_key("2024-03-01"), "trading:daily_count:2024-03-01");
    assert_eq!(daily_pnl_key("2024-03-01"), "trading:daily_pnl:2024-03-01");
}

#[test]
fn trading_loop_dispatches_only_checked_signals() {
    let layer = SafetyLayer::with_default_config();
    let signal = create_test_signal();
    assert!(matches!(trading_loop_step(&signal, &layer), LoopAction::Dispatch("BUY")));
    let mut short = create_test_signal();
    short.trade_advice = Signal::Short;
    short.confluence_score = -8;
    assert!(matches!(trading_loop_step(&short, &layer), LoopAction::Dispatch("SELL")));
    let mut weak = create_test_signal();
    weak.confluence_score = 3;
    assert!(matches!(trading_loop_step(&weak, &layer), LoopAction::Skip));
    let mut slow = create_test_signal();
    slow.ingestion_latency_ms = 900;
    assert!(matches!(trading_loop_step(&slow, &layer), LoopAction::Rejected(SafetyError::HighLatency(900, 500))));
    let mut wait = create_test_signal();
    wait.trade_advice = Signal::Wait;
    assert!(matches!(trading_loop_step(&wait, &layer), LoopAction::Skip));
}

#[test]
fn trading_decision_side_and_execution() {
    let d = create_test_decision();
    assert!(d.should_execute());
    assert_eq!(d.side(), Some("BUY"));
    let mut none = create_test_decision();
    none.action = "NONE".to_string();
    assert!(!none.should_execute());
    assert_eq!(none.side(), None);
}

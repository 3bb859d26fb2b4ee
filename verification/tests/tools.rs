use zeroclaw::tools::{
    ExecutionBridgeTool, MarketAnalyzerTool, TradingDecisionTool, TradingDecisionToolConfig,
    LEVERAGE_RANGE_MESSAGE, RISK_RANGE_MESSAGE, SIDE_MESSAGE,
};

#[test]
fn execution_bridge_test_tool_metadata() {
    let tool = ExecutionBridgeTool::new("redis://localhost:6379");
    assert_eq!(tool.name(), "dispatch_execution");
    assert!(tool.description().contains("Execution Engine"));
    assert!(tool.description().contains("Redis"));
}

#[test]
fn test_parameter_validation() {
    let tool = ExecutionBridgeTool::new("redis://localhost:6379");
    let refused = tool.check_args(15, true, "BUY").expect("leverage 15 must be refused");
    assert!(!refused.success);
    assert_eq!(refused.error.as_deref(), Some(LEVERAGE_RANGE_MESSAGE));
    assert!(tool.check_args(10, true, "BUY").is_none());
}

#[test]
fn bridge_checks_in_order() {
    let tool = ExecutionBridgeTool::with_prefix("redis://r", "q");
    assert_eq!(tool.check_args(0, false, "HOLD").unwrap().error.as_deref(), Some(LEVERAGE_RANGE_MESSAGE));
    assert_eq!(tool.check_args(3, false, "HOLD").unwrap().error.as_deref(), Some(RISK_RANGE_MESSAGE));
    let side = tool.check_args(3, true, "HOLD").unwrap();
    assert_eq!(side.error.as_deref(), Some(SIDE_MESSAGE));
    assert_eq!(side.output, "");
    assert!(tool.check_args(3, true, "sell").is_none());
    assert_eq!(tool.queue_key("BTCUSDT"), "q:BTCUSDT");
    assert_eq!(ExecutionBridgeTool::new("u").queue_key("ETHUSDT"), "execution:queue:ETHUSDT");
    assert_eq!(tool.redis_url(), "redis://r");
}

#[test]
fn market_analyzer_test_tool_metadata() {
    let tool = MarketAnalyzerTool::new("redis://localhost:6379");
    assert_eq!(tool.name(), "get_market_signal");
    assert!(tool.description().contains("Muscle-Kit"));
    assert!(tool.description().contains("Redis"));
}

#[test]
fn market_analyzer_notes() {
    let tool = MarketAnalyzerTool::with_latency("redis://localhost:6379", 200);
    assert_eq!(tool.signal_key("btcusdt"), "market:signal:BTCUSDT");
    assert_eq!(tool.latency_note(150), "\nLatency: 150ms (OK)");
    assert_eq!(tool.latency_note(250), "\n⚠️ DATA STALE: HIGH LATENCY DETECTED (250ms > 200ms)");
    assert_eq!(tool.no_signal_message("ethusdt"), "No signal found for ETHUSDT");
    assert_eq!(MarketAnalyzerTool::new("r").latency_note(500), "\nLatency: 500ms (OK)");
}

#[test]
fn test_tool_name() {
    let config = TradingDecisionToolConfig::default();
    let tool = TradingDecisionTool::new(config);
    assert_eq!(tool.name(), "trading_decision");
}

#[test]
fn test_tool_description() {
    let config = TradingDecisionToolConfig::default();
    let tool = TradingDecisionTool::new(config);
    assert!(!tool.description().is_empty());
    assert!(tool.description().contains("trading"));
}

#[test]
fn decision_tool_replies() {
    let tool = TradingDecisionTool::new(TradingDecisionToolConfig::default());
    let r = tool.reply("BTCUSDT", "analyze");
    assert!(r.success);
    assert_eq!(r.output, "Analysis requested for BTCUSDT. Use get_prompt to retrieve the actual prompt for LLM.");
    assert_eq!(tool.reply("ETHUSDT", "get_prompt").output, "Prompt generation for ETHUSDT - requires Agent LLM integration");
    assert_eq!(tool.reply("ETHUSDT", "process_decision").output, "Decision processing for ETHUSDT - requires Agent LLM integration");
    let bad = tool.reply("ETHUSDT", "sell_everything");
    assert!(!bad.success);
    assert_eq!(bad.error.as_deref(), Some("Unknown action: sell_everything"));
    let c = tool.config();
    assert_eq!(c.symbols, vec!["BTCUSDT".to_string()]);
    assert_eq!(c.check_interval_ms, 5000);
}

use zeroclaw::strategy::snapshot_regime;
use zeroclaw::strategy::DEFAULT_STRATEGY_COUNT;
use zeroclaw::strategy::{calculate_market_regime, get_latest_regime};
use zeroclaw::strategy::{check_ema_alignment, ExhaustionChecks, TrendChecks};
use zeroclaw::signal::{MarketRegime, Signal};
use zeroclaw::strategy::{
    detect_regime, AggregatedSignal, Gatekeeper, GatekeeperConfig, MeanReversionStrategy,
    RegimeChecks, TrendFollowingStrategy,
};

/// The threshold comparisons `detect_regime` makes on ADX and band width (in %).
fn checks(adx: i64, bb_width: i64) -> RegimeChecks {
    RegimeChecks {
        bb_width_above_volatile: bb_width > 10,
        adx_above_trending: adx > 25,
        adx_below_ranging: adx < 20,
        bb_width_below_ranging: bb_width < 5,
    }
}

#[test]
fn test_trend_following_strategy_creation() {
    let strategy = TrendFollowingStrategy::new();
    assert_eq!(strategy.name(), "Trend Following");
    assert!(strategy.is_enabled_for(&MarketRegime::Trending));
    assert!(strategy.is_enabled_for(&MarketRegime::Volatile));
    assert!(!strategy.is_enabled_for(&MarketRegime::Ranging));
}

#[test]
fn test_mean_reversion_strategy_creation() {
    let strategy = MeanReversionStrategy::new();
    assert_eq!(strategy.name(), "Mean Reversion");
    assert!(strategy.is_enabled_for(&MarketRegime::Ranging));
    assert!(strategy.is_enabled_for(&MarketRegime::Volatile));
    assert!(!strategy.is_enabled_for(&MarketRegime::Trending));
}

#[test]
fn mean_reversion_test_weight_by_regime() {
    let strategy = MeanReversionStrategy::new();
    assert_eq!(strategy.weight_tenths(&MarketRegime::Ranging), 7);
    assert_eq!(strategy.weight_tenths(&MarketRegime::Volatile), 5);
    assert_eq!(strategy.weight_tenths(&MarketRegime::Trending), 2);
}

#[test]
fn trend_following_test_weight_by_regime() {
    let strategy = TrendFollowingStrategy::new();
    assert_eq!(strategy.weight_tenths(&MarketRegime::Trending), 8);
    assert_eq!(strategy.weight_tenths(&MarketRegime::Volatile), 5);
    assert_eq!(strategy.weight_tenths(&MarketRegime::Ranging), 2);
}

#[test]
fn strategies_with_config_follow_their_switches() {
    let mr = MeanReversionStrategy::with_config(false, false, true);
    assert!(!mr.is_enabled_for(&MarketRegime::Ranging));
    assert!(mr.is_enabled_for(&MarketRegime::Trending));
    let tf = TrendFollowingStrategy::with_config(false, true, true);
    assert!(!tf.is_enabled_for(&MarketRegime::Trending));
    assert!(tf.is_enabled_for(&MarketRegime::Ranging));
    assert!(mr.description().contains("RSI"));
    assert!(tf.description().contains("MACD"));
}

#[test]
fn test_detect_regime_trending() {
    assert_eq!(detect_regime(&checks(30, 3)), MarketRegime::Trending);
    assert_eq!(detect_regime(&checks(26, 4)), MarketRegime::Trending);
}

#[test]
fn test_detect_regime_ranging() {
    assert_eq!(detect_regime(&checks(15, 3)), MarketRegime::Ranging);
    assert_eq!(detect_regime(&checks(18, 4)), MarketRegime::Ranging);
}

#[test]
fn test_detect_regime_volatile() {
    assert_eq!(detect_regime(&checks(15, 12)), MarketRegime::Volatile);
    assert_eq!(detect_regime(&checks(30, 15)), MarketRegime::Volatile);
}

#[test]
fn transitional_market_counts_as_volatile() {
    assert_eq!(detect_regime(&checks(22, 3)), MarketRegime::Volatile);
    assert_eq!(detect_regime(&checks(15, 7)), MarketRegime::Volatile);
}

#[test]
fn test_aggregated_signal_default() {
    let signal = AggregatedSignal::default();
    assert!(matches!(signal.signal, Signal::Wait));
    assert_eq!(signal.confluence_score, 0);
    assert_eq!(signal.strategy_count, 0);
}

#[test]
fn test_aggregated_signal_strength() {
    let signal = AggregatedSignal::new(Signal::Long, 7, 2);
    assert!(signal.is_strong());
    assert!(!signal.is_weak());
}

#[test]
fn test_aggregated_signal_weak() {
    let signal = AggregatedSignal::new(Signal::Long, 2, 1);
    assert!(!signal.is_strong());
    assert!(signal.is_weak());
}

#[test]
fn test_confluence_score_clamping() {
    let signal = AggregatedSignal::new(Signal::Long, 15, 2);
    assert_eq!(signal.confluence_score, 15);
}

#[test]
fn aggregate_clamps_and_thresholds() {
    let g = Gatekeeper::new();
    let a = g.aggregate(Some(15), 2);
    assert_eq!(a.confluence_score, 10);
    assert_eq!(a.signal, Signal::Long);
    assert_eq!(a.strategy_count, 2);
    assert_eq!(g.aggregate(Some(-42), 1).confluence_score, -10);
    assert_eq!(g.aggregate(Some(-42), 1).signal, Signal::Short);
    assert_eq!(g.aggregate(None, 0).confluence_score, 0);
    assert_eq!(g.aggregate(None, 0).signal, Signal::Wait);
    assert_eq!(g.aggregate(Some(3), 1).signal, Signal::Long);
    assert_eq!(g.aggregate(Some(-3), 1).signal, Signal::Short);
    assert_eq!(g.aggregate(Some(2), 1).signal, Signal::Wait);
    assert_eq!(g.aggregate(Some(-2), 1).signal, Signal::Wait);
    assert_eq!(g.aggregate(Some(6), 1).signal, Signal::Long);
}

#[test]
fn advice_is_symmetric_on_concrete_scores() {
    let g = Gatekeeper::with_config(GatekeeperConfig { max_allowed_latency_ms: 500, strong_signal_threshold: 8, weak_signal_threshold: 4 });
    for s in -12i64..=12 {
        let up = g.aggregate(Some(s), 1).signal;
        let down = g.aggregate(Some(-s), 1).signal;
        let mirrored = match up {
            Signal::Long => Signal::Short,
            Signal::Short => Signal::Long,
            Signal::Wait => Signal::Wait,
        };
        assert_eq!(down, mirrored, "score {}", s);
    }
}

#[test]
fn test_signal_output_latency_check() {
    let gatekeeper = Gatekeeper::new();
    let aggregated = gatekeeper.aggregate(Some(0), 2);
    let now = 1_700_000_000_000i64;
    let output = gatekeeper.generate_signal_output(&aggregated, MarketRegime::Ranging, now, now, now);
    if output.ingestion_latency_ms < gatekeeper.config().max_allowed_latency_ms {
        assert!(output.override_reason.is_none());
    }
}

#[test]
fn generate_signal_output_overrides_stale_votes() {
    let gatekeeper = Gatekeeper::new();
    let aggregated = gatekeeper.aggregate(Some(9), 2);
    let out = gatekeeper.generate_signal_output(&aggregated, MarketRegime::Trending, 5000, 1000, 1600);
    assert_eq!(out.ingestion_latency_ms, 600);
    assert_eq!(out.trade_advice, Signal::Wait);
    assert_eq!(out.override_reason.as_deref(), Some("LATENCY_SPIKE"));
    assert_eq!(out.confluence_score, 9);
    let fresh = gatekeeper.generate_signal_output(&aggregated, MarketRegime::Trending, 5000, 1000, 1500);
    assert_eq!(fresh.trade_advice, Signal::Long);
}

#[test]
fn strategy_advice_from_checks() {
    let mr = MeanReversionStrategy::new();
    let low = ExhaustionChecks { exhausted_low: true, exhausted_high: false, oversold: true, overbought: false };
    assert_eq!(mr.analyze(&MarketRegime::Ranging, &low), Signal::Long);
    assert_eq!(mr.analyze(&MarketRegime::Trending, &low), Signal::Wait);
    let high = ExhaustionChecks { exhausted_low: false, exhausted_high: true, oversold: false, overbought: true };
    assert_eq!(mr.analyze(&MarketRegime::Volatile, &high), Signal::Short);
    let neutral = ExhaustionChecks { exhausted_low: true, exhausted_high: false, oversold: false, overbought: false };
    assert_eq!(mr.analyze(&MarketRegime::Ranging, &neutral), Signal::Wait);

    let tf = TrendFollowingStrategy::new();
    let up = TrendChecks { us_above_ema20: true, ema20_above_ema50: true, us_below_ema20: false, ema20_below_ema50: false, macd_rising: true, macd_positive: true, macd_negative: false };
    assert_eq!(check_ema_alignment(&up), 1);
    assert_eq!(tf.analyze(&MarketRegime::Trending, &up), Signal::Long);
    assert_eq!(tf.analyze(&MarketRegime::Ranging, &up), Signal::Wait);
    let down = TrendChecks { us_above_ema20: false, ema20_above_ema50: false, us_below_ema20: true, ema20_below_ema50: true, macd_rising: false, macd_positive: false, macd_negative: true };
    assert_eq!(check_ema_alignment(&down), -1);
    assert_eq!(tf.analyze(&MarketRegime::Volatile, &down), Signal::Short);
    let mixed = TrendChecks { ema20_above_ema50: false, ..up };
    assert_eq!(check_ema_alignment(&mixed), 0);
    assert_eq!(tf.analyze(&MarketRegime::Trending, &mixed), Signal::Wait);
}

#[test]
fn snapshot_regime_prefers_trend() {
    assert_eq!(snapshot_regime(&checks(30, 15)), MarketRegime::Trending);
    assert_eq!(snapshot_regime(&checks(22, 15)), MarketRegime::Volatile);
    assert_eq!(snapshot_regime(&checks(15, 7)), MarketRegime::Ranging);
    assert_eq!(snapshot_regime(&checks(22, 3)), MarketRegime::Volatile);
}

#[test]
fn regime_series_defaults_to_volatile() {
    // Candles before the indicators converge have no checks.
    let series = vec![None, None, Some(checks(30, 3)), Some(checks(15, 3)), Some(checks(22, 6))];
    let regimes = calculate_market_regime(&series);
    assert_eq!(regimes.len(), 5);
    assert_eq!(regimes[0], MarketRegime::Volatile);
    assert_eq!(regimes[1], MarketRegime::Volatile);
    assert_eq!(regimes[2], MarketRegime::Trending);
    assert_eq!(regimes[3], MarketRegime::Ranging);
    assert_eq!(regimes[4], MarketRegime::Volatile);
    assert_eq!(get_latest_regime(&series), MarketRegime::Volatile);
    let first_four = vec![None, None, Some(checks(30, 3)), Some(checks(15, 3))];
    assert_eq!(get_latest_regime(&first_four), MarketRegime::Ranging);
    assert_eq!(get_latest_regime(&Vec::new()), MarketRegime::Volatile);
}

#[test]
fn test_gatekeeper_creation() {
    let gatekeeper = Gatekeeper::new();
    assert_eq!(gatekeeper.strategy_count(), 2);
}

#[test]
fn gatekeeper_registers_strategies() {
    let mut g = Gatekeeper::with_strategies(0);
    assert_eq!(g.strategy_count(), 0);
    g.add_strategy();
    assert_eq!(g.strategy_count(), 1);
    let c = Gatekeeper::with_config(GatekeeperConfig { max_allowed_latency_ms: 100, strong_signal_threshold: 8, weak_signal_threshold: 4 });
    assert_eq!(c.strategy_count(), DEFAULT_STRATEGY_COUNT);
    assert_eq!(c.config().max_allowed_latency_ms, 100);
}

//! Strategy selection and signal voting: which strategy runs in which
//! market regime, how the regime is classified from indicator thresholds,
//! and how the Gatekeeper turns a confluence score into trade advice.

use vstd::prelude::*;
use crate::signal::{LATENCY_SPIKE, MarketRegime, Signal, SignalOutput, override_view};

verus! {

/// Outcome of the indicator threshold comparisons that decide the regime:
/// ADX against 25 and 20, Bollinger band width against 10% and 5%.
pub struct RegimeChecks {
    /// Band width above the volatile threshold (10%).
    pub bb_width_above_volatile: bool,
    /// ADX above the trending threshold (25).
    pub adx_above_trending: bool,
    /// ADX below the ranging threshold (20).
    pub adx_below_ranging: bool,
    /// Band width below the ranging threshold (5%).
    pub bb_width_below_ranging: bool,
}

/// Regime classification: volatile first, then trending, then ranging; a
/// transitional market counts as volatile.
pub open spec fn regime_of(c: RegimeChecks) -> MarketRegime {
    if c.bb_width_above_volatile {
        MarketRegime::Volatile
    } else if c.adx_above_trending {
        MarketRegime::Trending
    } else if c.adx_below_ranging && c.bb_width_below_ranging {
        MarketRegime::Ranging
    } else {
        MarketRegime::Volatile
    }
}

/// Classifies the market regime from the threshold comparisons.
pub fn detect_regime(checks: &RegimeChecks) -> (r: MarketRegime)
    ensures
        r == regime_of(*checks),
{
    if checks.bb_width_above_volatile {
        return MarketRegime::Volatile;
    }
    if checks.adx_above_trending {
        return MarketRegime::Trending;
    }
    if checks.adx_below_ranging && checks.bb_width_below_ranging {
        return MarketRegime::Ranging;
    }
    MarketRegime::Volatile
}

/// The live loop's regime classification from an indicator snapshot:
/// trending first, then volatile, then ranging on a weak ADX alone; a
/// transitional market counts as volatile.
pub open spec fn snapshot_regime_of(c: RegimeChecks) -> MarketRegime {
    if c.adx_above_trending {
        MarketRegime::Trending
    } else if c.bb_width_above_volatile {
        MarketRegime::Volatile
    } else if c.adx_below_ranging {
        MarketRegime::Ranging
    } else {
        MarketRegime::Volatile
    }
}

/// Classifies the regime of an indicator snapshot, as the live signal loop does.
pub fn snapshot_regime(checks: &RegimeChecks) -> (r: MarketRegime)
    ensures
        r == snapshot_regime_of(*checks),
{
    if checks.adx_above_trending {
        MarketRegime::Trending
    } else if checks.bb_width_above_volatile {
        MarketRegime::Volatile
    } else if checks.adx_below_ranging {
        MarketRegime::Ranging
    } else {
        MarketRegime::Volatile
    }
}

/// The regime of one candle: classified from its checks when both indicators
/// could be computed for it, volatile otherwise.
pub open spec fn candle_regime(c: Option<RegimeChecks>) -> MarketRegime {
    match c {
        Some(k) => regime_of(k),
        None => MarketRegime::Volatile,
    }
}

/// The regime of every candle, from the checks of each (`None` where ADX or
/// band width is not yet available).
pub fn calculate_market_regime(checks: &Vec<Option<RegimeChecks>>) -> (r: Vec<MarketRegime>)
    ensures
        r@.len() == checks@.len(),
        forall|i: int| 0 <= i < checks@.len() ==> r@[i] == candle_regime(#[trigger] checks@[i]),
{
    let mut out: Vec<MarketRegime> = Vec::new();
    let mut i: usize = 0;
    while i < checks.len()
        invariant
            i <= checks@.len(),
            out@.len() == i,
            forall|j: int| 0 <= j < i ==> out@[j] == candle_regime(#[trigger] checks@[j]),
        decreases checks@.len() - i,
    {
        let regime = match &checks[i] {
            Some(c) => detect_regime(c),
            None => MarketRegime::Volatile,
        };
        out.push(regime);
        i = i + 1;
    }
    out
}

/// The regime of the last candle; volatile when there is none.
pub fn get_latest_regime(checks: &Vec<Option<RegimeChecks>>) -> (r: MarketRegime)
    ensures
        checks@.len() == 0 ==> r == MarketRegime::Volatile,
        checks@.len() > 0 ==> r == candle_regime(checks@.last()),
{
    let regimes = calculate_market_regime(checks);
    if regimes.len() == 0 {
        MarketRegime::Volatile
    } else {
        regimes[regimes.len() - 1]
    }
}

/// Outcome of the comparisons of the mean reversion strategy on the last
/// candle: band exhaustion beyond its minimum level (0.2) on either side,
/// and RSI (when it could be computed) below 35 or above 65.
pub struct ExhaustionChecks {
    /// Exhaustion below minus the minimum level (price under the lower band).
    pub exhausted_low: bool,
    /// Exhaustion above the minimum level (price over the upper band).
    pub exhausted_high: bool,
    /// RSI known and below the oversold level.
    pub oversold: bool,
    /// RSI known and above the overbought level.
    pub overbought: bool,
}

/// Mean reversion direction: LONG on a low exhaustion that is oversold,
/// otherwise SHORT on a high exhaustion that is overbought, otherwise WAIT.
pub open spec fn exhaustion_direction(c: ExhaustionChecks) -> Signal {
    if c.exhausted_low && c.oversold {
        Signal::Long
    } else if c.exhausted_high && c.overbought {
        Signal::Short
    } else {
        Signal::Wait
    }
}

/// Outcome of the comparisons of the trend following strategy: the
/// smoothed price against EMA20 and EMA50, and the MACD histogram's last
/// value and rise.
pub struct TrendChecks {
    /// The smoothed value is above EMA20.
    pub us_above_ema20: bool,
    /// EMA20 is above EMA50.
    pub ema20_above_ema50: bool,
    /// The smoothed value is below EMA20.
    pub us_below_ema20: bool,
    /// EMA20 is below EMA50.
    pub ema20_below_ema50: bool,
    /// The histogram rose by more than the minimum change.
    pub macd_rising: bool,
    /// The last histogram value is positive.
    pub macd_positive: bool,
    /// The last histogram value is negative.
    pub macd_negative: bool,
}

/// EMA alignment: 1 for US > EMA20 > EMA50, -1 for US < EMA20 < EMA50, 0 otherwise.
pub open spec fn alignment_of(c: TrendChecks) -> int {
    if c.us_above_ema20 && c.ema20_above_ema50 {
        1
    } else if c.us_below_ema20 && c.ema20_below_ema50 {
        -1
    } else {
        0
    }
}

/// Trend direction: LONG on bullish alignment with a rising positive
/// histogram, SHORT on bearish alignment with a non-rising negative one,
/// WAIT otherwise.
pub open spec fn trend_direction(c: TrendChecks) -> Signal {
    if alignment_of(c) == 1 && c.macd_rising && c.macd_positive {
        Signal::Long
    } else if alignment_of(c) == -1 && !c.macd_rising && c.macd_negative {
        Signal::Short
    } else {
        Signal::Wait
    }
}

/// The EMA alignment of the trend checks.
pub fn check_ema_alignment(checks: &TrendChecks) -> (a: i8)
    ensures
        a == alignment_of(*checks),
{
    if checks.us_above_ema20 && checks.ema20_above_ema50 {
        return 1;
    }
    if checks.us_below_ema20 && checks.ema20_below_ema50 {
        return -1;
    }
    0
}

/// Mean reversion strategy: active by default in ranging and volatile markets.
pub struct MeanReversionStrategy {
    name: String,
    enable_ranging: bool,
    enable_volatile: bool,
    enable_trending: bool,
}

/// Whether a strategy with the given per-regime switches runs in a regime.
pub open spec fn enabled_in(
    regime: MarketRegime,
    trending: bool,
    ranging: bool,
    volatile: bool,
) -> bool {
    match regime {
        MarketRegime::Trending => trending,
        MarketRegime::Ranging => ranging,
        MarketRegime::Volatile => volatile,
    }
}

/// Regime weight of the mean reversion strategy, in tenths.
pub open spec fn mean_reversion_weight(regime: MarketRegime) -> nat {
    match regime {
        MarketRegime::Ranging => 7,
        MarketRegime::Volatile => 5,
        MarketRegime::Trending => 2,
    }
}

/// Regime weight of the trend following strategy, in tenths.
pub open spec fn trend_following_weight(regime: MarketRegime) -> nat {
    match regime {
        MarketRegime::Trending => 8,
        MarketRegime::Volatile => 5,
        MarketRegime::Ranging => 2,
    }
}

impl MeanReversionStrategy {
    /// The strategy's name.
    pub closed spec fn name_view(&self) -> Seq<char> {
        self.name@
    }

    /// Whether the strategy runs in a regime.
    pub closed spec fn enabled(&self, regime: MarketRegime) -> bool {
        enabled_in(regime, self.enable_trending, self.enable_ranging, self.enable_volatile)
    }

    /// The default strategy: ranging and volatile markets only.
    pub fn new() -> (s: Self)
        ensures
            s.name_view() == "Mean Reversion"@,
            s.enabled(MarketRegime::Ranging),
            s.enabled(MarketRegime::Volatile),
            !s.enabled(MarketRegime::Trending),
    {
        MeanReversionStrategy::with_config(true, true, false)
    }

    /// A strategy with the given per-regime switches.
    pub fn with_config(enable_ranging: bool, enable_volatile: bool, enable_trending: bool) -> (s:
        Self)
        ensures
            s.name_view() == "Mean Reversion"@,
            s.enabled(MarketRegime::Ranging) == enable_ranging,
            s.enabled(MarketRegime::Volatile) == enable_volatile,
            s.enabled(MarketRegime::Trending) == enable_trending,
    {
        MeanReversionStrategy {
            name: String::from_str("Mean Reversion"),
            enable_ranging,
            enable_volatile,
            enable_trending,
        }
    }

    /// The strategy's name.
    pub fn name(&self) -> (n: &str)
        ensures
            n@ == self.name_view(),
    {
        self.name.as_str()
    }

    /// What the strategy looks at.
    pub fn description(&self) -> (d: &'static str)
        ensures
            d@
                == "Mean reversion strategy using UltimateBands exhaustion and RSI for overbought/oversold detection"@,
    {
        "Mean reversion strategy using UltimateBands exhaustion and RSI for overbought/oversold detection"
    }

    /// Whether the strategy runs in a regime.
    pub fn is_enabled_for(&self, regime: &MarketRegime) -> (r: bool)
        ensures
            r == self.enabled(*regime),
    {
        match regime {
            MarketRegime::Ranging => self.enable_ranging,
            MarketRegime::Volatile => self.enable_volatile,
            MarketRegime::Trending => self.enable_trending,
        }
    }

    /// The strategy's advice in a regime: WAIT where it is disabled,
    /// otherwise the direction of the exhaustion checks.
    pub fn analyze(&self, regime: &MarketRegime, checks: &ExhaustionChecks) -> (s: Signal)
        ensures
            !self.enabled(*regime) ==> s == Signal::Wait,
            self.enabled(*regime) ==> s == exhaustion_direction(*checks),
    {
        if !self.is_enabled_for(regime) {
            return Signal::Wait;
        }
        if checks.exhausted_low && checks.oversold {
            return Signal::Long;
        }
        if checks.exhausted_high && checks.overbought {
            return Signal::Short;
        }
        Signal::Wait
    }

    /// The strategy's vote weight in a regime, in tenths: 0.7 ranging,
    /// 0.5 volatile, 0.2 trending.
    pub fn weight_tenths(&self, regime: &MarketRegime) -> (w: u8)
        ensures
            w == mean_reversion_weight(*regime),
    {
        match regime {
            MarketRegime::Ranging => 7,
            MarketRegime::Volatile => 5,
            MarketRegime::Trending => 2,
        }
    }
}

/// Trend following strategy: active by default in trending and volatile markets.
pub struct TrendFollowingStrategy {
    name: String,
    enable_trending: bool,
    enable_volatile: bool,
    enable_ranging: bool,
}

impl TrendFollowingStrategy {
    /// The strategy's name.
    pub closed spec fn name_view(&self) -> Seq<char> {
        self.name@
    }

    /// Whether the strategy runs in a regime.
    pub closed spec fn enabled(&self, regime: MarketRegime) -> bool {
        enabled_in(regime, self.enable_trending, self.enable_ranging, self.enable_volatile)
    }

    /// The default strategy: trending and volatile markets only.
    pub fn new() -> (s: Self)
        ensures
            s.name_view() == "Trend Following"@,
            s.enabled(MarketRegime::Trending),
            s.enabled(MarketRegime::Volatile),
            !s.enabled(MarketRegime::Ranging),
    {
        TrendFollowingStrategy::with_config(true, true, false)
    }

    /// A strategy with the given per-regime switches.
    pub fn with_config(enable_trending: bool, enable_volatile: bool, enable_ranging: bool) -> (s:
        Self)
        ensures
            s.name_view() == "Trend Following"@,
            s.enabled(MarketRegime::Trending) == enable_trending,
            s.enabled(MarketRegime::Volatile) == enable_volatile,
            s.enabled(MarketRegime::Ranging) == enable_ranging,
    {
        TrendFollowingStrategy {
            name: String::from_str("Trend Following"),
            enable_trending,
            enable_volatile,
            enable_ranging,
        }
    }

    /// The strategy's name.
    pub fn name(&self) -> (n: &str)
        ensures
            n@ == self.name_view(),
    {
        self.name.as_str()
    }

    /// What the strategy looks at.
    pub fn description(&self) -> (d: &'static str)
        ensures
            d@ == "Trend following strategy using US-smoothed EMA alignment and MACD histogram"@,
    {
        "Trend following strategy using US-smoothed EMA alignment and MACD histogram"
    }

    /// Whether the strategy runs in a regime.
    pub fn is_enabled_for(&self, regime: &MarketRegime) -> (r: bool)
        ensures
            r == self.enabled(*regime),
    {
        match regime {
            MarketRegime::Trending => self.enable_trending,
            MarketRegime::Volatile => self.enable_volatile,
            MarketRegime::Ranging => self.enable_ranging,
        }
    }

    /// The strategy's advice in a regime: WAIT where it is disabled,
    /// otherwise the direction of the trend checks.
    pub fn analyze(&self, regime: &MarketRegime, checks: &TrendChecks) -> (s: Signal)
        ensures
            !self.enabled(*regime) ==> s == Signal::Wait,
            self.enabled(*regime) ==> s == trend_direction(*checks),
    {
        if !self.is_enabled_for(regime) {
            return Signal::Wait;
        }
        let alignment = check_ema_alignment(checks);
        if alignment == 1 && checks.macd_rising && checks.macd_positive {
            return Signal::Long;
        }
        if alignment == -1 && !checks.macd_rising && checks.macd_negative {
            return Signal::Short;
        }
        Signal::Wait
    }

    /// The strategy's vote weight in a regime, in tenths: 0.8 trending,
    /// 0.5 volatile, 0.2 ranging.
    pub fn weight_tenths(&self, regime: &MarketRegime) -> (w: u8)
        ensures
            w == trend_following_weight(*regime),
    {
        match regime {
            MarketRegime::Trending => 8,
            MarketRegime::Volatile => 5,
            MarketRegime::Ranging => 2,
        }
    }
}

/// Gatekeeper thresholds.
pub struct GatekeeperConfig {
    /// Maximum allowed latency in milliseconds
    pub max_allowed_latency_ms: i64,
    /// Minimum confluence score for strong signals
    pub strong_signal_threshold: i8,
    /// Minimum confluence score for any signal
    pub weak_signal_threshold: i8,
}

impl Default for GatekeeperConfig {
    fn default() -> (c: Self)
        ensures
            c.max_allowed_latency_ms == 500,
            c.strong_signal_threshold == 7,
            c.weak_signal_threshold == 3,
    {
        GatekeeperConfig {
            max_allowed_latency_ms: 500,
            strong_signal_threshold: 7,
            weak_signal_threshold: 3,
        }
    }
}

/// The advice for a confluence score: LONG from the strong threshold up,
/// SHORT from its negation down, then LONG and SHORT likewise for the weak
/// threshold, WAIT in between.
pub open spec fn advice_for(score: int, strong: int, weak: int) -> Signal {
    if score >= strong {
        Signal::Long
    } else if score <= -strong {
        Signal::Short
    } else if score >= weak {
        Signal::Long
    } else if score <= -weak {
        Signal::Short
    } else {
        Signal::Wait
    }
}

/// The rounded vote clamped to the confluence range -10..=10; no vote at all
/// (zero total weight) scores 0.
pub open spec fn confluence_of(rounded: Option<i64>) -> int {
    match rounded {
        Some(v) => if v < -10 {
            -10
        } else if v > 10 {
            10
        } else {
            v as int
        },
        None => 0,
    }
}

/// Advice with LONG and SHORT exchanged.
pub open spec fn mirrored(s: Signal) -> Signal {
    match s {
        Signal::Long => Signal::Short,
        Signal::Short => Signal::Long,
        Signal::Wait => Signal::Wait,
    }
}

/// Result of the vote: advice, confluence score and number of strategies
/// that took part.
pub struct AggregatedSignal {
    /// Final aggregated signal
    pub signal: Signal,
    /// Confluence score (-10 to +10)
    pub confluence_score: i8,
    /// Number of strategies contributing to the signal
    pub strategy_count: usize,
}

impl AggregatedSignal {
    /// A result with the given fields; the score is kept as given.
    pub fn new(signal: Signal, confluence_score: i8, strategy_count: usize) -> (a: Self)
        ensures
            a.signal == signal,
            a.confluence_score == confluence_score,
            a.strategy_count == strategy_count,
    {
        AggregatedSignal { signal, confluence_score, strategy_count }
    }

    /// Strong: the absolute confluence is at least 7.
    pub fn is_strong(&self) -> (r: bool)
        requires
            self.confluence_score != i8::MIN,
        ensures
            r == (self.confluence_score >= 7 || self.confluence_score <= -7),
    {
        let s = self.confluence_score;
        let abs: i8 = if s < 0 {
            -s
        } else {
            s
        };
        abs >= 7
    }

    /// Weak: the absolute confluence is at most 3.
    pub fn is_weak(&self) -> (r: bool)
        requires
            self.confluence_score != i8::MIN,
        ensures
            r == (-3 <= self.confluence_score <= 3),
    {
        let s = self.confluence_score;
        let abs: i8 = if s < 0 {
            -s
        } else {
            s
        };
        abs <= 3
    }
}

impl Default for AggregatedSignal {
    fn default() -> (a: Self)
        ensures
            a.signal == Signal::Wait,
            a.confluence_score == 0,
            a.strategy_count == 0,
    {
        AggregatedSignal { signal: Signal::Wait, confluence_score: 0, strategy_count: 0 }
    }
}

/// The number of strategies a gatekeeper registers by default: mean
/// reversion and trend following.
pub const DEFAULT_STRATEGY_COUNT: usize = 2;

/// The vote's decision side: thresholds, latency limit, and the number of
/// strategies registered to vote (the strategies themselves run with the
/// caller, which holds them in registration order).
pub struct Gatekeeper {
    config: GatekeeperConfig,
    strategies: usize,
}

impl Gatekeeper {
    /// The thresholds in use.
    pub closed spec fn settings(&self) -> GatekeeperConfig {
        self.config
    }

    /// The number of registered strategies.
    pub closed spec fn registered(&self) -> nat {
        self.strategies as nat
    }

    /// A gatekeeper with the default thresholds and the two default strategies.
    pub fn new() -> (g: Self)
        ensures
            g.settings().max_allowed_latency_ms == 500,
            g.settings().strong_signal_threshold == 7,
            g.settings().weak_signal_threshold == 3,
            g.registered() == DEFAULT_STRATEGY_COUNT,
    {
        Gatekeeper { config: GatekeeperConfig::default(), strategies: DEFAULT_STRATEGY_COUNT }
    }

    /// A gatekeeper with the given thresholds and the two default strategies.
    pub fn with_config(config: GatekeeperConfig) -> (g: Self)
        ensures
            g.settings() == config,
            g.registered() == DEFAULT_STRATEGY_COUNT,
    {
        Gatekeeper { config, strategies: DEFAULT_STRATEGY_COUNT }
    }

    /// A gatekeeper with the default thresholds and `count` strategies of the
    /// caller's choosing (none of the default ones).
    pub fn with_strategies(count: usize) -> (g: Self)
        ensures
            g.settings().max_allowed_latency_ms == 500,
            g.settings().strong_signal_threshold == 7,
            g.settings().weak_signal_threshold == 3,
            g.registered() == count,
    {
        Gatekeeper { config: GatekeeperConfig::default(), strategies: count }
    }

    /// Registers one more strategy.
    pub fn add_strategy(&mut self)
        requires
            old(self).registered() < usize::MAX,
        ensures
            final(self).registered() == old(self).registered() + 1,
            final(self).settings() == old(self).settings(),
    {
        self.strategies = self.strategies + 1;
    }

    /// The number of registered strategies.
    pub fn strategy_count(&self) -> (n: usize)
        ensures
            n == self.registered(),
    {
        self.strategies
    }

    /// The thresholds in use.
    pub fn config(&self) -> (c: &GatekeeperConfig)
        ensures
            *c == self.settings(),
    {
        &self.config
    }

    /// The vote's outcome from the rounded weighted average times ten
    /// (`None` when no strategy carried weight) and the number of active
    /// strategies: the clamped confluence score and the advice for it.
    pub fn aggregate(&self, rounded: Option<i64>, active_strategies: usize) -> (a: AggregatedSignal)
        requires
            active_strategies <= self.registered(),
        ensures
            a.confluence_score == confluence_of(rounded),
            a.signal == advice_for(
                confluence_of(rounded),
                self.settings().strong_signal_threshold as int,
                self.settings().weak_signal_threshold as int,
            ),
            a.strategy_count == active_strategies,
    {
        let score: i8 = match rounded {
            Some(v) => if v < -10 {
                -10
            } else if v > 10 {
                10
            } else {
                v as i8
            },
            None => 0,
        };
        let strong = self.config.strong_signal_threshold as i16;
        let weak = self.config.weak_signal_threshold as i16;
        let s = score as i16;
        let signal = if s >= strong {
            Signal::Long
        } else if s <= -strong {
            Signal::Short
        } else if s >= weak {
            Signal::Long
        } else if s <= -weak {
            Signal::Short
        } else {
            Signal::Wait
        };
        AggregatedSignal::new(signal, score, active_strategies)
    }

    /// The published signal for a vote: its score and advice, with the
    /// latency from the kline's close to `now_ms`, and the advice forced to
    /// WAIT (marked `LATENCY_SPIKE`) when that latency exceeds the limit.
    pub fn generate_signal_output(
        &self,
        aggregated: &AggregatedSignal,
        regime: MarketRegime,
        timestamp_ms: i64,
        kline_timestamp_ms: i64,
        now_ms: i64,
    ) -> (s: SignalOutput)
        requires
            i64::MIN <= now_ms - kline_timestamp_ms <= i64::MAX,
        ensures
            s.timestamp_ms == timestamp_ms,
            s.market_regime == regime,
            s.confluence_score == aggregated.confluence_score,
            s.ingestion_latency_ms == now_ms - kline_timestamp_ms,
            s.ingestion_latency_ms > self.settings().max_allowed_latency_ms ==> s.trade_advice
                == Signal::Wait && override_view(s.override_reason) == Some(LATENCY_SPIKE@),
            s.ingestion_latency_ms <= self.settings().max_allowed_latency_ms ==> s.trade_advice
                == aggregated.signal && s.override_reason is None,
    {
        let advice = aggregated.signal;
        let mut output = SignalOutput::new(
            timestamp_ms,
            regime,
            aggregated.confluence_score,
            advice,
            kline_timestamp_ms,
            now_ms,
        );
        output.apply_latency_safety_check(self.config.max_allowed_latency_ms);
        output
    }
}

/// How ADX and band width decide a candle's regime: a band width above the
/// volatile threshold makes it volatile; otherwise an ADX above the trending
/// threshold makes it trending, whatever the band width; a ranging market needs
/// both a weak ADX and a narrow band; everything else is volatile. The live
/// snapshot's classification also calls every market with a strong ADX
/// trending.
pub proof fn lemma_regime_thresholds(c: RegimeChecks)
    ensures
        c.bb_width_above_volatile ==> regime_of(c) == MarketRegime::Volatile,
        !c.bb_width_above_volatile && c.adx_above_trending ==> regime_of(c)
            == MarketRegime::Trending,
        regime_of(c) == MarketRegime::Trending ==> c.adx_above_trending
            && !c.bb_width_above_volatile,
        regime_of(c) == MarketRegime::Ranging <==> (!c.bb_width_above_volatile
            && !c.adx_above_trending && c.adx_below_ranging && c.bb_width_below_ranging),
        c.adx_above_trending ==> snapshot_regime_of(c) == MarketRegime::Trending,
        snapshot_regime_of(c) == MarketRegime::Trending ==> c.adx_above_trending,
        snapshot_regime_of(c) == MarketRegime::Ranging ==> c.adx_below_ranging
            && !c.bb_width_above_volatile,
        !c.adx_above_trending && !c.bb_width_above_volatile && c.adx_below_ranging
            ==> snapshot_regime_of(c) == MarketRegime::Ranging,
        candle_regime(Some(c)) == regime_of(c),
        candle_regime(None) == MarketRegime::Volatile,
{
}

/// What the trend follower's advice requires of the indicators: LONG exactly on
/// a bullish alignment (US above EMA20 above EMA50) with a rising, positive
/// MACD histogram, so never on a non-positive histogram; SHORT exactly on a
/// bearish alignment with a histogram that does not rise and is negative.
pub proof fn lemma_trend_signal_conditions(c: TrendChecks)
    ensures
        trend_direction(c) == Signal::Long <==> (c.us_above_ema20 && c.ema20_above_ema50
            && c.macd_rising && c.macd_positive),
        !c.macd_positive ==> trend_direction(c) != Signal::Long,
        !c.macd_negative ==> trend_direction(c) != Signal::Short,
        trend_direction(c) == Signal::Short ==> (c.us_below_ema20 && c.ema20_below_ema50
            && !(c.us_above_ema20 && c.ema20_above_ema50) && !c.macd_rising && c.macd_negative),
        (!(c.us_above_ema20 && c.ema20_above_ema50) && c.us_below_ema20 && c.ema20_below_ema50
            && !c.macd_rising && c.macd_negative) ==> trend_direction(c) == Signal::Short,
{
}

/// Opposite scores get opposite advice, as long as both thresholds are
/// positive.
pub proof fn lemma_advice_symmetric(score: int, config: GatekeeperConfig)
    requires
        config.strong_signal_threshold > 0,
        config.weak_signal_threshold > 0,
    ensures
        advice_for(-score, config.strong_signal_threshold as int, config.weak_signal_threshold as int)
            == mirrored(
            advice_for(score, config.strong_signal_threshold as int, config.weak_signal_threshold as int),
        ),
{
}

/// A higher score never gives less bullish advice: with positive
/// thresholds, advice moves from SHORT through WAIT to LONG as the score rises.
pub proof fn lemma_advice_monotone(a: int, b: int, config: GatekeeperConfig)
    requires
        config.strong_signal_threshold > 0,
        config.weak_signal_threshold > 0,
        a <= b,
    ensures
        advice_for(a, config.strong_signal_threshold as int, config.weak_signal_threshold as int)
            == Signal::Long ==> advice_for(
            b,
            config.strong_signal_threshold as int,
            config.weak_signal_threshold as int,
        ) == Signal::Long,
        advice_for(b, config.strong_signal_threshold as int, config.weak_signal_threshold as int)
            == Signal::Short ==> advice_for(
            a,
            config.strong_signal_threshold as int,
            config.weak_signal_threshold as int,
        ) == Signal::Short,
{
}

/// Every confluence score lies in -10..=10.
pub proof fn lemma_confluence_in_range(rounded: Option<i64>)
    ensures
        -10 <= confluence_of(rounded) <= 10,
{
}

/// With the default thresholds the score bands of the documentation hold:
/// 3 and up is LONG, -3 and down is SHORT, -2..=2 is WAIT.
pub proof fn lemma_default_bands(score: int)
    ensures
        score >= 3 ==> advice_for(score, 7, 3) == Signal::Long,
        score <= -3 ==> advice_for(score, 7, 3) == Signal::Short,
        -2 <= score <= 2 ==> advice_for(score, 7, 3) == Signal::Wait,
{
}

} // verus!

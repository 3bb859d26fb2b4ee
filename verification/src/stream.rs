//! Market data endpoints and the policy of the kline WebSocket client:
//! stream names and URLs, REST kline URLs, connection-state codes, the
//! reconnection schedule and the health rule.

use vstd::prelude::*;
use crate::config::{DEFAULT_WARMUP_CANDLES, DEFAULT_WORKING_CANDLES};
use crate::text::{
    concat,
    decimal,
    join,
    joined,
    signed_decimal,
    str_eq,
    to_lower,
    to_upper,
    u64_to_string,
    i64_to_string,
    unicode_lower,
    unicode_upper,
    views,
};

verus! {

/// Binance WebSocket base URL for kline streams
pub const BINANCE_WS_BASE: &'static str = "wss://stream.binance.com:9443/ws";

/// Combined stream URL prefix
pub const COMBINED_STREAM_URL: &'static str = "wss://stream.binance.com:9443/stream?streams=";

/// Binance REST API base URL for market data
pub const BINANCE_API_BASE: &'static str = "https://api.binance.com";

/// Maximum reconnection delay in seconds
pub const MAX_RECONNECT_DELAY_SECS: u64 = 300;

/// Base reconnection delay in seconds
pub const BASE_RECONNECT_DELAY_SECS: u64 = 5;

/// Seconds without a message after which the connection counts as unhealthy
pub const HEALTHY_SILENCE_SECS: u64 = 120;

/// Candle interval.
#[derive(Debug, Clone, Copy, PartialEq, Eq, Structural)]
pub enum KlineInterval {
    Minute1,
    Minute3,
    Minute5,
    Minute15,
    Minute30,
    Hour1,
    Hour2,
    Hour4,
    Hour6,
    Hour8,
    Hour12,
    Day1,
    Day3,
    Week1,
    Month1,
}

/// The exchange's code of an interval.
pub open spec fn interval_text(i: KlineInterval) -> Seq<char> {
    match i {
        KlineInterval::Minute1 => "1m"@,
        KlineInterval::Minute3 => "3m"@,
        KlineInterval::Minute5 => "5m"@,
        KlineInterval::Minute15 => "15m"@,
        KlineInterval::Minute30 => "30m"@,
        KlineInterval::Hour1 => "1h"@,
        KlineInterval::Hour2 => "2h"@,
        KlineInterval::Hour4 => "4h"@,
        KlineInterval::Hour6 => "6h"@,
        KlineInterval::Hour8 => "8h"@,
        KlineInterval::Hour12 => "12h"@,
        KlineInterval::Day1 => "1d"@,
        KlineInterval::Day3 => "3d"@,
        KlineInterval::Week1 => "1w"@,
        KlineInterval::Month1 => "1M"@,
    }
}

/// The interval whose code is `s`, if any.
pub open spec fn interval_of_text(s: Seq<char>) -> Option<KlineInterval> {
    if s == "1m"@ {
        Some(KlineInterval::Minute1)
    } else if s == "3m"@ {
        Some(KlineInterval::Minute3)
    } else if s == "5m"@ {
        Some(KlineInterval::Minute5)
    } else if s == "15m"@ {
        Some(KlineInterval::Minute15)
    } else if s == "30m"@ {
        Some(KlineInterval::Minute30)
    } else if s == "1h"@ {
        Some(KlineInterval::Hour1)
    } else if s == "2h"@ {
        Some(KlineInterval::Hour2)
    } else if s == "4h"@ {
        Some(KlineInterval::Hour4)
    } else if s == "6h"@ {
        Some(KlineInterval::Hour6)
    } else if s == "8h"@ {
        Some(KlineInterval::Hour8)
    } else if s == "12h"@ {
        Some(KlineInterval::Hour12)
    } else if s == "1d"@ {
        Some(KlineInterval::Day1)
    } else if s == "3d"@ {
        Some(KlineInterval::Day3)
    } else if s == "1w"@ {
        Some(KlineInterval::Week1)
    } else if s == "1M"@ {
        Some(KlineInterval::Month1)
    } else {
        None
    }
}

impl KlineInterval {
    /// The exchange's code of the interval, such as `1m` or `4h`.
    pub fn as_str(&self) -> (s: &'static str)
        ensures
            s@ == interval_text(*self),
    {
        match self {
            KlineInterval::Minute1 => "1m",
            KlineInterval::Minute3 => "3m",
            KlineInterval::Minute5 => "5m",
            KlineInterval::Minute15 => "15m",
            KlineInterval::Minute30 => "30m",
            KlineInterval::Hour1 => "1h",
            KlineInterval::Hour2 => "2h",
            KlineInterval::Hour4 => "4h",
            KlineInterval::Hour6 => "6h",
            KlineInterval::Hour8 => "8h",
            KlineInterval::Hour12 => "12h",
            KlineInterval::Day1 => "1d",
            KlineInterval::Day3 => "3d",
            KlineInterval::Week1 => "1w",
            KlineInterval::Month1 => "1M",
        }
    }

    /// Parses an interval code.
    pub fn from_str(s: &str) -> (r: Option<KlineInterval>)
        ensures
            r == interval_of_text(s@),
    {
        if str_eq(s, "1m") {
            Some(KlineInterval::Minute1)
        } else if str_eq(s, "3m") {
            Some(KlineInterval::Minute3)
        } else if str_eq(s, "5m") {
            Some(KlineInterval::Minute5)
        } else if str_eq(s, "15m") {
            Some(KlineInterval::Minute15)
        } else if str_eq(s, "30m") {
            Some(KlineInterval::Minute30)
        } else if str_eq(s, "1h") {
            Some(KlineInterval::Hour1)
        } else if str_eq(s, "2h") {
            Some(KlineInterval::Hour2)
        } else if str_eq(s, "4h") {
            Some(KlineInterval::Hour4)
        } else if str_eq(s, "6h") {
            Some(KlineInterval::Hour6)
        } else if str_eq(s, "8h") {
            Some(KlineInterval::Hour8)
        } else if str_eq(s, "12h") {
            Some(KlineInterval::Hour12)
        } else if str_eq(s, "1d") {
            Some(KlineInterval::Day1)
        } else if str_eq(s, "3d") {
            Some(KlineInterval::Day3)
        } else if str_eq(s, "1w") {
            Some(KlineInterval::Week1)
        } else if str_eq(s, "1M") {
            Some(KlineInterval::Month1)
        } else {
            None
        }
    }
}

/// Reading back the code of an interval gives that interval: every interval
/// has a code of its own, and parsing it is the inverse of printing it.
pub proof fn lemma_interval_code_roundtrip(i: KlineInterval)
    ensures
        interval_of_text(interval_text(i)) == Some(i),
{
    reveal_strlit("1m");
    reveal_strlit("3m");
    reveal_strlit("5m");
    reveal_strlit("15m");
    reveal_strlit("30m");
    reveal_strlit("1h");
    reveal_strlit("2h");
    reveal_strlit("4h");
    reveal_strlit("6h");
    reveal_strlit("8h");
    reveal_strlit("12h");
    reveal_strlit("1d");
    reveal_strlit("3d");
    reveal_strlit("1w");
    reveal_strlit("1M");
    assert("1m"@.len() == 2 && "1m"@[0] == '1' && "1m"@[1] == 'm');
    assert("3m"@.len() == 2 && "3m"@[0] == '3' && "3m"@[1] == 'm');
    assert("5m"@.len() == 2 && "5m"@[0] == '5' && "5m"@[1] == 'm');
    assert("15m"@.len() == 3 && "15m"@[0] == '1' && "15m"@[1] == '5' && "15m"@[2] == 'm');
    assert("30m"@.len() == 3 && "30m"@[0] == '3' && "30m"@[1] == '0' && "30m"@[2] == 'm');
    assert("1h"@.len() == 2 && "1h"@[0] == '1' && "1h"@[1] == 'h');
    assert("2h"@.len() == 2 && "2h"@[0] == '2' && "2h"@[1] == 'h');
    assert("4h"@.len() == 2 && "4h"@[0] == '4' && "4h"@[1] == 'h');
    assert("6h"@.len() == 2 && "6h"@[0] == '6' && "6h"@[1] == 'h');
    assert("8h"@.len() == 2 && "8h"@[0] == '8' && "8h"@[1] == 'h');
    assert("12h"@.len() == 3 && "12h"@[0] == '1' && "12h"@[1] == '2' && "12h"@[2] == 'h');
    assert("1d"@.len() == 2 && "1d"@[0] == '1' && "1d"@[1] == 'd');
    assert("3d"@.len() == 2 && "3d"@[0] == '3' && "3d"@[1] == 'd');
    assert("1w"@.len() == 2 && "1w"@[0] == '1' && "1w"@[1] == 'w');
    assert("1M"@.len() == 2 && "1M"@[0] == '1' && "1M"@[1] == 'M');
}

// ---------------------------------------------------------------------------
// Stream names and URLs

/// Stream name of a symbol's klines: lower-case symbol, `@kline_`, interval code.
pub open spec fn stream_name(symbol: Seq<char>, interval: KlineInterval) -> Seq<char> {
    unicode_lower(symbol) + "@kline_"@ + interval_text(interval)
}

/// The stream name for a symbol and an interval.
pub fn stream_symbol(symbol: &str, interval: KlineInterval) -> (s: String)
    ensures
        s@ == stream_name(symbol@, interval),
{
    let mut s = to_lower(symbol);
    s.append("@kline_");
    s.append(interval.as_str());
    s
}

/// URL of a single kline stream.
pub fn build_single_url(symbol: &str, interval: KlineInterval) -> (url: String)
    ensures
        url@ == BINANCE_WS_BASE@ + "/"@ + stream_name(symbol@, interval),
{
    let stream = stream_symbol(symbol, interval);
    let mut url = concat(BINANCE_WS_BASE, "/");
    url.append(stream.as_str());
    url
}

/// Stream names of (symbol, interval) pairs.
pub open spec fn stream_names(streams: Seq<(Seq<char>, KlineInterval)>) -> Seq<Seq<char>> {
    streams.map_values(|p: (Seq<char>, KlineInterval)| stream_name(p.0, p.1))
}

/// Views of (symbol, interval) pairs.
pub open spec fn stream_views(v: Seq<(&str, KlineInterval)>) -> Seq<(Seq<char>, KlineInterval)> {
    v.map_values(|p: (&str, KlineInterval)| (p.0@, p.1))
}

/// URL of a combined stream of several symbols and intervals.
pub fn build_combined_url(streams: &[(&str, KlineInterval)]) -> (url: String)
    ensures
        url@ == COMBINED_STREAM_URL@ + joined(stream_names(stream_views(streams@)), "/"@),
{
    let mut names: Vec<String> = Vec::new();
    let mut i: usize = 0;
    while i < streams.len()
        invariant
            i <= streams.len(),
            views(names@) == stream_names(stream_views(streams@)).take(i as int),
        decreases streams.len() - i,
    {
        let ghost before = views(names@);
        let (s, iv) = streams[i];
        let n = stream_symbol(s, iv);
        names.push(n);
        proof {
            assert(views(names@) =~= before.push(stream_name(s@, iv)));
            assert(stream_names(stream_views(streams@)).take(i + 1) =~= stream_names(
                stream_views(streams@),
            ).take(i as int).push(stream_name(s@, iv)));
        }
        i = i + 1;
    }
    assert(stream_names(stream_views(streams@)).take(i as int) =~= stream_names(
        stream_views(streams@),
    ));
    let joined_names = join(&names, "/");
    concat(COMBINED_STREAM_URL, joined_names.as_str())
}

/// REST URL of the latest klines of a symbol.
pub open spec fn klines_url_text(
    base: Seq<char>,
    symbol: Seq<char>,
    interval: KlineInterval,
    limit: nat,
) -> Seq<char> {
    base + "/api/v3/klines?symbol="@ + unicode_upper(symbol) + "&interval="@ + interval_text(
        interval,
    ) + "&limit="@ + decimal(limit)
}

/// Builds the REST URL of the latest `limit` klines of a symbol.
pub fn klines_url(base: &str, symbol: &str, interval: KlineInterval, limit: usize) -> (url: String)
    ensures
        url@ == klines_url_text(base@, symbol@, interval, limit as nat),
{
    let upper = to_upper(symbol);
    let lim = u64_to_string(limit as u64);
    let mut url = concat(base, "/api/v3/klines?symbol=");
    url.append(upper.as_str());
    url.append("&interval=");
    url.append(interval.as_str());
    url.append("&limit=");
    url.append(lim.as_str());
    url
}

/// REST URL of the klines of a symbol that end at `end_time_ms`.
pub open spec fn klines_until_url_text(
    base: Seq<char>,
    symbol: Seq<char>,
    interval: KlineInterval,
    end_time_ms: i64,
    limit: nat,
) -> Seq<char> {
    base + "/api/v3/klines?symbol="@ + unicode_upper(symbol) + "&interval="@ + interval_text(
        interval,
    ) + "&endTime="@ + signed_decimal(end_time_ms as int) + "&limit="@ + decimal(limit)
}

/// Builds the REST URL of `limit` klines of a symbol ending at `end_time_ms`.
pub fn klines_until_url(
    base: &str,
    symbol: &str,
    interval: KlineInterval,
    end_time_ms: i64,
    limit: usize,
) -> (url: String)
    ensures
        url@ == klines_until_url_text(base@, symbol@, interval, end_time_ms, limit as nat),
{
    let upper = to_upper(symbol);
    let end = i64_to_string(end_time_ms);
    let lim = u64_to_string(limit as u64);
    let mut url = concat(base, "/api/v3/klines?symbol=");
    url.append(upper.as_str());
    url.append("&interval=");
    url.append(interval.as_str());
    url.append("&endTime=");
    url.append(end.as_str());
    url.append("&limit=");
    url.append(lim.as_str());
    url
}

// ---------------------------------------------------------------------------
// Connection state

/// WebSocket connection state.
#[derive(Debug, Clone, Copy, PartialEq, Eq, Structural)]
pub enum WsState {
    Disconnected,
    Connecting,
    Connected,
    Reconnecting,
}

/// The number under which a state is stored.
pub open spec fn state_code(s: WsState) -> u64 {
    match s {
        WsState::Disconnected => 0,
        WsState::Connecting => 1,
        WsState::Connected => 2,
        WsState::Reconnecting => 3,
    }
}

/// The state stored under a number; unknown numbers read as `Disconnected`.
pub open spec fn state_of_code(c: u64) -> WsState {
    if c == 1 {
        WsState::Connecting
    } else if c == 2 {
        WsState::Connected
    } else if c == 3 {
        WsState::Reconnecting
    } else {
        WsState::Disconnected
    }
}

impl WsState {
    /// The number under which the state is stored.
    pub fn code(&self) -> (c: u64)
        ensures
            c == state_code(*self),
    {
        match self {
            WsState::Disconnected => 0,
            WsState::Connecting => 1,
            WsState::Connected => 2,
            WsState::Reconnecting => 3,
        }
    }

    /// The state stored under a number.
    pub fn from_code(c: u64) -> (s: WsState)
        ensures
            s == state_of_code(c),
    {
        match c {
            1 => WsState::Connecting,
            2 => WsState::Connected,
            3 => WsState::Reconnecting,
            _ => WsState::Disconnected,
        }
    }
}

/// Reading back a stored state gives the state.
pub proof fn lemma_state_code_roundtrip(s: WsState)
    ensures
        state_of_code(state_code(s)) == s,
{
}

/// Binance WebSocket client configuration
pub struct BinanceWsConfig {
    /// WebSocket base URL (default: Binance production)
    pub ws_url: String,
    /// Enable combined stream (default: true)
    pub combined: bool,
    /// Enable auto-reconnect (default: true)
    pub auto_reconnect: bool,
    /// Maximum reconnection attempts (0 = infinite)
    pub max_reconnect_attempts: u32,
    /// Enable heartbeat monitoring
    pub enable_heartbeat: bool,
}

impl Default for BinanceWsConfig {
    fn default() -> (c: Self)
        ensures
            c.ws_url@ == BINANCE_WS_BASE@,
            c.combined,
            c.auto_reconnect,
            c.max_reconnect_attempts == 0,
            c.enable_heartbeat,
    {
        BinanceWsConfig {
            ws_url: String::from_str(BINANCE_WS_BASE),
            combined: true,
            auto_reconnect: true,
            max_reconnect_attempts: 0,
            enable_heartbeat: true,
        }
    }
}

// ---------------------------------------------------------------------------
// Reconnection schedule

/// 2 to the power `n`.
pub open spec fn two_pow(n: nat) -> nat
    decreases n,
{
    if n == 0 {
        1
    } else {
        2 * two_pow((n - 1) as nat)
    }
}

proof fn lemma_two_pow_monotone(a: nat, b: nat)
    requires
        a <= b,
    ensures
        two_pow(a) <= two_pow(b),
    decreases b,
{
    if a < b {
        lemma_two_pow_monotone(a, (b - 1) as nat);
    }
}

/// Delay before reconnection attempt number `attempt + 1`: exponential from
/// five seconds, capped at five minutes.
pub open spec fn reconnect_delay(attempt: nat) -> nat {
    let d = 5 * two_pow(attempt);
    if d < 300 {
        d
    } else {
        300
    }
}

/// The delay before the next reconnection after `attempt` reconnections.
/// Doubling stops as soon as the cap is reached, so no attempt count overflows.
pub fn reconnect_delay_secs(attempt: u32) -> (d: u64)
    ensures
        d == reconnect_delay(attempt as nat),
{
    let mut d: u64 = BASE_RECONNECT_DELAY_SECS;
    let mut i: u32 = 0;
    while i < attempt
        invariant
            i <= attempt,
            d == 5 * two_pow(i as nat),
            d < 300,
        decreases attempt - i,
    {
        if d * 2 >= MAX_RECONNECT_DELAY_SECS {
            proof {
                lemma_two_pow_monotone((i + 1) as nat, attempt as nat);
            }
            return MAX_RECONNECT_DELAY_SECS;
        }
        d = d * 2;
        i = i + 1;
    }
    d
}

/// Reconnection delays never exceed five minutes and never shrink from one
/// attempt to the next.
pub proof fn lemma_reconnect_delay_bounded_monotone(a: nat, b: nat)
    requires
        a <= b,
    ensures
        reconnect_delay(a) <= 300,
        reconnect_delay(a) <= reconnect_delay(b),
        reconnect_delay(a) >= 5,
{
    lemma_two_pow_monotone(a, b);
    lemma_two_pow_monotone(0, a);
}

/// What the client does once a connection has ended.
#[derive(Debug, Clone, Copy, PartialEq, Eq, Structural)]
pub enum ReconnectStep {
    /// Stop the client (it then reports `Disconnected`).
    Stop,
    /// Wait `delay_secs`, then connect again as attempt number `attempt`.
    Reconnect { attempt: u32, delay_secs: u64 },
}

/// The reconnection policy: stop without auto-reconnect or when a positive
/// attempt limit is reached; otherwise reconnect after the scheduled delay.
pub open spec fn reconnect_step_spec(
    auto_reconnect: bool,
    max_reconnect_attempts: u32,
    attempt: u32,
) -> ReconnectStep {
    if !auto_reconnect {
        ReconnectStep::Stop
    } else if max_reconnect_attempts > 0 && attempt >= max_reconnect_attempts {
        ReconnectStep::Stop
    } else {
        ReconnectStep::Reconnect {
            attempt: next_attempt(attempt),
            delay_secs: reconnect_delay(attempt as nat) as u64,
        }
    }
}

/// The number of the next attempt; the count stays at the largest `u32` once
/// it is reached (more than four billion reconnections).
pub open spec fn next_attempt(attempt: u32) -> u32 {
    if attempt < u32::MAX {
        (attempt + 1) as u32
    } else {
        attempt
    }
}

/// Decides what follows the end of a connection after `attempt` reconnections.
pub fn after_connection_end(config: &BinanceWsConfig, attempt: u32) -> (step: ReconnectStep)
    ensures
        step == reconnect_step_spec(config.auto_reconnect, config.max_reconnect_attempts, attempt),
{
    if !config.auto_reconnect {
        return ReconnectStep::Stop;
    }
    if config.max_reconnect_attempts > 0 && attempt >= config.max_reconnect_attempts {
        return ReconnectStep::Stop;
    }
    let delay = reconnect_delay_secs(attempt);
    let next = if attempt < u32::MAX {
        attempt + 1
    } else {
        attempt
    };
    ReconnectStep::Reconnect { attempt: next, delay_secs: delay }
}

/// With a positive limit, the client reconnects at most that many times:
/// every reconnection it decides on stays within the limit.
pub proof fn lemma_reconnects_within_limit(auto_reconnect: bool, max: u32, attempt: u32)
    requires
        max > 0,
    ensures
        reconnect_step_spec(auto_reconnect, max, attempt) matches ReconnectStep::Reconnect {
            attempt: a,
            ..
        } ==> a <= max,
{
}

/// With auto-reconnect on and no attempt limit (0), the client never stops:
/// after `attempt` reconnections it reconnects again, numbering the next
/// attempt `attempt + 1`, after 5 s doubled per attempt and capped at 300 s.
pub proof fn lemma_unlimited_reconnects_forever(attempt: u32)
    requires
        attempt < u32::MAX,
    ensures
        reconnect_step_spec(true, 0, attempt) == (ReconnectStep::Reconnect {
            attempt: (attempt + 1) as u32,
            delay_secs: (if 5 * two_pow(attempt as nat) < 300 {
                5 * two_pow(attempt as nat)
            } else {
                300
            }) as u64,
        }),
{
}

/// What the stream client reports to its listeners; `K` is the kline type.
pub enum WsEvent<K> {
    /// WebSocket connected
    Connected,
    /// WebSocket disconnected
    Disconnected,
    /// New kline received
    Kline(K),
    /// Connection error
    Error(String),
    /// Reconnection started
    Reconnecting { attempt: u32, delay_secs: u64 },
}

/// The event reported for a decision taken after a connection ended: the
/// reconnection with its attempt number and delay, or the final disconnect.
pub fn event_after_connection_end<K>(step: ReconnectStep) -> (e: WsEvent<K>)
    ensures
        match step {
            ReconnectStep::Stop => e is Disconnected,
            ReconnectStep::Reconnect { attempt, delay_secs } => e matches WsEvent::Reconnecting {
                attempt: a,
                delay_secs: d,
            } && a == attempt && d == delay_secs,
        },
{
    match step {
        ReconnectStep::Stop => WsEvent::Disconnected,
        ReconnectStep::Reconnect { attempt, delay_secs } => WsEvent::Reconnecting {
            attempt,
            delay_secs,
        },
    }
}

/// The kinds of WebSocket frames the stream loop receives.
#[derive(Debug, Clone, Copy, PartialEq, Eq, Structural)]
pub enum WsMessageKind {
    /// A text frame (a kline message, single or combined stream).
    Text,
    /// A ping from the server.
    Ping,
    /// A pong from the server.
    Pong,
    /// The server closed the connection.
    Close,
    /// A binary frame.
    Binary,
    /// A raw frame.
    Frame,
    /// The connection failed.
    Failed,
}

/// What the stream loop does with a received frame.
#[derive(Debug, Clone, Copy, PartialEq, Eq, Structural)]
pub enum WsReaction {
    /// Parse the text as a kline and forward it.
    ForwardKline,
    /// Answer with a pong carrying the same payload.
    ReplyPong,
    /// Nothing.
    Ignore,
    /// Leave the loop; the connection ended normally.
    Stop,
    /// Leave the loop with the connection's error.
    Fail,
}

/// The stream loop's reaction to each kind of frame.
pub open spec fn reaction_to(kind: WsMessageKind) -> WsReaction {
    match kind {
        WsMessageKind::Text => WsReaction::ForwardKline,
        WsMessageKind::Ping => WsReaction::ReplyPong,
        WsMessageKind::Pong => WsReaction::Ignore,
        WsMessageKind::Close => WsReaction::Stop,
        WsMessageKind::Binary => WsReaction::Ignore,
        WsMessageKind::Frame => WsReaction::Ignore,
        WsMessageKind::Failed => WsReaction::Fail,
    }
}

/// What the stream loop does with a frame, once the shutdown flag is checked:
/// a raised flag ends the loop whatever arrived.
pub fn react_to_message(shutdown: bool, kind: WsMessageKind) -> (r: WsReaction)
    ensures
        shutdown ==> r == WsReaction::Stop,
        !shutdown ==> r == reaction_to(kind),
{
    if shutdown {
        return WsReaction::Stop;
    }
    match kind {
        WsMessageKind::Text => WsReaction::ForwardKline,
        WsMessageKind::Ping => WsReaction::ReplyPong,
        WsMessageKind::Pong => WsReaction::Ignore,
        WsMessageKind::Close => WsReaction::Stop,
        WsMessageKind::Binary => WsReaction::Ignore,
        WsMessageKind::Frame => WsReaction::Ignore,
        WsMessageKind::Failed => WsReaction::Fail,
    }
}

/// Whether a connection whose last message arrived at `last_message_secs` is
/// healthy at `now_secs`: a message within the last two minutes.
pub fn is_healthy_at(now_secs: u64, last_message_secs: u64) -> (r: bool)
    requires
        last_message_secs <= now_secs,
    ensures
        r == (now_secs - last_message_secs < 120),
{
    now_secs - last_message_secs < HEALTHY_SILENCE_SECS
}

// ---------------------------------------------------------------------------
// REST retries and bootstrap validation

/// Attempts of one kline fetch.
pub const MAX_FETCH_RETRIES: u32 = 3;

/// Delay after failed fetch attempt `attempt` (counted from 0), if another
/// attempt follows: one second, doubled each time.
pub open spec fn fetch_retry_delay(attempt: u32) -> Option<u64> {
    if attempt + 1 < 3 {
        Some((1000 * two_pow(attempt as nat)) as u64)
    } else {
        None
    }
}

/// Delay before the next fetch attempt after attempt `attempt` failed, or
/// `None` when that was the last attempt.
pub fn fetch_retry_delay_ms(attempt: u32) -> (d: Option<u64>)
    requires
        attempt < MAX_FETCH_RETRIES,
    ensures
        d == fetch_retry_delay(attempt),
{
    if attempt < MAX_FETCH_RETRIES - 1 {
        if attempt == 0 {
            Some(1000)
        } else {
            proof {
                assert(two_pow(0) == 1);
                assert(two_pow(1) == 2);
            }
            Some(2000)
        }
    } else {
        None
    }
}

/// How many candles a start-up load fetches: the warm-up for the indicators
/// and the working window (100 and 1000 unless given). The REST client that
/// fetches them stays with the caller.
pub struct BootstrapDataLoader {
    warmup_candles: usize,
    working_candles: usize,
}

impl BootstrapDataLoader {
    /// Warm-up candles.
    pub closed spec fn warmup(&self) -> nat {
        self.warmup_candles as nat
    }

    /// Working candles.
    pub closed spec fn working(&self) -> nat {
        self.working_candles as nat
    }

    /// A loader with the given counts, each defaulting when not given.
    pub fn new(warmup_candles: Option<usize>, working_candles: Option<usize>) -> (l: Self)
        ensures
            l.warmup() == match warmup_candles {
                Some(n) => n,
                None => DEFAULT_WARMUP_CANDLES,
            },
            l.working() == match working_candles {
                Some(n) => n,
                None => DEFAULT_WORKING_CANDLES,
            },
    {
        BootstrapDataLoader {
            warmup_candles: match warmup_candles {
                Some(n) => n,
                None => DEFAULT_WARMUP_CANDLES,
            },
            working_candles: match working_candles {
                Some(n) => n,
                None => DEFAULT_WORKING_CANDLES,
            },
        }
    }

    /// Warm-up candles.
    pub fn warmup_candles(&self) -> (n: usize)
        ensures
            n == self.warmup(),
    {
        self.warmup_candles
    }

    /// Working candles.
    pub fn working_candles(&self) -> (n: usize)
        ensures
            n == self.working(),
    {
        self.working_candles
    }

    /// Candles to fetch: warm-up plus working window.
    pub fn total_candles(&self) -> (n: usize)
        requires
            self.warmup() + self.working() <= usize::MAX,
        ensures
            n == self.warmup() + self.working(),
    {
        self.warmup_candles + self.working_candles
    }
}

/// Timestamps strictly increase.
pub open spec fn strictly_increasing(ts: Seq<i64>) -> bool {
    forall|i: int| 1 <= i < ts.len() ==> ts[i - 1] < #[trigger] ts[i]
}

/// The first position whose timestamp does not exceed the one before it,
/// or `None` when the timestamps strictly increase.
pub fn first_out_of_order(ts: &Vec<i64>) -> (r: Option<usize>)
    ensures
        r is None <==> strictly_increasing(ts@),
        r matches Some(i) ==> 1 <= i < ts@.len() && ts@[i - 1] >= ts@[i as int]
            && strictly_increasing(ts@.take(i as int)),
{
    let mut i: usize = 1;
    while i < ts.len()
        invariant
            1 <= i,
            i <= ts.len() || ts.len() == 0,
            forall|k: int| 1 <= k < i && k < ts@.len() ==> ts@[k - 1] < #[trigger] ts@[k],
        decreases ts.len() - i,
    {
        if ts[i] <= ts[i - 1] {
            proof {
                assert forall|k: int| 1 <= k < ts@.take(i as int).len() implies ts@.take(
                    i as int,
                )[k - 1] < #[trigger] ts@.take(i as int)[k] by {
                    assert(ts@[k - 1] < ts@[k]);
                }
            }
            return Some(i);
        }
        i = i + 1;
    }
    None
}

} // verus!

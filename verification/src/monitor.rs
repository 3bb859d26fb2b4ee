//! Production monitoring: health of the trading system, which alerts to
//! raise and where to send them, and which recorded errors are recent.

use vstd::prelude::*;
use crate::keys::opt_string_view;
use crate::text::{concat, i64_to_string, signed_decimal, u64_to_string, decimal};

verus! {

/// Signals older than this many milliseconds are stale.
pub const STALE_SIGNAL_MS: i64 = 60000;

/// Errors younger than this many milliseconds count as recent.
pub const ERROR_WINDOW_MS: i64 = 3600000;

/// Where and when alerts are sent (the PnL and drawdown thresholds, which
/// are fractions, are held beside it).
pub struct AlertConfig {
    /// Enable Pushover alerts
    pub pushover_enabled: bool,
    /// Pushover API token
    pub pushover_token: Option<String>,
    /// Pushover user key
    pub pushover_user_key: Option<String>,
    /// Enable Telegram alerts
    pub telegram_enabled: bool,
    /// Telegram bot token
    pub telegram_bot_token: Option<String>,
    /// Telegram chat ID
    pub telegram_chat_id: Option<String>,
    /// Alert on daily trade limit warning
    pub daily_trade_warning: usize,
}

impl Default for AlertConfig {
    fn default() -> (c: Self)
        ensures
            !c.pushover_enabled,
            c.pushover_token is None,
            c.pushover_user_key is None,
            !c.telegram_enabled,
            c.telegram_bot_token is None,
            c.telegram_chat_id is None,
            c.daily_trade_warning == 15,
    {
        AlertConfig {
            pushover_enabled: false,
            pushover_token: None,
            pushover_user_key: None,
            telegram_enabled: false,
            telegram_bot_token: None,
            telegram_chat_id: None,
            daily_trade_warning: 15,
        }
    }
}

/// Monitoring intervals and alert settings.
pub struct MonitorConfig {
    /// Health check interval in seconds
    pub health_check_interval_secs: u64,
    /// Metrics flush interval in seconds
    pub metrics_flush_interval_secs: u64,
    /// Alert configuration
    pub alert: AlertConfig,
}

impl Default for MonitorConfig {
    fn default() -> (c: Self)
        ensures
            c.health_check_interval_secs == 30,
            c.metrics_flush_interval_secs == 60,
            c.alert.daily_trade_warning == 15,
            !c.alert.pushover_enabled,
            !c.alert.telegram_enabled,
    {
        MonitorConfig {
            health_check_interval_secs: 30,
            metrics_flush_interval_secs: 60,
            alert: AlertConfig::default(),
        }
    }
}

/// The Pushover credentials, when Pushover alerts are on and both are set.
pub open spec fn pushover_target_of(c: AlertConfig) -> Option<(Seq<char>, Seq<char>)> {
    if c.pushover_enabled && c.pushover_token is Some && c.pushover_user_key is Some {
        Some((c.pushover_token->0@, c.pushover_user_key->0@))
    } else {
        None
    }
}

/// The Telegram bot and chat, when Telegram alerts are on and both are set.
pub open spec fn telegram_target_of(c: AlertConfig) -> Option<(Seq<char>, Seq<char>)> {
    if c.telegram_enabled && c.telegram_bot_token is Some && c.telegram_chat_id is Some {
        Some((c.telegram_bot_token->0@, c.telegram_chat_id->0@))
    } else {
        None
    }
}

impl AlertConfig {
    /// The Pushover token and user key an alert goes to, if any.
    pub fn pushover_target(&self) -> (r: Option<(&str, &str)>)
        ensures
            match r {
                Some((t, u)) => pushover_target_of(*self) == Some((t@, u@)),
                None => pushover_target_of(*self) is None,
            },
    {
        if self.pushover_enabled {
            match (&self.pushover_token, &self.pushover_user_key) {
                (Some(t), Some(u)) => Some((t.as_str(), u.as_str())),
                _ => None,
            }
        } else {
            None
        }
    }

    /// The Telegram bot token and chat an alert goes to, if any.
    pub fn telegram_target(&self) -> (r: Option<(&str, &str)>)
        ensures
            match r {
                Some((b, c)) => telegram_target_of(*self) == Some((b@, c@)),
                None => telegram_target_of(*self) is None,
            },
    {
        if self.telegram_enabled {
            match (&self.telegram_bot_token, &self.telegram_chat_id) {
                (Some(b), Some(c)) => Some((b.as_str(), c.as_str())),
                _ => None,
            }
        } else {
            None
        }
    }
}

/// The Telegram endpoint of a bot.
pub fn telegram_url(bot_token: &str) -> (u: String)
    ensures
        u@ == "https://api.telegram.org/bot"@ + bot_token@ + "/sendMessage"@,
{
    let mut u = concat("https://api.telegram.org/bot", bot_token);
    u.append("/sendMessage");
    u
}

/// The text of a Telegram alert: the title in bold, then the message.
pub fn telegram_text(title: &str, message: &str) -> (t: String)
    ensures
        t@ == "**"@ + title@ + "**\n"@ + message@,
{
    let mut t = concat("**", title);
    t.append("**\n");
    t.append(message);
    t
}

/// Health of the trading system (the current drawdown, a fraction, is held beside it).
pub struct HealthStatus {
    /// Overall health status
    pub healthy: bool,
    /// Redis connection status
    pub redis_connected: bool,
    /// Database status
    pub database_ok: bool,
    /// Last signal timestamp
    pub last_signal_ms: Option<i64>,
    /// Signal freshness (ms since last signal)
    pub signal_freshness_ms: Option<i64>,
    /// Active positions count
    pub active_positions: usize,
    /// Daily trade count
    pub daily_trades: usize,
    /// Errors in last hour
    pub errors_last_hour: usize,
    /// Last error message
    pub last_error: Option<String>,
}

impl Default for HealthStatus {
    fn default() -> (s: Self)
        ensures
            !s.healthy,
            !s.redis_connected,
            !s.database_ok,
            s.last_signal_ms is None,
            s.signal_freshness_ms is None,
            s.active_positions == 0,
            s.daily_trades == 0,
            s.errors_last_hour == 0,
            s.last_error is None,
    {
        HealthStatus {
            healthy: false,
            redis_connected: false,
            database_ok: false,
            last_signal_ms: None,
            signal_freshness_ms: None,
            active_positions: 0,
            daily_trades: 0,
            errors_last_hour: 0,
            last_error: None,
        }
    }
}

/// The system is healthy when Redis and the database answer and a signal
/// arrived within the last minute.
pub open spec fn healthy_spec(redis: bool, database: bool, freshness_ms: Option<i64>) -> bool {
    redis && database && match freshness_ms {
        Some(f) => f < STALE_SIGNAL_MS,
        None => false,
    }
}

/// The health verdict needs every check to pass: a down database, a lost
/// Redis connection, or a signal that is missing or at least a minute old each
/// make the system unhealthy, whatever the others say; when all pass it is
/// healthy, and a fresher signal never makes a healthy system unhealthy.
pub proof fn lemma_health_needs_every_check(
    redis: bool,
    database: bool,
    freshness_ms: Option<i64>,
    fresher_ms: i64,
)
    ensures
        !database ==> !healthy_spec(redis, database, freshness_ms),
        !redis ==> !healthy_spec(redis, database, freshness_ms),
        freshness_ms is None ==> !healthy_spec(redis, database, freshness_ms),
        (freshness_ms is Some && freshness_ms->0 >= 60000) ==> !healthy_spec(
            redis,
            database,
            freshness_ms,
        ),
        (redis && database && freshness_ms is Some && freshness_ms->0 < 60000) ==> healthy_spec(
            redis,
            database,
            freshness_ms,
        ),
        (healthy_spec(redis, database, freshness_ms) && freshness_ms is Some && fresher_ms
            <= freshness_ms->0) ==> healthy_spec(redis, database, Some(fresher_ms)),
{
}

/// Whether the system is healthy.
pub fn overall_health(redis_connected: bool, database_ok: bool, signal_freshness_ms: Option<i64>) -> (r:
    bool)
    ensures
        r == healthy_spec(redis_connected, database_ok, signal_freshness_ms),
{
    let freshness = match signal_freshness_ms {
        Some(f) => f,
        None => i64::MAX,
    };
    redis_connected && database_ok && freshness < STALE_SIGNAL_MS
}

/// The health report for the readings: the last signal's time and age when
/// it is known, and the overall verdict.
pub fn health_report(
    redis_connected: bool,
    database_ok: bool,
    daily_trades: usize,
    last_signal_ms: Option<i64>,
    now_ms: i64,
) -> (s: HealthStatus)
    requires
        last_signal_ms matches Some(t) ==> i64::MIN <= now_ms - t <= i64::MAX,
    ensures
        s.redis_connected == redis_connected,
        s.database_ok == database_ok,
        s.daily_trades == daily_trades,
        s.last_signal_ms == last_signal_ms,
        s.signal_freshness_ms == match last_signal_ms {
            Some(t) => Some((now_ms - t) as i64),
            None => None,
        },
        s.healthy == healthy_spec(redis_connected, database_ok, s.signal_freshness_ms),
        s.active_positions == 0,
        s.errors_last_hour == 0,
        s.last_error is None,
{
    let freshness = match last_signal_ms {
        Some(t) => Some(now_ms - t),
        None => None,
    };
    HealthStatus {
        healthy: overall_health(redis_connected, database_ok, freshness),
        redis_connected,
        database_ok,
        last_signal_ms,
        signal_freshness_ms: freshness,
        active_positions: 0,
        daily_trades,
        errors_last_hour: 0,
        last_error: None,
    }
}

/// An alert to raise: sent under `title` with `priority` when it has a
/// title, logged only otherwise.
pub struct Alert {
    /// The title it is sent under, if it is sent.
    pub title: Option<&'static str>,
    /// The alert's text.
    pub message: String,
    /// The delivery priority.
    pub priority: i32,
}

/// `true` or `false`, as a boolean is displayed.
pub open spec fn bool_text(b: bool) -> Seq<char> {
    if b {
        "true"@
    } else {
        "false"@
    }
}

/// `Some(n)` or `None`, as an optional number is debug-printed.
pub open spec fn option_debug_text(o: Option<i64>) -> Seq<char> {
    match o {
        Some(n) => "Some("@ + signed_decimal(n as int) + ")"@,
        None => "None"@,
    }
}

/// The trade-count warning text.
pub open spec fn trade_warning_text(trades: usize, warning: usize) -> Seq<char> {
    "Trade Limit Warning: "@ + decimal(trades as nat) + " trades today (warning at "@ + decimal(
        warning as nat,
    ) + ")"@
}

/// The stale-signal text.
pub open spec fn stale_text(freshness: i64) -> Seq<char> {
    "Signal Stale: Last signal "@ + signed_decimal(freshness as int) + "ms ago"@
}

/// The unhealthy-system text.
pub open spec fn unhealthy_text(s: HealthStatus) -> Seq<char> {
    "System Unhealthy: Redis="@ + bool_text(s.redis_connected) + ", DB="@ + bool_text(
        s.database_ok,
    ) + ", Signal Freshness="@ + option_debug_text(s.signal_freshness_ms) + "ms"@
}

fn bool_string(b: bool) -> (s: &'static str)
    ensures
        s@ == bool_text(b),
{
    if b {
        "true"
    } else {
        "false"
    }
}

fn option_debug_string(o: Option<i64>) -> (s: String)
    ensures
        s@ == option_debug_text(o),
{
    match o {
        Some(n) => {
            let mut s = String::from_str("Some(");
            let d = i64_to_string(n);
            s.append(d.as_str());
            s.append(")");
            s
        },
        None => String::from_str("None"),
    }
}

/// The message of an alert, when it is raised.
pub open spec fn alert_message(a: Alert) -> Seq<char> {
    a.message@
}

/// The alerts for a health report, in order: the drawdown alert (its text
/// given when the drawdown breached its threshold), the trade-count
/// warning, a stale signal (logged only), then an unhealthy system.
pub fn plan_alerts(status: &HealthStatus, config: &AlertConfig, drawdown_alert: Option<String>) -> (r:
    Vec<Alert>)
    ensures
        r@.len() == (if drawdown_alert is Some {
            1int
        } else {
            0
        }) + (if status.daily_trades >= config.daily_trade_warning {
            1int
        } else {
            0
        }) + (if status.signal_freshness_ms matches Some(f) && f > STALE_SIGNAL_MS {
            1int
        } else {
            0
        }) + (if !status.healthy {
            1int
        } else {
            0
        }),
        drawdown_alert matches Some(d) ==> r@[0].message@ == d@ && r@[0].title == Some(
            "Drawdown Alert",
        ) && r@[0].priority == 1,
        status.daily_trades >= config.daily_trade_warning ==> ({
            let i = if drawdown_alert is Some {
                1int
            } else {
                0
            };
            r@[i].message@ == trade_warning_text(status.daily_trades, config.daily_trade_warning)
                && r@[i].title == Some("Trade Limit Warning") && r@[i].priority == 0
        }),
        !status.healthy ==> r@.last().message@ == unhealthy_text(*status) && r@.last().title
            == Some("System Health Alert") && r@.last().priority == 2,
        forall|i: int|
            0 <= i < r@.len() && (r@[i].title is None) ==> (status.signal_freshness_ms matches Some(
                f,
            ) && f > STALE_SIGNAL_MS && r@[i].message@ == stale_text(f)),
{
    let mut alerts: Vec<Alert> = Vec::new();
    match drawdown_alert {
        Some(d) => {
            alerts.push(Alert { title: Some("Drawdown Alert"), message: d, priority: 1 });
        },
        None => {},
    }
    let ghost n0 = alerts@.len();
    if status.daily_trades >= config.daily_trade_warning {
        let mut m = String::from_str("Trade Limit Warning: ");
        let t = u64_to_string(status.daily_trades as u64);
        m.append(t.as_str());
        m.append(" trades today (warning at ");
        let w = u64_to_string(config.daily_trade_warning as u64);
        m.append(w.as_str());
        m.append(")");
        alerts.push(Alert { title: Some("Trade Limit Warning"), message: m, priority: 0 });
    }
    let ghost n1 = alerts@.len();
    match status.signal_freshness_ms {
        Some(f) => {
            if f > STALE_SIGNAL_MS {
                let mut m = String::from_str("Signal Stale: Last signal ");
                let d = i64_to_string(f);
                m.append(d.as_str());
                m.append("ms ago");
                alerts.push(Alert { title: None, message: m, priority: 0 });
            }
        },
        None => {},
    }
    if !status.healthy {
        let mut m = String::from_str("System Unhealthy: Redis=");
        m.append(bool_string(status.redis_connected));
        m.append(", DB=");
        m.append(bool_string(status.database_ok));
        m.append(", Signal Freshness=");
        let o = option_debug_string(status.signal_freshness_ms);
        m.append(o.as_str());
        m.append("ms");
        alerts.push(Alert { title: Some("System Health Alert"), message: m, priority: 2 });
    }
    proof {
        assert(n0 <= n1);
    }
    alerts
}

/// The messages of the recorded errors at or after `cutoff_ms`, in the order
/// they are listed; unreadable entries are skipped.
pub open spec fn errors_since(entries: Seq<Option<(i64, Seq<char>)>>, cutoff_ms: int) -> Seq<
    Seq<char>,
>
    decreases entries.len(),
{
    if entries.len() == 0 {
        Seq::empty()
    } else {
        let rest = errors_since(entries.drop_last(), cutoff_ms);
        match entries.last() {
            Some((ts, msg)) => if ts >= cutoff_ms {
                rest.push(msg)
            } else {
                rest
            },
            None => rest,
        }
    }
}

/// The characters of recorded error entries.
pub open spec fn entry_texts(v: Seq<Option<(i64, String)>>) -> Seq<Option<(i64, Seq<char>)>> {
    v.map_values(
        |e: Option<(i64, String)>|
            match e {
                Some((t, m)) => Some((t, m@)),
                None => None,
            },
    )
}

/// The errors of the last hour before `now_ms`, from the recorded entries
/// (each a timestamp and a message, `None` where an entry could not be read).
pub fn errors_last_hour(entries: &Vec<Option<(i64, String)>>, now_ms: i64) -> (r: Vec<String>)
    requires
        now_ms >= i64::MIN + ERROR_WINDOW_MS,
    ensures
        r@.map_values(|s: String| s@) == errors_since(
            entry_texts(entries@),
            now_ms - ERROR_WINDOW_MS,
        ),
{
    let cutoff = now_ms - ERROR_WINDOW_MS;
    let mut out: Vec<String> = Vec::new();
    let mut i: usize = 0;
    while i < entries.len()
        invariant
            i <= entries@.len(),
            cutoff == now_ms - ERROR_WINDOW_MS,
            out@.map_values(|s: String| s@) == errors_since(
                entry_texts(entries@.take(i as int)),
                cutoff as int,
            ),
        decreases entries.len() - i,
    {
        let ghost before = out@.map_values(|s: String| s@);
        proof {
            let t = entry_texts(entries@.take(i + 1));
            assert(t.drop_last() =~= entry_texts(entries@.take(i as int)));
        }
        match &entries[i] {
            Some((ts, msg)) => {
                if *ts >= cutoff {
                    out.push(msg.clone());
                    proof {
                        assert(out@.map_values(|s: String| s@) =~= before.push(msg@));
                    }
                }
            },
            None => {},
        }
        i = i + 1;
    }
    proof {
        assert(entries@.take(entries@.len() as int) =~= entries@);
    }
    out
}

} // verus!

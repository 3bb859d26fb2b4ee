use zeroclaw::keys::create_redis_store;
use zeroclaw::monitor::{
    errors_last_hour, health_report, overall_health, plan_alerts, telegram_text, telegram_url,
    AlertConfig, HealthStatus, MonitorConfig,
};

#[test]
fn test_alert_config_default() {
    let config = AlertConfig::default();
    assert!(!config.pushover_enabled);
    assert!(!config.telegram_enabled);
    assert_eq!(config.daily_trade_warning, 15);
}

#[test]
fn test_monitor_config_default() {
    let config = MonitorConfig::default();
    assert_eq!(config.health_check_interval_secs, 30);
    assert_eq!(config.metrics_flush_interval_secs, 60);
}

#[test]
fn test_monitor_alert_config() {
    let mut alert_config = AlertConfig::default();
    alert_config.pushover_enabled = true;
    alert_config.telegram_enabled = true;
    assert!(alert_config.pushover_enabled);
    assert!(alert_config.telegram_enabled);
    assert!(alert_config.pushover_target().is_none());
    alert_config.pushover_token = Some("tok".to_string());
    alert_config.pushover_user_key = Some("usr".to_string());
    assert_eq!(alert_config.pushover_target(), Some(("tok", "usr")));
    alert_config.telegram_bot_token = Some("bot".to_string());
    assert!(alert_config.telegram_target().is_none());
    alert_config.telegram_chat_id = Some("42".to_string());
    assert_eq!(alert_config.telegram_target(), Some(("bot", "42")));
}

#[test]
fn health_verdicts() {
    assert!(overall_health(true, true, Some(59_999)));
    assert!(!overall_health(true, true, Some(60_000)));
    assert!(!overall_health(true, true, None));
    assert!(!overall_health(false, true, Some(0)));
    let report = health_report(true, true, 4, Some(1_000), 31_000);
    assert_eq!(report.signal_freshness_ms, Some(30_000));
    assert!(report.healthy);
    let stale = health_report(true, true, 4, Some(1_000), 71_000);
    assert!(!stale.healthy);
    let none = health_report(true, false, 0, None, 5);
    assert_eq!(none.signal_freshness_ms, None);
    assert!(!none.healthy);
}

#[test]
fn alerts_in_order() {
    let config = AlertConfig::default();
    let mut status = HealthStatus::default();
    status.redis_connected = true;
    status.database_ok = false;
    status.daily_trades = 16;
    status.signal_freshness_ms = Some(61_000);
    status.healthy = false;
    let alerts = plan_alerts(&status, &config, Some("Drawdown Alert: x".to_string()));
    assert_eq!(alerts.len(), 4);
    assert_eq!(alerts[0].title, Some("Drawdown Alert"));
    assert_eq!(alerts[1].message, "Trade Limit Warning: 16 trades today (warning at 15)");
    assert_eq!(alerts[1].priority, 0);
    assert_eq!(alerts[2].title, None);
    assert_eq!(alerts[2].message, "Signal Stale: Last signal 61000ms ago");
    assert_eq!(alerts[3].message, "System Unhealthy: Redis=true, DB=false, Signal Freshness=Some(61000)ms");
    assert_eq!(alerts[3].priority, 2);
    let mut fine = HealthStatus::default();
    fine.healthy = true;
    fine.signal_freshness_ms = Some(10);
    assert!(plan_alerts(&fine, &config, None).is_empty());
    let mut down = HealthStatus::default();
    down.healthy = false;
    let a = plan_alerts(&down, &config, None);
    assert_eq!(a.len(), 1);
    assert_eq!(a[0].message, "System Unhealthy: Redis=false, DB=false, Signal Freshness=Nonems");
}

#[test]
fn recent_errors_filter() {
    let now = 10_000_000i64;
    let entries = vec![
        Some((now - 10, "new".to_string())),
        None,
        Some((now - 3_600_000, "edge".to_string())),
        Some((now - 3_600_001, "old".to_string())),
    ];
    assert_eq!(errors_last_hour(&entries, now), vec!["new".to_string(), "edge".to_string()]);
}

#[test]
fn telegram_message_parts() {
    assert_eq!(telegram_url("abc"), "https://api.telegram.org/botabc/sendMessage");
    assert_eq!(telegram_text("T", "m"), "**T**\nm");
}

#[test]
fn test_monitor_creation() {
    // The monitor's settings and the Redis URL it opens, as the library holds them;
    // the monitor itself (with its database) lives in the program.
    let config = MonitorConfig::default();
    assert_eq!(config.health_check_interval_secs, 30);
    let monitor = create_redis_store("redis://localhost:6379");
    // May fail if the URL is refused, but shouldn't panic
    assert!(monitor.is_ok() || monitor.is_err());
}

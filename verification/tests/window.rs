use zeroclaw::window::StreamStep;
use zeroclaw::window::{DataFrameManager, KlineUpdate, DEFAULT_WARMUP_SIZE, DEFAULT_WORKING_WINDOW};

#[test]
fn test_dataframe_manager_creation() {
    let manager = DataFrameManager::new();
    assert!(manager.is_empty());
    assert!(!manager.is_warmed_up());
    assert_eq!(manager.warmup_rows(), DEFAULT_WARMUP_SIZE);
    assert_eq!(manager.working_rows(), DEFAULT_WORKING_WINDOW);
}

#[test]
fn test_dataframe_manager_custom_size() {
    let manager = DataFrameManager::with_size(200, 50);
    assert_eq!(manager.warmup_rows(), 50);
    assert_eq!(manager.working_rows(), 150);
}

#[test]
fn test_init_from_klines() {
    let mut manager = DataFrameManager::with_size(1100, 100);
    let times: Vec<i64> = (0..1100).map(|i| i as i64 * 60000).collect();
    let n = manager.init_from_klines(times);
    assert_eq!(n, 1100);
    assert_eq!(manager.len(), 1100);
    assert!(manager.is_warmed_up());
}

#[test]
fn test_add_kline() {
    let mut manager = DataFrameManager::with_size(10, 3);
    for i in 0..15 {
        manager.add_kline(i as i64 * 60000);
    }
    assert_eq!(manager.len(), 10);
    assert!(manager.is_warmed_up());
    assert_eq!(manager.latest_open_time(), Some(14 * 60000));
}

#[test]
fn test_warmup_detection() {
    let mut manager = DataFrameManager::with_size(10, 5);
    assert!(!manager.is_warmed_up());
    for i in 0..5 {
        manager.add_kline(i as i64 * 60000);
    }
    assert!(manager.is_warmed_up());
}

#[test]
fn test_working_df() {
    let mut manager = DataFrameManager::with_size(10, 3);
    let times: Vec<i64> = (0..10).map(|i| i as i64).collect();
    manager.init_from_klines(times);
    let (start, count) = manager.working_range();
    assert_eq!(count, 7);
    assert_eq!(start, 3);
}

#[test]
fn test_last_n() {
    let mut manager = DataFrameManager::new();
    let times: Vec<i64> = (0..100).map(|i| i as i64).collect();
    manager.init_from_klines(times);
    assert_eq!(manager.last_n(10), (90, 10));
    assert_eq!(manager.last_n(200), (0, 100));
}

#[test]
fn test_latest_kline() {
    let mut manager = DataFrameManager::new();
    assert!(manager.latest_open_time().is_none());
    manager.add_kline(12345);
    assert_eq!(manager.latest_open_time(), Some(12345));
}

#[test]
fn test_clear() {
    let mut manager = DataFrameManager::new();
    let times: Vec<i64> = (0..10).map(|i| i as i64).collect();
    manager.init_from_klines(times);
    assert_eq!(manager.len(), 10);
    assert!(!manager.is_warmed_up());
    manager.clear();
    assert!(manager.is_empty());
    assert!(!manager.is_warmed_up());
}

#[test]
fn live_updates_replace_or_append() {
    let mut manager = DataFrameManager::with_size(3, 1);
    assert_eq!(manager.update_current_kline(5), KlineUpdate::Empty);
    assert!(manager.is_empty());
    manager.add_kline(1);
    assert_eq!(manager.update_current_kline(1), KlineUpdate::ReplacedLast);
    assert_eq!(manager.len(), 1);
    assert_eq!(manager.update_current_kline(2), KlineUpdate::Appended);
    assert_eq!(manager.len(), 2);
    manager.add_kline(3);
    manager.add_kline(4);
    assert_eq!(manager.len(), 3);
    assert_eq!(manager.latest_open_time(), Some(4));
}

#[test]
fn working_window_before_warmup_is_everything() {
    let mut manager = DataFrameManager::with_size(10, 5);
    manager.add_kline(1);
    manager.add_kline(2);
    assert_eq!(manager.working_range(), (0, 2));
    let small = DataFrameManager::with_size(3, 8);
    assert_eq!(small.working_rows(), 0);
}

#[test]
fn stream_ingest_exports_after_warmup() {
    let mut manager = DataFrameManager::with_size(5, 2);
    assert_eq!(manager.ingest("BTCUSDT", "ETHUSDT", 1), StreamStep::SymbolMismatch);
    assert!(manager.is_empty());
    assert_eq!(manager.ingest("BTCUSDT", "BTCUSDT", 1), StreamStep::WarmingUp);
    assert_eq!(manager.ingest("BTCUSDT", "BTCUSDT", 2), StreamStep::Export);
    assert_eq!(manager.ingest("BTCUSDT", "BTCUSDT", 3), StreamStep::Export);
    assert_eq!(manager.len(), 3);
}

use dashboard_state::state::{find_trade, trim_history, trim_to_capacity};
use dashboard_state::{
    app_state_reducer, AssetNetValue, AppAction, AppState, FeatureVector, KLineData, LogEntry, Scalar,
    TradeHistoryRecord,
};

fn num(x: f64) -> Scalar {
    Scalar::from_bits(x.to_bits())
}

fn val(s: Scalar) -> f64 {
    f64::from_bits(s.to_bits())
}

fn percent(total_pnl: f64, initial_capital: f64) -> Scalar {
    num((total_pnl / initial_capital) * 100.0)
}

fn net_value_update(net_value: f64, initial_capital: f64, total_pnl: f64, t: i64) -> AppAction {
    AppAction::UpdateNetValue(
        num(net_value),
        num(initial_capital),
        num(total_pnl),
        t,
        percent(total_pnl, initial_capital),
    )
}

fn sample_trade(id: &str, status: &str, pnl: f64) -> TradeHistoryRecord {
    TradeHistoryRecord {
        id: id.to_string(),
        direction: "LONG".to_string(),
        entry_price: num(100.0),
        exit_price: None,
        entry_time: "2025-12-10 12:00:00".to_string(),
        exit_time: None,
        volume: num(1.0),
        status: status.to_string(),
        pnl: num(pnl),
        pnl_ratio: num(0.0),
    }
}

#[test]
fn test_app_state_default() {
    let state = AppState::default();
    assert!(!state.is_running);
    assert!((val(state.net_value) - 0.0).abs() < f64::EPSILON);
}

#[test]
fn test_app_state_update_system_status() {
    let initial = AppState::default();
    let updated = app_state_reducer(
        &initial,
        AppAction::UpdateSystemStatus(
            true,
            num(2.5),
            num(10.0),
            "running".to_string(),
            "2025-12-10 12:00:00".to_string(),
        ),
    );
    assert!(updated.is_running);
    assert!((val(updated.calmar_ratio) - 2.5).abs() < f64::EPSILON);
}

#[test]
fn test_app_state_update_net_value() {
    let initial = AppState::default();
    let updated = app_state_reducer(
        &initial,
        net_value_update(10500.0, 10000.0, 500.0, 1733856000),
    );
    assert!((val(updated.net_value) - 10500.0).abs() < f64::EPSILON);
    assert!((val(updated.pnl_ratio) - 5.0).abs() < f64::EPSILON);
    assert_eq!(updated.net_value_history.len(), 1);
}

#[test]
fn test_app_state_toggle_settings() {
    let initial = AppState::default();
    assert!(!initial.is_settings_open);
    let toggled = app_state_reducer(&initial, AppAction::ToggleSettings);
    assert!(toggled.is_settings_open);
}

#[test]
fn test_app_state_add_trade() {
    let initial = AppState::default();
    let trade = TradeHistoryRecord {
        id: "1".to_string(),
        direction: "long".to_string(),
        entry_price: num(100.0),
        exit_price: None,
        entry_time: "2025-12-10 12:00:00".to_string(),
        exit_time: None,
        volume: num(1.0),
        status: "open".to_string(),
        pnl: num(0.0),
        pnl_ratio: num(0.0),
    };
    let updated = app_state_reducer(&initial, AppAction::AddTrade(trade.clone()));
    assert_eq!(updated.trades.len(), 1);
    assert_eq!(updated.trades[0], trade);
}

#[test]
fn test_app_state_toggle_system_running() {
    let initial = AppState::default();
    assert!(!initial.is_running);
    let toggled_on = app_state_reducer(&initial, AppAction::ToggleSystemRunning);
    assert!(toggled_on.is_running);
    let toggled_off = app_state_reducer(&toggled_on, AppAction::ToggleSystemRunning);
    assert!(!toggled_off.is_running);
}

#[test]
fn test_app_state_clear_data() {
    let mut state = AppState::default();
    state.is_running = true;
    state.net_value = num(10500.0);
    state.total_pnl = num(500.0);
    let cleared = app_state_reducer(&state, AppAction::ClearData);
    assert!(!cleared.is_running);
    assert!((val(cleared.net_value) - 0.0).abs() < f64::EPSILON);
}

#[test]
fn test_app_state_add_kline_data() {
    let initial = AppState::default();
    let kline = KLineData {
        timestamp: 1733856000,
        open: num(50000.0),
        high: num(50500.0),
        low: num(49800.0),
        close: num(50300.0),
        volume: 1000000,
    };
    let updated = app_state_reducer(&initial, AppAction::AddKLineData(kline.clone()));
    assert_eq!(updated.kline_data.len(), 1);
    assert_eq!(updated.kline_data[0], kline);
}

#[test]
fn test_app_state_add_log() {
    let initial = AppState::default();
    let log = LogEntry {
        time: "2025-12-26 18:00:00".to_string(),
        level: "INFO".to_string(),
        message: "Test message".to_string(),
    };
    let updated = app_state_reducer(&initial, AppAction::AddLog(log.clone()));
    assert_eq!(updated.logs.len(), 1);
    assert_eq!(updated.logs[0], log);
}

#[test]
fn test_app_state_update_gateio_keys() {
    let initial = AppState::default();
    let updated = app_state_reducer(
        &initial,
        AppAction::UpdateGateioApiKeys(
            "test_key".to_string(),
            "test_secret".to_string(),
            "https://api.gateio.ws/api/v4/spot/".to_string(),
        ),
    );
    assert_eq!(updated.gateio_api_key, "test_key");
    assert_eq!(updated.gateio_api_secret, "test_secret");
}

#[test]
fn test_app_state_update_simulation_capital() {
    let initial = AppState::default();
    let updated = app_state_reducer(&initial, AppAction::UpdateSimulationCapital(num(50000.0)));
    assert!((val(updated.simulation_capital) - 50000.0).abs() < f64::EPSILON);
}

#[test]
fn default_state_is_all_empty() {
    let state = AppState::default();
    assert!(!state.is_running && !state.is_settings_open);
    assert_eq!(state.net_value, Scalar::zero());
    assert_eq!(state.pnl_ratio.to_bits(), 0);
    assert_eq!(state.simulation_capital.to_bits(), 0);
    assert!(state.aco_status.is_empty() && state.last_self_healing_time.is_empty());
    assert!(state.gateio_api_key.is_empty() && state.gateio_api_secret.is_empty());
    assert!(state.gateio_u_perpetual_url.is_empty());
    assert_eq!(state.current_features, FeatureVector::default());
    assert!(state.current_features.fft_spectrum.is_empty());
    assert!(state.trades.is_empty() && state.logs.is_empty());
    assert!(state.kline_data.is_empty() && state.net_value_history.is_empty());
    assert_eq!(LogEntry::default().time, "");
}

#[test]
fn net_value_update_overwrites_and_appends() {
    let initial = AppState::default();
    let updated = app_state_reducer(&initial, net_value_update(10500.0, 10000.0, 500.0, 7));
    assert_eq!(val(updated.net_value), 10500.0);
    assert_eq!(val(updated.initial_capital), 10000.0);
    assert_eq!(val(updated.total_pnl), 500.0);
    assert_eq!(val(updated.pnl_ratio), 5.0);
    let point = updated.net_value_history[0];
    assert_eq!(val(point.net_value), 10500.0);
    assert_eq!(val(point.initial_capital), 10000.0);
    assert_eq!(val(point.total_pnl), 500.0);
    assert_eq!(point.timestamp, 7);
    assert!(initial.net_value_history.is_empty());
}

#[test]
fn zero_capital_gives_zero_ratio() {
    let initial = AppState::default();
    let positive = app_state_reducer(
        &initial,
        AppAction::UpdateNetValue(num(1.0), num(0.0), num(500.0), 1, num(f64::INFINITY)),
    );
    assert_eq!(positive.pnl_ratio.to_bits(), 0);
    let negative = app_state_reducer(
        &initial,
        AppAction::UpdateNetValue(num(1.0), num(-0.0), num(500.0), 1, num(f64::NEG_INFINITY)),
    );
    assert_eq!(negative.pnl_ratio.to_bits(), 0);
    assert!(num(0.0).is_zero() && num(-0.0).is_zero());
    assert!(!num(1.0e-300).is_zero() && !num(f64::NAN).is_zero());
}

#[test]
fn negative_ratio_is_kept() {
    let initial = AppState::default();
    let updated = app_state_reducer(&initial, net_value_update(9000.0, 10000.0, -1000.0, 1));
    assert_eq!(val(updated.pnl_ratio), -10.0);
}

#[test]
fn net_value_history_keeps_latest_hundred() {
    let mut state = AppState::default();
    for t in 0..150i64 {
        state = app_state_reducer(&state, net_value_update(1.0, 1.0, 0.0, t));
        assert!(state.net_value_history.len() <= 100);
    }
    assert_eq!(state.net_value_history.len(), 100);
    assert_eq!(state.net_value_history[0].timestamp, 50);
    assert_eq!(state.net_value_history[99].timestamp, 149);
}

#[test]
fn kline_append_trims_but_replace_does_not() {
    let mut state = AppState::default();
    for t in 0..120i64 {
        let bar = KLineData { timestamp: t, ..KLineData::default() };
        state = app_state_reducer(&state, AppAction::AddKLineData(bar));
    }
    assert_eq!(state.kline_data.len(), 100);
    assert_eq!(state.kline_data[0].timestamp, 20);
    assert_eq!(state.kline_data[99].timestamp, 119);

    let series: Vec<KLineData> =
        (0..150i64).map(|t| KLineData { timestamp: 1000 + t, ..KLineData::default() }).collect();
    state = app_state_reducer(&state, AppAction::UpdateKLineData(series.clone()));
    assert_eq!(state.kline_data, series);
    assert_eq!(state.kline_data.len(), 150);

    let bar = KLineData { timestamp: 5000, ..KLineData::default() };
    state = app_state_reducer(&state, AppAction::AddKLineData(bar));
    assert_eq!(state.kline_data.len(), 100);
    assert_eq!(state.kline_data[0].timestamp, 1051);
    assert_eq!(state.kline_data[99].timestamp, 5000);
}

#[test]
fn hundred_and_one_logs_leave_the_last_hundred() {
    let mut state = AppState::default();
    for i in 0..101 {
        let entry = LogEntry {
            time: format!("t{}", i),
            level: "INFO".to_string(),
            message: format!("m{}", i),
        };
        state = app_state_reducer(&state, AppAction::AddLog(entry));
    }
    assert_eq!(state.logs.len(), 100);
    for i in 0..100 {
        assert_eq!(state.logs[i].message, format!("m{}", i + 1));
        assert_eq!(state.logs[i].time, format!("t{}", i + 1));
    }
}

#[test]
fn exactly_hundred_logs_evict_nothing() {
    let mut state = AppState::default();
    for i in 0..100 {
        let entry = LogEntry { message: format!("m{}", i), ..LogEntry::default() };
        state = app_state_reducer(&state, AppAction::AddLog(entry));
    }
    assert_eq!(state.logs.len(), 100);
    assert_eq!(state.logs[0].message, "m0");
}

#[test]
fn update_of_unknown_trade_changes_nothing() {
    let mut state = AppState::default();
    state = app_state_reducer(&state, AppAction::AddTrade(sample_trade("a", "open", 0.0)));
    state = app_state_reducer(&state, AppAction::AddTrade(sample_trade("b", "open", 0.0)));
    let after =
        app_state_reducer(&state, AppAction::UpdateTrade(sample_trade("zz", "closed", 9.0)));
    assert_eq!(after, state);
}

#[test]
fn add_then_update_keeps_one_trade_in_place() {
    let initial = AppState::default();
    let added = app_state_reducer(&initial, AppAction::AddTrade(sample_trade("1", "open", 0.0)));
    let closed = sample_trade("1", "closed", 12.5);
    let updated = app_state_reducer(&added, AppAction::UpdateTrade(closed.clone()));
    assert_eq!(updated.trades.len(), 1);
    assert_eq!(updated.trades[0], closed);
    assert_eq!(updated.trades[0].status, "closed");
    assert_eq!(val(updated.trades[0].pnl), 12.5);
    assert_eq!(added.trades[0].status, "open");
}

#[test]
fn update_replaces_only_the_first_of_equal_ids() {
    let mut state = AppState::default();
    for id in ["x", "dup", "y", "dup"] {
        state = app_state_reducer(&state, AppAction::AddTrade(sample_trade(id, "open", 0.0)));
    }
    assert_eq!(state.trades.len(), 4);
    let after =
        app_state_reducer(&state, AppAction::UpdateTrade(sample_trade("dup", "closed", 3.0)));
    assert_eq!(after.trades.len(), 4);
    assert_eq!(after.trades[0], state.trades[0]);
    assert_eq!(after.trades[1].status, "closed");
    assert_eq!(after.trades[2], state.trades[2]);
    assert_eq!(after.trades[3].status, "open");
}

#[test]
fn features_are_replaced_whole() {
    let initial = AppState::default();
    let features = FeatureVector {
        shannon_entropy: num(0.5),
        fft_spectrum: vec![num(1.0), num(2.0)],
        atr: num(3.0),
        ..FeatureVector::default()
    };
    let updated = app_state_reducer(&initial, AppAction::UpdateFeatures(features.clone()));
    assert_eq!(updated.current_features, features);
    let again = app_state_reducer(&updated, AppAction::UpdateFeatures(FeatureVector::default()));
    assert_eq!(again.current_features, FeatureVector::default());
}

#[test]
fn clear_trades_and_clear_logs_touch_nothing_else() {
    let mut state = AppState::default();
    state = app_state_reducer(&state, AppAction::AddTrade(sample_trade("1", "open", 0.0)));
    state = app_state_reducer(&state, AppAction::AddLog(LogEntry::default()));
    state = app_state_reducer(&state, net_value_update(2.0, 1.0, 1.0, 3));

    let no_trades = app_state_reducer(&state, AppAction::ClearTrades);
    assert!(no_trades.trades.is_empty());
    assert_eq!(no_trades.logs, state.logs);
    assert_eq!(no_trades.net_value_history, state.net_value_history);
    assert_eq!(no_trades.pnl_ratio, state.pnl_ratio);

    let no_logs = app_state_reducer(&state, AppAction::ClearLogs);
    assert!(no_logs.logs.is_empty());
    assert_eq!(no_logs.trades, state.trades);
}

#[test]
fn clear_data_equals_default_exactly() {
    let mut state = AppState::default();
    state = app_state_reducer(
        &state,
        AppAction::UpdateGateioApiKeys("k".to_string(), "s".to_string(), "u".to_string()),
    );
    state = app_state_reducer(&state, AppAction::AddTrade(sample_trade("1", "open", 0.0)));
    state = app_state_reducer(&state, AppAction::ToggleSettings);
    state = app_state_reducer(&state, net_value_update(2.0, 1.0, 1.0, 3));
    let cleared = app_state_reducer(&state, AppAction::ClearData);
    assert_eq!(cleared, AppState::default());
    assert!(cleared.gateio_api_key.is_empty());
}

#[test]
fn toggles_are_involutions_on_the_whole_state() {
    let mut state = AppState::default();
    state = app_state_reducer(&state, AppAction::AddLog(LogEntry::default()));
    let twice = app_state_reducer(
        &app_state_reducer(&state, AppAction::ToggleSystemRunning),
        AppAction::ToggleSystemRunning,
    );
    assert_eq!(twice, state);
    let twice = app_state_reducer(
        &app_state_reducer(&state, AppAction::ToggleSettings),
        AppAction::ToggleSettings,
    );
    assert_eq!(twice, state);
}

#[test]
fn reducer_leaves_the_previous_snapshot_alone() {
    let state = AppState::default();
    let before = state.clone();
    let _ = app_state_reducer(&state, AppAction::AddLog(LogEntry::default()));
    let _ = app_state_reducer(&state, net_value_update(2.0, 1.0, 1.0, 3));
    assert_eq!(state, before);
}

#[test]
fn trimming_keeps_the_tail() {
    let mut long: Vec<u32> = (0..250).collect();
    trim_to_capacity(&mut long);
    assert_eq!(long, (150..250).collect::<Vec<u32>>());

    let mut full: Vec<u32> = (0..100).collect();
    trim_to_capacity(&mut full);
    assert_eq!(full, (0..100).collect::<Vec<u32>>());

    let mut over: Vec<u32> = (0..101).collect();
    trim_to_capacity(&mut over);
    assert_eq!(over, (1..101).collect::<Vec<u32>>());

    let mut empty: Vec<u32> = Vec::new();
    trim_to_capacity(&mut empty);
    assert!(empty.is_empty());
}

#[test]
fn trimming_a_history_keeps_the_tail() {
    let mut history: std::collections::VecDeque<AssetNetValue> =
        (0..103i64).map(|t| AssetNetValue { timestamp: t, ..AssetNetValue::default() }).collect();
    trim_history(&mut history);
    assert_eq!(history.len(), 100);
    assert_eq!(history[0].timestamp, 3);
    assert_eq!(history[99].timestamp, 102);
}

#[test]
fn find_trade_gives_the_first_position() {
    let trades: Vec<TradeHistoryRecord> = ["a", "b", "a", "c"]
        .iter()
        .map(|id| sample_trade(id, "open", 0.0))
        .collect();
    assert_eq!(find_trade(&trades, &"a".to_string()), Some(0));
    assert_eq!(find_trade(&trades, &"b".to_string()), Some(1));
    assert_eq!(find_trade(&trades, &"c".to_string()), Some(3));
    assert_eq!(find_trade(&trades, &"d".to_string()), None);
    assert_eq!(find_trade(&Vec::new(), &"a".to_string()), None);
}

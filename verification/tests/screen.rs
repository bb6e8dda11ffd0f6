use dashboard_state::screen::{is_error, is_long, is_warn, logs_newest_first, settings_actions};
use dashboard_state::{
    replay_actions, AppAction, AppState, LogEntry, Scalar, TradeHistoryRecord,
};

fn line(level: &str, message: &str) -> LogEntry {
    LogEntry { time: String::new(), level: level.to_string(), message: message.to_string() }
}

fn trade(direction: &str) -> TradeHistoryRecord {
    TradeHistoryRecord {
        id: "1".to_string(),
        direction: direction.to_string(),
        entry_price: Scalar::zero(),
        exit_price: None,
        entry_time: String::new(),
        exit_time: None,
        volume: Scalar::zero(),
        status: "open".to_string(),
        pnl: Scalar::zero(),
        pnl_ratio: Scalar::zero(),
    }
}

#[test]
fn direction_is_compared_exactly() {
    assert!(is_long(&trade("LONG")));
    assert!(!is_long(&trade("SHORT")));
    assert!(!is_long(&trade("long")));
    assert!(!is_long(&trade("")));
}

#[test]
fn levels_are_compared_exactly() {
    assert!(is_error(&line("ERROR", "")) && !is_warn(&line("ERROR", "")));
    assert!(is_warn(&line("WARN", "")) && !is_error(&line("WARN", "")));
    assert!(!is_error(&line("INFO", "")) && !is_warn(&line("INFO", "")));
    assert!(!is_error(&line("error", "")) && !is_warn(&line("Warn", "")));
}

#[test]
fn log_listing_is_newest_first_with_places() {
    let logs = vec![line("INFO", "a"), line("WARN", "b"), line("ERROR", "c")];
    let rows = logs_newest_first(&logs);
    assert_eq!(rows.len(), 3);
    assert_eq!(rows[0], (0, line("ERROR", "c")));
    assert_eq!(rows[1], (1, line("WARN", "b")));
    assert_eq!(rows[2], (2, line("INFO", "a")));
    assert!(logs_newest_first(&Vec::new()).is_empty());
}

#[test]
fn saved_settings_with_capital_give_three_actions() {
    let capital = Scalar::from_bits(50000.0f64.to_bits());
    let actions =
        settings_actions("k".to_string(), "s".to_string(), "u".to_string(), Some(capital));
    assert_eq!(actions.len(), 3);
    assert!(matches!(&actions[0], AppAction::UpdateGateioApiKeys(k, s, u)
        if k == "k" && s == "s" && u == "u"));
    assert!(matches!(&actions[1], AppAction::UpdateSimulationCapital(c) if *c == capital));
    assert!(matches!(&actions[2], AppAction::ToggleSettings));
}

#[test]
fn saved_settings_without_capital_give_two_actions() {
    let actions = settings_actions("k".to_string(), "s".to_string(), "u".to_string(), None);
    assert_eq!(actions.len(), 2);
    assert!(matches!(&actions[0], AppAction::UpdateGateioApiKeys(..)));
    assert!(matches!(&actions[1], AppAction::ToggleSettings));

    let mut open = AppState::default();
    open.is_settings_open = true;
    let saved = replay_actions(&open, &actions);
    assert!(!saved.is_settings_open);
    assert_eq!(saved.gateio_api_key, "k");
    assert_eq!(saved.simulation_capital, Scalar::zero());
}

use dashboard_state::{
    app_state_reducer, replay_actions, AppAction, AppState, Dispatcher, LogEntry, Scalar,
};

fn run() -> Vec<AppAction> {
    let mut actions = vec![
        AppAction::ToggleSystemRunning,
        AppAction::UpdateSimulationCapital(Scalar::from_bits(50000.0f64.to_bits())),
        AppAction::ToggleSettings,
    ];
    for i in 0..130 {
        actions.push(AppAction::AddLog(LogEntry {
            time: format!("{}", i),
            level: "WARN".to_string(),
            message: "m".to_string(),
        }));
    }
    actions
}

#[test]
fn replay_is_deterministic() {
    let start = AppState::default();
    let first = replay_actions(&start, &run());
    let second = replay_actions(&start, &run());
    assert_eq!(first, second);
    assert!(first.is_running && first.is_settings_open);
    assert_eq!(first.logs.len(), 100);
    assert_eq!(first.logs[0].time, "30");
}

#[test]
fn replay_equals_step_by_step() {
    let mut state = AppState::default();
    for action in run() {
        state = app_state_reducer(&state, action);
    }
    assert_eq!(replay_actions(&AppState::default(), &run()), state);
    assert_eq!(replay_actions(&state, &Vec::new()), state);
}

#[test]
fn dispatcher_applies_actions_in_order() {
    let mut dispatcher = Dispatcher::new();
    assert_eq!(*dispatcher.state(), AppState::default());
    for action in run() {
        dispatcher.dispatch(action);
        assert!(dispatcher.state().logs.len() <= 100);
    }
    assert_eq!(*dispatcher.state(), replay_actions(&AppState::default(), &run()));
    dispatcher.dispatch(AppAction::ClearData);
    assert_eq!(*dispatcher.state(), AppState::default());
}

#[test]
fn subscriptions_get_fresh_handles_in_order() {
    let mut dispatcher = Dispatcher::new();
    assert!(dispatcher.subscribers().is_empty());
    assert_eq!(dispatcher.subscribe(), Some(0));
    assert_eq!(dispatcher.subscribe(), Some(1));
    assert_eq!(dispatcher.subscribe(), Some(2));
    assert_eq!(*dispatcher.subscribers(), vec![0, 1, 2]);
}

#[test]
fn unsubscribe_takes_out_one_handle_and_never_reuses_it() {
    let mut dispatcher = Dispatcher::new();
    for _ in 0..3 {
        dispatcher.subscribe();
    }
    assert!(dispatcher.unsubscribe(1));
    assert_eq!(*dispatcher.subscribers(), vec![0, 2]);
    assert!(!dispatcher.unsubscribe(1));
    assert!(!dispatcher.unsubscribe(7));
    assert_eq!(*dispatcher.subscribers(), vec![0, 2]);
    assert_eq!(dispatcher.subscribe(), Some(3));
    assert_eq!(*dispatcher.subscribers(), vec![0, 2, 3]);
}

#[test]
fn subscribing_changes_no_snapshot_and_dispatch_no_subscription() {
    let mut dispatcher = Dispatcher::new();
    dispatcher.dispatch(AppAction::ToggleSystemRunning);
    let before = dispatcher.state().clone();
    let handle = dispatcher.subscribe().unwrap();
    assert_eq!(*dispatcher.state(), before);
    dispatcher.dispatch(AppAction::ToggleSettings);
    assert_eq!(*dispatcher.subscribers(), vec![handle]);
    assert!(dispatcher.state().is_settings_open && dispatcher.state().is_running);
    assert!(dispatcher.unsubscribe(handle));
    assert_eq!(*dispatcher.state(), app_state_reducer(&before, AppAction::ToggleSettings));
}

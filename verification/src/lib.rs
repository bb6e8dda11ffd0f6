//! State core of a trading dashboard: the view model, the closed set of
//! actions, and the pure reducer that folds actions into bounded snapshots.
//!
//! Every numeric quantity that the dashboard shows as a binary64 number is
//! carried here as a [`Scalar`], the number's bit pattern. The core moves and
//! stores such values; it never does arithmetic on them.

pub mod types;
pub mod state;
pub mod dispatcher;
pub mod laws;
pub mod http;
pub mod screen;

pub use http::{
    health_from_body, kline_endpoint, status_is_ok, ApiCall, HttpService, ReplyError,
};
pub use dispatcher::Dispatcher;
pub use state::{app_state_reducer, replay_actions, AppAction, AppState};
pub use types::{AssetNetValue, FeatureVector, KLineData, LogEntry, Scalar, TradeHistoryRecord};

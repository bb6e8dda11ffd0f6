//! What the screens compute: the order and the classes in which records are
//! shown, and the actions that a saved settings form stands for. Drawing and
//! event wiring are the caller's part.

use crate::state::{action_models, ActionModel, AppAction};
use crate::types::{LogEntry, LogModel, Scalar, TradeHistoryRecord};
use vstd::prelude::*;

verus! {

/// Whether a trade is shown as a long position: its direction is `LONG`.
pub fn is_long(trade: &TradeHistoryRecord) -> (r: bool)
    ensures
        r == (trade@.direction == "LONG"@),
{
    trade.direction == "LONG".to_owned()
}

/// Whether a log line is shown as an error: its level is `ERROR`.
pub fn is_error(entry: &LogEntry) -> (r: bool)
    ensures
        r == (entry@.level == "ERROR"@),
{
    entry.level == "ERROR".to_owned()
}

/// Whether a log line is shown as a warning: its level is `WARN`.
pub fn is_warn(entry: &LogEntry) -> (r: bool)
    ensures
        r == (entry@.level == "WARN"@),
{
    entry.level == "WARN".to_owned()
}

/// The log as it is listed: newest line first, each line with its place in
/// the listing.
pub open spec fn listing(logs: Seq<LogModel>) -> Seq<(usize, LogModel)> {
    Seq::new(logs.len(), |i: int| (i as usize, logs[logs.len() - 1 - i]))
}

/// The models of a listing.
pub open spec fn listing_models(rows: Seq<(usize, LogEntry)>) -> Seq<(usize, LogModel)> {
    Seq::new(rows.len(), |i: int| (rows[i].0, rows[i].1@))
}

/// Lists the log newest line first, each line with its place in the listing.
pub fn logs_newest_first(logs: &Vec<LogEntry>) -> (r: Vec<(usize, LogEntry)>)
    ensures
        listing_models(r@) == listing(crate::state::log_models(logs@)),
{
    let n = logs.len();
    let mut rows: Vec<(usize, LogEntry)> = Vec::new();
    let mut i: usize = 0;
    while i < n
        invariant
            n == logs.len(),
            i <= n,
            rows@.len() == i,
            forall|j: int|
                0 <= j < i ==> (#[trigger] rows@[j]).0 == j && rows@[j].1@ == logs@[n - 1 - j]@,
        decreases n - i,
    {
        rows.push((i, logs[n - 1 - i].clone()));
        i += 1;
    }
    assert(listing_models(rows@) =~= listing(crate::state::log_models(logs@)));
    rows
}

/// The actions that a saved settings form stands for: the credentials, then
/// the simulation capital if the form held a number, then the closing of the
/// panel.
pub open spec fn settings_saved(
    api_key: Seq<char>,
    api_secret: Seq<char>,
    url: Seq<char>,
    capital: Option<Scalar>,
) -> Seq<ActionModel> {
    let credentials = seq![ActionModel::UpdateGateioApiKeys(api_key, api_secret, url)];
    let amount = match capital {
        Some(c) => seq![ActionModel::UpdateSimulationCapital(c)],
        None => Seq::empty(),
    };
    credentials + amount + seq![ActionModel::ToggleSettings]
}

/// The actions to dispatch, in order, when the settings form is saved.
pub fn settings_actions(
    api_key: String,
    api_secret: String,
    url: String,
    capital: Option<Scalar>,
) -> (r: Vec<AppAction>)
    ensures
        action_models(r@) == settings_saved(api_key@, api_secret@, url@, capital),
{
    let mut actions: Vec<AppAction> = Vec::new();
    actions.push(AppAction::UpdateGateioApiKeys(api_key, api_secret, url));
    match capital {
        Some(c) => {
            actions.push(AppAction::UpdateSimulationCapital(c));
        },
        None => {},
    }
    actions.push(AppAction::ToggleSettings);
    assert(action_models(actions@) =~= settings_saved(api_key@, api_secret@, url@, capital));
    actions
}

} // verus!

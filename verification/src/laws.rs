//! Laws of the reducer, proved over the models.

use crate::state::{
    first_match, has_trade, is_first_match, keep_latest, lemma_first_match_absent,
    lemma_first_match_unique, patch_trade, reduce, replay, ActionModel, AppModel,
    HISTORY_CAPACITY,
};
use crate::types::{LogModel, TradeModel};
use vstd::prelude::*;

verus! {

/// Replaying equal runs of actions from equal snapshots gives equal snapshots.
pub proof fn law_replay_deterministic(
    s1: AppModel,
    s2: AppModel,
    a1: Seq<ActionModel>,
    a2: Seq<ActionModel>,
)
    requires
        s1 == s2,
        a1.len() == a2.len(),
        forall|i: int| 0 <= i < a1.len() ==> a1[i] == a2[i],
    ensures
        replay(s1, a1) == replay(s2, a2),
{
    assert(a1 =~= a2);
}

/// Replaying a run and then one more action is one more step of the reducer.
pub proof fn law_replay_push(s: AppModel, actions: Seq<ActionModel>, a: ActionModel)
    ensures
        replay(s, actions.push(a)) == reduce(replay(s, actions), a),
{
    assert(actions.push(a).drop_last() =~= actions);
}

/// Trimming never leaves more entries than the capacity.
pub proof fn law_keep_latest_bounded<T>(s: Seq<T>)
    ensures
        keep_latest(s).len() <= HISTORY_CAPACITY,
        keep_latest(s).len() <= s.len(),
        s.len() <= HISTORY_CAPACITY ==> keep_latest(s) == s,
        forall|i: int|
            0 <= i < keep_latest(s).len() ==> #[trigger] keep_latest(s)[i] == s[s.len()
                - keep_latest(s).len() + i],
{
}

/// One step keeps the net-value history and the log within capacity.
pub proof fn law_step_keeps_histories_bounded(s: AppModel, a: ActionModel)
    requires
        s.histories_bounded(),
    ensures
        reduce(s, a).histories_bounded(),
{
}

/// After a bar is appended the candlestick series is within capacity,
/// whatever its length before.
pub proof fn law_add_kline_bounds_series(s: AppModel, a: ActionModel)
    requires
        a is AddKLineData,
    ensures
        reduce(s, a).klines_bounded(),
{
}

/// Every action but a replacement of the whole series keeps the candlestick
/// series within capacity.
pub proof fn law_step_keeps_klines_bounded(s: AppModel, a: ActionModel)
    requires
        s.klines_bounded(),
        !(a is UpdateKLineData),
    ensures
        reduce(s, a).klines_bounded(),
{
}

/// From a snapshot within capacity, every run of actions ends within capacity.
pub proof fn law_histories_always_bounded(s: AppModel, actions: Seq<ActionModel>)
    requires
        s.histories_bounded(),
    ensures
        replay(s, actions).histories_bounded(),
    decreases actions.len(),
{
    if actions.len() > 0 {
        law_histories_always_bounded(s, actions.drop_last());
        law_step_keeps_histories_bounded(replay(s, actions.drop_last()), actions.last());
    }
}

/// Every snapshot reachable from session start has its net-value history and
/// its log within capacity; so has its candlestick series, if the run replaces
/// no whole series.
pub proof fn law_reachable_bounded(actions: Seq<ActionModel>)
    ensures
        replay(AppModel::initial(), actions).histories_bounded(),
        (forall|i: int| 0 <= i < actions.len() ==> !(#[trigger] actions[i] is UpdateKLineData))
            ==> replay(AppModel::initial(), actions).klines_bounded(),
    decreases actions.len(),
{
    law_histories_always_bounded(AppModel::initial(), actions);
    if actions.len() > 0 {
        let front = actions.drop_last();
        law_reachable_bounded(front);
        if forall|i: int| 0 <= i < actions.len() ==> !(#[trigger] actions[i] is UpdateKLineData) {
            assert(forall|i: int|
                0 <= i < front.len() ==> !(#[trigger] front[i] is UpdateKLineData)) by {
                assert(forall|i: int| 0 <= i < front.len() ==> front[i] == actions[i]);
            }
            assert(!(actions[actions.len() - 1] is UpdateKLineData));
            law_step_keeps_klines_bounded(replay(AppModel::initial(), front), actions.last());
        }
    }
}

/// An update for a trade that the snapshot does not hold changes nothing.
pub proof fn law_update_unknown_trade(s: AppModel, record: TradeModel)
    requires
        !has_trade(s.trades, record.id),
    ensures
        reduce(s, ActionModel::UpdateTrade(record)) == s,
{
    lemma_first_match_absent(s.trades, record.id);
}

/// An update never changes how many trades there are, and changes no record
/// but the first one with its key.
pub proof fn law_update_trade_in_place(s: AppModel, record: TradeModel)
    ensures
        reduce(s, ActionModel::UpdateTrade(record)).trades.len() == s.trades.len(),
        forall|i: int|
            0 <= i < s.trades.len() && !is_first_match(s.trades, record.id, i) ==> reduce(
                s,
                ActionModel::UpdateTrade(record),
            ).trades[i] == s.trades[i],
        forall|i: int|
            is_first_match(s.trades, record.id, i) ==> reduce(
                s,
                ActionModel::UpdateTrade(record),
            ).trades[i] == record,
{
    assert forall|i: int| is_first_match(s.trades, record.id, i) implies first_match(
        s.trades,
        record.id,
    ) == Some(i) by {
        lemma_first_match_unique(s.trades, record.id, i);
    }
    match first_match(s.trades, record.id) {
        Some(k) => {
            assert(is_first_match(s.trades, record.id, k));
        },
        None => {},
    }
}

/// A trade that is added and then updated under the same key is still one
/// record: the count grows by one, and where no earlier record has the key
/// the updated record stands where the added one stood, at the tail.
pub proof fn law_add_then_update_trade(s: AppModel, added: TradeModel, updated: TradeModel)
    requires
        added.id == updated.id,
    ensures
        ({
            let after = reduce(
                reduce(s, ActionModel::AddTrade(added)),
                ActionModel::UpdateTrade(updated),
            );
            &&& after.trades.len() == s.trades.len() + 1
            &&& !has_trade(s.trades, added.id) ==> after.trades == s.trades.push(updated)
        }),
{
    let mid = reduce(s, ActionModel::AddTrade(added));
    law_update_trade_in_place(mid, updated);
    if !has_trade(s.trades, added.id) {
        let at = s.trades.len() as int;
        assert(mid.trades[at].id == updated.id);
        assert forall|j: int| 0 <= j < at implies (#[trigger] mid.trades[j]).id != updated.id by {
            assert(mid.trades[j] == s.trades[j]);
        }
        assert(is_first_match(mid.trades, updated.id, at));
        lemma_first_match_unique(mid.trades, updated.id, at);
        assert(patch_trade(mid.trades, updated) =~= s.trades.push(updated));
    }
}

/// The actions that append the given log lines, one each, in order.
pub open spec fn log_actions(entries: Seq<LogModel>) -> Seq<ActionModel> {
    Seq::new(entries.len(), |i: int| ActionModel::AddLog(entries[i]))
}

/// Trimming after each append leaves what one trim at the end would leave.
pub proof fn law_keep_latest_push<T>(s: Seq<T>, x: T)
    ensures
        keep_latest(keep_latest(s).push(x)) == keep_latest(s.push(x)),
{
    assert(keep_latest(keep_latest(s).push(x)) =~= keep_latest(s.push(x)));
}

/// After a run of appended log lines the log holds the latest entries of the
/// old log followed by the new lines, oldest first, and nothing else changed.
pub proof fn law_logs_are_latest(s: AppModel, entries: Seq<LogModel>)
    requires
        s.logs.len() <= HISTORY_CAPACITY,
    ensures
        replay(s, log_actions(entries)) == (AppModel {
            logs: keep_latest(s.logs + entries),
            ..s
        }),
    decreases entries.len(),
{
    if entries.len() == 0 {
        assert(s.logs + entries =~= s.logs);
    } else {
        let front = entries.drop_last();
        law_logs_are_latest(s, front);
        assert(log_actions(entries).drop_last() =~= log_actions(front));
        assert(log_actions(entries).last() == ActionModel::AddLog(entries.last()));
        law_keep_latest_push(s.logs + front, entries.last());
        assert((s.logs + front).push(entries.last()) =~= s.logs + entries);
    }
}

/// Toggling the running flag twice gives the snapshot back.
pub proof fn law_toggle_running_twice(s: AppModel)
    ensures
        reduce(reduce(s, ActionModel::ToggleSystemRunning), ActionModel::ToggleSystemRunning)
            == s,
        reduce(s, ActionModel::ToggleSystemRunning).is_running == !s.is_running,
{
}

/// Toggling the settings panel twice gives the snapshot back.
pub proof fn law_toggle_settings_twice(s: AppModel)
    ensures
        reduce(reduce(s, ActionModel::ToggleSettings), ActionModel::ToggleSettings) == s,
        reduce(s, ActionModel::ToggleSettings).is_settings_open == !s.is_settings_open,
{
}

/// A hard reset gives the snapshot of session start, whatever came before.
pub proof fn law_clear_data_resets(s: AppModel, actions: Seq<ActionModel>)
    ensures
        reduce(s, ActionModel::ClearData) == AppModel::initial(),
        replay(s, actions.push(ActionModel::ClearData)) == AppModel::initial(),
{
    law_replay_push(s, actions, ActionModel::ClearData);
}

} // verus!

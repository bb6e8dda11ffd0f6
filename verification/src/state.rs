//! The view model, the actions, and the reducer.

use crate::types::{
    AssetNetValue, FeatureModel, FeatureVector, KLineData, LogEntry, LogModel,
    Scalar, TradeHistoryRecord, TradeModel,
};
use std::collections::VecDeque;
use vstd::prelude::*;

verus! {

/// How many entries each bounded history keeps.
pub const HISTORY_CAPACITY: usize = 100;

/// The models of a sequence of trades, in order.
pub open spec fn trade_models(s: Seq<TradeHistoryRecord>) -> Seq<TradeModel> {
    Seq::new(s.len(), |i: int| s[i]@)
}

/// The models of a sequence of log lines, in order.
pub open spec fn log_models(s: Seq<LogEntry>) -> Seq<LogModel> {
    Seq::new(s.len(), |i: int| s[i]@)
}

/// The last [`HISTORY_CAPACITY`] entries of `s`, or all of `s` if it has no more.
pub open spec fn keep_latest<T>(s: Seq<T>) -> Seq<T> {
    if s.len() > HISTORY_CAPACITY {
        s.subrange(s.len() - HISTORY_CAPACITY, s.len() as int)
    } else {
        s
    }
}

/// The profit ratio in percent that belongs to a net-value update: zero where
/// the initial capital is zero, else the quotient that came with the update.
pub open spec fn pnl_percent(initial_capital: Scalar, quotient_percent: Scalar) -> Scalar {
    if initial_capital.spec_is_zero() {
        Scalar::spec_zero()
    } else {
        quotient_percent
    }
}

/// Whether `i` is the first position in `trades` whose record has the key `id`.
pub open spec fn is_first_match(trades: Seq<TradeModel>, id: Seq<char>, i: int) -> bool {
    &&& 0 <= i < trades.len()
    &&& trades[i].id == id
    &&& forall|j: int| 0 <= j < i ==> (#[trigger] trades[j]).id != id
}

/// Whether some record in `trades` has the key `id`.
pub open spec fn has_trade(trades: Seq<TradeModel>, id: Seq<char>) -> bool {
    exists|i: int| 0 <= i < trades.len() && (#[trigger] trades[i]).id == id
}

/// The first position in `trades` whose record has the key `id`, if there is one.
pub open spec fn first_match(trades: Seq<TradeModel>, id: Seq<char>) -> Option<int> {
    if exists|i: int| is_first_match(trades, id, i) {
        Some(choose|i: int| is_first_match(trades, id, i))
    } else {
        None
    }
}

/// `trades` with the first record that has the key of `record` replaced by
/// `record`; `trades` itself where no record has that key.
pub open spec fn patch_trade(trades: Seq<TradeModel>, record: TradeModel) -> Seq<TradeModel> {
    match first_match(trades, record.id) {
        Some(i) => trades.update(i, record),
        None => trades,
    }
}

/// The snapshot that the dashboard renders.
#[derive(Debug, PartialEq, Eq)]
pub struct AppState {
    pub is_running: bool,
    pub net_value: Scalar,
    pub initial_capital: Scalar,
    pub total_pnl: Scalar,
    pub pnl_ratio: Scalar,
    pub calmar_ratio: Scalar,
    pub max_drawdown: Scalar,
    pub aco_status: String,
    pub last_self_healing_time: String,
    pub current_features: FeatureVector,
    pub trades: Vec<TradeHistoryRecord>,
    pub net_value_history: VecDeque<AssetNetValue>,
    pub kline_data: Vec<KLineData>,
    pub is_settings_open: bool,
    pub gateio_api_key: String,
    pub gateio_api_secret: String,
    pub gateio_u_perpetual_url: String,
    pub simulation_capital: Scalar,
    pub logs: Vec<LogEntry>,
}

/// Model of an [`AppState`].
pub ghost struct AppModel {
    pub is_running: bool,
    pub net_value: Scalar,
    pub initial_capital: Scalar,
    pub total_pnl: Scalar,
    pub pnl_ratio: Scalar,
    pub calmar_ratio: Scalar,
    pub max_drawdown: Scalar,
    pub aco_status: Seq<char>,
    pub last_self_healing_time: Seq<char>,
    pub current_features: FeatureModel,
    pub trades: Seq<TradeModel>,
    pub net_value_history: Seq<AssetNetValue>,
    pub kline_data: Seq<KLineData>,
    pub is_settings_open: bool,
    pub gateio_api_key: Seq<char>,
    pub gateio_api_secret: Seq<char>,
    pub gateio_u_perpetual_url: Seq<char>,
    pub simulation_capital: Scalar,
    pub logs: Seq<LogModel>,
}

impl AppModel {
    /// The snapshot at session start: flags off, quantities zero, texts and
    /// sequences empty.
    pub open spec fn initial() -> AppModel {
        AppModel {
            is_running: false,
            net_value: Scalar::spec_zero(),
            initial_capital: Scalar::spec_zero(),
            total_pnl: Scalar::spec_zero(),
            pnl_ratio: Scalar::spec_zero(),
            calmar_ratio: Scalar::spec_zero(),
            max_drawdown: Scalar::spec_zero(),
            aco_status: Seq::empty(),
            last_self_healing_time: Seq::empty(),
            current_features: FeatureModel::initial(),
            trades: Seq::empty(),
            net_value_history: Seq::empty(),
            kline_data: Seq::empty(),
            is_settings_open: false,
            gateio_api_key: Seq::empty(),
            gateio_api_secret: Seq::empty(),
            gateio_u_perpetual_url: Seq::empty(),
            simulation_capital: Scalar::spec_zero(),
            logs: Seq::empty(),
        }
    }

    /// Whether the net-value history and the log are within capacity.
    pub open spec fn histories_bounded(self) -> bool {
        &&& self.net_value_history.len() <= HISTORY_CAPACITY
        &&& self.logs.len() <= HISTORY_CAPACITY
    }

    /// Whether the candlestick series is within capacity.
    pub open spec fn klines_bounded(self) -> bool {
        self.kline_data.len() <= HISTORY_CAPACITY
    }
}

impl View for AppState {
    type V = AppModel;

    open spec fn view(&self) -> AppModel {
        AppModel {
            is_running: self.is_running,
            net_value: self.net_value,
            initial_capital: self.initial_capital,
            total_pnl: self.total_pnl,
            pnl_ratio: self.pnl_ratio,
            calmar_ratio: self.calmar_ratio,
            max_drawdown: self.max_drawdown,
            aco_status: self.aco_status@,
            last_self_healing_time: self.last_self_healing_time@,
            current_features: self.current_features@,
            trades: trade_models(self.trades@),
            net_value_history: self.net_value_history@,
            kline_data: self.kline_data@,
            is_settings_open: self.is_settings_open,
            gateio_api_key: self.gateio_api_key@,
            gateio_api_secret: self.gateio_api_secret@,
            gateio_u_perpetual_url: self.gateio_u_perpetual_url@,
            simulation_capital: self.simulation_capital,
            logs: log_models(self.logs@),
        }
    }
}

/// One state transition.
///
/// `UpdateNetValue` carries net value, initial capital, total profit, the
/// timestamp, and last the quotient `total profit / initial capital × 100` as
/// the sender's binary64 arithmetic gave it; the reducer decides whether that
/// quotient or zero becomes the profit ratio.
#[derive(Debug)]
pub enum AppAction {
    UpdateSystemStatus(bool, Scalar, Scalar, String, String),
    UpdateNetValue(Scalar, Scalar, Scalar, i64, Scalar),
    UpdateFeatures(FeatureVector),
    AddTrade(TradeHistoryRecord),
    UpdateTrade(TradeHistoryRecord),
    AddKLineData(KLineData),
    UpdateKLineData(Vec<KLineData>),
    ClearData,
    ClearTrades,
    ToggleSettings,
    UpdateGateioApiKeys(String, String, String),
    UpdateSimulationCapital(Scalar),
    ToggleSystemRunning,
    AddLog(LogEntry),
    ClearLogs,
}

/// Model of an [`AppAction`].
pub ghost enum ActionModel {
    UpdateSystemStatus(bool, Scalar, Scalar, Seq<char>, Seq<char>),
    UpdateNetValue(Scalar, Scalar, Scalar, i64, Scalar),
    UpdateFeatures(FeatureModel),
    AddTrade(TradeModel),
    UpdateTrade(TradeModel),
    AddKLineData(KLineData),
    UpdateKLineData(Seq<KLineData>),
    ClearData,
    ClearTrades,
    ToggleSettings,
    UpdateGateioApiKeys(Seq<char>, Seq<char>, Seq<char>),
    UpdateSimulationCapital(Scalar),
    ToggleSystemRunning,
    AddLog(LogModel),
    ClearLogs,
}

impl View for AppAction {
    type V = ActionModel;

    open spec fn view(&self) -> ActionModel {
        match *self {
            AppAction::UpdateSystemStatus(r, c, d, a, t) => ActionModel::UpdateSystemStatus(
                r,
                c,
                d,
                a@,
                t@,
            ),
            AppAction::UpdateNetValue(n, c, p, t, q) => ActionModel::UpdateNetValue(n, c, p, t, q),
            AppAction::UpdateFeatures(f) => ActionModel::UpdateFeatures(f@),
            AppAction::AddTrade(t) => ActionModel::AddTrade(t@),
            AppAction::UpdateTrade(t) => ActionModel::UpdateTrade(t@),
            AppAction::AddKLineData(k) => ActionModel::AddKLineData(k),
            AppAction::UpdateKLineData(ks) => ActionModel::UpdateKLineData(ks@),
            AppAction::ClearData => ActionModel::ClearData,
            AppAction::ClearTrades => ActionModel::ClearTrades,
            AppAction::ToggleSettings => ActionModel::ToggleSettings,
            AppAction::UpdateGateioApiKeys(k, s, u) => ActionModel::UpdateGateioApiKeys(
                k@,
                s@,
                u@,
            ),
            AppAction::UpdateSimulationCapital(c) => ActionModel::UpdateSimulationCapital(c),
            AppAction::ToggleSystemRunning => ActionModel::ToggleSystemRunning,
            AppAction::AddLog(l) => ActionModel::AddLog(l@),
            AppAction::ClearLogs => ActionModel::ClearLogs,
        }
    }
}

/// The snapshot that follows `s` under `a`.
pub open spec fn reduce(s: AppModel, a: ActionModel) -> AppModel {
    match a {
        ActionModel::UpdateSystemStatus(is_running, calmar_ratio, max_drawdown, aco, healed) => {
            AppModel {
                is_running,
                calmar_ratio,
                max_drawdown,
                aco_status: aco,
                last_self_healing_time: healed,
                ..s
            }
        },
        ActionModel::UpdateNetValue(net_value, initial_capital, total_pnl, timestamp, quotient) => {
            AppModel {
                net_value,
                initial_capital,
                total_pnl,
                pnl_ratio: pnl_percent(initial_capital, quotient),
                net_value_history: keep_latest(
                    s.net_value_history.push(
                        AssetNetValue { net_value, initial_capital, total_pnl, timestamp },
                    ),
                ),
                ..s
            }
        },
        ActionModel::UpdateFeatures(features) => AppModel { current_features: features, ..s },
        ActionModel::AddTrade(trade) => AppModel { trades: s.trades.push(trade), ..s },
        ActionModel::UpdateTrade(trade) => AppModel { trades: patch_trade(s.trades, trade), ..s },
        ActionModel::AddKLineData(bar) => AppModel {
            kline_data: keep_latest(s.kline_data.push(bar)),
            ..s
        },
        ActionModel::UpdateKLineData(bars) => AppModel { kline_data: bars, ..s },
        ActionModel::ClearData => AppModel::initial(),
        ActionModel::ClearTrades => AppModel { trades: Seq::empty(), ..s },
        ActionModel::ToggleSettings => AppModel { is_settings_open: !s.is_settings_open, ..s },
        ActionModel::UpdateGateioApiKeys(key, secret, url) => AppModel {
            gateio_api_key: key,
            gateio_api_secret: secret,
            gateio_u_perpetual_url: url,
            ..s
        },
        ActionModel::UpdateSimulationCapital(capital) => AppModel {
            simulation_capital: capital,
            ..s
        },
        ActionModel::ToggleSystemRunning => AppModel { is_running: !s.is_running, ..s },
        ActionModel::AddLog(entry) => AppModel { logs: keep_latest(s.logs.push(entry)), ..s },
        ActionModel::ClearLogs => AppModel { logs: Seq::empty(), ..s },
    }
}

/// Any two first matches are the same position.
pub proof fn lemma_first_match_unique(trades: Seq<TradeModel>, id: Seq<char>, i: int)
    requires
        is_first_match(trades, id, i),
    ensures
        first_match(trades, id) == Some(i),
{
    let k = choose|k: int| is_first_match(trades, id, k);
    assert(is_first_match(trades, id, k));
    if k < i {
        assert(trades[k].id != id);
    }
    if i < k {
        assert(trades[i].id != id);
    }
}

/// Where no record has the key, there is no first match.
pub proof fn lemma_first_match_absent(trades: Seq<TradeModel>, id: Seq<char>)
    requires
        !has_trade(trades, id),
    ensures
        first_match(trades, id).is_none(),
{
    if exists|i: int| is_first_match(trades, id, i) {
        let k = choose|k: int| is_first_match(trades, id, k);
        assert(trades[k].id == id);
    }
}

/// Drops entries from the head until at most [`HISTORY_CAPACITY`] are left.
pub fn trim_to_capacity<T>(v: &mut Vec<T>)
    ensures
        final(v)@ == keep_latest(old(v)@),
{
    let ghost before = v@;
    while v.len() > HISTORY_CAPACITY
        invariant
            v@.len() <= before.len(),
            before.len() <= HISTORY_CAPACITY ==> v@.len() == before.len(),
            before.len() > HISTORY_CAPACITY ==> v@.len() >= HISTORY_CAPACITY,
            v@ == before.subrange(before.len() - v@.len(), before.len() as int),
        decreases v.len(),
    {
        v.remove(0);
        assert(v@ =~= before.subrange(before.len() - v@.len(), before.len() as int));
    }
    assert(before.subrange(0, before.len() as int) =~= before);
}

/// Drops points from the head until at most [`HISTORY_CAPACITY`] are left.
pub fn trim_history(v: &mut VecDeque<AssetNetValue>)
    ensures
        final(v)@ == keep_latest(old(v)@),
{
    let ghost before = v@;
    while v.len() > HISTORY_CAPACITY
        invariant
            v@.len() <= before.len(),
            before.len() <= HISTORY_CAPACITY ==> v@.len() == before.len(),
            before.len() > HISTORY_CAPACITY ==> v@.len() >= HISTORY_CAPACITY,
            v@ == before.subrange(before.len() - v@.len(), before.len() as int),
        decreases v.len(),
    {
        v.pop_front();
        assert(v@ =~= before.subrange(before.len() - v@.len(), before.len() as int));
    }
    assert(before.subrange(0, before.len() as int) =~= before);
}

/// The first position whose record has the key `id`.
pub fn find_trade(trades: &Vec<TradeHistoryRecord>, id: &String) -> (r: Option<usize>)
    ensures
        match r {
            Some(i) => first_match(trade_models(trades@), id@) == Some(i as int),
            None => first_match(trade_models(trades@), id@).is_none(),
        },
        r.is_some() == has_trade(trade_models(trades@), id@),
{
    let ghost models = trade_models(trades@);
    let mut i: usize = 0;
    while i < trades.len()
        invariant
            i <= trades.len(),
            models == trade_models(trades@),
            forall|j: int| 0 <= j < i ==> (#[trigger] models[j]).id != id@,
        decreases trades.len() - i,
    {
        if trades[i].id == *id {
            proof {
                assert(models[i as int].id == id@);
                assert(is_first_match(models, id@, i as int));
                lemma_first_match_unique(models, id@, i as int);
            }
            return Some(i);
        }
        i += 1;
    }
    proof {
        lemma_first_match_absent(models, id@);
    }
    None
}

/// Copies a sequence of trades.
fn copy_trades(v: &Vec<TradeHistoryRecord>) -> (r: Vec<TradeHistoryRecord>)
    ensures
        trade_models(r@) == trade_models(v@),
{
    let mut out: Vec<TradeHistoryRecord> = Vec::new();
    let mut i: usize = 0;
    while i < v.len()
        invariant
            i <= v.len(),
            out@.len() == i,
            forall|j: int| 0 <= j < i ==> (#[trigger] out@[j])@ == v@[j]@,
        decreases v.len() - i,
    {
        out.push(v[i].clone());
        i += 1;
    }
    assert(trade_models(out@) =~= trade_models(v@));
    out
}

/// Copies a sequence of log lines.
fn copy_logs(v: &Vec<LogEntry>) -> (r: Vec<LogEntry>)
    ensures
        log_models(r@) == log_models(v@),
{
    let mut out: Vec<LogEntry> = Vec::new();
    let mut i: usize = 0;
    while i < v.len()
        invariant
            i <= v.len(),
            out@.len() == i,
            forall|j: int| 0 <= j < i ==> (#[trigger] out@[j])@ == v@[j]@,
        decreases v.len() - i,
    {
        out.push(v[i].clone());
        i += 1;
    }
    assert(log_models(out@) =~= log_models(v@));
    out
}

/// Copies a candlestick series.
fn copy_klines(v: &Vec<KLineData>) -> (r: Vec<KLineData>)
    ensures
        r@ == v@,
{
    let mut out: Vec<KLineData> = Vec::new();
    let mut i: usize = 0;
    while i < v.len()
        invariant
            i <= v.len(),
            out@ == v@.subrange(0, i as int),
        decreases v.len() - i,
    {
        out.push(v[i]);
        i += 1;
        assert(out@ =~= v@.subrange(0, i as int));
    }
    assert(v@.subrange(0, v.len() as int) =~= v@);
    out
}

/// Copies a net-value history.
fn copy_history(v: &VecDeque<AssetNetValue>) -> (r: VecDeque<AssetNetValue>)
    ensures
        r@ == v@,
{
    let mut out: VecDeque<AssetNetValue> = VecDeque::new();
    let mut i: usize = 0;
    while i < v.len()
        invariant
            i <= v.len(),
            out@ == v@.subrange(0, i as int),
        decreases v.len() - i,
    {
        out.push_back(v[i]);
        i += 1;
        assert(out@ =~= v@.subrange(0, i as int));
    }
    assert(v@.subrange(0, v.len() as int) =~= v@);
    out
}

impl Clone for AppState {
    fn clone(&self) -> (r: AppState)
        ensures
            r@ == self@,
    {
        AppState {
            is_running: self.is_running,
            net_value: self.net_value,
            initial_capital: self.initial_capital,
            total_pnl: self.total_pnl,
            pnl_ratio: self.pnl_ratio,
            calmar_ratio: self.calmar_ratio,
            max_drawdown: self.max_drawdown,
            aco_status: self.aco_status.clone(),
            last_self_healing_time: self.last_self_healing_time.clone(),
            current_features: self.current_features.clone(),
            trades: copy_trades(&self.trades),
            net_value_history: copy_history(&self.net_value_history),
            kline_data: copy_klines(&self.kline_data),
            is_settings_open: self.is_settings_open,
            gateio_api_key: self.gateio_api_key.clone(),
            gateio_api_secret: self.gateio_api_secret.clone(),
            gateio_u_perpetual_url: self.gateio_u_perpetual_url.clone(),
            simulation_capital: self.simulation_capital,
            logs: copy_logs(&self.logs),
        }
    }
}

impl Default for AppState {
    fn default() -> (r: AppState)
        ensures
            r@ == AppModel::initial(),
    {
        let r = AppState {
            is_running: false,
            net_value: Scalar::zero(),
            initial_capital: Scalar::zero(),
            total_pnl: Scalar::zero(),
            pnl_ratio: Scalar::zero(),
            calmar_ratio: Scalar::zero(),
            max_drawdown: Scalar::zero(),
            aco_status: String::new(),
            last_self_healing_time: String::new(),
            current_features: FeatureVector::default(),
            trades: Vec::new(),
            net_value_history: VecDeque::new(),
            kline_data: Vec::new(),
            is_settings_open: false,
            gateio_api_key: String::new(),
            gateio_api_secret: String::new(),
            gateio_u_perpetual_url: String::new(),
            simulation_capital: Scalar::zero(),
            logs: Vec::new(),
        };
        assert(trade_models(r.trades@) =~= Seq::empty());
        assert(log_models(r.logs@) =~= Seq::empty());
        r
    }
}

impl Clone for AppAction {
    fn clone(&self) -> (r: AppAction)
        ensures
            r@ == self@,
    {
        match self {
            AppAction::UpdateSystemStatus(r, c, d, a, t) => AppAction::UpdateSystemStatus(
                *r,
                *c,
                *d,
                a.clone(),
                t.clone(),
            ),
            AppAction::UpdateNetValue(n, c, p, t, q) => AppAction::UpdateNetValue(
                *n,
                *c,
                *p,
                *t,
                *q,
            ),
            AppAction::UpdateFeatures(f) => AppAction::UpdateFeatures(f.clone()),
            AppAction::AddTrade(t) => AppAction::AddTrade(t.clone()),
            AppAction::UpdateTrade(t) => AppAction::UpdateTrade(t.clone()),
            AppAction::AddKLineData(k) => AppAction::AddKLineData(*k),
            AppAction::UpdateKLineData(ks) => AppAction::UpdateKLineData(copy_klines(ks)),
            AppAction::ClearData => AppAction::ClearData,
            AppAction::ClearTrades => AppAction::ClearTrades,
            AppAction::ToggleSettings => AppAction::ToggleSettings,
            AppAction::UpdateGateioApiKeys(k, s, u) => AppAction::UpdateGateioApiKeys(
                k.clone(),
                s.clone(),
                u.clone(),
            ),
            AppAction::UpdateSimulationCapital(c) => AppAction::UpdateSimulationCapital(*c),
            AppAction::ToggleSystemRunning => AppAction::ToggleSystemRunning,
            AppAction::AddLog(l) => AppAction::AddLog(l.clone()),
            AppAction::ClearLogs => AppAction::ClearLogs,
        }
    }
}

/// Applies one action to a snapshot and returns the next snapshot; the
/// snapshot handed in is left as it was.
pub fn app_state_reducer(state: &AppState, action: AppAction) -> (r: AppState)
    ensures
        r@ == reduce(state@, action@),
{
    let mut next = state.clone();
    match action {
        AppAction::UpdateSystemStatus(is_running, calmar_ratio, max_drawdown, aco, healed) => {
            next.is_running = is_running;
            next.calmar_ratio = calmar_ratio;
            next.max_drawdown = max_drawdown;
            next.aco_status = aco;
            next.last_self_healing_time = healed;
        },
        AppAction::UpdateNetValue(net_value, initial_capital, total_pnl, timestamp, quotient) => {
            next.net_value = net_value;
            next.initial_capital = initial_capital;
            next.total_pnl = total_pnl;
            next.pnl_ratio = if initial_capital.is_zero() {
                Scalar::zero()
            } else {
                quotient
            };
            next.net_value_history.push_back(
                AssetNetValue { net_value, initial_capital, total_pnl, timestamp },
            );
            trim_history(&mut next.net_value_history);
        },
        AppAction::UpdateFeatures(features) => {
            next.current_features = features;
        },
        AppAction::AddTrade(trade) => {
            next.trades.push(trade);
            assert(trade_models(next.trades@) =~= trade_models(state.trades@).push(trade@));
        },
        AppAction::UpdateTrade(trade) => {
            let ghost before = next.trades@;
            match find_trade(&next.trades, &trade.id) {
                Some(pos) => {
                    next.trades[pos] = trade;
                    assert(trade_models(next.trades@) =~= trade_models(before).update(
                        pos as int,
                        trade@,
                    ));
                },
                None => {},
            }
        },
        AppAction::AddKLineData(bar) => {
            next.kline_data.push(bar);
            trim_to_capacity(&mut next.kline_data);
        },
        AppAction::UpdateKLineData(bars) => {
            next.kline_data = bars;
        },
        AppAction::ClearData => {
            next = AppState::default();
        },
        AppAction::ClearTrades => {
            next.trades = Vec::new();
            assert(trade_models(next.trades@) =~= Seq::empty());
        },
        AppAction::ToggleSettings => {
            next.is_settings_open = !state.is_settings_open;
        },
        AppAction::UpdateGateioApiKeys(key, secret, url) => {
            next.gateio_api_key = key;
            next.gateio_api_secret = secret;
            next.gateio_u_perpetual_url = url;
        },
        AppAction::UpdateSimulationCapital(capital) => {
            next.simulation_capital = capital;
        },
        AppAction::ToggleSystemRunning => {
            next.is_running = !state.is_running;
        },
        AppAction::AddLog(entry) => {
            let ghost pushed = next.logs@.push(entry);
            next.logs.push(entry);
            trim_to_capacity(&mut next.logs);
            assert(log_models(pushed) =~= log_models(state.logs@).push(entry@));
            assert(log_models(keep_latest(pushed)) =~= keep_latest(log_models(pushed)));
        },
        AppAction::ClearLogs => {
            next.logs = Vec::new();
            assert(log_models(next.logs@) =~= Seq::empty());
        },
    }
    next
}

/// The models of a sequence of actions, in order.
pub open spec fn action_models(s: Seq<AppAction>) -> Seq<ActionModel> {
    Seq::new(s.len(), |i: int| s[i]@)
}

/// The snapshot reached from `s` by applying `actions` one after another.
pub open spec fn replay(s: AppModel, actions: Seq<ActionModel>) -> AppModel
    decreases actions.len(),
{
    if actions.len() == 0 {
        s
    } else {
        reduce(replay(s, actions.drop_last()), actions.last())
    }
}

/// Applies a run of actions in order, starting from `state`.
pub fn replay_actions(state: &AppState, actions: &Vec<AppAction>) -> (r: AppState)
    ensures
        r@ == replay(state@, action_models(actions@)),
{
    let ghost all = action_models(actions@);
    let mut current = state.clone();
    let mut i: usize = 0;
    while i < actions.len()
        invariant
            i <= actions.len(),
            all == action_models(actions@),
            current@ == replay(state@, all.subrange(0, i as int)),
        decreases actions.len() - i,
    {
        let action = actions[i].clone();
        let next = app_state_reducer(&current, action);
        proof {
            let done = all.subrange(0, i as int + 1);
            assert(done.drop_last() =~= all.subrange(0, i as int));
            assert(done.last() == actions@[i as int]@);
        }
        current = next;
        i += 1;
    }
    assert(all.subrange(0, actions.len() as int) =~= all);
    current
}

} // verus!

//! Value records of the dashboard and their mathematical models.

use vstd::prelude::*;

verus! {

/// A binary64 quantity, held as its 64-bit pattern (sign, exponent, fraction).
///
/// Equality is equality of patterns.
#[derive(Clone, Copy, Debug, PartialEq, Eq, Structural, Hash)]
pub struct Scalar {
    pub bits: u64,
}

/// The pattern of negative zero: only the sign bit set.
pub const NEGATIVE_ZERO_BITS: u64 = 0x8000_0000_0000_0000;

impl Scalar {
    /// The pattern of positive zero.
    pub open spec fn spec_zero() -> Scalar {
        Scalar { bits: 0 }
    }

    /// Whether the pattern stands for the number zero, of either sign.
    pub open spec fn spec_is_zero(self) -> bool {
        self.bits == 0 || self.bits == NEGATIVE_ZERO_BITS
    }

    /// Positive zero.
    pub fn zero() -> (r: Scalar)
        ensures
            r == Scalar::spec_zero(),
    {
        Scalar { bits: 0 }
    }

    /// The quantity with the given pattern.
    pub fn from_bits(bits: u64) -> (r: Scalar)
        ensures
            r.bits == bits,
    {
        Scalar { bits }
    }

    /// The pattern of this quantity.
    pub fn to_bits(self) -> (r: u64)
        ensures
            r == self.bits,
    {
        self.bits
    }

    /// Whether this quantity is zero, of either sign.
    pub fn is_zero(self) -> (r: bool)
        ensures
            r == self.spec_is_zero(),
    {
        self.bits == 0 || self.bits == NEGATIVE_ZERO_BITS
    }
}

impl Default for Scalar {
    fn default() -> (r: Scalar)
        ensures
            r == Scalar::spec_zero(),
    {
        Scalar { bits: 0 }
    }
}

/// One point of the net-value curve.
#[derive(Clone, Copy, Debug, PartialEq, Eq, Structural)]
pub struct AssetNetValue {
    pub net_value: Scalar,
    pub initial_capital: Scalar,
    pub total_pnl: Scalar,
    pub timestamp: i64,
}

impl AssetNetValue {
    /// The all-zero point.
    pub open spec fn spec_default() -> AssetNetValue {
        AssetNetValue {
            net_value: Scalar::spec_zero(),
            initial_capital: Scalar::spec_zero(),
            total_pnl: Scalar::spec_zero(),
            timestamp: 0,
        }
    }
}

impl Default for AssetNetValue {
    fn default() -> (r: AssetNetValue)
        ensures
            r == AssetNetValue::spec_default(),
    {
        AssetNetValue {
            net_value: Scalar::zero(),
            initial_capital: Scalar::zero(),
            total_pnl: Scalar::zero(),
            timestamp: 0,
        }
    }
}

/// One candlestick bar.
#[derive(Clone, Copy, Debug, PartialEq, Eq, Structural)]
pub struct KLineData {
    pub timestamp: i64,
    pub open: Scalar,
    pub high: Scalar,
    pub low: Scalar,
    pub close: Scalar,
    pub volume: u64,
}

impl KLineData {
    /// The all-zero bar.
    pub open spec fn spec_default() -> KLineData {
        KLineData {
            timestamp: 0,
            open: Scalar::spec_zero(),
            high: Scalar::spec_zero(),
            low: Scalar::spec_zero(),
            close: Scalar::spec_zero(),
            volume: 0,
        }
    }
}

impl Default for KLineData {
    fn default() -> (r: KLineData)
        ensures
            r == KLineData::spec_default(),
    {
        KLineData {
            timestamp: 0,
            open: Scalar::zero(),
            high: Scalar::zero(),
            low: Scalar::zero(),
            close: Scalar::zero(),
            volume: 0,
        }
    }
}

/// Copies a vector of quantities.
fn copy_scalars(v: &Vec<Scalar>) -> (r: Vec<Scalar>)
    ensures
        r@ == v@,
{
    let mut out: Vec<Scalar> = Vec::new();
    let mut i: usize = 0;
    while i < v.len()
        invariant
            i <= v.len(),
            out@ == v@.subrange(0, i as int),
        decreases v.len() - i,
    {
        out.push(v[i]);
        i += 1;
        assert(out@ =~= v@.subrange(0, i as int));
    }
    assert(v@.subrange(0, v.len() as int) =~= v@);
    out
}

/// The latest snapshot of the numeric indicators.
#[derive(Debug, PartialEq, Eq)]
pub struct FeatureVector {
    pub shannon_entropy: Scalar,
    pub fft_spectrum: Vec<Scalar>,
    pub short_ma: Scalar,
    pub long_ma: Scalar,
    pub atr: Scalar,
    pub cks_trend_strength: Scalar,
    pub instantaneous_entropy_increase: Scalar,
    pub normalized_gap: Scalar,
    pub garch_volatility: Scalar,
    pub fractal_dimension: Scalar,
}

/// Model of a [`FeatureVector`].
pub ghost struct FeatureModel {
    pub shannon_entropy: Scalar,
    pub fft_spectrum: Seq<Scalar>,
    pub short_ma: Scalar,
    pub long_ma: Scalar,
    pub atr: Scalar,
    pub cks_trend_strength: Scalar,
    pub instantaneous_entropy_increase: Scalar,
    pub normalized_gap: Scalar,
    pub garch_volatility: Scalar,
    pub fractal_dimension: Scalar,
}

impl FeatureModel {
    /// Every indicator zero and an empty spectrum.
    pub open spec fn initial() -> FeatureModel {
        FeatureModel {
            shannon_entropy: Scalar::spec_zero(),
            fft_spectrum: Seq::empty(),
            short_ma: Scalar::spec_zero(),
            long_ma: Scalar::spec_zero(),
            atr: Scalar::spec_zero(),
            cks_trend_strength: Scalar::spec_zero(),
            instantaneous_entropy_increase: Scalar::spec_zero(),
            normalized_gap: Scalar::spec_zero(),
            garch_volatility: Scalar::spec_zero(),
            fractal_dimension: Scalar::spec_zero(),
        }
    }
}

impl View for FeatureVector {
    type V = FeatureModel;

    open spec fn view(&self) -> FeatureModel {
        FeatureModel {
            shannon_entropy: self.shannon_entropy,
            fft_spectrum: self.fft_spectrum@,
            short_ma: self.short_ma,
            long_ma: self.long_ma,
            atr: self.atr,
            cks_trend_strength: self.cks_trend_strength,
            instantaneous_entropy_increase: self.instantaneous_entropy_increase,
            normalized_gap: self.normalized_gap,
            garch_volatility: self.garch_volatility,
            fractal_dimension: self.fractal_dimension,
        }
    }
}

impl Clone for FeatureVector {
    fn clone(&self) -> (r: FeatureVector)
        ensures
            r@ == self@,
    {
        FeatureVector {
            shannon_entropy: self.shannon_entropy,
            fft_spectrum: copy_scalars(&self.fft_spectrum),
            short_ma: self.short_ma,
            long_ma: self.long_ma,
            atr: self.atr,
            cks_trend_strength: self.cks_trend_strength,
            instantaneous_entropy_increase: self.instantaneous_entropy_increase,
            normalized_gap: self.normalized_gap,
            garch_volatility: self.garch_volatility,
            fractal_dimension: self.fractal_dimension,
        }
    }
}

impl Default for FeatureVector {
    fn default() -> (r: FeatureVector)
        ensures
            r@ == FeatureModel::initial(),
    {
        FeatureVector {
            shannon_entropy: Scalar::zero(),
            fft_spectrum: Vec::new(),
            short_ma: Scalar::zero(),
            long_ma: Scalar::zero(),
            atr: Scalar::zero(),
            cks_trend_strength: Scalar::zero(),
            instantaneous_entropy_increase: Scalar::zero(),
            normalized_gap: Scalar::zero(),
            garch_volatility: Scalar::zero(),
            fractal_dimension: Scalar::zero(),
        }
    }
}

/// Copies an optional string.
fn copy_optional_text(s: &Option<String>) -> (r: Option<String>)
    ensures
        text_of(r) == text_of(*s),
{
    match s {
        Some(t) => Some(t.clone()),
        None => None,
    }
}

/// The characters of an optional string.
pub open spec fn text_of(s: Option<String>) -> Option<Seq<char>> {
    match s {
        Some(t) => Some(t@),
        None => None,
    }
}

/// One trade, at one point of its life. Two records with the same `id` are
/// the same trade.
#[derive(Debug, PartialEq, Eq)]
pub struct TradeHistoryRecord {
    pub id: String,
    pub direction: String,
    pub entry_price: Scalar,
    pub exit_price: Option<Scalar>,
    pub entry_time: String,
    pub exit_time: Option<String>,
    pub volume: Scalar,
    pub status: String,
    pub pnl: Scalar,
    pub pnl_ratio: Scalar,
}

/// Model of a [`TradeHistoryRecord`].
pub ghost struct TradeModel {
    pub id: Seq<char>,
    pub direction: Seq<char>,
    pub entry_price: Scalar,
    pub exit_price: Option<Scalar>,
    pub entry_time: Seq<char>,
    pub exit_time: Option<Seq<char>>,
    pub volume: Scalar,
    pub status: Seq<char>,
    pub pnl: Scalar,
    pub pnl_ratio: Scalar,
}

impl View for TradeHistoryRecord {
    type V = TradeModel;

    open spec fn view(&self) -> TradeModel {
        TradeModel {
            id: self.id@,
            direction: self.direction@,
            entry_price: self.entry_price,
            exit_price: self.exit_price,
            entry_time: self.entry_time@,
            exit_time: text_of(self.exit_time),
            volume: self.volume,
            status: self.status@,
            pnl: self.pnl,
            pnl_ratio: self.pnl_ratio,
        }
    }
}

impl Clone for TradeHistoryRecord {
    fn clone(&self) -> (r: TradeHistoryRecord)
        ensures
            r@ == self@,
    {
        TradeHistoryRecord {
            id: self.id.clone(),
            direction: self.direction.clone(),
            entry_price: self.entry_price,
            exit_price: self.exit_price,
            entry_time: self.entry_time.clone(),
            exit_time: copy_optional_text(&self.exit_time),
            volume: self.volume,
            status: self.status.clone(),
            pnl: self.pnl,
            pnl_ratio: self.pnl_ratio,
        }
    }
}

/// One line of the system log.
#[derive(Debug, PartialEq, Eq, Hash)]
pub struct LogEntry {
    pub time: String,
    pub level: String,
    pub message: String,
}

/// Model of a [`LogEntry`].
pub ghost struct LogModel {
    pub time: Seq<char>,
    pub level: Seq<char>,
    pub message: Seq<char>,
}

impl View for LogEntry {
    type V = LogModel;

    open spec fn view(&self) -> LogModel {
        LogModel { time: self.time@, level: self.level@, message: self.message@ }
    }
}

impl Clone for LogEntry {
    fn clone(&self) -> (r: LogEntry)
        ensures
            r@ == self@,
    {
        LogEntry {
            time: self.time.clone(),
            level: self.level.clone(),
            message: self.message.clone(),
        }
    }
}

impl Default for LogEntry {
    fn default() -> (r: LogEntry)
        ensures
            r@ == (LogModel { time: Seq::empty(), level: Seq::empty(), message: Seq::empty() }),
    {
        LogEntry { time: String::new(), level: String::new(), message: String::new() }
    }
}

} // verus!

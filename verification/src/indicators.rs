//! Technical indicators over a window of price history: simple moving
//! averages, momentum, average true range and the volume ratio.
//!
//! All figures are exact integer renditions: averages floor-divide, change
//! figures are in basis points, the volume ratio in percent.  Each window
//! shrinks to the available history when that is shorter.

use vstd::prelude::*;

use crate::types::Kline;
use crate::types::TechnicalIndicators;

verus! {

/// Upper bound on every price and volume figure a candle may carry, so that
/// windowed sums and basis-point scalings stay in range.
pub const MAX_PRICE_UNITS: u64 = 0xFFFF_FFFF;

/// Why indicators could not be computed.
#[derive(Clone, Copy, Debug, PartialEq, Eq, Structural)]
pub enum IndicatorError {
    /// Fewer than five candles of history.
    NotEnoughData,
}

/// Every candle's figures are within [`MAX_PRICE_UNITS`].
pub open spec fn spec_klines_bounded(s: Seq<Kline>) -> bool {
    forall|i: int|
        0 <= i < s.len() ==> {
            &&& (#[trigger] s[i]).open <= MAX_PRICE_UNITS
            &&& s[i].high <= MAX_PRICE_UNITS
            &&& s[i].low <= MAX_PRICE_UNITS
            &&& s[i].close <= MAX_PRICE_UNITS
            &&& s[i].volume <= MAX_PRICE_UNITS
        }
}

/// Sum of the closing prices of a window.
pub open spec fn spec_sum_closes(s: Seq<Kline>) -> int
    decreases s.len(),
{
    if s.len() == 0 {
        0
    } else {
        spec_sum_closes(s.drop_last()) + s.last().close
    }
}

/// Sum of the volumes of a window.
pub open spec fn spec_sum_volumes(s: Seq<Kline>) -> int
    decreases s.len(),
{
    if s.len() == 0 {
        0
    } else {
        spec_sum_volumes(s.drop_last()) + s.last().volume
    }
}

/// The window actually used: `w`, shrunk to the available history.
pub open spec fn spec_window(len: int, w: int) -> int {
    if w <= len {
        w
    } else {
        len
    }
}

/// Simple moving average of the last `w` closes (floor division).
pub open spec fn spec_sma(s: Seq<Kline>, w: int) -> int {
    let win = spec_window(s.len() as int, w);
    spec_sum_closes(s.subrange(s.len() - win, s.len() as int)) / win
}

/// Price change over the last `periods` candles, in basis points of the
/// older close; zero when the history is too short or the older close is
/// zero.
pub open spec fn spec_pct_change_bps(s: Seq<Kline>, periods: int) -> int {
    if s.len() <= periods {
        0
    } else {
        let last = s[s.len() - 1].close as int;
        let prev = s[s.len() - 1 - periods].close as int;
        if prev == 0 {
            0
        } else if last >= prev {
            (last - prev) * 10000 / prev
        } else {
            -((prev - last) * 10000 / prev)
        }
    }
}

/// Magnitude of a difference.
pub open spec fn spec_dist(a: int, b: int) -> int {
    if a >= b {
        a - b
    } else {
        b - a
    }
}

/// True range of one candle against the previous close: the largest of the
/// candle's own range and the two gaps to the previous close.
pub open spec fn spec_true_range(k: Kline, prev_close: int) -> int {
    let own = k.high - k.low;
    let up = spec_dist(k.high as int, prev_close);
    let down = spec_dist(k.low as int, prev_close);
    if own >= up && own >= down {
        own
    } else if up >= down {
        up
    } else {
        down
    }
}

/// True range at index `i`, the first candle measured against itself.
pub open spec fn spec_tr_at(s: Seq<Kline>, i: int) -> int {
    spec_true_range(
        s[i],
        if i == 0 {
            s[i].close as int
        } else {
            s[i - 1].close as int
        },
    )
}

/// Sum of the true ranges of indices `from..to`.
pub open spec fn spec_sum_tr(s: Seq<Kline>, from: int, to: int) -> int
    decreases to - from,
{
    if from >= to {
        0
    } else {
        spec_sum_tr(s, from, to - 1) + spec_tr_at(s, to - 1)
    }
}

/// Average true range over the last up-to-14 candles (never the very first
/// candle alone); zero with a single candle of history.
pub open spec fn spec_atr(s: Seq<Kline>) -> int {
    let period = spec_window(s.len() - 1, 14);
    if period <= 0 {
        0
    } else {
        spec_sum_tr(s, s.len() - period, s.len() as int) / period
    }
}

/// The ATR as basis points of the latest close; zero when that close is
/// zero.
pub open spec fn spec_atr_percent_bps(s: Seq<Kline>) -> int {
    if s.len() == 0 || s[s.len() - 1].close == 0 {
        0
    } else {
        spec_atr(s) * 10000 / (s[s.len() - 1].close as int)
    }
}

/// Latest volume as percent of the average volume of the last up-to-20
/// candles; zero when that average floors to zero.
pub open spec fn spec_volume_ratio_pct(s: Seq<Kline>) -> int {
    let win = spec_window(s.len() as int, 20);
    let avg = spec_sum_volumes(s.subrange(s.len() - win, s.len() as int)) / win;
    if avg == 0 {
        0
    } else {
        (s[s.len() - 1].volume as int) * 100 / avg
    }
}

/// Sum of the closes of the last `win` candles.
fn sum_close_window(klines: &Vec<Kline>, win: usize) -> (r: u64)
    requires
        1 <= win <= klines@.len(),
        win <= 128,
        spec_klines_bounded(klines@),
    ensures
        r == spec_sum_closes(klines@.subrange(klines@.len() - win, klines@.len() as int)),
        r <= win * MAX_PRICE_UNITS,
{
    let len = klines.len();
    let start = len - win;
    let mut sum: u64 = 0;
    let mut i: usize = start;
    while i < len
        invariant
            start <= i <= len,
            len == klines@.len(),
            start == len - win,
            win <= 128,
            spec_klines_bounded(klines@),
            sum == spec_sum_closes(klines@.subrange(start as int, i as int)),
            sum <= (i - start) * MAX_PRICE_UNITS,
        decreases len - i,
    {
        proof {
            assert(klines@.subrange(start as int, i + 1).drop_last() =~= klines@.subrange(
                start as int,
                i as int,
            ));
            assert(klines@.subrange(start as int, i + 1).last() == klines@[i as int]);
        }
        sum = sum + klines[i].close;
        i = i + 1;
    }
    sum
}

/// Sum of the volumes of the last `win` candles.
fn sum_volume_window(klines: &Vec<Kline>, win: usize) -> (r: u64)
    requires
        1 <= win <= klines@.len(),
        win <= 128,
        spec_klines_bounded(klines@),
    ensures
        r == spec_sum_volumes(klines@.subrange(klines@.len() - win, klines@.len() as int)),
        r <= win * MAX_PRICE_UNITS,
{
    let len = klines.len();
    let start = len - win;
    let mut sum: u64 = 0;
    let mut i: usize = start;
    while i < len
        invariant
            start <= i <= len,
            len == klines@.len(),
            start == len - win,
            win <= 128,
            spec_klines_bounded(klines@),
            sum == spec_sum_volumes(klines@.subrange(start as int, i as int)),
            sum <= (i - start) * MAX_PRICE_UNITS,
        decreases len - i,
    {
        proof {
            assert(klines@.subrange(start as int, i + 1).drop_last() =~= klines@.subrange(
                start as int,
                i as int,
            ));
            assert(klines@.subrange(start as int, i + 1).last() == klines@[i as int]);
        }
        sum = sum + klines[i].volume;
        i = i + 1;
    }
    sum
}

/// Simple moving average of the last `w` closes, the window shrunk to the
/// available history.
fn sma(klines: &Vec<Kline>, w: usize) -> (r: u64)
    requires
        1 <= klines@.len(),
        1 <= w <= 128,
        spec_klines_bounded(klines@),
    ensures
        r == spec_sma(klines@, w as int),
{
    let win = if w <= klines.len() {
        w
    } else {
        klines.len()
    };
    let sum = sum_close_window(klines, win);
    sum / (win as u64)
}

/// Price change over the last `periods` candles, in basis points.
fn pct_change_bps(klines: &Vec<Kline>, periods: usize) -> (r: i64)
    requires
        spec_klines_bounded(klines@),
        1 <= klines@.len(),
    ensures
        r == spec_pct_change_bps(klines@, periods as int),
{
    let len = klines.len();
    if len <= periods {
        return 0;
    }
    let last = klines[len - 1].close;
    let prev = klines[len - 1 - periods].close;
    if prev == 0 {
        0
    } else if last >= prev {
        (((last - prev) * 10000) / prev) as i64
    } else {
        -((((prev - last) * 10000) / prev) as i64)
    }
}

/// True range of the candle at `i` against the previous close.
fn true_range_at(klines: &Vec<Kline>, i: usize) -> (r: u64)
    requires
        0 <= i < klines@.len(),
        spec_klines_bounded(klines@),
    ensures
        r == spec_tr_at(klines@, i as int),
        r <= 2 * MAX_PRICE_UNITS,
{
    let k = &klines[i];
    let prev_close: u64 = if i == 0 {
        k.close
    } else {
        klines[i - 1].close
    };
    let own: i64 = k.high as i64 - k.low as i64;
    let up: i64 = if k.high >= prev_close {
        (k.high - prev_close) as i64
    } else {
        (prev_close - k.high) as i64
    };
    let down: i64 = if k.low >= prev_close {
        (k.low - prev_close) as i64
    } else {
        (prev_close - k.low) as i64
    };
    let tr: i64 = if own >= up && own >= down {
        own
    } else if up >= down {
        up
    } else {
        down
    };
    tr as u64
}

/// Average true range over the last up-to-14 candles, and its sum helper.
fn atr(klines: &Vec<Kline>) -> (r: u64)
    requires
        2 <= klines@.len(),
        spec_klines_bounded(klines@),
    ensures
        r == spec_atr(klines@),
        r <= 28 * MAX_PRICE_UNITS,
{
    let len = klines.len();
    let period: usize = if 14 <= len - 1 {
        14
    } else {
        len - 1
    };
    let start = len - period;
    let mut sum: u64 = 0;
    let mut i: usize = start;
    while i < len
        invariant
            start <= i <= len,
            len == klines@.len(),
            start == len - period,
            1 <= period <= 14,
            spec_klines_bounded(klines@),
            sum == spec_sum_tr(klines@, start as int, i as int),
            sum <= (i - start) * 2 * MAX_PRICE_UNITS,
        decreases len - i,
    {
        let tr = true_range_at(klines, i);
        sum = sum + tr;
        i = i + 1;
    }
    proof {
        assert((sum as int) / (period as int) <= sum as int) by (nonlinear_arith)
            requires
                sum >= 0,
                period >= 1,
        ;
    }
    sum / (period as u64)
}

/// Computes the indicator set over `klines`, oldest candle first.  Needs at
/// least five candles; every figure is then the exact integer value its
/// spec function gives.
pub fn calculate_indicators(klines: &Vec<Kline>) -> (r: Result<
    TechnicalIndicators,
    IndicatorError,
>)
    requires
        spec_klines_bounded(klines@),
    ensures
        klines@.len() < 5 <==> r is Err,
        r matches Err(e) ==> e == IndicatorError::NotEnoughData,
        r matches Ok(ti) ==> {
            &&& ti.sma_5 == spec_sma(klines@, 5)
            &&& ti.sma_20 == spec_sma(klines@, 20)
            &&& ti.sma_50 == spec_sma(klines@, 50)
            &&& ti.sma_100 == spec_sma(klines@, 100)
            &&& ti.price_change_1 == spec_pct_change_bps(klines@, 1)
            &&& ti.price_change_3 == spec_pct_change_bps(klines@, 3)
            &&& ti.price_change_6 == spec_pct_change_bps(klines@, 6)
            &&& ti.price_change_12 == spec_pct_change_bps(klines@, 12)
            &&& ti.atr_14 == spec_atr(klines@)
            &&& ti.atr_percent == spec_atr_percent_bps(klines@)
            &&& ti.volume_ratio == spec_volume_ratio_pct(klines@)
        },
{
    let len = klines.len();
    if len < 5 {
        return Err(IndicatorError::NotEnoughData);
    }
    let sma_5 = sma(klines, 5);
    let sma_20 = sma(klines, 20);
    let sma_50 = sma(klines, 50);
    let sma_100 = sma(klines, 100);
    let price_change_1 = pct_change_bps(klines, 1);
    let price_change_3 = pct_change_bps(klines, 3);
    let price_change_6 = pct_change_bps(klines, 6);
    let price_change_12 = pct_change_bps(klines, 12);
    let atr_14 = atr(klines);
    let latest_close = klines[len - 1].close;
    let atr_percent: u64 = if latest_close == 0 {
        0
    } else {
        (atr_14 * 10000) / latest_close
    };
    let volume_window: usize = if 20 <= len {
        20
    } else {
        len
    };
    let volume_sum = sum_volume_window(klines, volume_window);
    let avg_volume = volume_sum / (volume_window as u64);
    let volume_ratio: u64 = if avg_volume == 0 {
        0
    } else {
        (klines[len - 1].volume * 100) / avg_volume
    };
    Ok(
        TechnicalIndicators {
            sma_5,
            sma_20,
            sma_50,
            sma_100,
            price_change_1,
            price_change_3,
            price_change_6,
            price_change_12,
            atr_14,
            atr_percent,
            volume_ratio,
        },
    )
}

} // verus!

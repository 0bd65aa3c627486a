//! Assembly of the one-line summary record from the computed reductions.
//!
//! This is the single place where an absent reduction is coerced to a
//! display default of zero; the statistics engine itself never does so, so
//! that its callers can still tell "no data" from "value is zero".

use vstd::prelude::*;
use crate::stats;
use crate::stats::Ratio;

verus! {

/// The summary record produced once per invocation: the echoed inputs and
/// the five reductions, with absent values already coerced to zero.
#[derive(Clone, Debug)]
pub struct SummaryReport {
    /// The raw date string the caller supplied, echoed unparsed.
    pub period_start: String,
    /// The ticker symbol the series belongs to.
    pub symbol: String,
    /// The last price of the series, or zero if the series was empty.
    pub latest_price: i64,
    /// The percent change over the series, or the zero ratio.
    pub percent_change: Ratio,
    /// The smallest price of the series, or zero.
    pub minimum: i64,
    /// The largest price of the series, or zero.
    pub maximum: i64,
    /// The last entry of the moving-average sequence, or the zero ratio.
    pub latest_moving_average: Ratio,
}

/// The zero ratio used as the display default for an absent result.
pub open spec fn ratio_zero() -> Ratio {
    Ratio { num: 0, den: 1 }
}

/// The last element of the series, or zero if it is empty.
pub open spec fn latest_price_spec(s: Seq<i64>) -> i64 {
    if s.len() == 0 {
        0
    } else {
        s.last()
    }
}

/// An optional price coerced to the display default of zero.
pub open spec fn price_or_zero(o: Option<i64>) -> i64 {
    match o {
        Some(v) => v,
        None => 0,
    }
}

/// An optional ratio coerced to the zero ratio.
pub open spec fn ratio_or_zero(o: Option<Ratio>) -> Ratio {
    match o {
        Some(v) => v,
        None => ratio_zero(),
    }
}

/// The last entry of an optional moving-average sequence, or the zero ratio
/// when the sequence is absent or empty.
pub open spec fn latest_avg_spec(o: Option<Seq<Ratio>>) -> Ratio {
    match o {
        Some(v) => if v.len() > 0 {
            v.last()
        } else {
            ratio_zero()
        },
        None => ratio_zero(),
    }
}

/// Assemble the summary for one series: echo the period start and symbol,
/// and fill each statistic from the engine, substituting zero wherever the
/// reduction was absent (or, for the moving average, empty).
pub fn summarize(
    period_start: String,
    symbol: String,
    series: &Vec<i64>,
    window: usize,
) -> (r: SummaryReport)
    ensures
        r.period_start@ == period_start@,
        r.symbol@ == symbol@,
        r.latest_price == latest_price_spec(series@),
        r.minimum == price_or_zero(stats::min_spec(series@)),
        r.maximum == price_or_zero(stats::max_spec(series@)),
        r.percent_change == ratio_or_zero(stats::percent_change_spec(series@)),
        r.latest_moving_average == latest_avg_spec(
            stats::moving_average_spec(series@, window as int),
        ),
        r.percent_change.wf(),
        r.latest_moving_average.wf(),
{
    let latest_price: i64 = if series.len() == 0 {
        0
    } else {
        series[series.len() - 1]
    };
    let minimum: i64 = match stats::min(series) {
        Some(v) => v,
        None => 0,
    };
    let maximum: i64 = match stats::max(series) {
        Some(v) => v,
        None => 0,
    };
    let percent_change: Ratio = match stats::percent_change(series) {
        Some(p) => p,
        None => Ratio { num: 0, den: 1 },
    };
    let latest_moving_average: Ratio = match stats::moving_average(series, window) {
        Some(v) => if v.len() > 0 {
            v[v.len() - 1]
        } else {
            Ratio { num: 0, den: 1 }
        },
        None => Ratio { num: 0, den: 1 },
    };
    SummaryReport {
        period_start,
        symbol,
        latest_price,
        percent_change,
        minimum,
        maximum,
        latest_moving_average,
    }
}

} // verus!

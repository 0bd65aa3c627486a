//! The statistics engine: pure reductions over a price series.
//!
//! A series is a `Vec<i64>` in chronological order (oldest first). Every
//! reduction is total: an empty series (or a zero-length window) yields
//! `None`, never a panic.

use vstd::prelude::*;

verus! {

/// An exact ratio of two integers. Results that would need a division
/// (percent change, window averages) are returned in this form, unreduced,
/// so that no precision is lost; the caller divides for display.
#[derive(Clone, Copy, PartialEq, Eq, Structural, Debug)]
pub struct Ratio {
    pub num: i128,
    pub den: i128,
}

impl Ratio {
    /// A ratio is meaningful only when its denominator is nonzero.
    pub open spec fn wf(self) -> bool {
        self.den != 0
    }
}

/// The smallest element of a nonempty sequence.
pub open spec fn seq_min(s: Seq<i64>) -> i64
    recommends
        s.len() > 0,
    decreases s.len(),
{
    if s.len() <= 1 {
        s[0]
    } else if s.last() < seq_min(s.drop_last()) {
        s.last()
    } else {
        seq_min(s.drop_last())
    }
}

/// The largest element of a nonempty sequence.
pub open spec fn seq_max(s: Seq<i64>) -> i64
    recommends
        s.len() > 0,
    decreases s.len(),
{
    if s.len() <= 1 {
        s[0]
    } else if s.last() > seq_max(s.drop_last()) {
        s.last()
    } else {
        seq_max(s.drop_last())
    }
}

/// The sum of a sequence, as an unbounded integer.
pub open spec fn seq_sum(s: Seq<i64>) -> int
    decreases s.len(),
{
    if s.len() == 0 {
        0
    } else {
        seq_sum(s.drop_last()) + s.last()
    }
}

/// What `min` returns: absent on an empty series, else the smallest element.
pub open spec fn min_spec(s: Seq<i64>) -> Option<i64> {
    if s.len() == 0 {
        None
    } else {
        Some(seq_min(s))
    }
}

/// What `max` returns: absent on an empty series, else the largest element.
pub open spec fn max_spec(s: Seq<i64>) -> Option<i64> {
    if s.len() == 0 {
        None
    } else {
        Some(seq_max(s))
    }
}

/// The numerator of the percent change of a nonempty series:
/// one hundred times the difference between the last and first elements.
pub open spec fn pc_num(s: Seq<i64>) -> int
    recommends
        s.len() > 0,
{
    100 * (s.last() - s[0])
}

/// The denominator of the percent change: the first element, with zero
/// replaced by one. The substitution is a deliberate compatibility quirk:
/// a zero baseline does not fail, it silently rescales the result.
pub open spec fn pc_den(s: Seq<i64>) -> int
    recommends
        s.len() > 0,
{
    if s[0] == 0 {
        1
    } else {
        s[0] as int
    }
}

/// What `percent_change` returns: absent on an empty series, else the exact
/// ratio `100 * (last - first) / den`, with `den` the (guarded) baseline.
pub open spec fn percent_change_spec(s: Seq<i64>) -> Option<Ratio> {
    if s.len() == 0 {
        None
    } else {
        Some(Ratio { num: pc_num(s) as i128, den: pc_den(s) as i128 })
    }
}

/// The number of windows of length `n` that fit in a series of length `len`.
pub open spec fn window_count(len: int, n: int) -> int {
    if len >= n {
        len - n + 1
    } else {
        0
    }
}

/// The average over the window of length `n` starting at `i`, as an exact
/// ratio: the window sum over the window length.
pub open spec fn window_avg(s: Seq<i64>, n: int, i: int) -> Ratio
    recommends
        0 < n,
        0 <= i,
        i + n <= s.len(),
{
    Ratio { num: seq_sum(s.subrange(i, i + n)) as i128, den: n as i128 }
}

/// What `moving_average` returns: absent when the series is empty or the
/// window length is zero; otherwise one exact average per window, in input
/// order (empty when the series is shorter than the window).
pub open spec fn moving_average_spec(s: Seq<i64>, n: int) -> Option<Seq<Ratio>> {
    if s.len() == 0 || n == 0 {
        None
    } else {
        Some(Seq::new(window_count(s.len() as int, n) as nat, |i: int| window_avg(s, n, i)))
    }
}

/// The smallest value in the series, or `None` if the series is empty.
pub fn min(series: &Vec<i64>) -> (r: Option<i64>)
    ensures
        r == min_spec(series@),
{
    if series.len() == 0 {
        None
    } else {
        let mut m: i64 = series[0];
        let mut i: usize = 1;
        while i < series.len()
            invariant
                1 <= i <= series@.len(),
                m == seq_min(series@.take(i as int)),
            decreases series@.len() - i,
        {
            proof {
                assert(series@.take(i + 1).drop_last() =~= series@.take(i as int));
            }
            if series[i] < m {
                m = series[i];
            }
            i = i + 1;
        }
        proof {
            assert(series@.take(series@.len() as int) =~= series@);
        }
        Some(m)
    }
}

/// The largest value in the series, or `None` if the series is empty.
pub fn max(series: &Vec<i64>) -> (r: Option<i64>)
    ensures
        r == max_spec(series@),
{
    if series.len() == 0 {
        None
    } else {
        let mut m: i64 = series[0];
        let mut i: usize = 1;
        while i < series.len()
            invariant
                1 <= i <= series@.len(),
                m == seq_max(series@.take(i as int)),
            decreases series@.len() - i,
        {
            proof {
                assert(series@.take(i + 1).drop_last() =~= series@.take(i as int));
            }
            if series[i] > m {
                m = series[i];
            }
            i = i + 1;
        }
        proof {
            assert(series@.take(series@.len() as int) =~= series@);
        }
        Some(m)
    }
}

/// The minimum of a nonempty sequence bounds every element from below and is
/// itself one of the elements.
pub proof fn lemma_seq_min_props(s: Seq<i64>)
    requires
        s.len() > 0,
    ensures
        forall|i: int| 0 <= i < s.len() ==> seq_min(s) <= #[trigger] s[i],
        exists|i: int| 0 <= i < s.len() && s[i] == seq_min(s),
    decreases s.len(),
{
    if s.len() == 1 {
        assert(s[0] == seq_min(s));
    } else {
        lemma_seq_min_props(s.drop_last());
        assert forall|i: int| 0 <= i < s.len() implies seq_min(s) <= #[trigger] s[i] by {
            if i < s.len() - 1 {
                assert(s[i] == s.drop_last()[i]);
            }
        }
        if s.last() < seq_min(s.drop_last()) {
            assert(s[s.len() - 1] == seq_min(s));
        } else {
            let j = choose|j: int|
                0 <= j < s.drop_last().len() && s.drop_last()[j] == seq_min(s.drop_last());
            assert(s[j] == seq_min(s));
        }
    }
}

/// The maximum of a nonempty sequence bounds every element from above and is
/// itself one of the elements.
pub proof fn lemma_seq_max_props(s: Seq<i64>)
    requires
        s.len() > 0,
    ensures
        forall|i: int| 0 <= i < s.len() ==> #[trigger] s[i] <= seq_max(s),
        exists|i: int| 0 <= i < s.len() && s[i] == seq_max(s),
    decreases s.len(),
{
    if s.len() == 1 {
        assert(s[0] == seq_max(s));
    } else {
        lemma_seq_max_props(s.drop_last());
        assert forall|i: int| 0 <= i < s.len() implies #[trigger] s[i] <= seq_max(s) by {
            if i < s.len() - 1 {
                assert(s[i] == s.drop_last()[i]);
            }
        }
        if s.last() > seq_max(s.drop_last()) {
            assert(s[s.len() - 1] == seq_max(s));
        } else {
            let j = choose|j: int|
                0 <= j < s.drop_last().len() && s.drop_last()[j] == seq_max(s.drop_last());
            assert(s[j] == seq_max(s));
        }
    }
}

/// On every nonempty series the minimum is at most the maximum, every
/// element lies between the two, and each of the two is a value of the
/// series.
pub proof fn lemma_min_max_bounds(s: Seq<i64>)
    requires
        s.len() > 0,
    ensures
        seq_min(s) <= seq_max(s),
        forall|i: int|
            0 <= i < s.len() ==> seq_min(s) <= #[trigger] s[i] && s[i] <= seq_max(s),
        exists|i: int| 0 <= i < s.len() && s[i] == seq_min(s),
        exists|i: int| 0 <= i < s.len() && s[i] == seq_max(s),
{
    lemma_seq_min_props(s);
    lemma_seq_max_props(s);
    assert(seq_min(s) <= s[0] && s[0] <= seq_max(s));
}

/// Purity: each reduction's contract pins its result to a function of the
/// series (and window length) alone, so repeated calls on the same inputs
/// yield identical results — there is no hidden state to consult.
pub proof fn lemma_reductions_pure(s1: Seq<i64>, s2: Seq<i64>, n1: int, n2: int)
    requires
        s1 == s2,
        n1 == n2,
    ensures
        min_spec(s1) == min_spec(s2),
        max_spec(s1) == max_spec(s2),
        percent_change_spec(s1) == percent_change_spec(s2),
        moving_average_spec(s1, n1) == moving_average_spec(s2, n2),
{
}

/// The percent change from the first to the last element, as the exact ratio
/// `100 * (last - first) / den`, or `None` if the series is empty. `den` is
/// the first element unless that is zero, in which case it is one (the
/// guarded baseline preserved verbatim for compatibility).
pub fn percent_change(series: &Vec<i64>) -> (r: Option<Ratio>)
    ensures
        r == percent_change_spec(series@),
        r matches Some(p) ==> p.wf(),
{
    if series.len() == 0 {
        None
    } else {
        let first = series[0];
        let last = series[series.len() - 1];
        let num: i128 = 100 * ((last as i128) - (first as i128));
        let den: i128 = if first == 0 {
            1
        } else {
            first as i128
        };
        Some(Ratio { num, den })
    }
}

/// The trailing moving average: one exact window mean per contiguous window
/// of length `n`, in input order. `None` when the series is empty or `n` is
/// zero; an empty vector (not `None`) when the series is shorter than the
/// window.
pub fn moving_average(series: &Vec<i64>, n: usize) -> (r: Option<Vec<Ratio>>)
    ensures
        (r is Some) == (moving_average_spec(series@, n as int) is Some),
        r matches Some(v) ==> Some(v@) == moving_average_spec(series@, n as int),
        r matches Some(v) ==> forall|k: int| 0 <= k < v@.len() ==> (#[trigger] v@[k]).wf(),
{
    if series.len() == 0 || n == 0 {
        return None;
    }
    let mut out: Vec<Ratio> = Vec::new();
    if series.len() < n {
        proof {
            assert(out@ =~= moving_average_spec(series@, n as int).unwrap());
        }
        return Some(out);
    }
    let count = series.len() - n + 1;
    let mut i: usize = 0;
    while i < count
        invariant
            0 < n <= series@.len(),
            series@.len() <= usize::MAX,
            count == series@.len() - n + 1,
            i <= count,
            out@.len() == i,
            forall|k: int| 0 <= k < i ==> #[trigger] out@[k] == window_avg(series@, n as int, k),
        decreases count - i,
    {
        let mut sum: i128 = 0;
        let mut j: usize = 0;
        while j < n
            invariant
                0 < n,
                j <= n,
                i + n <= series@.len(),
                series@.len() <= usize::MAX,
                n as int <= 0xffff_ffff_ffff_ffff,
                sum == seq_sum(series@.subrange(i as int, i + j)),
                -((j as int) * 0x8000_0000_0000_0000) <= sum
                    <= (j as int) * 0x7fff_ffff_ffff_ffff,
            decreases n - j,
        {
            proof {
                assert(series@.subrange(i as int, i + j + 1).drop_last() =~= series@.subrange(
                    i as int,
                    i + j,
                ));
            }
            sum = sum + (series[i + j] as i128);
            j = j + 1;
        }
        out.push(Ratio { num: sum, den: n as i128 });
        i = i + 1;
    }
    proof {
        assert(out@ =~= moving_average_spec(series@, n as int).unwrap());
    }
    Some(out)
}

} // verus!

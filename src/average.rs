use vstd::prelude::*;
use vstd::arithmetic::div_mod::{lemma_fundamental_div_mod, lemma_mod_bound};

use crate::perf::Perf;

verus! {

/// 2^64: one more than the largest `u64`.
pub open spec fn two64() -> int {
    0x1_0000_0000_0000_0000int
}

/// Sum of a sequence of samples.
pub open spec fn sum(s: Seq<u64>) -> int
    decreases s.len(),
{
    if s.len() == 0 {
        0
    } else {
        sum(s.drop_last()) + s.last()
    }
}

/// An exact mean of integer samples, kept as a whole part and a remainder:
/// over `n` samples it stands for `whole + rem / n`.
#[derive(Clone, Copy, Debug, PartialEq, Eq, Structural)]
pub struct Mean {
    pub whole: u64,
    pub rem: u64,
}

impl Mean {
    /// The mean of no samples.
    pub open spec fn zero_spec() -> Mean {
        Mean { whole: 0, rem: 0 }
    }

    /// `self` is exactly `total / n`.
    pub open spec fn is_mean(self, n: int, total: int) -> bool {
        &&& n > 0
        &&& self.whole * n + self.rem == total
        &&& self.rem < n
    }

    /// `self` is a valid mean over `n` samples: its remainder is below `n`
    /// (and is zero when there are no samples).
    pub open spec fn valid_for(self, n: int) -> bool {
        if n <= 0 {
            self.rem == 0
        } else {
            self.rem < n
        }
    }

    pub fn zero() -> (r: Mean)
        ensures
            r == Mean::zero_spec(),
    {
        Mean { whole: 0, rem: 0 }
    }

    /// The mean rounded down to an integer.
    pub fn floor(&self) -> (r: u64)
        ensures
            r == self.whole,
    {
        self.whole
    }
}

/// `total / n` as a `Mean`, for `0 <= total < n * 2^64`.
pub open spec fn split(total: int, n: int) -> Mean {
    Mean { whole: (total / n) as u64, rem: (total % n) as u64 }
}

proof fn lemma_split(total: int, n: int)
    requires
        0 < n < two64(),
        0 <= total < n * two64(),
    ensures
        split(total, n).is_mean(n, total),
        0 <= total / n < two64(),
        0 <= total % n < n,
{
    lemma_fundamental_div_mod(total, n);
    lemma_mod_bound(total, n);
    let q = total / n;
    let r = total % n;
    assert(0 <= q < two64()) by (nonlinear_arith)
        requires
            total == n * q + r,
            0 <= r < n,
            0 <= total < n * two64(),
            n > 0,
    ;
    assert(q * n == n * q) by (nonlinear_arith);
}

/// The running mean after one more sample: `((count - 1) * old + current) / count`,
/// where `old` is the mean of the `count - 1` earlier samples; zero for a count of zero.
pub open spec fn average_spec(count: int, current: int, old: Mean) -> Mean {
    if count <= 0 {
        Mean::zero_spec()
    } else {
        split((count - 1) * old.whole + old.rem + current, count)
    }
}

/// Folds `Perf::update_average` over a sequence of samples, from the first to the last.
pub open spec fn average_fold(s: Seq<u64>) -> Mean
    decreases s.len(),
{
    if s.len() == 0 {
        Mean::zero_spec()
    } else {
        average_spec(s.len() as int, s.last() as int, average_fold(s.drop_last()))
    }
}

/// The mean of a full window after one sample slides in and the oldest slides
/// out: `old_average + (new_sample - old_sample) / window_size`. Zero for a
/// window size of zero, which asks for the cumulative mean instead. A result
/// below zero is clamped to zero; one beyond the range of `Mean` to its largest
/// value.
pub open spec fn moving_spec(window_size: int, old_average: Mean, new_sample: int, old_sample: int) -> Mean {
    if window_size <= 0 {
        Mean::zero_spec()
    } else {
        let t = old_average.whole * window_size + old_average.rem + new_sample - old_sample;
        if t < 0 {
            Mean::zero_spec()
        } else if t >= window_size * two64() {
            Mean { whole: u64::MAX, rem: (window_size - 1) as u64 }
        } else {
            split(t, window_size)
        }
    }
}

impl Perf {
    /// Incorporates one new sample into a running mean. `count` counts the new
    /// sample; `old` is the mean of the `count - 1` samples before it.
    pub fn update_average(count: u64, current: u64, old: Mean) -> (r: Mean)
        requires
            count > 0 ==> old.valid_for(count - 1),
        ensures
            r == average_spec(count as int, current as int, old),
            count > 0 ==> r.is_mean(
                count as int,
                (count - 1) * old.whole + old.rem + current,
            ),
            count == 0 ==> r == Mean::zero_spec(),
    {
        if count == 0 {
            return Mean::zero();
        }
        let n: u128 = count as u128;
        let w: u128 = old.whole as u128;
        proof {
            assert((n - 1) * w <= (two64() - 2) * (two64() - 1)) by (nonlinear_arith)
                requires
                    1 <= n < two64(),
                    0 <= w < two64(),
            ;
            assert((n - 1) * w + old.rem + current < n * two64()) by (nonlinear_arith)
                requires
                    1 <= n < two64(),
                    0 <= w < two64(),
                    0 <= current < two64(),
                    n == 1 ==> old.rem == 0,
                    n > 1 ==> old.rem < n - 1,
            ;
        }
        let total: u128 = (n - 1) * w + old.rem as u128 + current as u128;
        proof {
            lemma_split(total as int, n as int);
        }
        Mean { whole: (total / n) as u64, rem: (total % n) as u64 }
    }

    /// Moves a fixed-window mean on by one sample: `new_sample` enters the window
    /// and `old_sample` leaves it.
    pub fn update_moving_average(window_size: u32, old_average: Mean, new_sample: u64, old_sample: u64) -> (r: Mean)
        requires
            window_size > 0 ==> old_average.valid_for(window_size as int),
        ensures
            r == moving_spec(window_size as int, old_average, new_sample as int, old_sample as int),
            window_size > 0 ==> r.valid_for(window_size as int),
    {
        if window_size == 0 {
            return Mean::zero();
        }
        let n: u128 = window_size as u128;
        proof {
            assert(old_average.whole * n <= (two64() - 1) * (two64() - 1)) by (nonlinear_arith)
                requires
                    1 <= n < two64(),
            ;
            assert(old_average.rem < n);
        }
        let total: u128 = old_average.whole as u128 * n + old_average.rem as u128 + new_sample as u128;
        if total < old_sample as u128 {
            return Mean::zero();
        }
        let t: u128 = total - old_sample as u128;
        if t / n >= 0x1_0000_0000_0000_0000u128 {
            proof {
                assert(t >= n * two64()) by (nonlinear_arith)
                    requires
                        t / n >= two64(),
                        n > 0,
                        t >= 0,
                ;
            }
            return Mean { whole: u64::MAX, rem: (window_size - 1) as u64 };
        }
        proof {
            assert(t < n * two64()) by (nonlinear_arith)
                requires
                    t / n < two64(),
                    n > 0,
                    t >= 0,
            ;
            lemma_split(t as int, n as int);
        }
        Mean { whole: (t / n) as u64, rem: (t % n) as u64 }
    }
}

/// Folds the windowed mean over a sequence of samples: while at most
/// `window_size` samples have been seen (or for a window size of zero) each
/// sample goes through `Perf::update_average`; after that, through
/// `Perf::update_moving_average`, with the sample `window_size` places back leaving.
pub open spec fn window_fold(window_size: int, s: Seq<u64>) -> Mean
    decreases s.len(),
{
    if s.len() == 0 {
        Mean::zero_spec()
    } else {
        let prev = window_fold(window_size, s.drop_last());
        if window_size <= 0 || s.len() <= window_size {
            average_spec(s.len() as int, s.last() as int, prev)
        } else {
            moving_spec(window_size, prev, s.last() as int, s[s.len() - 1 - window_size] as int)
        }
    }
}

/// How many of the last samples the windowed mean covers after `n` samples.
pub open spec fn window_len(window_size: int, n: int) -> int {
    if window_size <= 0 || n <= window_size {
        n
    } else {
        window_size
    }
}

/// The last `k` samples of `s`.
pub open spec fn last_samples(s: Seq<u64>, k: int) -> Seq<u64> {
    s.subrange(s.len() - k, s.len() as int)
}

proof fn lemma_sum_bound(s: Seq<u64>)
    ensures
        0 <= sum(s) <= s.len() * (two64() - 1),
    decreases s.len(),
{
    if s.len() > 0 {
        lemma_sum_bound(s.drop_last());
        assert(s.len() * (two64() - 1) == (s.len() - 1) * (two64() - 1) + (two64() - 1)) by (nonlinear_arith);
    }
}

proof fn lemma_sum_drop_first(s: Seq<u64>)
    requires
        s.len() > 0,
    ensures
        sum(s) == s[0] + sum(s.drop_first()),
    decreases s.len(),
{
    if s.len() > 1 {
        lemma_sum_drop_first(s.drop_last());
        assert(s.drop_last().drop_first() =~= s.drop_first().drop_last());
        assert(sum(s.drop_first()) == sum(s.drop_first().drop_last()) + s.drop_first().last());
        assert(s.drop_last()[0] == s[0]);
    } else {
        assert(s.drop_first().len() == 0);
        assert(sum(s.drop_last()) == 0);
    }
}

/// Feeding samples one by one to `Perf::update_average`, each with the number of
/// samples seen so far, gives exactly the arithmetic mean of all of them.
pub proof fn lemma_average_fold_is_mean(s: Seq<u64>)
    requires
        0 < s.len() < two64(),
    ensures
        average_fold(s).is_mean(s.len() as int, sum(s)),
    decreases s.len(),
{
    let n = s.len() as int;
    let old = average_fold(s.drop_last());
    if n > 1 {
        lemma_average_fold_is_mean(s.drop_last());
        assert((n - 1) * old.whole == old.whole * (n - 1)) by (nonlinear_arith);
    } else {
        assert(sum(s.drop_last()) == 0);
    }
    assert(sum(s) == sum(s.drop_last()) + s.last());
    assert((n - 1) * old.whole + old.rem + s.last() == sum(s));
    lemma_sum_bound(s);
    assert(n * (two64() - 1) < n * two64()) by (nonlinear_arith)
        requires
            n > 0,
    ;
    lemma_split(sum(s), n);
}

/// With a window of `window_size` samples, the mean kept by the window fold
/// is at every step exactly the mean of the last `window_size` samples (of all
/// of them while fewer have been seen, or for a window size of zero).
pub proof fn lemma_window_fold_is_mean(window_size: int, s: Seq<u64>)
    requires
        0 < s.len() < two64(),
        0 <= window_size < two64(),
    ensures
        window_fold(window_size, s).is_mean(
            window_len(window_size, s.len() as int),
            sum(last_samples(s, window_len(window_size, s.len() as int))),
        ),
    decreases s.len(),
{
    let n = s.len() as int;
    let w = window_size;
    let prev = window_fold(w, s.drop_last());
    if w <= 0 || n <= w {
        if n > 1 {
            lemma_window_fold_is_mean(w, s.drop_last());
            assert(last_samples(s.drop_last(), n - 1) =~= s.drop_last());
            assert((n - 1) * prev.whole == prev.whole * (n - 1)) by (nonlinear_arith);
        } else {
            assert(sum(s.drop_last()) == 0);
        }
        assert(last_samples(s, n) =~= s);
        assert(sum(s) == sum(s.drop_last()) + s.last());
        assert((n - 1) * prev.whole + prev.rem + s.last() == sum(s));
        lemma_sum_bound(s);
        assert(n * (two64() - 1) < n * two64()) by (nonlinear_arith)
            requires
                n > 0,
        ;
        lemma_split(sum(s), n);
    } else {
        lemma_window_fold_is_mean(w, s.drop_last());
        let a = last_samples(s.drop_last(), w);
        let b = last_samples(s, w);
        assert(a.len() == w);
        assert(a[0] == s[n - 1 - w]);
        lemma_sum_drop_first(a);
        assert(b.drop_last() =~= a.drop_first());
        assert(sum(b) == sum(a) - a[0] + s.last());
        assert(prev.whole * w + prev.rem + s.last() - s[n - 1 - w] == sum(b));
        lemma_sum_bound(b);
        assert(w * (two64() - 1) < w * two64()) by (nonlinear_arith)
            requires
                w > 0,
        ;
        lemma_split(sum(b), w);
    }
}

} // verus!

//! Lifetime statistics: a running summary of every finished attempt.

use vstd::prelude::*;
use crate::metrics::FULL_ACCURACY;

verus! {

/// What one finished attempt contributes to the statistics.
#[derive(Clone, Copy, Debug, PartialEq, Eq, Structural)]
pub struct SessionResult {
    /// Whitespace-delimited words in the typed input.
    pub words_completed: usize,
    /// Whole seconds between the start and the end of the attempt.
    pub duration_seconds: u64,
    /// Words per minute, in thousandths.
    pub wpm: u64,
    /// Accuracy, in thousandths of a percent.
    pub accuracy: u64,
}

/// Running totals and means over all finished attempts. No attempt is kept:
/// each one is folded in once and cannot be revised.
#[derive(Clone, Copy, Debug, PartialEq, Eq, Structural)]
pub struct UserStats {
    pub total_tests: usize,
    /// Mean words per minute, in thousandths.
    pub average_wpm: u64,
    /// Highest words per minute of any attempt, in thousandths.
    pub best_wpm: u64,
    /// Mean accuracy, in thousandths of a percent.
    pub average_accuracy: u64,
    pub total_words_typed: usize,
    pub total_time_seconds: u64,
}

/// `a + b`, or `limit` where the sum would pass it.
pub open spec fn capped_sum(a: int, b: int, limit: int) -> int {
    if a + b > limit {
        limit
    } else {
        a + b
    }
}

/// The mean of `count` samples, given the mean of the first `count - 1` of
/// them and the last one, rounded down.
pub open spec fn running_mean(mean: int, count: int, sample: int) -> int {
    if count <= 0 {
        0
    } else {
        (mean * (count - 1) + sample) / count
    }
}

/// The updated mean lies between the previous mean and the new sample.
pub proof fn lemma_running_mean_between(mean: int, count: int, sample: int)
    requires
        0 <= mean,
        0 <= sample,
        1 <= count,
    ensures
        mean <= sample ==> mean <= running_mean(mean, count, sample) <= sample,
        sample <= mean ==> sample <= running_mean(mean, count, sample) <= mean,
{
    let total = mean * (count - 1) + sample;
    if mean <= sample {
        assert(mean * count <= total <= sample * count) by (nonlinear_arith)
            requires
                total == mean * (count - 1) + sample,
                0 <= mean <= sample,
                1 <= count,
        ;
        assert(mean <= total / count <= sample) by (nonlinear_arith)
            requires
                mean * count <= total <= sample * count,
                1 <= count,
        ;
    } else {
        assert(sample * count <= total <= mean * count) by (nonlinear_arith)
            requires
                total == mean * (count - 1) + sample,
                0 <= sample <= mean,
                1 <= count,
        ;
        assert(sample <= total / count <= mean) by (nonlinear_arith)
            requires
                sample * count <= total <= mean * count,
                1 <= count,
        ;
    }
}

/// The mean of one sample is that sample.
pub proof fn lemma_running_mean_first(mean: int, sample: int)
    ensures
        running_mean(mean, 1, sample) == sample,
{
}

/// Folds `sample` into `mean` as the `count`-th sample.
fn fold_mean(mean: u64, count: usize, sample: u64) -> (updated: u64)
    requires
        count >= 1,
    ensures
        updated == running_mean(mean as int, count as int, sample as int),
{
    proof {
        lemma_running_mean_between(mean as int, count as int, sample as int);
    }
    let earlier: u128 = (count - 1) as u128;
    assert(mean * earlier + sample <= u128::MAX) by (nonlinear_arith)
        requires
            mean <= u64::MAX,
            earlier < u64::MAX,
            sample <= u64::MAX,
    ;
    let total: u128 = (mean as u128) * earlier + (sample as u128);
    (total / (count as u128)) as u64
}

impl UserStats {
    /// Statistics before any attempt: every field is zero.
    pub open spec fn empty() -> UserStats {
        UserStats {
            total_tests: 0,
            average_wpm: 0,
            best_wpm: 0,
            average_accuracy: 0,
            total_words_typed: 0,
            total_time_seconds: 0,
        }
    }

    /// What holds of statistics that grew from [`UserStats::empty`] by
    /// recording attempts: no mean is above the maximum it is a mean of.
    pub open spec fn valid(self) -> bool {
        &&& self.average_wpm <= self.best_wpm
        &&& self.average_accuracy <= FULL_ACCURACY
        &&& self.total_tests == 0 ==> self == UserStats::empty()
    }

    /// The statistics after `result` is folded in. The three counters stop
    /// at the top of their integer type.
    pub open spec fn recorded(self, result: SessionResult) -> UserStats {
        let tests = capped_sum(self.total_tests as int, 1, usize::MAX as int);
        UserStats {
            total_tests: tests as usize,
            average_wpm: running_mean(self.average_wpm as int, tests, result.wpm as int) as u64,
            best_wpm: if result.wpm > self.best_wpm {
                result.wpm
            } else {
                self.best_wpm
            },
            average_accuracy: running_mean(
                self.average_accuracy as int,
                tests,
                result.accuracy as int,
            ) as u64,
            total_words_typed: capped_sum(
                self.total_words_typed as int,
                result.words_completed as int,
                usize::MAX as int,
            ) as usize,
            total_time_seconds: capped_sum(
                self.total_time_seconds as int,
                result.duration_seconds as int,
                u64::MAX as int,
            ) as u64,
        }
    }

    /// Folds one finished attempt into the statistics.
    pub fn record(&mut self, result: &SessionResult)
        ensures
            *final(self) == old(self).recorded(*result),
            old(self).valid() && result.accuracy <= FULL_ACCURACY ==> final(self).valid(),
    {
        proof {
            if self.valid() && result.accuracy <= FULL_ACCURACY {
                lemma_record_keeps_valid(*self, *result);
            }
        }
        let tests: usize = if self.total_tests < usize::MAX {
            self.total_tests + 1
        } else {
            usize::MAX
        };
        self.total_tests = tests;
        self.total_words_typed = self.total_words_typed.saturating_add(result.words_completed);
        self.total_time_seconds = self.total_time_seconds.saturating_add(result.duration_seconds);
        if result.wpm > self.best_wpm {
            self.best_wpm = result.wpm;
        }
        self.average_wpm = fold_mean(self.average_wpm, tests, result.wpm);
        self.average_accuracy = fold_mean(self.average_accuracy, tests, result.accuracy);
    }

    /// Whole hours and the remaining whole minutes of the total time.
    pub fn hours_minutes(&self) -> (hm: (u64, u64))
        ensures
            hm.0 == self.total_time_seconds / 3600,
            hm.1 == (self.total_time_seconds % 3600) / 60,
            hm.1 < 60,
    {
        (self.total_time_seconds / 3600, (self.total_time_seconds % 3600) / 60)
    }
}

impl Default for UserStats {
    fn default() -> (stats: UserStats)
        ensures
            stats == UserStats::empty(),
            stats.valid(),
    {
        UserStats {
            total_tests: 0,
            average_wpm: 0,
            best_wpm: 0,
            average_accuracy: 0,
            total_words_typed: 0,
            total_time_seconds: 0,
        }
    }
}

/// Recording keeps the means within their bounds: the mean speed stays at
/// or below the best speed, and the mean accuracy at or below 100 percent.
pub proof fn lemma_record_keeps_valid(stats: UserStats, result: SessionResult)
    requires
        stats.valid(),
        result.accuracy <= FULL_ACCURACY,
    ensures
        stats.recorded(result).valid(),
{
    let tests = capped_sum(stats.total_tests as int, 1, usize::MAX as int);
    lemma_running_mean_between(stats.average_wpm as int, tests, result.wpm as int);
    lemma_running_mean_between(stats.average_accuracy as int, tests, result.accuracy as int);
}

/// Counters never shrink, the best speed never drops, and each recording
/// counts as one attempt until the counter is full.
pub proof fn lemma_record_monotone(stats: UserStats, result: SessionResult)
    ensures
        stats.recorded(result).total_tests >= stats.total_tests,
        stats.total_tests < usize::MAX ==> stats.recorded(result).total_tests
            == stats.total_tests + 1,
        stats.recorded(result).total_words_typed >= stats.total_words_typed,
        stats.recorded(result).total_time_seconds >= stats.total_time_seconds,
        stats.recorded(result).best_wpm >= stats.best_wpm,
        stats.recorded(result).best_wpm >= result.wpm,
{
}

/// The first recorded attempt sets both means to its own values.
pub proof fn lemma_record_first(result: SessionResult)
    ensures
        UserStats::empty().recorded(result).average_wpm == result.wpm,
        UserStats::empty().recorded(result).average_accuracy == result.accuracy,
        UserStats::empty().recorded(result).best_wpm == result.wpm,
{
    lemma_running_mean_first(0, result.wpm as int);
    lemma_running_mean_first(0, result.accuracy as int);
}

/// After two attempts the mean speed is the mean of their two speeds,
/// rounded down, and the best speed is the higher of the two; likewise for
/// the mean accuracy.
pub proof fn lemma_record_two(first: SessionResult, second: SessionResult)
    ensures
        ({
            let stats = UserStats::empty().recorded(first).recorded(second);
            &&& stats.total_tests == 2
            &&& stats.average_wpm == (first.wpm + second.wpm) / 2
            &&& stats.average_accuracy == (first.accuracy + second.accuracy) / 2
            &&& stats.best_wpm == if first.wpm >= second.wpm {
                first.wpm
            } else {
                second.wpm
            }
        }),
{
    lemma_record_first(first);
    let one = UserStats::empty().recorded(first);
    assert(one.average_wpm * (2 - 1) + second.wpm == first.wpm + second.wpm) by (nonlinear_arith)
        requires
            one.average_wpm == first.wpm,
    ;
    assert(one.average_accuracy * (2 - 1) + second.accuracy == first.accuracy + second.accuracy)
        by (nonlinear_arith)
        requires
            one.average_accuracy == first.accuracy,
    ;
}

} // verus!

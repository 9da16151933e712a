//! Speed and accuracy of one attempt, as fixed-point numbers.
//!
//! Both metrics are held in thousandths: `40_000` is 40.0 words per minute,
//! `66_666` is 66.666 percent. Quotients are rounded down.

use vstd::prelude::*;

verus! {

/// Fixed-point units per whole word-per-minute or per percent.
pub const SCALE: u64 = 1000;

/// Nanoseconds in a second.
pub const NANOS_PER_SECOND: u64 = 1_000_000_000;

/// Nanoseconds in a minute.
pub const NANOS_PER_MINUTE: u64 = 60_000_000_000;

/// The accuracy of an attempt without a single error, in thousandths of a
/// percent.
pub const FULL_ACCURACY: u64 = 100_000;

/// Words per minute in thousandths: `words` divided by the minutes that
/// `nanos` nanoseconds make, rounded down. An attempt of no duration has
/// speed 0, and a speed beyond `u64::MAX` is reported as `u64::MAX`.
pub open spec fn wpm_thousandths(words: nat, nanos: nat) -> nat {
    if nanos == 0 {
        0
    } else {
        let exact = (words * NANOS_PER_MINUTE * SCALE) / (nanos as int);
        if exact > u64::MAX {
            u64::MAX as nat
        } else {
            exact as nat
        }
    }
}

/// Accuracy in thousandths of a percent: the share of the `typed`
/// characters left after taking off one per counted error, rounded down.
/// Errors survive a backspace, so they may outnumber the characters; the
/// share is then 0. With nothing typed the accuracy is 0.
pub open spec fn accuracy_thousandths(typed: nat, errors: nat) -> nat {
    if typed == 0 {
        0
    } else if errors >= typed {
        0
    } else {
        (((typed - errors) * FULL_ACCURACY) / (typed as int)) as nat
    }
}

/// Whole seconds in `nanos` nanoseconds.
pub open spec fn whole_seconds(nanos: nat) -> nat {
    nanos / (NANOS_PER_SECOND as nat)
}

/// Accuracy never exceeds 100 percent.
pub proof fn lemma_accuracy_bounded(typed: nat, errors: nat)
    ensures
        accuracy_thousandths(typed, errors) <= FULL_ACCURACY,
{
    if typed > 0 && errors < typed {
        let correct = typed - errors;
        assert((correct * 100_000) / (typed as int) <= 100_000) by (nonlinear_arith)
            requires
                0 < typed,
                0 <= correct <= typed,
        ;
    }
}

/// Speed of an attempt of `words` words that took `nanos` nanoseconds.
pub fn words_per_minute(words: usize, nanos: u64) -> (wpm: u64)
    ensures
        wpm == wpm_thousandths(words as nat, nanos as nat),
{
    if nanos == 0 {
        return 0;
    }
    let scaled: u128 = (words as u128) * 60_000_000_000_000u128;
    assert(scaled == words * NANOS_PER_MINUTE * SCALE) by (nonlinear_arith)
        requires
            scaled == words * 60_000_000_000_000,
            NANOS_PER_MINUTE == 60_000_000_000,
            SCALE == 1000,
    ;
    let exact: u128 = scaled / (nanos as u128);
    if exact > u64::MAX as u128 {
        u64::MAX
    } else {
        exact as u64
    }
}

/// Accuracy of an attempt with `typed` characters in the input and `errors`
/// counted errors.
pub fn accuracy_percent(typed: usize, errors: usize) -> (accuracy: u64)
    ensures
        accuracy == accuracy_thousandths(typed as nat, errors as nat),
        accuracy <= FULL_ACCURACY,
{
    proof {
        lemma_accuracy_bounded(typed as nat, errors as nat);
    }
    if typed == 0 || errors >= typed {
        return 0;
    }
    let correct: u128 = (typed - errors) as u128;
    let share: u128 = (correct * 100_000u128) / (typed as u128);
    share as u64
}

/// Whole seconds in a duration of `nanos` nanoseconds.
pub fn seconds_of(nanos: u64) -> (seconds: u64)
    ensures
        seconds == whole_seconds(nanos as nat),
{
    nanos / NANOS_PER_SECOND
}

} // verus!

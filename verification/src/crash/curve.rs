//! How the multiplier of a crash round grows, as far as whole numbers say it.
//!
//! The curve of a round is 1.00 + (seconds since the start * growth factor)
//! to the power 1.9, rounded to hundredths. The power is computed where the
//! engine is run; the engine is handed the curve's value. What it keeps is
//! the growth factor that belongs to each multiplier, which steps up when the
//! multiplier passes 2.00, 5.00, 10.00 and 20.00, and the rule for what is
//! shown: never less than before, never more than the crash point.

use vstd::prelude::*;

verus! {

/// The multiplier at the start of a round, 1.00, in hundredths.
pub const START_MULTIPLIER: u64 = 100;

/// Multipliers, in hundredths, at which the growth factor steps up.
pub const SECOND_STAGE_AT: u64 = 200;

pub const THIRD_STAGE_AT: u64 = 500;

pub const FOURTH_STAGE_AT: u64 = 1_000;

pub const FIFTH_STAGE_AT: u64 = 2_000;

/// The growth factor of each stage, in hundredths per second.
pub const FIRST_FACTOR: u64 = 6;

pub const SECOND_FACTOR: u64 = 12;

pub const THIRD_FACTOR: u64 = 20;

pub const FOURTH_FACTOR: u64 = 26;

pub const FIFTH_FACTOR: u64 = 30;

/// The growth factor, in hundredths per second, while the multiplier
/// `multiplier`, in hundredths, is shown.
pub open spec fn factor_at(multiplier: nat) -> nat {
    if multiplier >= 2_000 {
        30
    } else if multiplier >= 1_000 {
        26
    } else if multiplier >= 500 {
        20
    } else if multiplier >= 200 {
        12
    } else {
        6
    }
}

/// What is shown when the curve stands at `live`, the last value shown was
/// `shown` and the round crashes at `crash_point`: the curve's value, never
/// less than what was shown before and never more than the crash point.
pub open spec fn displayed(crash_point: nat, shown: nat, live: nat) -> nat {
    let risen = if live > shown {
        live
    } else {
        shown
    };
    if risen >= crash_point {
        crash_point
    } else {
        risen
    }
}

/// The growth factor, in hundredths per second, while `multiplier` is shown.
pub fn growth_factor(multiplier: u64) -> (factor: u64)
    ensures
        factor == factor_at(multiplier as nat),
{
    if multiplier >= FIFTH_STAGE_AT {
        FIFTH_FACTOR
    } else if multiplier >= FOURTH_STAGE_AT {
        FOURTH_FACTOR
    } else if multiplier >= THIRD_STAGE_AT {
        THIRD_FACTOR
    } else if multiplier >= SECOND_STAGE_AT {
        SECOND_FACTOR
    } else {
        FIRST_FACTOR
    }
}

/// What to show when the curve stands at `live`: see `displayed`.
pub fn display(crash_point: u64, shown: u64, live: u64) -> (value: u64)
    ensures
        value == displayed(crash_point as nat, shown as nat, live as nat),
{
    let risen = if live > shown {
        live
    } else {
        shown
    };
    if risen >= crash_point {
        crash_point
    } else {
        risen
    }
}

/// The growth factor steps up with the multiplier and never down, and each
/// of its five values belongs to some multiplier: the factor changes exactly
/// at 2.00, 5.00, 10.00 and 20.00.
pub proof fn lemma_factor_steps_up(lower: nat, higher: nat)
    requires
        lower <= higher,
    ensures
        6 <= factor_at(lower) <= factor_at(higher) <= 30,
        factor_at(100) == 6 && factor_at(199) == 6,
        factor_at(200) == 12 && factor_at(499) == 12,
        factor_at(500) == 20 && factor_at(999) == 20,
        factor_at(1_000) == 26 && factor_at(1_999) == 26,
        factor_at(2_000) == 30,
{
}

/// What is shown never falls and never passes the crash point, whatever the
/// curve's value; and where the curve has not fallen below what was shown,
/// it is the curve itself, cut off at the crash point.
pub proof fn lemma_displayed_bounds(crash_point: nat, shown: nat, live: nat)
    requires
        shown <= crash_point,
    ensures
        shown <= displayed(crash_point, shown, live) <= crash_point,
        live >= shown ==> displayed(crash_point, shown, live) == if live >= crash_point {
            crash_point
        } else {
            live
        },
{
}

} // verus!

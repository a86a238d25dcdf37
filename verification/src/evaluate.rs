//! From a clock reading to a day section and a redshift intensity.

use vstd::prelude::*;
use crate::section::{classify, section_of, DaySection};
use crate::waketime::Waketime;

verus! {

/// How many stored units make one: quantities are whole millionths.
pub const MICRO: i64 = 1_000_000;

/// The strongest redshift, twenty, in millionths.
pub const MAX_REDSHIFT: i64 = 20_000_000;

/// Minutes after waking at which evening gives way to night; the ramp ends here.
pub const RAMP_END: i32 = 960;

/// Minutes after waking up to which redshift is held at zero: the first
/// ninety minutes of the evening.
pub const HOLD_END: i32 = 720;

/// What one clock reading comes to.
#[derive(Debug, Clone, Copy, PartialEq, Eq, Structural)]
pub struct TimeEvaluation {
    /// Minutes since waking, in `0..1440`.
    pub now_shifted: i32,
    pub day_section: DaySection,
    /// Redshift intensity in millionths.
    pub redshift: i64,
}

/// Minutes from waking to the clock reading, wrapped into one day.
pub open spec fn minutes_since_wake(hour: int, minute: int, waketime: Waketime) -> int {
    (hour * 60 + minute - waketime.minute_of_day()) % 1440
}

/// The rising line of the evening, in millionths, rounded down: its hour
/// count after `16 - transition` hours past waking, times `20 / transition`.
/// `transition` is in millionths of an hour.
pub open spec fn ramp(shifted: int, transition: int) -> int {
    ((shifted - RAMP_END) * MICRO + 60 * transition) * MICRO / (3 * transition)
}

/// Redshift, in millionths, at `shifted` minutes after waking.
pub open spec fn redshift_at(shifted: int, transition: int) -> int {
    match section_of(shifted) {
        DaySection::Morning | DaySection::Day => 0,
        DaySection::Night => MAX_REDSHIFT as int,
        DaySection::Evening => if shifted <= HOLD_END {
            0
        } else if ramp(shifted, transition) <= MAX_REDSHIFT {
            ramp(shifted, transition)
        } else {
            MAX_REDSHIFT as int
        },
    }
}

/// The evaluation of a clock reading against a wake time.
pub open spec fn evaluation_of(
    hour: int,
    minute: int,
    waketime: Waketime,
    transition: int,
) -> TimeEvaluation {
    let shifted = minutes_since_wake(hour, minute, waketime);
    TimeEvaluation {
        now_shifted: shifted as i32,
        day_section: section_of(shifted),
        redshift: redshift_at(shifted, transition) as i64,
    }
}

/// The ramp never exceeds twenty and never falls below minus eighty million
/// (both in whole units), so it fits the width of a redshift.
pub proof fn lemma_ramp_bounds(shifted: int, transition: int)
    requires
        HOLD_END < shifted <= RAMP_END,
        transition > 0,
    ensures
        -80_000_000_000_000 <= ramp(shifted, transition) <= MAX_REDSHIFT,
{
    let num = ((shifted - 960) * 1_000_000 + 60 * transition) * 1_000_000;
    let den = 3 * transition;
    assert(num <= 20_000_000 * den);
    assert(num >= -80_000_000_000_000 * den);
    assert(num / den <= 20_000_000) by (nonlinear_arith)
        requires
            den > 0,
            num <= 20_000_000 * den,
    ;
    assert(num / den >= -80_000_000_000_000) by (nonlinear_arith)
        requires
            den > 0,
            num >= -80_000_000_000_000 * den,
    ;
}

/// Evaluates the clock reading `current_hour:current_minute` for someone who
/// wakes at `waketime` and wants the evening ramp to last `transition`
/// millionths of an hour.
pub fn evaluate_time(
    current_hour: u32,
    current_minute: u32,
    waketime: &Waketime,
    transition: u64,
) -> (evaluation: TimeEvaluation)
    requires
        current_hour <= 23,
        current_minute <= 59,
        waketime.wf(),
        transition > 0,
    ensures
        evaluation == evaluation_of(
            current_hour as int,
            current_minute as int,
            *waketime,
            transition as int,
        ),
        0 <= evaluation.now_shifted < 1440,
        evaluation.redshift <= MAX_REDSHIFT,
        evaluation.redshift < 0 <==> before_ramp(
            evaluation.now_shifted as int,
            transition as int,
        ),
{
    proof {
        let (hour, minute) = (current_hour as int, current_minute as int);
        if before_ramp(minutes_since_wake(hour, minute, *waketime), transition as int) {
            lemma_redshift_negative_before_ramp(hour, minute, *waketime, transition as int);
        } else {
            lemma_redshift_in_range(hour, minute, *waketime, transition as int);
        }
    }
    let nm: i32 = (current_hour * 60 + current_minute) as i32;
    let wt: i32 = (waketime.hours * 60 + waketime.minutes) as i32;
    let mut now_shifted: i32 = nm - wt;
    if now_shifted < 0 {
        now_shifted += 24 * 60;
    }
    let day_section = classify(now_shifted);
    let redshift: i64 = match day_section {
        DaySection::Morning => 0,
        DaySection::Day => 0,
        DaySection::Evening => {
            if now_shifted > HOLD_END {
                proof {
                    lemma_ramp_bounds(now_shifted as int, transition as int);
                }
                let offset: i128 = (now_shifted as i128 - RAMP_END as i128) * (MICRO as i128) + 60
                    * (transition as i128);
                let scaled: i128 = offset * (MICRO as i128);
                let r: i128 = scaled.checked_div_euclid(3 * (transition as i128)).unwrap();
                if r <= MAX_REDSHIFT as i128 {
                    r as i64
                } else {
                    MAX_REDSHIFT
                }
            } else {
                0
            }
        },
        DaySection::Night => MAX_REDSHIFT,
    };
    TimeEvaluation { now_shifted, day_section, redshift }
}

/// A clock reading and a wake time that `evaluate_time` accepts.
pub open spec fn valid_reading(hour: int, minute: int, waketime: Waketime) -> bool {
    0 <= hour <= 23 && 0 <= minute <= 59 && waketime.wf()
}

/// The stretch of the evening after the hold in which the ramp has not yet
/// begun: more than `transition` still lies ahead of the night. This can
/// only happen with a transition shorter than 239 minutes.
pub open spec fn before_ramp(shifted: int, transition: int) -> bool {
    HOLD_END < shifted <= RAMP_END && (RAMP_END - shifted) * MICRO > 60 * transition
}

/// The minutes since waking always lie within one day.
pub proof fn lemma_minutes_since_wake_range(hour: int, minute: int, waketime: Waketime)
    requires
        valid_reading(hour, minute, waketime),
    ensures
        0 <= minutes_since_wake(hour, minute, waketime) < 1440,
        hour * 60 + minute >= waketime.minute_of_day() ==> minutes_since_wake(
            hour,
            minute,
            waketime,
        ) == hour * 60 + minute - waketime.minute_of_day(),
        hour * 60 + minute < waketime.minute_of_day() ==> minutes_since_wake(
            hour,
            minute,
            waketime,
        ) == hour * 60 + minute - waketime.minute_of_day() + 1440,
{
}

/// Redshift lies between zero and twenty, unless the reading falls in the
/// evening before the ramp begins.
pub proof fn lemma_redshift_in_range(
    hour: int,
    minute: int,
    waketime: Waketime,
    transition: int,
)
    requires
        valid_reading(hour, minute, waketime),
        transition > 0,
        !before_ramp(minutes_since_wake(hour, minute, waketime), transition),
    ensures
        0 <= evaluation_of(hour, minute, waketime, transition).redshift <= MAX_REDSHIFT,
{
    let shifted = minutes_since_wake(hour, minute, waketime);
    if HOLD_END < shifted <= RAMP_END {
        lemma_ramp_bounds(shifted, transition);
        let num = ((shifted - 960) * 1_000_000 + 60 * transition) * 1_000_000;
        let den = 3 * transition;
        assert(num >= 0);
        assert(num / den >= 0) by (nonlinear_arith)
            requires
                den > 0,
                num >= 0,
        ;
    }
}

/// Before the ramp begins, redshift is negative: the range law has no
/// further exceptions.
pub proof fn lemma_redshift_negative_before_ramp(
    hour: int,
    minute: int,
    waketime: Waketime,
    transition: int,
)
    requires
        valid_reading(hour, minute, waketime),
        transition > 0,
        before_ramp(minutes_since_wake(hour, minute, waketime), transition),
    ensures
        evaluation_of(hour, minute, waketime, transition).redshift < 0,
{
    let shifted = minutes_since_wake(hour, minute, waketime);
    lemma_ramp_bounds(shifted, transition);
    let num = ((shifted - 960) * 1_000_000 + 60 * transition) * 1_000_000;
    let den = 3 * transition;
    assert(num < 0);
    assert(num / den < 0) by (nonlinear_arith)
        requires
            den > 0,
            num < 0,
    ;
}

/// With a transition of at least 239 minutes no reading falls before the
/// ramp, so redshift is within zero and twenty at every time of day.
pub proof fn lemma_long_transition_in_range(
    hour: int,
    minute: int,
    waketime: Waketime,
    transition: int,
)
    requires
        valid_reading(hour, minute, waketime),
        60 * transition >= 239 * MICRO,
    ensures
        0 <= evaluation_of(hour, minute, waketime, transition).redshift <= MAX_REDSHIFT,
{
    lemma_redshift_in_range(hour, minute, waketime, transition);
}

/// Throughout morning and day there is no redshift, whatever the wake time
/// and the transition.
pub proof fn lemma_morning_and_day_clear(
    hour: int,
    minute: int,
    waketime: Waketime,
    transition: int,
)
    requires
        valid_reading(hour, minute, waketime),
    ensures
        ({
            let e = evaluation_of(hour, minute, waketime, transition);
            e.day_section == DaySection::Morning || e.day_section == DaySection::Day
                ==> e.redshift == 0
        }),
{
}

/// Throughout the night redshift is exactly twenty.
pub proof fn lemma_night_is_full(hour: int, minute: int, waketime: Waketime, transition: int)
    requires
        valid_reading(hour, minute, waketime),
    ensures
        ({
            let e = evaluation_of(hour, minute, waketime, transition);
            e.day_section == DaySection::Night ==> e.redshift == MAX_REDSHIFT
        }),
{
}

/// Within the evening redshift never falls as time passes, unless the later
/// reading lies before the ramp and the earlier one within the hold.
pub proof fn lemma_evening_monotonic(earlier: int, later: int, transition: int)
    requires
        section_of(earlier) == DaySection::Evening,
        section_of(later) == DaySection::Evening,
        earlier <= later,
        transition > 0,
        earlier <= HOLD_END ==> !before_ramp(later, transition),
    ensures
        redshift_at(earlier, transition) <= redshift_at(later, transition),
{
    if later > HOLD_END {
        let den = 3 * transition;
        let num_later = ((later - 960) * 1_000_000 + 60 * transition) * 1_000_000;
        if earlier > HOLD_END {
            let num_earlier = ((earlier - 960) * 1_000_000 + 60 * transition) * 1_000_000;
            assert(num_earlier / den <= num_later / den) by (nonlinear_arith)
                requires
                    den > 0,
                    num_earlier <= num_later,
            ;
        } else {
            assert(num_later >= 0);
            assert(num_later / den >= 0) by (nonlinear_arith)
                requires
                    den > 0,
                    num_later >= 0,
            ;
        }
    }
}

/// At the last minute of the evening the ramp reaches exactly twenty, the
/// value of the night that follows.
pub proof fn lemma_ramp_meets_night(transition: int)
    requires
        transition > 0,
    ensures
        section_of(RAMP_END as int) == DaySection::Evening,
        redshift_at(RAMP_END as int, transition) == MAX_REDSHIFT,
        redshift_at(RAMP_END + 1, transition) == MAX_REDSHIFT,
{
    let den = 3 * transition;
    let num = (60 * transition) * 1_000_000;
    assert(num == 20_000_000 * den);
    assert(num / den == 20_000_000) by (nonlinear_arith)
        requires
            den > 0,
            num == 20_000_000 * den,
    ;
}

/// An evaluation is a function of its inputs: two results for the same
/// reading, wake time and transition are the same value.
pub proof fn lemma_evaluation_deterministic(
    hour: int,
    minute: int,
    waketime: Waketime,
    transition: int,
    first: TimeEvaluation,
    second: TimeEvaluation,
)
    requires
        first == evaluation_of(hour, minute, waketime, transition),
        second == evaluation_of(hour, minute, waketime, transition),
    ensures
        first == second,
{
}

} // verus!

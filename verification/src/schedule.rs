//! What to do at each tick of the half-hourly cycle, and when the cycle starts.

use vstd::prelude::*;
use chrono::{Timelike, Utc};
use crate::config::AppConfig;
use crate::display::{calculate_display_settings, settings_for, DisplaySettings};
use crate::evaluate::{evaluate_time, evaluation_of, TimeEvaluation};
use crate::waketime::Waketime;

verus! {

/// Minutes between two ticks.
pub const TICK_MINUTES: u32 = 30;

/// The minute of each half hour on which ticks fall: one past the wake
/// time's minute, so that no tick sits on a boundary between day sections.
pub open spec fn tick_minute(waketime: Waketime) -> int {
    (waketime.minutes + 1) % 30
}

/// Minutes to wait at clock minute `now_minute` before the first tick of the
/// cycle.
pub open spec fn sync_wait(waketime: Waketime, now_minute: int) -> int {
    let first = tick_minute(waketime);
    let second = first + 30;
    if now_minute <= first && first != 0 {
        first - now_minute
    } else if now_minute <= second {
        second - now_minute
    } else {
        first + 60 - now_minute
    }
}

/// Minutes to wait before the first tick, so that ticks fall on
/// `tick_minute` of each half hour. The wait is the shortest that gets
/// there, but for a full half hour at minute zero when ticks fall on zero.
pub fn minutes_to_sync(waketime: &Waketime, now_minute: u32) -> (wait: u32)
    requires
        waketime.wf(),
        now_minute <= 59,
    ensures
        wait == sync_wait(*waketime, now_minute as int),
        wait <= TICK_MINUTES,
        (now_minute + wait) % 30 == tick_minute(*waketime),
        wait == if tick_minute(*waketime) == 0 && now_minute == 0 {
            30
        } else {
            (tick_minute(*waketime) - now_minute) % 30
        },
{
    let good_minutes_small: u32 = (waketime.minutes + 1) % 30;
    let good_minutes_big: u32 = good_minutes_small + 30;
    if now_minute <= good_minutes_small && good_minutes_small != 0 {
        good_minutes_small - now_minute
    } else if now_minute <= good_minutes_big {
        good_minutes_big - now_minute
    } else {
        good_minutes_small + 60 - now_minute
    }
}

/// What one tick has to bring about.
#[derive(Debug, Clone, PartialEq, Eq)]
pub struct TickPlan {
    pub evaluation: TimeEvaluation,
    /// The settings to aim for; none while there is no redshift.
    pub target: Option<DisplaySettings>,
    /// The wallpaper file to show; none when wallpapers are not cycled.
    pub wallpaper: Option<String>,
}

/// The plan for the clock reading `hour:minute`.
pub open spec fn plan_of(
    config: AppConfig,
    waketime: Waketime,
    wallpapers: bool,
    transition: int,
    hour: int,
    minute: int,
) -> TickPlan {
    let evaluation = evaluation_of(hour, minute, waketime, transition);
    TickPlan {
        evaluation,
        target: if evaluation.redshift != 0 {
            Some(
                settings_for(
                    evaluation.redshift as int,
                    config.brightness_range,
                    config.temperature_range,
                ),
            )
        } else {
            None
        },
        wallpaper: if wallpapers {
            Some(config.wallpapers.file_for(evaluation.day_section))
        } else {
            None
        },
    }
}

/// Plans the tick at the clock reading `hour:minute`.
pub fn plan_tick_at(
    config: &AppConfig,
    waketime: &Waketime,
    wallpapers: bool,
    transition: u64,
    hour: u32,
    minute: u32,
) -> (plan: TickPlan)
    requires
        hour <= 23,
        minute <= 59,
        waketime.wf(),
        transition > 0,
    ensures
        plan == plan_of(
            *config,
            *waketime,
            wallpapers,
            transition as int,
            hour as int,
            minute as int,
        ),
{
    let evaluation = evaluate_time(hour, minute, waketime, transition);
    let target = if evaluation.redshift != 0 {
        Some(
            calculate_display_settings(
                evaluation.redshift,
                config.brightness_range,
                config.temperature_range,
            ),
        )
    } else {
        None
    };
    let wallpaper = if wallpapers {
        Some(config.wallpapers.wallpaper(evaluation.day_section).clone())
    } else {
        None
    };
    TickPlan { evaluation, target, wallpaper }
}

/// Whether to hand `target` to the display: only when it is both cooler and
/// dimmer than what the display shows now, or when that is not known.
pub open spec fn passes_ratchet(target: DisplaySettings, current: Option<DisplaySettings>) -> bool {
    match current {
        Some(shown) => target.temperature < shown.temperature && target.brightness
            < shown.brightness,
        None => true,
    }
}

/// Decides whether `target` is to be applied over `current`, the settings
/// read back from the display, if they could be read.
pub fn should_apply(target: &DisplaySettings, current: Option<DisplaySettings>) -> (apply: bool)
    ensures
        apply == passes_ratchet(*target, current),
{
    match current {
        Some(shown) => target.temperature < shown.temperature && target.brightness
            < shown.brightness,
        None => true,
    }
}

/// chrono's `Utc::now`, read through `Timelike::hour` and `Timelike::minute`:
/// the hour and the minute of the current time of day in UTC. The hour is at
/// most 23 and the minute at most 59; nothing else is known of them.
#[verifier::external_body]
fn utc_hour_minute() -> (now: (u32, u32))
    ensures
        now.0 <= 23,
        now.1 <= 59,
{
    let now = Utc::now();
    (now.hour(), now.minute())
}

/// Minutes to wait from now, by the UTC clock, before the first tick.
pub fn minutes_to_sync_now(waketime: &Waketime) -> (wait: u32)
    requires
        waketime.wf(),
    ensures
        exists|minute: int| 0 <= minute <= 59 && wait == #[trigger] sync_wait(*waketime, minute),
        wait <= TICK_MINUTES,
{
    let now = utc_hour_minute();
    minutes_to_sync(waketime, now.1)
}

/// Plans the tick for the current time of day in UTC.
pub fn plan_tick(config: &AppConfig, waketime: &Waketime, wallpapers: bool, transition: u64) -> (plan:
    TickPlan)
    requires
        waketime.wf(),
        transition > 0,
    ensures
        exists|hour: int, minute: int|
            0 <= hour <= 23 && 0 <= minute <= 59 && plan == #[trigger] plan_of(
                *config,
                *waketime,
                wallpapers,
                transition as int,
                hour,
                minute,
            ),
{
    let now = utc_hour_minute();
    plan_tick_at(config, waketime, wallpapers, transition, now.0, now.1)
}

} // verus!

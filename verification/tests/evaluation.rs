use auto_redshift::display::{calculate_display_settings, DisplaySettings};
use auto_redshift::evaluate::{evaluate_time, TimeEvaluation, MAX_REDSHIFT, MICRO};
use auto_redshift::section::{classify, DaySection};
use auto_redshift::waketime::Waketime;

const FOUR_HOURS: u64 = 4_000_000;
const BRIGHTNESS: (i64, i64) = (500_000, 1_000_000);
const TEMPERATURE: (usize, usize) = (2500, 6500);

/// Every clock reading of the day, for one wake time.
fn readings() -> Vec<(u32, u32)> {
    let mut all = Vec::new();
    for hour in 0..24 {
        for minute in 0..60 {
            all.push((hour, minute));
        }
    }
    all
}

fn row(hour: u32, minute: u32) -> (DaySection, i64, i128, i128) {
    let waketime = Waketime::new(6, 0);
    let eval = evaluate_time(hour, minute, &waketime, FOUR_HOURS);
    let display = calculate_display_settings(eval.redshift, BRIGHTNESS, TEMPERATURE);
    (eval.day_section, eval.redshift, display.temperature, display.brightness)
}

#[test]
fn boundary_scenario_noon() {
    assert_eq!(row(12, 0), (DaySection::Day, 0, 6_500_000_000, 1_000_000));
}

#[test]
fn boundary_scenario_half_past_six() {
    assert_eq!(row(18, 30), (DaySection::Evening, 2_500_000, 6_000_000_000, 937_500));
}

#[test]
fn boundary_scenario_eight() {
    assert_eq!(row(20, 0), (DaySection::Evening, 10_000_000, 4_500_000_000, 750_000));
}

#[test]
fn boundary_scenario_ten() {
    assert_eq!(row(22, 0), (DaySection::Evening, 20_000_000, 2_500_000_000, 500_000));
}

#[test]
fn boundary_scenario_half_past_ten() {
    assert_eq!(row(22, 30), (DaySection::Night, 20_000_000, 2_500_000_000, 500_000));
}

#[test]
fn boundary_scenario_midnight() {
    assert_eq!(row(0, 0), (DaySection::Night, 20_000_000, 2_500_000_000, 500_000));
}

#[test]
fn evaluation_holds_shifted_minutes_section_and_redshift() {
    let waketime = Waketime::new(6, 0);
    assert_eq!(
        evaluate_time(18, 30, &waketime, FOUR_HOURS),
        TimeEvaluation {
            now_shifted: 750,
            day_section: DaySection::Evening,
            redshift: 2_500_000
        }
    );
}

#[test]
fn minutes_since_wake_wrap_past_midnight() {
    let waketime = Waketime::new(7, 45);
    assert_eq!(evaluate_time(7, 45, &waketime, FOUR_HOURS).now_shifted, 0);
    assert_eq!(evaluate_time(7, 44, &waketime, FOUR_HOURS).now_shifted, 1439);
    assert_eq!(evaluate_time(0, 0, &waketime, FOUR_HOURS).now_shifted, 975);
    assert_eq!(evaluate_time(23, 59, &waketime, FOUR_HOURS).now_shifted, 974);
    let late = Waketime::new(23, 59);
    assert_eq!(evaluate_time(0, 0, &late, FOUR_HOURS).now_shifted, 1);
    let early = Waketime::new(0, 0);
    assert_eq!(evaluate_time(23, 59, &early, FOUR_HOURS).now_shifted, 1439);
}

#[test]
fn section_boundaries_are_fixed() {
    assert_eq!(classify(0), DaySection::Morning);
    assert_eq!(classify(150), DaySection::Morning);
    assert_eq!(classify(151), DaySection::Day);
    assert_eq!(classify(630), DaySection::Day);
    assert_eq!(classify(631), DaySection::Evening);
    assert_eq!(classify(960), DaySection::Evening);
    assert_eq!(classify(961), DaySection::Night);
    assert_eq!(classify(1200), DaySection::Night);
    assert_eq!(classify(1201), DaySection::Morning);
    assert_eq!(classify(1439), DaySection::Morning);
}

#[test]
fn sections_follow_the_wake_time() {
    let waketime = Waketime::new(9, 15);
    // 150 minutes after waking is the last minute of the morning.
    assert_eq!(evaluate_time(11, 45, &waketime, FOUR_HOURS).day_section, DaySection::Morning);
    assert_eq!(evaluate_time(11, 46, &waketime, FOUR_HOURS).day_section, DaySection::Day);
    assert_eq!(evaluate_time(19, 45, &waketime, FOUR_HOURS).day_section, DaySection::Day);
    assert_eq!(evaluate_time(19, 46, &waketime, FOUR_HOURS).day_section, DaySection::Evening);
    assert_eq!(evaluate_time(1, 15, &waketime, FOUR_HOURS).day_section, DaySection::Evening);
    assert_eq!(evaluate_time(1, 16, &waketime, FOUR_HOURS).day_section, DaySection::Night);
    assert_eq!(evaluate_time(5, 15, &waketime, FOUR_HOURS).day_section, DaySection::Night);
    assert_eq!(evaluate_time(5, 16, &waketime, FOUR_HOURS).day_section, DaySection::Morning);
}

#[test]
fn section_names() {
    assert_eq!(DaySection::Morning.to_string(), "morning");
    assert_eq!(DaySection::Day.to_string(), "day");
    assert_eq!(DaySection::Evening.to_string(), "evening");
    assert_eq!(DaySection::Night.to_string(), "night");
}

#[test]
fn redshift_stays_within_zero_and_twenty_for_long_transitions() {
    for waketime in [Waketime::new(6, 0), Waketime::new(0, 0), Waketime::new(23, 59)] {
        for transition in [3_983_334_u64, FOUR_HOURS, 6_500_000, 16_000_000, u64::MAX] {
            for (hour, minute) in readings() {
                let eval = evaluate_time(hour, minute, &waketime, transition);
                assert!(0 <= eval.redshift && eval.redshift <= MAX_REDSHIFT);
            }
        }
    }
}

#[test]
fn redshift_is_negative_only_before_a_short_ramp_begins() {
    let waketime = Waketime::new(6, 0);
    // A ramp of two hours begins 840 minutes after waking.
    let transition = 2_000_000;
    for (hour, minute) in readings() {
        let eval = evaluate_time(hour, minute, &waketime, transition);
        let before_ramp = 720 < eval.now_shifted && eval.now_shifted < 840;
        assert_eq!(eval.redshift < 0, before_ramp);
        assert!(eval.redshift <= MAX_REDSHIFT);
    }
    // 18:01 is 721 minutes after waking: (721/60 - 14) * 10, rounded down.
    assert_eq!(evaluate_time(18, 1, &waketime, transition).redshift, -19_833_334);
    assert_eq!(evaluate_time(20, 0, &waketime, transition).redshift, 0);
    assert_eq!(evaluate_time(21, 0, &waketime, transition).redshift, 10_000_000);
}

#[test]
fn shortest_transition_gives_the_lowest_redshift() {
    let waketime = Waketime::new(6, 0);
    assert_eq!(evaluate_time(18, 1, &waketime, 1).redshift, -79_666_646_666_667);
    assert_eq!(evaluate_time(22, 0, &waketime, 1).redshift, MAX_REDSHIFT);
}

#[test]
fn morning_and_day_have_no_redshift() {
    for waketime in [Waketime::new(6, 0), Waketime::new(13, 37)] {
        for transition in [1_u64, 500_000, FOUR_HOURS, 12_000_000] {
            for (hour, minute) in readings() {
                let eval = evaluate_time(hour, minute, &waketime, transition);
                if eval.day_section == DaySection::Morning || eval.day_section == DaySection::Day {
                    assert_eq!(eval.redshift, 0);
                }
            }
        }
    }
}

#[test]
fn night_has_full_redshift() {
    for waketime in [Waketime::new(6, 0), Waketime::new(13, 37)] {
        for transition in [1_u64, 500_000, FOUR_HOURS, 12_000_000] {
            for (hour, minute) in readings() {
                let eval = evaluate_time(hour, minute, &waketime, transition);
                if eval.day_section == DaySection::Night {
                    assert_eq!(eval.redshift, 20 * MICRO);
                }
            }
        }
    }
}

#[test]
fn evening_redshift_never_falls() {
    let waketime = Waketime::new(0, 0);
    for transition in [FOUR_HOURS, 4_500_000, 7_000_000, 3_983_334] {
        let mut last = 0;
        for shifted in 631..=960_u32 {
            let eval = evaluate_time(shifted / 60, shifted % 60, &waketime, transition);
            assert_eq!(eval.day_section, DaySection::Evening);
            assert!(last <= eval.redshift);
            last = eval.redshift;
        }
        assert_eq!(last, MAX_REDSHIFT);
    }
}

#[test]
fn ramp_reaches_twenty_at_the_end_of_the_evening() {
    let waketime = Waketime::new(0, 0);
    for transition in [1_u64, 7, 333_333, 2_000_000, FOUR_HOURS, 5_000_001, u64::MAX] {
        let last = evaluate_time(16, 0, &waketime, transition);
        assert_eq!(last.day_section, DaySection::Evening);
        assert_eq!(last.redshift, MAX_REDSHIFT);
        let next = evaluate_time(16, 1, &waketime, transition);
        assert_eq!(next.day_section, DaySection::Night);
        assert_eq!(next.redshift, MAX_REDSHIFT);
    }
}

#[test]
fn ramp_is_rounded_down_to_a_millionth() {
    let waketime = Waketime::new(0, 0);
    // 13:00 with a ramp of seven hours: (13 - 9) * 20 / 7 = 11.428571...
    assert_eq!(evaluate_time(13, 0, &waketime, 7_000_000).redshift, 11_428_571);
    // 12:01 with a ramp of four hours: (721/60 - 12) * 5 = 0.08333...
    assert_eq!(evaluate_time(12, 1, &waketime, FOUR_HOURS).redshift, 83_333);
    // Twelve hours after waking redshift is still held at zero.
    assert_eq!(evaluate_time(12, 0, &waketime, 7_000_000).redshift, 0);
}

#[test]
fn evaluating_twice_gives_the_same() {
    let waketime = Waketime::new(6, 30);
    for (hour, minute) in readings() {
        let first = evaluate_time(hour, minute, &waketime, 3_000_000);
        let second = evaluate_time(hour, minute, &waketime, 3_000_000);
        assert_eq!(first, second);
    }
}

#[test]
fn settings_sit_at_the_ends_of_the_ranges() {
    for brightness in [BRIGHTNESS, (0, 0), (-5, 7), (i64::MIN, i64::MAX), (900_000, 100_000)] {
        for temperature in [TEMPERATURE, (0, 0), (1000, 25000), (0, usize::MAX), (6500, 2500)] {
            assert_eq!(
                calculate_display_settings(0, brightness, temperature),
                DisplaySettings {
                    temperature: temperature.1 as i128 * 1_000_000,
                    brightness: brightness.1 as i128
                }
            );
            assert_eq!(
                calculate_display_settings(MAX_REDSHIFT, brightness, temperature),
                DisplaySettings {
                    temperature: temperature.0 as i128 * 1_000_000,
                    brightness: brightness.0 as i128
                }
            );
        }
    }
}

#[test]
fn settings_follow_a_straight_line() {
    // 6500 - 7.5 * 200 and 1.0 - 7.5 * 0.025
    assert_eq!(
        calculate_display_settings(7_500_000, BRIGHTNESS, TEMPERATURE),
        DisplaySettings { temperature: 5_000_000_000, brightness: 812_500 }
    );
    // A third of the way: the part taken off is rounded down.
    assert_eq!(
        calculate_display_settings(6_666_667, (0, 1_000_000), (0, 3)),
        DisplaySettings { temperature: 2_000_000, brightness: 666_667 }
    );
    assert_eq!(
        calculate_display_settings(1, (0, 1_000_000), (0, 1)),
        DisplaySettings { temperature: 1_000_000, brightness: 1_000_000 }
    );
}

#[test]
fn settings_are_not_clamped() {
    // Beyond twenty the line goes on below the lower end, and above the
    // upper end for a negative redshift.
    assert_eq!(
        calculate_display_settings(40_000_000, BRIGHTNESS, TEMPERATURE),
        DisplaySettings { temperature: -1_500_000_000, brightness: 0 }
    );
    assert_eq!(
        calculate_display_settings(-20_000_000, BRIGHTNESS, TEMPERATURE),
        DisplaySettings { temperature: 10_500_000_000, brightness: 1_500_000 }
    );
    assert_eq!(
        calculate_display_settings(-1, BRIGHTNESS, TEMPERATURE),
        DisplaySettings { temperature: 6_500_000_200, brightness: 1_000_001 }
    );
}

#[test]
fn settings_cope_with_the_widest_inputs() {
    let settings = calculate_display_settings(i64::MIN, (i64::MIN, i64::MAX), (0, usize::MAX));
    let steps = i64::MIN as i128;
    let span = u64::MAX as i128;
    assert_eq!(
        settings.brightness,
        i64::MAX as i128 - (steps * span).div_euclid(20_000_000)
    );
    assert_eq!(
        settings.temperature,
        usize::MAX as i128 * 1_000_000 - (steps * (usize::MAX as i128)).div_euclid(20)
    );
}

#[test]
fn settings_stay_within_ascending_ranges() {
    let mut redshift = 0;
    let mut last = calculate_display_settings(0, BRIGHTNESS, TEMPERATURE);
    while redshift <= MAX_REDSHIFT {
        let settings = calculate_display_settings(redshift, BRIGHTNESS, TEMPERATURE);
        assert!(500_000 <= settings.brightness && settings.brightness <= 1_000_000);
        assert!(2_500_000_000 <= settings.temperature && settings.temperature <= 6_500_000_000);
        assert!(settings.brightness <= last.brightness);
        assert!(settings.temperature <= last.temperature);
        last = settings;
        redshift += 12_345;
    }
}

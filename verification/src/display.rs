//! From a redshift intensity to the brightness and colour temperature to set.

use vstd::prelude::*;
use crate::evaluate::{MAX_REDSHIFT, MICRO};

verus! {

/// The values to hand to the display, both in millionths: `temperature` of a
/// kelvin, `brightness` of full brightness.
#[derive(Debug, Clone, Copy, PartialEq, Eq, Structural)]
pub struct DisplaySettings {
    pub temperature: i128,
    pub brightness: i128,
}

/// The point on the straight line from `hi`, at no redshift, to `lo`, at
/// twenty. The part taken off `hi` is rounded down to a whole millionth.
pub open spec fn interpolate(lo: int, hi: int, redshift: int) -> int {
    hi - (redshift * (hi - lo)) / (MAX_REDSHIFT as int)
}

/// The settings that belong to a redshift: brightness between the two ends
/// of `brightness_range` (millionths), temperature between the two ends of
/// `temperature_range` (whole kelvin).
pub open spec fn settings_for(
    redshift: int,
    brightness_range: (i64, i64),
    temperature_range: (usize, usize),
) -> DisplaySettings {
    DisplaySettings {
        temperature: interpolate(
            temperature_range.0 * MICRO,
            temperature_range.1 * MICRO,
            redshift,
        ) as i128,
        brightness: interpolate(
            brightness_range.0 as int,
            brightness_range.1 as int,
            redshift,
        ) as i128,
    }
}

/// Scaling both ends by a million scales the part taken off likewise, so
/// the division can be done on the unscaled span.
proof fn lemma_scaled_cut(product: int)
    ensures
        (product * MICRO) / (MAX_REDSHIFT as int) == product / 20,
{
}

/// A product of a redshift and the span of a range fits in 128 bits.
proof fn lemma_product_fits(redshift: int, span: int)
    requires
        -0x8000_0000_0000_0000 <= redshift <= 0x7fff_ffff_ffff_ffff,
        -0xffff_ffff_ffff_ffff <= span <= 0xffff_ffff_ffff_ffff,
    ensures
        -0x7fff_ffff_ffff_ffff_8000_0000_0000_0000 <= redshift * span
            <= 0x7fff_ffff_ffff_ffff_8000_0000_0000_0000,
{
    assert(-0x7fff_ffff_ffff_ffff_8000_0000_0000_0000 <= redshift * span
        <= 0x7fff_ffff_ffff_ffff_8000_0000_0000_0000) by (nonlinear_arith)
        requires
            -0x8000_0000_0000_0000 <= redshift <= 0x7fff_ffff_ffff_ffff,
            -0xffff_ffff_ffff_ffff <= span <= 0xffff_ffff_ffff_ffff,
    ;
}

/// Interpolates brightness and temperature for `redshift` (millionths).
/// Nothing is clamped: a redshift outside zero to twenty gives a point on
/// the same line outside the range.
pub fn calculate_display_settings(
    redshift: i64,
    brightness_range: (i64, i64),
    temperature_range: (usize, usize),
) -> (settings: DisplaySettings)
    ensures
        settings == settings_for(redshift as int, brightness_range, temperature_range),
        settings.brightness == interpolate(
            brightness_range.0 as int,
            brightness_range.1 as int,
            redshift as int,
        ),
        settings.temperature == interpolate(
            temperature_range.0 * MICRO,
            temperature_range.1 * MICRO,
            redshift as int,
        ),
{
    let brightness_span: i128 = brightness_range.1 as i128 - brightness_range.0 as i128;
    let temperature_span: i128 = temperature_range.1 as i128 - temperature_range.0 as i128;
    proof {
        lemma_product_fits(redshift as int, brightness_span as int);
        lemma_product_fits(redshift as int, temperature_span as int);
        lemma_scaled_cut(redshift * temperature_span);
        assert(redshift * (temperature_range.1 * MICRO - temperature_range.0 * MICRO) == (redshift
            * temperature_span) * MICRO) by (nonlinear_arith)
            requires
                temperature_span == temperature_range.1 - temperature_range.0,
        ;
    }
    let brightness_cut: i128 = ((redshift as i128) * brightness_span).checked_div_euclid(
        MAX_REDSHIFT as i128,
    ).unwrap();
    let temperature_cut: i128 = ((redshift as i128) * temperature_span).checked_div_euclid(
        20,
    ).unwrap();
    DisplaySettings {
        temperature: (temperature_range.1 as i128) * (MICRO as i128) - temperature_cut,
        brightness: brightness_range.1 as i128 - brightness_cut,
    }
}

/// With no redshift both settings sit at the upper end of their range, and
/// with a redshift of twenty at the lower end.
pub proof fn lemma_settings_at_the_ends(
    brightness_range: (i64, i64),
    temperature_range: (usize, usize),
)
    ensures
        settings_for(0, brightness_range, temperature_range) == (DisplaySettings {
            temperature: (temperature_range.1 * MICRO) as i128,
            brightness: brightness_range.1 as i128,
        }),
        settings_for(MAX_REDSHIFT as int, brightness_range, temperature_range) == (
        DisplaySettings {
            temperature: (temperature_range.0 * MICRO) as i128,
            brightness: brightness_range.0 as i128,
        }),
{
    assert(interpolate(brightness_range.0 as int, brightness_range.1 as int, 0)
        == brightness_range.1);
    assert(interpolate(temperature_range.0 * MICRO, temperature_range.1 * MICRO, 0)
        == temperature_range.1 * MICRO);
    assert(interpolate(
        brightness_range.0 as int,
        brightness_range.1 as int,
        MAX_REDSHIFT as int,
    ) == brightness_range.0);
    assert(interpolate(
        temperature_range.0 * MICRO,
        temperature_range.1 * MICRO,
        MAX_REDSHIFT as int,
    ) == temperature_range.0 * MICRO);
}

/// For a redshift from zero to twenty and a range in ascending order, the
/// interpolated value stays within the range.
pub proof fn lemma_interpolate_within(lo: int, hi: int, redshift: int)
    requires
        lo <= hi,
        0 <= redshift <= MAX_REDSHIFT,
    ensures
        lo <= interpolate(lo, hi, redshift) <= hi,
{
    let span = hi - lo;
    let product = redshift * span;
    assert(0 <= product <= 20_000_000 * span) by (nonlinear_arith)
        requires
            0 <= redshift <= 20_000_000,
            0 <= span,
            product == redshift * span,
    ;
}

/// More redshift never gives a higher value, for a range in ascending order.
pub proof fn lemma_interpolate_monotonic(lo: int, hi: int, weaker: int, stronger: int)
    requires
        lo <= hi,
        weaker <= stronger,
    ensures
        interpolate(lo, hi, stronger) <= interpolate(lo, hi, weaker),
{
    let span = hi - lo;
    assert(weaker * span <= stronger * span) by (nonlinear_arith)
        requires
            weaker <= stronger,
            0 <= span,
    ;
}

} // verus!

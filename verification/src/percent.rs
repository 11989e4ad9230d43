//! Millivolt-to-percent conversions for the soil probe and the AA cell.
use vstd::prelude::*;
use vstd::arithmetic::div_mod::{lemma_div_is_ordered, lemma_div_multiples_vanish};

verus! {

/// `100 * num / span` rounded toward zero, as the firmware's signed integer
/// division rounds.
pub open spec fn scaled_ratio(num: int, span: int) -> int {
    if num >= 0 {
        (100 * num) / span
    } else {
        -((100 * -num) / span)
    }
}

/// Clamps an integer percentage into `0..=100`.
pub open spec fn clamp_percent(x: int) -> u8 {
    if x < 0 {
        0
    } else if x > 100 {
        100
    } else {
        x as u8
    }
}

/// The share `num` makes of `span`, in percent, rounded toward zero and
/// clamped to `0..=100`; 0 when `span` is not positive.
pub open spec fn interpolate_percent(num: int, span: int) -> u8 {
    if span <= 0 {
        0
    } else {
        clamp_percent(scaled_ratio(num, span))
    }
}

/// Soil moisture: 0% at the dry reference, 100% at the wet reference.
pub open spec fn spec_soil_moisture_percent(mv: int, dry_mv: int, wet_mv: int) -> u8 {
    interpolate_percent(dry_mv - mv, dry_mv - wet_mv)
}

/// State of charge: 0% at `empty_mv`, 100% at `full_mv`.
pub open spec fn spec_battery_percent(mv: int, empty_mv: int, full_mv: int) -> u8 {
    interpolate_percent(mv - empty_mv, full_mv - empty_mv)
}

/// The inputs on which the 32-bit signed arithmetic of the conversion stays
/// in range: the span fits, and, where the span is positive, so does the
/// scaled numerator.
pub open spec fn percent_in_range(num: int, span: int) -> bool {
    &&& i32::MIN <= span <= i32::MAX
    &&& span > 0 ==> i32::MIN <= 100 * num <= i32::MAX
}

/// Linear interpolation between the wet (low mV) and dry (high mV)
/// soil-probe calibration references, clamped to 0-100%.
pub fn soil_moisture_percent(mv: i32, dry_mv: i32, wet_mv: i32) -> (pct: u8)
    requires
        percent_in_range(dry_mv - mv, dry_mv - wet_mv),
    ensures
        pct == spec_soil_moisture_percent(mv as int, dry_mv as int, wet_mv as int),
        pct <= 100,
{
    let span = dry_mv - wet_mv;
    if span <= 0 {
        return 0;
    }
    let pct = 100 * (dry_mv - mv) / span;
    if pct < 0 {
        0
    } else if pct > 100 {
        100
    } else {
        pct as u8
    }
}

/// Linear state-of-charge estimate between `empty_mv` and `full_mv`, clamped
/// to 0-100%.
pub fn battery_percent(mv: i32, empty_mv: i32, full_mv: i32) -> (pct: u8)
    requires
        percent_in_range(mv - empty_mv, full_mv - empty_mv),
    ensures
        pct == spec_battery_percent(mv as int, empty_mv as int, full_mv as int),
        pct <= 100,
{
    let span = full_mv - empty_mv;
    if span <= 0 {
        return 0;
    }
    let pct = 100 * (mv - empty_mv) / span;
    if pct < 0 {
        0
    } else if pct > 100 {
        100
    } else {
        pct as u8
    }
}

proof fn lemma_scaled_ratio_nonneg(num: int, span: int)
    requires
        num >= 0,
        span > 0,
    ensures
        scaled_ratio(num, span) >= 0,
{
    lemma_div_is_ordered(0, 100 * num, span);
}

proof fn lemma_scaled_ratio_full(num: int, span: int)
    requires
        num >= span,
        span > 0,
    ensures
        scaled_ratio(num, span) >= 100,
{
    lemma_div_is_ordered(100 * span, 100 * num, span);
    lemma_div_multiples_vanish(100, span);
}

proof fn lemma_scaled_ratio_monotonic(a: int, b: int, span: int)
    requires
        a <= b,
        span > 0,
    ensures
        scaled_ratio(a, span) <= scaled_ratio(b, span),
{
    if a >= 0 {
        lemma_div_is_ordered(100 * a, 100 * b, span);
    } else if b >= 0 {
        lemma_scaled_ratio_nonneg(-a, span);
        lemma_scaled_ratio_nonneg(b, span);
    } else {
        lemma_div_is_ordered(100 * -b, 100 * -a, span);
    }
}

proof fn lemma_interpolate_reference_points(span: int)
    requires
        span > 0,
    ensures
        interpolate_percent(0, span) == 0,
        interpolate_percent(span, span) == 100,
{
    lemma_div_multiples_vanish(0, span);
    lemma_div_multiples_vanish(100, span);
}

proof fn lemma_interpolate_clamps(num: int, span: int)
    requires
        span > 0,
    ensures
        num <= 0 ==> interpolate_percent(num, span) == 0,
        num >= span ==> interpolate_percent(num, span) == 100,
{
    if num < 0 {
        lemma_scaled_ratio_nonneg(-num, span);
    } else if num == 0 {
        lemma_div_multiples_vanish(0, span);
    }
    if num >= span {
        lemma_scaled_ratio_full(num, span);
    }
}

proof fn lemma_interpolate_monotonic(a: int, b: int, span: int)
    requires
        a <= b,
    ensures
        interpolate_percent(a, span) <= interpolate_percent(b, span),
{
    if span > 0 {
        lemma_scaled_ratio_monotonic(a, b, span);
    }
}

/// The soil reading is 0% at the dry reference and 100% at the wet one.
pub proof fn law_soil_percent_reference_points(dry_mv: int, wet_mv: int)
    requires
        dry_mv > wet_mv,
    ensures
        spec_soil_moisture_percent(dry_mv, dry_mv, wet_mv) == 0,
        spec_soil_moisture_percent(wet_mv, dry_mv, wet_mv) == 100,
{
    lemma_interpolate_reference_points(dry_mv - wet_mv);
}

/// Drier than the dry reference reads 0%, wetter than the wet reference
/// reads 100%, and references that are not a positive span always read 0%.
pub proof fn law_soil_percent_clamps(mv: int, dry_mv: int, wet_mv: int)
    ensures
        dry_mv <= wet_mv ==> spec_soil_moisture_percent(mv, dry_mv, wet_mv) == 0,
        dry_mv > wet_mv && mv >= dry_mv ==> spec_soil_moisture_percent(mv, dry_mv, wet_mv) == 0,
        dry_mv > wet_mv && mv <= wet_mv ==> spec_soil_moisture_percent(mv, dry_mv, wet_mv) == 100,
{
    if dry_mv > wet_mv {
        lemma_interpolate_clamps(dry_mv - mv, dry_mv - wet_mv);
    }
}

/// A lower probe voltage (wetter soil) never reads a lower moisture.
pub proof fn law_soil_percent_monotonic(mv1: int, mv2: int, dry_mv: int, wet_mv: int)
    requires
        mv1 <= mv2,
    ensures
        spec_soil_moisture_percent(mv2, dry_mv, wet_mv) <= spec_soil_moisture_percent(
            mv1,
            dry_mv,
            wet_mv,
        ),
{
    lemma_interpolate_monotonic(dry_mv - mv2, dry_mv - mv1, dry_mv - wet_mv);
}

/// The battery reads 0% at the empty reference and 100% at the full one.
pub proof fn law_battery_percent_reference_points(empty_mv: int, full_mv: int)
    requires
        full_mv > empty_mv,
    ensures
        spec_battery_percent(empty_mv, empty_mv, full_mv) == 0,
        spec_battery_percent(full_mv, empty_mv, full_mv) == 100,
{
    lemma_interpolate_reference_points(full_mv - empty_mv);
}

/// Below empty reads 0%, above full reads 100%, and references that are not
/// a positive span always read 0%.
pub proof fn law_battery_percent_clamps(mv: int, empty_mv: int, full_mv: int)
    ensures
        full_mv <= empty_mv ==> spec_battery_percent(mv, empty_mv, full_mv) == 0,
        full_mv > empty_mv && mv <= empty_mv ==> spec_battery_percent(mv, empty_mv, full_mv)
            == 0,
        full_mv > empty_mv && mv >= full_mv ==> spec_battery_percent(mv, empty_mv, full_mv)
            == 100,
{
    if full_mv > empty_mv {
        lemma_interpolate_clamps(mv - empty_mv, full_mv - empty_mv);
    }
}

/// A higher cell voltage never reads a lower state of charge.
pub proof fn law_battery_percent_monotonic(mv1: int, mv2: int, empty_mv: int, full_mv: int)
    requires
        mv1 <= mv2,
    ensures
        spec_battery_percent(mv1, empty_mv, full_mv) <= spec_battery_percent(
            mv2,
            empty_mv,
            full_mv,
        ),
{
    lemma_interpolate_monotonic(mv1 - empty_mv, mv2 - empty_mv, full_mv - empty_mv);
}

} // verus!

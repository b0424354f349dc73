//! The circadian curve: from solar altitude and clock hour to a target
//! brightness fraction and colour temperature.
//!
//! The logistic function itself is evaluated by the caller: these functions
//! compute the point at which it is taken, and scale its value (a fraction of
//! `FRACTION_ONE`) into the configured range.
use vstd::prelude::*;
use vstd::arithmetic::div_mod::{lemma_fundamental_div_mod, lemma_fundamental_div_mod_converse};
use vstd::arithmetic::mul::lemma_mul_inequality;
use vstd::arithmetic::div_mod::lemma_div_is_ordered;
use crate::config::Transitions;

verus! {

/// The fixed-point unit of fractions: a logistic value or a brightness of 1.0.
pub const FRACTION_ONE: u32 = 10_000;

/// The fixed-point unit of a logistic curve's argument: 1000 stands for 1.0.
pub const POINT_ONE: i64 = 1000;

/// Floor division by a positive divisor.
pub fn floor_div(a: i64, b: i64) -> (r: i64)
    requires
        b > 0,
    ensures
        r as int == a as int / b as int,
{
    if a >= 0 {
        a / b
    } else {
        let n: i64 = -1 - a;
        let q: i64 = n / b;
        proof {
            lemma_fundamental_div_mod(n as int, b as int);
            let rem = n as int % b as int;
            assert(a as int == (-q - 1) * b + (b - 1 - rem)) by (nonlinear_arith)
                requires
                    n as int == b * q + rem,
                    n == -1 - a,
            ;
            lemma_fundamental_div_mod_converse(a as int, b as int, -q - 1, b - 1 - rem);
        }
        -q - 1
    }
}

/// The value between `from` (at logistic value 0) and `to` (at logistic value
/// `FRACTION_ONE`) that the logistic value `sigma` selects, rounded down.
pub open spec fn interpolated(from: u32, to: u32, sigma: u32) -> int {
    from + (sigma * (to - from)) / (FRACTION_ONE as int)
}

proof fn lemma_interpolated_between(from: u32, to: u32, sigma: u32)
    requires
        sigma <= FRACTION_ONE,
    ensures
        from <= to ==> from <= interpolated(from, to, sigma) <= to,
        to <= from ==> to <= interpolated(from, to, sigma) <= from,
{
    let d: int = to - from;
    let one: int = FRACTION_ONE as int;
    if d >= 0 {
        lemma_mul_inequality(sigma as int, one, d);
        lemma_mul_inequality(0, sigma as int, d);
        lemma_div_is_ordered(0, sigma * d, one);
        lemma_div_is_ordered(sigma * d, one * d, one);
        vstd::arithmetic::div_mod::lemma_div_by_multiple(d, one);
        assert(one * d == d * one) by (nonlinear_arith);
    } else {
        assert(sigma * d <= 0) by (nonlinear_arith)
            requires
                sigma >= 0,
                d < 0,
        ;
        assert(sigma * d >= one * d) by (nonlinear_arith)
            requires
                sigma <= one,
                d < 0,
        ;
        lemma_div_is_ordered(sigma * d, 0, one);
        lemma_div_is_ordered(one * d, sigma * d, one);
        assert(one * d == d * one) by (nonlinear_arith);
        lemma_fundamental_div_mod_converse(one * d, one, d, 0);
    }
}

/// Scales a logistic value into the range from `from` to `to`.
pub fn interpolate(from: u32, to: u32, sigma: u32) -> (r: u32)
    requires
        sigma <= FRACTION_ONE,
    ensures
        r as int == interpolated(from, to, sigma),
{
    proof {
        lemma_interpolated_between(from, to, sigma);
    }
    let d: i64 = to as i64 - from as i64;
    let q: i64 = floor_div(sigma as i64 * d, FRACTION_ONE as i64);
    (from as i64 + q) as u32
}

/// Whether `hour` lies in the deep-night window, which wraps past midnight:
/// from the start hour on, or before the end hour.
pub open spec fn in_deep_night(t: Transitions, hour: u8) -> bool {
    hour >= t.deep_night_start_hour || hour < t.deep_night_end_hour
}

/// The target brightness fraction at `hour`, for the logistic value `sigma`
/// of the brightness curve.
pub open spec fn brightness_at(t: Transitions, hour: u8, sigma: u32) -> int {
    if in_deep_night(t, hour) {
        t.deep_night_brightness as int
    } else {
        interpolated(t.night_brightness, t.day_brightness, sigma)
    }
}

/// The target colour temperature in kelvin for the logistic value `sigma` of
/// the temperature curve.
pub open spec fn temperature_at(t: Transitions, sigma: u32) -> int {
    interpolated(t.night_temperature, t.day_temperature, sigma)
}

/// The point (in thousandths) at which the brightness curve's logistic
/// function is taken: the altitude above the dawn point over the transition time.
pub open spec fn brightness_point(t: Transitions, altitude: i32) -> int {
    ((altitude - t.sun_altitude_dawn_point) * POINT_ONE) / (t.transition_time as int)
}

/// The point (in thousandths) at which the temperature curve's logistic
/// function is taken: a third of the altitude in degrees.
pub open spec fn temperature_point(altitude: i32) -> int {
    altitude as int / 3
}

/// Where to take the brightness curve's logistic function for a solar
/// altitude in millidegrees.
pub fn brightness_curve_point(t: &Transitions, altitude: i32) -> (r: i64)
    requires
        t.wf(),
    ensures
        r as int == brightness_point(*t, altitude),
{
    let above: i64 = altitude as i64 - t.sun_altitude_dawn_point as i64;
    floor_div(above * POINT_ONE, t.transition_time as i64)
}

/// Where to take the temperature curve's logistic function for a solar
/// altitude in millidegrees.
pub fn temperature_curve_point(altitude: i32) -> (r: i64)
    ensures
        r as int == temperature_point(altitude),
{
    floor_div(altitude as i64, 3)
}

/// The target colour temperature in kelvin: the temperature curve's logistic
/// value scaled into the range from the night to the day temperature.
pub fn target_color_temperature(t: &Transitions, sigma: u32) -> (r: u32)
    requires
        sigma <= FRACTION_ONE,
    ensures
        r as int == temperature_at(*t, sigma),
{
    interpolate(t.night_temperature, t.day_temperature, sigma)
}

/// The target brightness fraction: the deep-night brightness inside the
/// deep-night window, else the brightness curve's logistic value scaled into
/// the range from the night to the day brightness.
pub fn target_brightness(t: &Transitions, hour: u8, sigma: u32) -> (r: u32)
    requires
        sigma <= FRACTION_ONE,
    ensures
        r as int == brightness_at(*t, hour, sigma),
{
    if hour >= t.deep_night_start_hour || hour < t.deep_night_end_hour {
        t.deep_night_brightness
    } else {
        interpolate(t.night_brightness, t.day_brightness, sigma)
    }
}

/// A colour temperature in mired: a million over the kelvin, rounded down.
pub fn kelvin_to_mired(kelvin: u32) -> (r: u32)
    requires
        kelvin > 0,
    ensures
        r as int == 1_000_000int / kelvin as int,
{
    1_000_000 / kelvin
}

/// Outside the deep-night window the target brightness lies between the night
/// and the day brightness, and the target colour temperature always lies
/// between the night and the day temperature, whatever the logistic value.
pub proof fn lemma_targets_between_endpoints(t: Transitions, hour: u8, sigma_bri: u32, sigma_ct: u32)
    requires
        sigma_bri <= FRACTION_ONE,
        sigma_ct <= FRACTION_ONE,
    ensures
        !in_deep_night(t, hour) ==> {
            let b = brightness_at(t, hour, sigma_bri);
            &&& t.night_brightness <= t.day_brightness ==> t.night_brightness <= b <= t.day_brightness
            &&& t.day_brightness <= t.night_brightness ==> t.day_brightness <= b <= t.night_brightness
        },
        t.night_temperature <= t.day_temperature ==> t.night_temperature <= temperature_at(t, sigma_ct)
            <= t.day_temperature,
        t.day_temperature <= t.night_temperature ==> t.day_temperature <= temperature_at(t, sigma_ct)
            <= t.night_temperature,
{
    lemma_interpolated_between(t.night_brightness, t.day_brightness, sigma_bri);
    lemma_interpolated_between(t.night_temperature, t.day_temperature, sigma_ct);
}

/// Inside the deep-night window the target brightness is the deep-night
/// brightness, whatever the sun does.
pub proof fn lemma_deep_night_overrides(t: Transitions, hour: u8, sigma_bri: u32)
    requires
        hour >= t.deep_night_start_hour || hour < t.deep_night_end_hour,
    ensures
        brightness_at(t, hour, sigma_bri) == t.deep_night_brightness,
{
}

} // verus!

//! A light target: the circadian brightness and colour temperature of one
//! moment, with a slow oscillation on top whose phase can be rotated per light.
//!
//! Phases are angles in millidegrees, in `[0, TURN)`. A cosine is handed in by
//! the caller as a fraction of `FRACTION_ONE`, taken at the phase that the
//! target holds.
use vstd::prelude::*;
use vstd::arithmetic::div_mod::{lemma_add_mod_noop, lemma_mod_add_multiples_vanish, lemma_mod_twice};
use crate::config::Transitions;
use crate::curve::{
    FRACTION_ONE, brightness_at, temperature_at, target_brightness, target_color_temperature,
    kelvin_to_mired, lemma_targets_between_endpoints,
};

verus! {

/// A full turn of phase, in millidegrees.
pub const TURN: u32 = 360_000;

/// The largest 8-bit brightness level.
pub const MAX_BRIGHTNESS: u8 = 255;

/// The largest mired value that the bridge takes.
pub const MAX_MIRED: u16 = 65535;

#[derive(Clone, Copy, Debug, PartialEq, Eq)]
pub struct LightTarget {
    /// Base brightness, a fraction of `FRACTION_ONE`.
    pub bri: u32,
    /// Base colour temperature in mired.
    pub mired: u32,
    pub bri_phase: u32,
    pub mired_phase: u32,
    /// Brightness oscillation amplitude, in 8-bit brightness steps.
    pub bri_amplitude: u32,
    /// Colour temperature oscillation amplitude, in mired.
    pub mired_amplitude: u32,
}

/// The phase of a cycle of `length` seconds, `seconds` after midnight.
pub open spec fn cycle_phase(seconds: u32, length: u32) -> int {
    ((seconds * TURN) / (length as int)) % (TURN as int)
}

/// A phase advanced by `angle`, modulo a full turn.
pub open spec fn advance(phase: u32, angle: int) -> int {
    (phase + angle) % (TURN as int)
}

/// `v / FRACTION_ONE`, rounded down and clamped into `[0, max]`.
pub open spec fn clamped_level(v: int, max: int) -> int {
    let q = v / (FRACTION_ONE as int);
    if q < 0 {
        0
    } else if q > max {
        max
    } else {
        q
    }
}

impl LightTarget {
    /// Both phases lie within one turn.
    pub open spec fn wf(&self) -> bool {
        self.bri_phase < TURN && self.mired_phase < TURN
    }

    /// The target with both phases advanced by `angle`.
    pub open spec fn rotated(self, angle: int) -> LightTarget {
        LightTarget {
            bri_phase: advance(self.bri_phase, angle) as u32,
            mired_phase: advance(self.mired_phase, angle) as u32,
            ..self
        }
    }

    /// The brightness level, before clamping, in parts of `FRACTION_ONE`.
    pub open spec fn bri_value(self, cos_bri: i32) -> int {
        cos_bri * self.bri_amplitude + self.bri * MAX_BRIGHTNESS
    }

    /// The mired value, before clamping, in parts of `FRACTION_ONE`.
    pub open spec fn ct_value(self, cos_mired: i32) -> int {
        cos_mired * self.mired_amplitude + self.mired * FRACTION_ONE
    }

    pub open spec fn bri_level(self, cos_bri: i32) -> int {
        clamped_level(self.bri_value(cos_bri), MAX_BRIGHTNESS as int)
    }

    pub open spec fn ct_level(self, cos_mired: i32) -> int {
        clamped_level(self.ct_value(cos_mired), MAX_MIRED as int)
    }

    /// The target of the moment `seconds` after midnight at `hour`, with the
    /// logistic values of the brightness and of the temperature curve.
    pub fn new(t: &Transitions, hour: u8, seconds: u32, sigma_bri: u32, sigma_ct: u32) -> (r: LightTarget)
        requires
            t.wf(),
            sigma_bri <= FRACTION_ONE,
            sigma_ct <= FRACTION_ONE,
        ensures
            r.wf(),
            r.bri as int == brightness_at(*t, hour, sigma_bri),
            r.mired as int == 1_000_000int / temperature_at(*t, sigma_ct),
            r.bri_phase as int == cycle_phase(seconds, t.brightness_cycle_length),
            r.mired_phase as int == cycle_phase(seconds, t.temperature_cycle_length),
            r.bri_amplitude == t.brightness_cycle_amplitude,
            r.mired_amplitude == t.temperature_cycle_amplitude,
    {
        let kelvin = target_color_temperature(t, sigma_ct);
        proof {
            lemma_targets_between_endpoints(*t, hour, sigma_bri, sigma_ct);
        }
        LightTarget {
            bri: target_brightness(t, hour, sigma_bri),
            mired: kelvin_to_mired(kelvin),
            bri_phase: phase_at(seconds, t.brightness_cycle_length),
            mired_phase: phase_at(seconds, t.temperature_cycle_length),
            bri_amplitude: t.brightness_cycle_amplitude,
            mired_amplitude: t.temperature_cycle_amplitude,
        }
    }

    /// A copy with both phases advanced by `angle`.
    pub fn rotate(&self, angle: u32) -> (r: LightTarget)
        ensures
            r == self.rotated(angle as int),
            r.wf(),
    {
        let bri_phase = ((self.bri_phase as u64 + angle as u64) % TURN as u64) as u32;
        let mired_phase = ((self.mired_phase as u64 + angle as u64) % TURN as u64) as u32;
        LightTarget { bri_phase, mired_phase, ..*self }
    }

    /// The 8-bit brightness, given the cosine of the brightness phase:
    /// amplitude times cosine plus the base brightness, clamped into `[0, 255]`.
    pub fn bri(&self, cos_bri: i32) -> (r: u8)
        ensures
            r as int == self.bri_level(cos_bri),
            r <= MAX_BRIGHTNESS,
    {
        proof {
            lemma_product_bounds(cos_bri, self.bri_amplitude);
            lemma_product_bounds(MAX_BRIGHTNESS as i32, self.bri);
        }
        let v: i128 = cos_bri as i128 * self.bri_amplitude as i128 + self.bri as i128 * MAX_BRIGHTNESS as i128;
        if v < 0 {
            0
        } else {
            let q: i128 = v / FRACTION_ONE as i128;
            if q > MAX_BRIGHTNESS as i128 {
                MAX_BRIGHTNESS
            } else {
                q as u8
            }
        }
    }

    /// The mired colour temperature, given the cosine of the mired phase:
    /// amplitude times cosine plus the base mired, clamped into `[0, 65535]`.
    pub fn ct(&self, cos_mired: i32) -> (r: u16)
        ensures
            r as int == self.ct_level(cos_mired),
            r <= MAX_MIRED,
    {
        proof {
            lemma_product_bounds(cos_mired, self.mired_amplitude);
            lemma_product_bounds(FRACTION_ONE as i32, self.mired);
        }
        let v: i128 = cos_mired as i128 * self.mired_amplitude as i128 + self.mired as i128 * FRACTION_ONE as i128;
        if v < 0 {
            0
        } else {
            let q: i128 = v / FRACTION_ONE as i128;
            if q > MAX_MIRED as i128 {
                MAX_MIRED
            } else {
                q as u16
            }
        }
    }

    /// Whether the light is on: its brightness is not zero.
    pub fn on(&self, cos_bri: i32) -> (r: bool)
        ensures
            r == (self.bri_level(cos_bri) != 0),
    {
        self.bri(cos_bri) != 0
    }
}

/// Bounds of the product of a signed and an unsigned 32-bit value.
proof fn lemma_product_bounds(a: i32, b: u32)
    ensures
        -0x8000_0000 * 0xffff_ffff <= a as int * b as int <= 0x7fff_ffff * 0xffff_ffff,
        a as int * b as int == b as int * a as int,
{
    assert(-0x8000_0000 * 0xffff_ffff <= a as int * b as int <= 0x7fff_ffff * 0xffff_ffff)
        by (nonlinear_arith)
        requires
            -0x8000_0000 <= a <= 0x7fff_ffff,
            0 <= b <= 0xffff_ffff,
    ;
    assert(a as int * b as int == b as int * a as int) by (nonlinear_arith);
}

/// The phase of a cycle of `length` seconds, `seconds` after midnight.
pub fn phase_at(seconds: u32, length: u32) -> (r: u32)
    requires
        length > 0,
    ensures
        r as int == cycle_phase(seconds, length),
        r < TURN,
{
    (((seconds as u64 * TURN as u64) / length as u64) % TURN as u64) as u32
}

/// Rotating by `a` and then by `b` is rotating by `a + b`, and rotating by a
/// full turn more changes nothing.
pub proof fn lemma_rotate_additive(t: LightTarget, a: int, b: int)
    requires
        t.wf(),
        a >= 0,
        b >= 0,
    ensures
        t.rotated(a).rotated(b) == t.rotated(a + b),
        t.rotated(a + TURN) == t.rotated(a),
{
    let m = TURN as int;
    lemma_add_mod_noop(t.bri_phase + a, b, m);
    lemma_mod_twice(b, m);
    lemma_add_mod_noop((t.bri_phase + a) % m, b, m);
    lemma_add_mod_noop(t.mired_phase + a, b, m);
    lemma_add_mod_noop((t.mired_phase + a) % m, b, m);
    lemma_mod_add_multiples_vanish(t.bri_phase + a, m);
    lemma_mod_add_multiples_vanish(t.mired_phase + a, m);
    assert(t.bri_phase + a + m == m + (t.bri_phase + a));
    assert(t.mired_phase + a + m == m + (t.mired_phase + a));
}

/// The brightness and the colour temperature of a target always lie within
/// `[0, 255]` and `[0, 65535]`, however large the amplitude against the base.
pub proof fn lemma_levels_clamped(t: LightTarget, cos_bri: i32, cos_mired: i32)
    ensures
        0 <= t.bri_level(cos_bri) <= MAX_BRIGHTNESS,
        0 <= t.ct_level(cos_mired) <= MAX_MIRED,
{
}

} // verus!

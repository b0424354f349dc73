//! The configuration that the control loop starts from: where the lights are,
//! how the circadian curve is shaped, and how to reach the bridge.
use vstd::prelude::*;

verus! {

/// The whole configuration, loaded once before the control loop starts.
pub struct Config {
    /// How to reach the bridge; absent until the bridge has been paired.
    pub hue: Option<HueConfig>,
    pub location: Location,
    pub transitions: Transitions,
}

/// Where the bridge is and the user name it issued to this program.
pub struct HueConfig {
    pub bridge_ip: String,
    pub bridge_password: String,
}

impl HueConfig {
    /// Address of the bridge when none is configured.
    pub fn default_bridge_ip() -> (r: String)
        ensures
            r@ == "192.168.178.50"@,
    {
        "192.168.178.50".to_owned()
    }

    /// Credential for the bridge when none is configured.
    pub fn default_bridge_password() -> (r: String)
        ensures
            r@ == "a-zKQed-fmtva4-gc0VJuVGrqaBf8t7xMEuJzUH2"@,
    {
        "a-zKQed-fmtva4-gc0VJuVGrqaBf8t7xMEuJzUH2".to_owned()
    }
}

impl Default for HueConfig {
    fn default() -> (r: Self)
        ensures
            r.bridge_ip@ == "192.168.178.50"@,
            r.bridge_password@ == "a-zKQed-fmtva4-gc0VJuVGrqaBf8t7xMEuJzUH2"@,
    {
        HueConfig {
            bridge_ip: HueConfig::default_bridge_ip(),
            bridge_password: HueConfig::default_bridge_password(),
        }
    }
}

/// The parameters of the circadian curve and of the slow oscillation on top of it.
///
/// Brightness fractions are parts of `FRACTION_ONE` (10 000 is full brightness),
/// temperatures are kelvin, the dawn point is in millidegrees of solar altitude,
/// the transition time is a divisor in thousandths (1000 stands for 1.0), the
/// cycle lengths are seconds, the brightness amplitude is in 8-bit brightness
/// steps and the temperature amplitude in mired.
#[derive(Clone, Copy, Debug, PartialEq, Eq)]
pub struct Transitions {
    pub day_brightness: u32,
    pub day_temperature: u32,
    pub night_temperature: u32,
    pub night_brightness: u32,
    pub deep_night_brightness: u32,
    pub deep_night_start_hour: u8,
    pub deep_night_end_hour: u8,
    pub sun_altitude_dawn_point: i32,
    pub transition_time: u32,
    pub brightness_cycle_length: u32,
    pub temperature_cycle_length: u32,
    pub brightness_cycle_amplitude: u32,
    pub temperature_cycle_amplitude: u32,
}

impl Transitions {
    /// The parameters are usable: no division by zero, hours on a 24-hour clock.
    pub open spec fn wf(&self) -> bool {
        &&& self.day_temperature > 0
        &&& self.night_temperature > 0
        &&& self.deep_night_start_hour < 24
        &&& self.deep_night_end_hour < 24
        &&& self.transition_time > 0
        &&& self.brightness_cycle_length > 0
        &&& self.temperature_cycle_length > 0
    }

    /// Whether the parameters are usable, checked when a configuration is loaded.
    pub fn is_valid(&self) -> (r: bool)
        ensures
            r == self.wf(),
    {
        self.day_temperature > 0 && self.night_temperature > 0 && self.deep_night_start_hour < 24
            && self.deep_night_end_hour < 24 && self.transition_time > 0
            && self.brightness_cycle_length > 0 && self.temperature_cycle_length > 0
    }

    pub fn default_day_brightness() -> (r: u32)
        ensures
            r == 10_000,
    {
        10_000
    }

    pub fn default_day_temperature() -> (r: u32)
        ensures
            r == 5700,
    {
        5700
    }

    pub fn default_night_temperature() -> (r: u32)
        ensures
            r == 2400,
    {
        2400
    }

    pub fn default_night_brightness() -> (r: u32)
        ensures
            r == 7000,
    {
        7000
    }

    pub fn default_deep_night_brightness() -> (r: u32)
        ensures
            r == 0,
    {
        0
    }

    pub fn default_deep_night_start_hour() -> (r: u8)
        ensures
            r == 23,
    {
        23
    }

    pub fn default_deep_night_end_hour() -> (r: u8)
        ensures
            r == 6,
    {
        6
    }

    pub fn default_sun_altitude_dawn_point() -> (r: i32)
        ensures
            r == -400,
    {
        -400
    }

    pub fn default_transition_time() -> (r: u32)
        ensures
            r == 1000,
    {
        1000
    }

    pub fn default_brightness_cycle_length() -> (r: u32)
        ensures
            r == 600,
    {
        600
    }

    pub fn default_temperature_cycle_length() -> (r: u32)
        ensures
            r == 700,
    {
        700
    }

    pub fn default_brightness_cycle_amplitude() -> (r: u32)
        ensures
            r == 30,
    {
        30
    }

    pub fn default_temperature_cycle_amplitude() -> (r: u32)
        ensures
            r == 50,
    {
        50
    }
}

impl Default for Transitions {
    fn default() -> (r: Self)
        ensures
            r.wf(),
            r.day_brightness == 10_000,
            r.day_temperature == 5700,
            r.night_temperature == 2400,
            r.night_brightness == 7000,
            r.deep_night_brightness == 0,
            r.deep_night_start_hour == 23,
            r.deep_night_end_hour == 6,
            r.sun_altitude_dawn_point == -400,
            r.transition_time == 1000,
            r.brightness_cycle_length == 600,
            r.temperature_cycle_length == 700,
            r.brightness_cycle_amplitude == 30,
            r.temperature_cycle_amplitude == 50,
    {
        Transitions {
            day_brightness: Transitions::default_day_brightness(),
            day_temperature: Transitions::default_day_temperature(),
            night_temperature: Transitions::default_night_temperature(),
            night_brightness: Transitions::default_night_brightness(),
            deep_night_brightness: Transitions::default_deep_night_brightness(),
            deep_night_start_hour: Transitions::default_deep_night_start_hour(),
            deep_night_end_hour: Transitions::default_deep_night_end_hour(),
            sun_altitude_dawn_point: Transitions::default_sun_altitude_dawn_point(),
            transition_time: Transitions::default_transition_time(),
            brightness_cycle_length: Transitions::default_brightness_cycle_length(),
            temperature_cycle_length: Transitions::default_temperature_cycle_length(),
            brightness_cycle_amplitude: Transitions::default_brightness_cycle_amplitude(),
            temperature_cycle_amplitude: Transitions::default_temperature_cycle_amplitude(),
        }
    }
}

/// A geographic position in ten-millionths of a degree.
#[derive(Clone, Copy, Debug, PartialEq, Eq)]
pub struct Location {
    pub long: i64,
    pub lat: i64,
}

impl Location {
    pub fn default_long() -> (r: i64)
        ensures
            r == 53_878_266,
    {
        53_878_266
    }

    pub fn default_lat() -> (r: i64)
        ensures
            r == 521_561_113,
    {
        521_561_113
    }
}

impl Default for Location {
    fn default() -> (r: Self)
        ensures
            r.long == 53_878_266,
            r.lat == 521_561_113,
    {
        Location { long: Location::default_long(), lat: Location::default_lat() }
    }
}

} // verus!

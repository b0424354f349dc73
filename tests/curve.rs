use hue_cycle::config::Transitions;
use hue_cycle::curve::{
    brightness_curve_point, floor_div, interpolate, kelvin_to_mired, target_brightness,
    target_color_temperature, temperature_curve_point, FRACTION_ONE,
};

fn millidegrees(radians: f64) -> i32 {
    (radians.to_degrees() * 1000.0).round() as i32
}

fn logistic(point: i64) -> u32 {
    let x = point as f64 / 1000.0;
    let s = x.exp() / (x.exp() + 1.0);
    (s * FRACTION_ONE as f64).round() as u32
}

#[test]
fn defaults_at_noon_high_sun() {
    let t = Transitions::default();
    let alt = millidegrees(0.2);
    assert_eq!(alt, 11459);
    let sb = logistic(brightness_curve_point(&t, alt));
    let sc = logistic(temperature_curve_point(alt));
    let bri = target_brightness(&t, 12, sb);
    let kelvin = target_color_temperature(&t, sc);
    assert!(bri as f64 > 0.95 * t.day_brightness as f64);
    assert_eq!(bri, 10_000);
    assert_eq!(kelvin, 5629);
    assert!(kelvin > 5600 && kelvin < t.day_temperature);
}

#[test]
fn deep_night_wins_at_two_in_the_morning() {
    let t = Transitions::default();
    let alt = millidegrees(-0.5);
    let sb = logistic(brightness_curve_point(&t, alt));
    assert_eq!(target_brightness(&t, 2, sb), 0);
}

#[test]
fn deep_night_window_wraps_past_midnight() {
    let mut t = Transitions::default();
    t.deep_night_brightness = 1234;
    for hour in [23u8, 0, 1, 5] {
        for sigma in [0u32, 5000, 10_000] {
            assert_eq!(target_brightness(&t, hour, sigma), 1234);
        }
    }
    for hour in [6u8, 12, 22] {
        assert_eq!(target_brightness(&t, hour, 0), 7000);
        assert_eq!(target_brightness(&t, hour, 10_000), 10_000);
    }
}

#[test]
fn targets_stay_between_endpoints() {
    let mut t = Transitions::default();
    for sigma in [0u32, 1, 2500, 5000, 9999, 10_000] {
        let b = target_brightness(&t, 12, sigma);
        assert!(b >= t.night_brightness && b <= t.day_brightness);
        let k = target_color_temperature(&t, sigma);
        assert!(k >= t.night_temperature && k <= t.day_temperature);
    }
    t.night_brightness = 9000;
    t.day_brightness = 3000;
    t.night_temperature = 6000;
    t.day_temperature = 2000;
    for sigma in [0u32, 1, 2500, 5000, 9999, 10_000] {
        let b = target_brightness(&t, 12, sigma);
        assert!(b >= 3000 && b <= 9000);
        let k = target_color_temperature(&t, sigma);
        assert!(k >= 2000 && k <= 6000);
    }
    assert_eq!(target_color_temperature(&t, 5000), 4000);
    assert_eq!(target_color_temperature(&t, 0), 6000);
    assert_eq!(target_color_temperature(&t, 10_000), 2000);
}

#[test]
fn interpolation_rounds_down() {
    assert_eq!(interpolate(2400, 5700, 9785), 5629);
    assert_eq!(interpolate(10, 0, 1), 9);
    assert_eq!(interpolate(0, 10, 9999), 9);
}

#[test]
fn curve_points() {
    let t = Transitions::default();
    assert_eq!(brightness_curve_point(&t, 11459), 11859);
    assert_eq!(brightness_curve_point(&t, -1000), -600);
    assert_eq!(temperature_curve_point(11459), 3819);
    assert_eq!(temperature_curve_point(-1), -1);
    assert_eq!(temperature_curve_point(-3), -1);
    assert_eq!(temperature_curve_point(-4), -2);
}

#[test]
fn floor_division() {
    assert_eq!(floor_div(7, 2), 3);
    assert_eq!(floor_div(-7, 2), -4);
    assert_eq!(floor_div(-8, 2), -4);
    assert_eq!(floor_div(i64::MIN, 1), i64::MIN);
}

#[test]
fn kelvin_to_mired_values() {
    assert_eq!(kelvin_to_mired(2400), 416);
    assert_eq!(kelvin_to_mired(5700), 175);
    assert_eq!(kelvin_to_mired(1_000_000), 1);
}

#[test]
fn default_transitions() {
    let t = Transitions::default();
    assert_eq!(t.day_brightness, Transitions::default_day_brightness());
    assert_eq!(t.day_temperature, 5700);
    assert_eq!(t.night_temperature, 2400);
    assert_eq!(t.sun_altitude_dawn_point, -400);
    assert_eq!(t.transition_time, 1000);
    assert_eq!(t.deep_night_start_hour, 23);
    assert_eq!(t.deep_night_end_hour, 6);
}

#[test]
fn validity_of_transitions() {
    let t = Transitions::default();
    assert!(t.is_valid());
    let mut z = t;
    z.transition_time = 0;
    assert!(!z.is_valid());
    let mut h = t;
    h.deep_night_start_hour = 24;
    assert!(!h.is_valid());
    let mut k = t;
    k.night_temperature = 0;
    assert!(!k.is_valid());
}

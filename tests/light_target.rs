use hue_cycle::config::Transitions;
use hue_cycle::light_target::{phase_at, LightTarget, TURN};

fn target(bri: u32, mired: u32, bri_amplitude: u32, mired_amplitude: u32) -> LightTarget {
    LightTarget { bri, mired, bri_phase: 0, mired_phase: 0, bri_amplitude, mired_amplitude }
}

#[test]
fn new_target_from_defaults() {
    let t = Transitions::default();
    let lt = LightTarget::new(&t, 12, 300, 10_000, 5000);
    assert_eq!(lt.bri, 10_000);
    assert_eq!(lt.mired, 1_000_000 / 4050);
    assert_eq!(lt.bri_phase, 180_000);
    assert_eq!(lt.mired_phase, 154_285);
    assert_eq!(lt.bri_amplitude, 30);
    assert_eq!(lt.mired_amplitude, 50);
}

#[test]
fn phase_wraps_each_cycle() {
    assert_eq!(phase_at(0, 600), 0);
    assert_eq!(phase_at(600, 600), 0);
    assert_eq!(phase_at(750, 600), 90_000);
    assert_eq!(phase_at(86_399, 700), ((86_399u64 * 360_000 / 700) % 360_000) as u32);
}

#[test]
fn rotation_is_additive_and_periodic() {
    let mut lt = target(5000, 300, 30, 50);
    lt.bri_phase = 350_000;
    lt.mired_phase = 12_345;
    for (a, b) in [(0u32, 0u32), (10_000, 20_000), (300_000, 300_000), (359_999, 1)] {
        let twice = lt.rotate(a).rotate(b);
        let once = lt.rotate(((a as u64 + b as u64) % TURN as u64) as u32);
        assert_eq!(twice, once);
        assert_eq!(lt.rotate(a + TURN), lt.rotate(a));
    }
    let r = lt.rotate(20_000);
    assert_eq!(r.bri_phase, 10_000);
    assert_eq!(r.mired_phase, 32_345);
    assert_eq!(r.bri, lt.bri);
    assert_eq!(r.mired_amplitude, lt.mired_amplitude);
}

#[test]
fn levels_are_clamped() {
    let dim = target(0, 0, 30, 50);
    assert_eq!(dim.bri(-10_000), 0);
    assert!(!dim.on(-10_000));
    assert_eq!(dim.ct(-10_000), 0);
    assert_eq!(dim.bri(10_000), 30);
    assert!(dim.on(10_000));
    let bright = target(10_000, 65_530, 30, 50);
    assert_eq!(bright.bri(10_000), 255);
    assert_eq!(bright.ct(10_000), 65_535);
    let huge = target(0, 0, u32::MAX, u32::MAX);
    assert_eq!(huge.bri(i32::MIN), 0);
    assert_eq!(huge.bri(i32::MAX), 255);
    assert_eq!(huge.ct(i32::MIN), 0);
    assert_eq!(huge.ct(i32::MAX), 65_535);
}

#[test]
fn levels_follow_the_cosine() {
    let lt = target(5000, 300, 30, 50);
    assert_eq!(lt.bri(0), 127);
    assert_eq!(lt.bri(10_000), 157);
    assert_eq!(lt.bri(-10_000), 97);
    assert_eq!(lt.ct(0), 300);
    assert_eq!(lt.ct(10_000), 350);
    assert_eq!(lt.ct(-5000), 275);
}

use hue_cycle::light_target::LightTarget;
use hue_cycle::pass::{start, step, PassAction, PassEvent, PassState};
use hue_cycle::scene::{Group, LiveLight, Scene, SceneLight, StoredLight};

fn target() -> LightTarget {
    LightTarget { bri: 5000, mired: 300, bri_phase: 0, mired_phase: 0, bri_amplitude: 30, mired_amplitude: 50 }
}

fn detail() -> Scene {
    let state = SceneLight { bri: Some(100), ct: Some(300), on: Some(true), transition_time: None };
    Scene {
        name: "dayshift".to_string(),
        recycle: false,
        lights: vec![3, 4],
        lightstates: vec![StoredLight { light: 3, state }, StoredLight { light: 4, state }],
    }
}

fn showing() -> Option<LiveLight> {
    Some(LiveLight { bri: 100, ct: Some(300), on: true })
}

fn reading_step(live: Vec<Option<LiveLight>>) -> (PassState, PassAction) {
    let (state, action) = step(PassState::Fetching, PassEvent::Detail(Some(detail())), &target());
    match action {
        PassAction::ReadLights(ids) => assert_eq!(ids, vec![3, 4]),
        _ => panic!("expected the lights to be read"),
    }
    step(state, PassEvent::Readings(live), &target())
}

#[test]
fn pass_starts_by_fetching() {
    let (state, action) = start();
    assert!(matches!(state, PassState::Fetching));
    assert!(matches!(action, PassAction::FetchDetail));
}

#[test]
fn missing_scene_ends_pass() {
    let (state, action) = step(PassState::Fetching, PassEvent::Detail(None), &target());
    assert!(matches!(state, PassState::Done));
    assert!(matches!(action, PassAction::Finish));
}

#[test]
fn active_scene_is_pushed_then_recalled() {
    let (state, action) = reading_step(vec![showing(), showing()]);
    match action {
        PassAction::Push(plan) => {
            assert_eq!(plan.len(), 2);
            assert_eq!(plan[0].target, Some(target()));
            assert_eq!(plan[1].target, Some(target().rotate(180_000)));
        }
        _ => panic!("expected a push"),
    }
    let (state, action) = step(state, PassEvent::Pushed, &target());
    assert!(matches!(action, PassAction::FetchGroups));
    let groups = vec![
        Group { lights: vec![3], recycle: None },
        Group { lights: vec![3, 4], recycle: None },
        Group { lights: vec![3, 4], recycle: Some(true) },
    ];
    let (state, action) = step(state, PassEvent::Groups(Some(groups)), &target());
    assert!(matches!(state, PassState::Done));
    match action {
        PassAction::Recall(positions) => assert_eq!(positions, vec![1]),
        _ => panic!("expected a recall"),
    }
}

#[test]
fn inactive_scene_is_pushed_without_recall() {
    let off = Some(LiveLight { bri: 100, ct: Some(300), on: false });
    let (state, action) = reading_step(vec![showing(), off]);
    assert!(matches!(action, PassAction::Push(_)));
    let (state, action) = step(state, PassEvent::Pushed, &target());
    assert!(matches!(state, PassState::Done));
    assert!(matches!(action, PassAction::Finish));
}

#[test]
fn unreadable_light_skips_scene() {
    let (state, action) = reading_step(vec![showing(), None]);
    assert!(matches!(state, PassState::Done));
    assert!(matches!(action, PassAction::Finish));
    let (_, action) = reading_step(vec![showing()]);
    assert!(matches!(action, PassAction::Finish));
}

#[test]
fn failed_group_listing_ends_pass() {
    let (state, _) = reading_step(vec![showing(), showing()]);
    let (state, _) = step(state, PassEvent::Pushed, &target());
    let (state, action) = step(state, PassEvent::Groups(None), &target());
    assert!(matches!(state, PassState::Done));
    assert!(matches!(action, PassAction::Finish));
}

#[test]
fn unexpected_event_ends_pass() {
    let (state, action) = step(PassState::Fetching, PassEvent::Pushed, &target());
    assert!(matches!(state, PassState::Done));
    assert!(matches!(action, PassAction::Finish));
}

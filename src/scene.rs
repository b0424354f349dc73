//! Scenes on the bridge: whether one is showing on its lights, which ones this
//! program manages, what each light's stored state becomes, and which groups
//! must recall a scene so that the lights show it.
use vstd::prelude::*;
use crate::brightness_tolerance;
use crate::mired_tolerance;
use crate::light_target::{LightTarget, TURN};

verus! {

/// Transition time of each pushed light state, in the bridge's units of
/// 100 ms: 1.5 seconds.
pub const TRANSITION_TIME: u16 = 15;

/// A light's state as stored in a scene; a field that is absent is not part of
/// the scene. The transition time is in units of 100 ms.
#[derive(Clone, Copy, Debug, PartialEq, Eq)]
pub struct SceneLight {
    pub bri: Option<u8>,
    pub ct: Option<u16>,
    pub on: Option<bool>,
    pub transition_time: Option<u16>,
}

/// A light's live state as the bridge reports it; not every light reports a
/// colour temperature.
#[derive(Clone, Copy, Debug, PartialEq, Eq)]
pub struct LiveLight {
    pub bri: u8,
    pub ct: Option<u16>,
    pub on: bool,
}

/// One light of a scene: its stored state, and its live state if the bridge
/// could report it.
#[derive(Clone, Copy, Debug, PartialEq, Eq)]
pub struct LightReading {
    pub stored: SceneLight,
    pub live: Option<LiveLight>,
}

/// A light's entry in a scene.
#[derive(Clone, Copy, Debug, PartialEq, Eq)]
pub struct StoredLight {
    pub light: usize,
    pub state: SceneLight,
}

/// A scene: its name, whether the bridge may delete it, its member lights in
/// their fixed order, and the stored state of each light.
pub struct Scene {
    pub name: String,
    pub recycle: bool,
    pub lights: Vec<usize>,
    pub lightstates: Vec<StoredLight>,
}

/// A group of lights; `recycle` marks one that the bridge may delete.
pub struct Group {
    pub lights: Vec<usize>,
    pub recycle: Option<bool>,
}

#[derive(Clone, Copy, Debug, PartialEq, Eq)]
pub enum ActivityError {
    /// The live state of the light at this position could not be had.
    LightUnavailable(usize),
}

/// What becomes of one light's entry in a scene: its position among the
/// scene's members and its rotated target, or neither when it is no member.
#[derive(Clone, Copy, Debug, PartialEq, Eq)]
pub struct PlannedLight {
    pub light: usize,
    pub position: Option<usize>,
    pub target: Option<LightTarget>,
}

/// A light shows its stored state: brightness within tolerance, colour
/// temperature within tolerance where both sides have one, on/off equal; an
/// absent stored field matches anything.
pub open spec fn light_matches(stored: SceneLight, live: LiveLight) -> bool {
    &&& (stored.bri matches Some(b) ==> brightness_tolerance::distance(b, live.bri)
        < brightness_tolerance::BRIGHTNESS_TOLERANCE)
    &&& (stored.ct matches Some(c) ==> (live.ct matches Some(l) ==> mired_tolerance::distance(l, c)
        < mired_tolerance::MIRED_TOLERANCE))
    &&& (stored.on matches Some(o) ==> o == live.on)
}

/// Every light whose live state is known shows its stored state.
pub open spec fn all_showing(readings: Seq<LightReading>) -> bool {
    forall|i: int| 0 <= i < readings.len() ==> light_matches(readings[i].stored, readings[i].live->0)
}

/// The stored state is exactly the live one: same brightness, same colour
/// temperature, same on/off.
pub open spec fn exact_copy(stored: SceneLight, live: LiveLight) -> bool {
    stored.bri == Some(live.bri) && stored.ct == live.ct && stored.on == Some(live.on)
}

/// Activity rules: a scene whose every light shows exactly its stored state is
/// active; one light whose brightness is 6 or more away from its stored one
/// makes the scene inactive; and leaving a field out of a stored state never
/// turns a match into a mismatch.
pub proof fn lemma_activity_rules(readings: Seq<LightReading>, stored: SceneLight, live: LiveLight)
    ensures
        (forall|i: int|
            0 <= i < readings.len() ==> readings[i].live is Some && exact_copy(
                readings[i].stored,
                readings[i].live->0,
            )) ==> all_showing(readings),
        (exists|i: int|
            0 <= i < readings.len() && readings[i].live is Some && (readings[i].stored.bri matches Some(
                b,
            ) && brightness_tolerance::distance(b, readings[i].live->0.bri) >= 6)) ==> !all_showing(
            readings,
        ),
        light_matches(stored, live) ==> light_matches(SceneLight { bri: None, ..stored }, live),
        light_matches(stored, live) ==> light_matches(SceneLight { ct: None, ..stored }, live),
        light_matches(stored, live) ==> light_matches(SceneLight { on: None, ..stored }, live),
        light_matches(SceneLight { bri: None, ct: None, on: None, ..stored }, live),
{
}

/// Whether a light shows its stored state.
pub fn light_matches_state(stored: &SceneLight, live: &LiveLight) -> (r: bool)
    ensures
        r == light_matches(*stored, *live),
{
    let bri_ok = match stored.bri {
        Some(b) => brightness_tolerance::is_close(b, live.bri),
        None => true,
    };
    let ct_ok = match (stored.ct, live.ct) {
        (Some(c), Some(l)) => mired_tolerance::is_close(l, c),
        _ => true,
    };
    let on_ok = match stored.on {
        Some(o) => o == live.on,
        None => true,
    };
    bri_ok && ct_ok && on_ok
}

/// Whether a scene is the one showing on its lights: every light shows its
/// stored state. A light whose live state is missing makes that an error,
/// reported at the first such position.
pub fn scene_is_active(readings: &Vec<LightReading>) -> (r: Result<bool, ActivityError>)
    ensures
        r is Err <==> exists|i: int| 0 <= i < readings@.len() && readings@[i].live is None,
        r matches Err(ActivityError::LightUnavailable(i)) ==> i < readings@.len()
            && readings@[i as int].live is None
            && forall|j: int| 0 <= j < i ==> readings@[j].live is Some,
        r matches Ok(active) ==> active == all_showing(readings@),
{
    let mut active = true;
    let mut i: usize = 0;
    while i < readings.len()
        invariant
            i <= readings@.len(),
            forall|j: int| 0 <= j < i ==> readings@[j].live is Some,
            active == forall|j: int|
                0 <= j < i ==> light_matches(readings@[j].stored, readings@[j].live->0),
        decreases readings@.len() - i,
    {
        match &readings[i].live {
            Some(live) => {
                let ok = light_matches_state(&readings[i].stored, live);
                active = active && ok;
            },
            None => {
                return Err(ActivityError::LightUnavailable(i));
            },
        }
        i = i + 1;
    }
    Ok(active)
}

/// `k` is the first position of `light` in `lights`.
pub open spec fn is_first_position(lights: Seq<usize>, light: usize, k: int) -> bool {
    &&& 0 <= k < lights.len()
    &&& lights[k] == light
    &&& forall|j: int| 0 <= j < k ==> lights[j] != light
}

/// The first position of `light` among a scene's members, if it is one.
pub fn member_index(lights: &Vec<usize>, light: usize) -> (r: Option<usize>)
    ensures
        r matches Some(k) ==> is_first_position(lights@, light, k as int),
        r is None ==> !lights@.contains(light),
{
    let mut k: usize = 0;
    while k < lights.len()
        invariant
            k <= lights@.len(),
            forall|j: int| 0 <= j < k ==> lights@[j] != light,
        decreases lights@.len() - k,
    {
        if lights[k] == light {
            return Some(k);
        }
        k = k + 1;
    }
    None
}

/// The phase offset of the member at `index` of `count`: evenly spaced over a
/// turn, rounded down.
pub open spec fn rotation_of(index: int, count: int) -> int {
    index * TURN / count
}

/// The phase offset of the member at `index` among `count` members.
pub fn member_rotation(index: usize, count: usize) -> (r: u32)
    requires
        index < count,
    ensures
        r as int == rotation_of(index as int, count as int),
        r < TURN,
{
    proof {
        assert(index * TURN < count * TURN) by (nonlinear_arith)
            requires
                index < count,
        ;
        assert((index * TURN) / (count as int) < TURN as int) by (nonlinear_arith)
            requires
                index * TURN < count * TURN,
                index < count,
        ;
    }
    ((index as u128 * TURN as u128) / count as u128) as u32
}

/// The plan for one light's entry in a scene with members `lights`.
pub open spec fn planned_for(lights: Seq<usize>, light: usize, target: LightTarget, p: PlannedLight) -> bool {
    &&& p.light == light
    &&& match p.position {
        Some(k) => is_first_position(lights, light, k as int) && p.target == Some(
            target.rotated(rotation_of(k as int, lights.len() as int)),
        ),
        None => !lights.contains(light) && p.target is None,
    }
}

/// For each light state of a scene, in order: the light's position among the
/// scene's members and the shared target rotated to that position, or
/// nothing for a light that is no member.
pub fn update_scene(scene: &Scene, target: &LightTarget) -> (r: Vec<PlannedLight>)
    ensures
        r@.len() == scene.lightstates@.len(),
        forall|i: int|
            0 <= i < r@.len() ==> planned_for(
                scene.lights@,
                #[trigger] scene.lightstates@[i].light,
                *target,
                r@[i],
            ),
{
    let mut r: Vec<PlannedLight> = Vec::new();
    let mut i: usize = 0;
    while i < scene.lightstates.len()
        invariant
            i <= scene.lightstates@.len(),
            r@.len() == i,
            forall|j: int|
                0 <= j < i ==> planned_for(
                    scene.lights@,
                    #[trigger] scene.lightstates@[j].light,
                    *target,
                    r@[j],
                ),
        decreases scene.lightstates@.len() - i,
    {
        let light = scene.lightstates[i].light;
        let planned = match member_index(&scene.lights, light) {
            Some(k) => {
                let angle = member_rotation(k, scene.lights.len());
                PlannedLight { light, position: Some(k), target: Some(target.rotate(angle)) }
            },
            None => PlannedLight { light, position: None, target: None },
        };
        r.push(planned);
        i = i + 1;
    }
    r
}

/// The state pushed into a scene for a light with target `target`, given the
/// cosines of its two phases: brightness, colour temperature and on/off from
/// the target, with the fixed transition time.
pub fn scene_light_state(target: &LightTarget, cos_bri: i32, cos_mired: i32) -> (r: SceneLight)
    ensures
        r.bri == Some(target.bri_level(cos_bri) as u8),
        r.ct == Some(target.ct_level(cos_mired) as u16),
        r.on == Some(target.bri_level(cos_bri) != 0),
        r.transition_time == Some(TRANSITION_TIME),
{
    SceneLight {
        bri: Some(target.bri(cos_bri)),
        ct: Some(target.ct(cos_mired)),
        on: Some(target.on(cos_bri)),
        transition_time: Some(TRANSITION_TIME),
    }
}

} // verus!

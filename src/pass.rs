//! One reconciliation pass over a managed scene, as a state machine: the
//! caller performs each action against the bridge and hands back what came of
//! it. Activity is read before any state is pushed, and the scene is recalled
//! only when it was showing before the pass.
use vstd::prelude::*;
use crate::light_target::LightTarget;
use crate::reconcile::{groups_to_recall, positions_where, recalls};
use crate::scene::{
    light_matches, planned_for, scene_is_active, update_scene, Group, LightReading, LiveLight,
    PlannedLight, Scene,
};

verus! {

pub enum PassState {
    /// Waiting for the scene with its stored light states.
    Fetching,
    /// Waiting for the live state of each light of `detail`, in order.
    Reading { detail: Scene },
    /// Waiting for the planned states to be pushed.
    Pushing { lights: Vec<usize>, active: bool },
    /// Waiting for the bridge's groups.
    Recalling { lights: Vec<usize> },
    Done,
}

pub enum PassEvent {
    /// The scene with its stored states, or nothing if it could not be had.
    Detail(Option<Scene>),
    /// The live state of each light in the order asked for; `None` where the
    /// bridge could not report one.
    Readings(Vec<Option<LiveLight>>),
    /// The planned states were pushed (a failure on one light skips that light).
    Pushed,
    /// The bridge's groups, or nothing if they could not be listed.
    Groups(Option<Vec<Group>>),
}

pub enum PassAction {
    /// Fetch the scene with its stored light states.
    FetchDetail,
    /// Read the live state of these lights, in this order.
    ReadLights(Vec<usize>),
    /// Push a state for each planned light that has a target, pausing
    /// between pushes; a light without one is no member and is skipped.
    Push(Vec<PlannedLight>),
    /// List the bridge's groups.
    FetchGroups,
    /// Recall the scene in the groups at these positions of the list.
    Recall(Vec<usize>),
    /// The pass is over.
    Finish,
}

/// Every light of the scene reported a live state, and each shows its stored one.
pub open spec fn showing(detail: &Scene, live: Seq<Option<LiveLight>>) -> bool {
    &&& live.len() == detail.lightstates@.len()
    &&& forall|i: int| 0 <= i < live.len() ==> live[i] is Some
    &&& forall|i: int|
        0 <= i < live.len() ==> light_matches(detail.lightstates@[i].state, live[i]->0)
}

/// Every light of the scene reported a live state.
pub open spec fn all_read(detail: &Scene, live: Seq<Option<LiveLight>>) -> bool {
    &&& live.len() == detail.lightstates@.len()
    &&& forall|i: int| 0 <= i < live.len() ==> live[i] is Some
}

/// The first action of a pass.
pub fn start() -> (r: (PassState, PassAction))
    ensures
        r.0 is Fetching,
        r.1 is FetchDetail,
{
    (PassState::Fetching, PassAction::FetchDetail)
}

fn light_ids(detail: &Scene) -> (r: Vec<usize>)
    ensures
        r@.len() == detail.lightstates@.len(),
        forall|i: int| 0 <= i < r@.len() ==> r@[i] == detail.lightstates@[i].light,
{
    let mut r: Vec<usize> = Vec::new();
    let mut i: usize = 0;
    while i < detail.lightstates.len()
        invariant
            i <= detail.lightstates@.len(),
            r@.len() == i,
            forall|j: int| 0 <= j < i ==> r@[j] == detail.lightstates@[j].light,
        decreases detail.lightstates@.len() - i,
    {
        r.push(detail.lightstates[i].light);
        i = i + 1;
    }
    r
}

fn pair_readings(detail: &Scene, live: &Vec<Option<LiveLight>>) -> (r: Vec<LightReading>)
    requires
        live@.len() == detail.lightstates@.len(),
    ensures
        r@.len() == live@.len(),
        forall|i: int| 0 <= i < r@.len() ==> (#[trigger] r@[i]).stored == detail.lightstates@[i].state,
        forall|i: int| 0 <= i < r@.len() ==> (#[trigger] r@[i]).live == live@[i],
{
    let mut r: Vec<LightReading> = Vec::new();
    let mut i: usize = 0;
    while i < live.len()
        invariant
            live@.len() == detail.lightstates@.len(),
            i <= live@.len(),
            r@.len() == i,
            forall|j: int| 0 <= j < i ==> (#[trigger] r@[j]).stored == detail.lightstates@[j].state,
            forall|j: int| 0 <= j < i ==> (#[trigger] r@[j]).live == live@[j],
        decreases live@.len() - i,
    {
        r.push(LightReading { stored: detail.lightstates[i].state, live: live[i] });
        i = i + 1;
    }
    r
}

/// The next state and action of a pass after `event`, with `target` the
/// light target of this control cycle. An event that does not answer the
/// pending action ends the pass.
pub fn step(state: PassState, event: PassEvent, target: &LightTarget) -> (r: (PassState, PassAction))
    ensures
        (state is Fetching && event matches PassEvent::Detail(None)) ==> r.0 is Done && r.1 is Finish,
        state is Fetching ==> (event matches PassEvent::Detail(Some(d)) ==> {
            &&& r.0 matches PassState::Reading { detail } && detail == d
            &&& r.1 matches PassAction::ReadLights(ids) && ids@.len() == d.lightstates@.len()
                && forall|i: int| 0 <= i < ids@.len() ==> ids@[i] == d.lightstates@[i].light
        }),
        state matches PassState::Reading { detail } ==> (event matches PassEvent::Readings(live) ==> {
            &&& !all_read(&detail, live@) ==> r.0 is Done && r.1 is Finish
            &&& all_read(&detail, live@) ==> {
                &&& r.0 matches PassState::Pushing { lights, active } && lights@ == detail.lights@
                    && active == showing(&detail, live@)
                &&& r.1 matches PassAction::Push(plan) && plan@.len() == detail.lightstates@.len()
                    && forall|i: int| 0 <= i < plan@.len() ==> planned_for(
                        detail.lights@,
                        #[trigger] detail.lightstates@[i].light,
                        *target,
                        plan@[i],
                    )
            }
        }),
        state matches PassState::Pushing { lights, active } ==> (event is Pushed ==> {
            &&& active ==> (r.0 matches PassState::Recalling { lights: l } && l@ == lights@)
                && r.1 is FetchGroups
            &&& !active ==> r.0 is Done && r.1 is Finish
        }),
        state matches PassState::Recalling { lights } ==> {
            &&& event matches PassEvent::Groups(None) ==> r.0 is Done && r.1 is Finish
            &&& event matches PassEvent::Groups(Some(gs)) ==> r.0 is Done && (r.1 matches PassAction::Recall(
                positions,
            ) && positions@ == positions_where(gs@.len(), |i: int| recalls(lights@, &gs@[i])))
        },
        !(state is Fetching && event is Detail) && !(state is Reading && event is Readings) && !(
        state is Pushing && event is Pushed) && !(state is Recalling && event is Groups) ==> r.0 is Done
            && r.1 is Finish,
{
    match (state, event) {
        (PassState::Fetching, PassEvent::Detail(Some(detail))) => {
            let ids = light_ids(&detail);
            (PassState::Reading { detail }, PassAction::ReadLights(ids))
        },
        (PassState::Reading { detail }, PassEvent::Readings(live)) => {
            if live.len() != detail.lightstates.len() {
                return (PassState::Done, PassAction::Finish);
            }
            let readings = pair_readings(&detail, &live);
            match scene_is_active(&readings) {
                Ok(active) => {
                    let plan = update_scene(&detail, target);
                    assert forall|i: int| 0 <= i < live@.len() implies live@[i] is Some by {
                        if live@[i] is None {
                            assert(readings@[i].live is None);
                        }
                    }
                    assert(active == showing(&detail, live@)) by {
                        assert forall|i: int| 0 <= i < live@.len() implies (light_matches(
                            readings@[i].stored,
                            readings@[i].live->0,
                        ) == light_matches(detail.lightstates@[i].state, live@[i]->0)) by {}
                    }
                    (PassState::Pushing { lights: detail.lights, active }, PassAction::Push(plan))
                },
                Err(_) => {
                    proof {
                        let k = choose|k: int| 0 <= k < readings@.len() && readings@[k].live is None;
                        assert(live@[k] is None);
                    }
                    (PassState::Done, PassAction::Finish)
                },
            }
        },
        (PassState::Pushing { lights, active }, PassEvent::Pushed) => {
            if active {
                (PassState::Recalling { lights }, PassAction::FetchGroups)
            } else {
                (PassState::Done, PassAction::Finish)
            }
        },
        (PassState::Recalling { lights }, PassEvent::Groups(Some(groups))) => {
            let positions = groups_to_recall(&lights, &groups);
            (PassState::Done, PassAction::Recall(positions))
        },
        _ => (PassState::Done, PassAction::Finish),
    }
}

} // verus!

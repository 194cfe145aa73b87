//! The building the player is acting on, and the repair in progress there.

use vstd::prelude::*;
use crate::albion::payloads::{ActionOnBuildingFinished, ActionOnBuildingStart, RepairBuildingInfo};
use crate::clock::now_millis;
use crate::packet::parameters::{ParamValue, RawParameters};
use crate::util::{
    dotnet_ticks_to_unix_millis, i64_array, param_i32, param_i64, spec_i64_array, spec_param_i32,
    spec_param_i64, spec_ticks_to_millis,
};

verus! {

/// A repair of a building's items.
#[derive(Debug, Clone, PartialEq, Eq)]
pub struct Repair {
    pub building_id: i64,
    pub started_at: i64,
    pub finished_at: i64,
    pub num_items: i32,
    pub cost: i32,
    pub item_ids: Vec<i64>,
}

/// An action on a building.
#[derive(Debug, Clone, PartialEq, Eq)]
pub enum BuildingAction {
    Repair(Repair),
}

/// The kinds of building action the library follows.
#[derive(Debug, Clone, PartialEq, Eq)]
enum BuildingActionKind {
    Repair,
}

/// Whether the parameters of a started action hold a repair: building
/// (key 1) as an `i64`, item count (key 2) and cost (key 4) as `i32`s.
pub open spec fn repair_decodes(p: Map<u8, ParamValue>) -> bool {
    &&& spec_param_i64(p, 1) is Some
    &&& spec_param_i32(p, 2) is Some
    &&& spec_param_i32(p, 4) is Some
}

/// `r` is the repair those parameters describe, started at the time under
/// key 0 (in .NET ticks) or at `now` without one, with the item ids under
/// key 5 and not finished.
pub open spec fn is_repair(r: Repair, p: Map<u8, ParamValue>, now: i64) -> bool {
    &&& r.building_id == spec_param_i64(p, 1)->Some_0
    &&& r.num_items == spec_param_i32(p, 2)->Some_0
    &&& r.cost == spec_param_i32(p, 4)->Some_0
    &&& r.item_ids@ == spec_i64_array(p, 5)
    &&& r.started_at == (match spec_param_i64(p, 0) {
        Some(t) => spec_ticks_to_millis(t),
        None => now,
    })
    &&& r.finished_at == 0
}

/// The action a start message begins when its parameters hold a repair.
pub open spec fn is_repair_action(a: Option<BuildingAction>, p: Map<u8, ParamValue>, now: i64) -> bool {
    if repair_decodes(p) {
        a matches Some(BuildingAction::Repair(r)) && is_repair(r, p, now)
    } else {
        a is None
    }
}

#[derive(Debug)]
pub struct BuildingState {
    pub active_building: Option<i64>,
    pub active_action: Option<BuildingAction>,
    pub repair_building_info: Option<RepairBuildingInfo>,
}

/// What a start message does at `now`: one that reads (time under key 0,
/// building under key 1, both integers) makes its building the active one
/// and begins a repair when that building is the one repair information was
/// shown for (and the parameters hold a repair), no action otherwise; one
/// that does not read changes nothing.
pub open spec fn after_begin_action(
    before: BuildingState,
    p: Map<u8, ParamValue>,
    now: i64,
    after: BuildingState,
) -> bool {
    if spec_param_i64(p, 0) is Some && spec_param_i64(p, 1) is Some {
        let b = spec_param_i64(p, 1)->Some_0;
        &&& after.active_building == Some(b)
        &&& after.repair_building_info == before.repair_building_info
        &&& if before.repair_building_info matches Some(info) && info.building_id == b {
            is_repair_action(after.active_action, p, now)
        } else {
            after.active_action is None
        }
    } else {
        after == before
    }
}

/// The action a finish message completes: the active action, when the
/// message reads (building under key 2) and both it and the active building
/// are the building repair information was shown for; nothing otherwise.
pub open spec fn spec_finish(s: BuildingState, p: Map<u8, ParamValue>) -> Option<BuildingAction> {
    if spec_param_i64(p, 2) matches Some(fb) && s.active_building matches Some(id)
        && s.repair_building_info matches Some(info) && id == info.building_id && fb
        == info.building_id {
        s.active_action
    } else {
        None
    }
}

/// Two actions alike in every field, item ids compared by content.
pub open spec fn same_action(a: Option<BuildingAction>, b: Option<BuildingAction>) -> bool {
    match (a, b) {
        (Some(BuildingAction::Repair(x)), Some(BuildingAction::Repair(y))) => {
            &&& x.building_id == y.building_id
            &&& x.started_at == y.started_at
            &&& x.finished_at == y.finished_at
            &&& x.num_items == y.num_items
            &&& x.cost == y.cost
            &&& x.item_ids@ == y.item_ids@
        },
        (None, None) => true,
        _ => false,
    }
}

fn copy_ids(v: &Vec<i64>) -> (r: Vec<i64>)
    ensures
        r@ == v@,
{
    let mut r: Vec<i64> = Vec::new();
    let mut i: usize = 0;
    while i < v.len()
        invariant
            i <= v.len(),
            r@ == v@.take(i as int),
        decreases v.len() - i,
    {
        r.push(v[i]);
        assert(v@.take(i as int).push(v@[i as int]) =~= v@.take(i + 1));
        i = i + 1;
    }
    assert(v@.take(v.len() as int) =~= v@);
    r
}

impl BuildingAction {
    /// A copy alike in every field.
    pub fn duplicate(&self) -> (r: BuildingAction)
        ensures
            same_action(Some(r), Some(*self)),
    {
        match self {
            BuildingAction::Repair(rep) => BuildingAction::Repair(
                Repair {
                    building_id: rep.building_id,
                    started_at: rep.started_at,
                    finished_at: rep.finished_at,
                    num_items: rep.num_items,
                    cost: rep.cost,
                    item_ids: copy_ids(&rep.item_ids),
                },
            ),
        }
    }

    /// The repair that a start message's parameters describe, at `now`.
    fn from_repair_params(parameters: &RawParameters, now: i64) -> (r: Option<BuildingAction>)
        ensures
            is_repair_action(r, parameters.view(), now),
    {
        let started_at = match param_i64(parameters, 0) {
            Some(ts) => dotnet_ticks_to_unix_millis(ts),
            None => now,
        };
        let building_id = param_i64(parameters, 1)?;
        let num_items = param_i32(parameters, 2)?;
        let cost = param_i32(parameters, 4)?;
        Some(
            BuildingAction::Repair(
                Repair {
                    started_at,
                    building_id,
                    num_items,
                    cost,
                    item_ids: i64_array(parameters, 5),
                    finished_at: 0,
                },
            ),
        )
    }
}

impl BuildingActionKind {
    /// The action of this kind that a start message's parameters describe.
    fn from_params(self, parameters: &RawParameters, now: i64) -> (r: Option<BuildingAction>)
        ensures
            is_repair_action(r, parameters.view(), now),
    {
        match self {
            BuildingActionKind::Repair => BuildingAction::from_repair_params(parameters, now),
        }
    }
}

impl BuildingState {
    /// No building, no action, no repair information.
    pub fn new() -> (r: BuildingState)
        ensures
            r.active_building is None,
            r.active_action is None,
            r.repair_building_info is None,
    {
        BuildingState { active_building: None, active_action: None, repair_building_info: None }
    }

    /// Records the building that repair information was shown for.
    pub fn mark_repair_building(&mut self, info: RepairBuildingInfo)
        ensures
            final(self).repair_building_info == Some(info),
            final(self).active_building == old(self).active_building,
            final(self).active_action == old(self).active_action,
    {
        self.repair_building_info = Some(info);
    }

    /// Handles a start message at `now`, as [`after_begin_action`] says.
    pub fn begin_action_at(&mut self, parameters: &RawParameters, now: i64)
        ensures
            after_begin_action(*old(self), parameters.view(), now, *final(self)),
    {
        let start = match ActionOnBuildingStart::from_params(parameters) {
            Some(start) => start,
            None => return ,
        };
        self.active_building = Some(start.building_id);
        let pending = match &self.repair_building_info {
            Some(info) => if start.building_id == info.building_id {
                BuildingActionKind::Repair.from_params(parameters, now)
            } else {
                None
            },
            None => None,
        };
        self.active_action = pending;
    }

    /// [`Self::begin_action_at`] at the current time, which a repair without
    /// a start time takes as its start.
    pub fn begin_action(&mut self, parameters: &RawParameters)
        ensures
            exists|now: i64| after_begin_action(*old(self), parameters.view(), now, *final(self)),
    {
        let now = now_millis();
        self.begin_action_at(parameters, now);
    }

    /// Drops the action in progress.
    pub fn cancel_action(&mut self)
        ensures
            final(self).active_action is None,
            final(self).active_building == old(self).active_building,
            final(self).repair_building_info == old(self).repair_building_info,
    {
        self.active_action = None;
    }

    /// A copy of the action a finish message completes, as [`spec_finish`]
    /// says.
    pub fn finish_action(&self, parameters: &RawParameters) -> (r: Option<BuildingAction>)
        ensures
            same_action(r, spec_finish(*self, parameters.view())),
    {
        let finish = match ActionOnBuildingFinished::from_params(parameters) {
            Some(finish) => finish,
            None => return None,
        };
        match (self.active_building, &self.repair_building_info) {
            (Some(id), Some(info)) => {
                if id == info.building_id && finish.building_id == info.building_id {
                    match &self.active_action {
                        Some(a) => Some(a.duplicate()),
                        None => None,
                    }
                } else {
                    None
                }
            },
            _ => None,
        }
    }
}

/// A repair started on the building that repair information was shown for
/// is what a finish message for that building completes; once cancelled,
/// nothing is completed.
pub proof fn law_finish_completes_started_repair(
    s0: BuildingState,
    info: RepairBuildingInfo,
    start: Map<u8, ParamValue>,
    now: i64,
    s1: BuildingState,
    finish: Map<u8, ParamValue>,
)
    requires
        s0.repair_building_info == Some(info),
        spec_param_i64(start, 0) is Some,
        spec_param_i64(start, 1) == Some(info.building_id),
        after_begin_action(s0, start, now, s1),
        spec_param_i64(finish, 2) == Some(info.building_id),
    ensures
        repair_decodes(start) ==> (spec_finish(s1, finish) matches Some(BuildingAction::Repair(r))
            && is_repair(r, start, now)),
        !repair_decodes(start) ==> spec_finish(s1, finish) is None,
        spec_finish(
            BuildingState { active_action: None, ..s1 },
            finish,
        ) is None,
{
}

} // verus!

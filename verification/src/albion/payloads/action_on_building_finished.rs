use vstd::prelude::*;
use crate::clock::now_millis;
use crate::packet::parameters::RawParameters;
use crate::util::{dotnet_ticks_to_unix_millis, param_i64, spec_param_i64, spec_ticks_to_millis};

verus! {

/// A building action finished.
#[derive(Clone, Debug, PartialEq, Eq)]
pub struct ActionOnBuildingFinished {
    pub timestamp: i64,
    pub building_id: i64,
}

impl ActionOnBuildingFinished {
    /// Building under key 2 (required); the time under key 1 in .NET ticks,
    /// or `now` when it is missing.
    pub fn from_params_at(parameters: &RawParameters, now: i64) -> (r: Option<
        ActionOnBuildingFinished,
    >)
        ensures
            match spec_param_i64(parameters.view(), 2) {
                Some(b) => r == Some(
                    ActionOnBuildingFinished {
                        timestamp: match spec_param_i64(parameters.view(), 1) {
                            Some(t) => spec_ticks_to_millis(t),
                            None => now,
                        },
                        building_id: b,
                    },
                ),
                None => r is None,
            },
    {
        let timestamp = match param_i64(parameters, 1) {
            Some(ts) => dotnet_ticks_to_unix_millis(ts),
            None => now,
        };
        let building_id = param_i64(parameters, 2)?;
        Some(ActionOnBuildingFinished { timestamp, building_id })
    }

    /// [`Self::from_params_at`] at the current time, which only a missing
    /// time under key 1 reads.
    pub fn from_params(parameters: &RawParameters) -> (r: Option<ActionOnBuildingFinished>)
        ensures
            match spec_param_i64(parameters.view(), 2) {
                Some(b) => r matches Some(f) && f.building_id == b && (spec_param_i64(
                    parameters.view(),
                    1,
                ) matches Some(t) ==> f.timestamp == spec_ticks_to_millis(t)),
                None => r is None,
            },
    {
        Self::from_params_at(parameters, now_millis())
    }
}

} // verus!

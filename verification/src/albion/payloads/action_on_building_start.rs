use vstd::prelude::*;
use crate::packet::parameters::RawParameters;
use crate::util::{param_i64, spec_param_i64};

verus! {

/// A building action was started.
#[derive(Clone, Debug, PartialEq, Eq)]
pub struct ActionOnBuildingStart {
    pub timestamp: i64,
    pub building_id: i64,
}

impl ActionOnBuildingStart {
    /// Timestamp under key 0, building under key 1; both must be integers.
    pub fn from_params(parameters: &RawParameters) -> (r: Option<ActionOnBuildingStart>)
        ensures
            match (spec_param_i64(parameters.view(), 0), spec_param_i64(parameters.view(), 1)) {
                (Some(t), Some(b)) => r == Some(ActionOnBuildingStart { timestamp: t, building_id: b }),
                _ => r is None,
            },
    {
        let timestamp = param_i64(parameters, 0)?;
        let building_id = param_i64(parameters, 1)?;
        Some(ActionOnBuildingStart { timestamp, building_id })
    }
}

} // verus!

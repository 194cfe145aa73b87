use vstd::prelude::*;
use crate::packet::parameters::RawParameters;
use crate::util::{param_i64, spec_param_i64};

verus! {

/// A building action was cancelled.
#[derive(Clone, Debug, PartialEq, Eq)]
pub struct ActionOnBuildingCancel {
    pub timestamp: i64,
    pub building_id: i64,
}

impl ActionOnBuildingCancel {
    /// Timestamp under key 1, building under key 2; both must be integers.
    pub fn from_params(parameters: &RawParameters) -> (r: Option<ActionOnBuildingCancel>)
        ensures
            match (spec_param_i64(parameters.view(), 1), spec_param_i64(parameters.view(), 2)) {
                (Some(t), Some(b)) => r == Some(ActionOnBuildingCancel { timestamp: t, building_id: b }),
                _ => r is None,
            },
    {
        let timestamp = param_i64(parameters, 1)?;
        let building_id = param_i64(parameters, 2)?;
        Some(ActionOnBuildingCancel { timestamp, building_id })
    }
}

} // verus!

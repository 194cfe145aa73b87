use vstd::prelude::*;
use crate::packet::parameters::RawParameters;
use crate::util::{param_i64, spec_param_i64};

verus! {

/// The building that repair information was shown for.
#[derive(Clone, Debug, PartialEq, Eq)]
pub struct RepairBuildingInfo {
    pub building_id: i64,
}

impl RepairBuildingInfo {
    /// Building under key 0, which must be an integer.
    pub fn from_params(parameters: &RawParameters) -> (r: Option<RepairBuildingInfo>)
        ensures
            match spec_param_i64(parameters.view(), 0) {
                Some(b) => r == Some(RepairBuildingInfo { building_id: b }),
                None => r is None,
            },
    {
        let building_id = param_i64(parameters, 0)?;
        Some(RepairBuildingInfo { building_id })
    }
}

} // verus!

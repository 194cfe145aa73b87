use vstd::prelude::*;
use crate::models::albion_location::opt_view;
use crate::models::guid::{read_bytes, read_groups, object_field, Guid};
use crate::packet::parameters::{ParamModel, ParamValue, RawParameters};
use crate::text::to_owned_string;
use crate::util::{param_i32, param_i64, param_str, spec_param_i32, spec_param_i64, spec_param_str};

verus! {

/// What the server tells the player on joining the world.
#[derive(Clone, Debug, PartialEq)]
pub struct JoinResponse {
    pub player_location: String,
    pub player_name: Option<String>,
    pub user_object_id: Option<i32>,
    pub user_guid: Option<Guid>,
    /// The global multiplier in ten-thousandths (the game sends 15000 for 1.5).
    pub global_multiplier_ten_thousandths: Option<i64>,
}

/// `r` is what a join response's parameters `p` say: location (key 8,
/// `Unknown` unless a string), name (2), object id (0), identifier (1, text
/// or byte dump), global multiplier (84).
pub open spec fn is_join_response(r: JoinResponse, p: Map<u8, ParamValue>) -> bool {
    &&& r.player_location@ == (match spec_param_str(p, 8) {
        Some(t) => t,
        None => "Unknown"@,
    })
    &&& opt_view(r.player_name) == spec_param_str(p, 2)
    &&& r.user_object_id == spec_param_i32(p, 0)
    &&& r.global_multiplier_ten_thousandths == spec_param_i64(p, 84)
    &&& if p.contains_key(1) {
        match p[1].model() {
            ParamModel::Str(t) => read_groups(r.user_guid, t),
            ParamModel::Object(fs) => match object_field(fs, "data_hex"@) {
                Some(ParamModel::Str(t)) => read_bytes(r.user_guid, t),
                _ => r.user_guid is None,
            },
            _ => r.user_guid is None,
        }
    } else {
        r.user_guid is None
    }
}

impl JoinResponse {
    /// Location (key 8, `Unknown` unless a string), name (2), object id (0),
    /// identifier (1, text or byte dump), global multiplier (84).
    pub fn from_params(params: &RawParameters) -> (r: JoinResponse)
        ensures
            is_join_response(r, params.view()),
    {
        let player_location = match param_str(params, 8) {
            Some(t) => t,
            None => to_owned_string("Unknown"),
        };
        let user_guid = match params.get(1) {
            Some(v) => Guid::from_value(v),
            None => None,
        };
        JoinResponse {
            player_location,
            player_name: param_str(params, 2),
            user_object_id: param_i32(params, 0),
            user_guid,
            global_multiplier_ten_thousandths: param_i64(params, 84),
        }
    }
}

} // verus!

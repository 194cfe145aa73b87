use vstd::prelude::*;
use crate::packet::parameters::{ParamValue, RawParameters};
use crate::util::{param_i64, spec_param_i64};

verus! {

/// The player joined a chat channel.
#[derive(Clone, Debug, PartialEq)]
pub struct JoinedChatChannel {
    pub chat_index: u8,
    pub channel_id: i64,
}

/// The chat index a joined-channel message gives: key 0 when an integer
/// from 0 to 255, else 0.
pub open spec fn joined_chat_index(p: Map<u8, ParamValue>) -> u8 {
    match spec_param_i64(p, 0) {
        Some(c) => if 0 <= c <= 255 {
            c as u8
        } else {
            0u8
        },
        None => 0u8,
    }
}

/// The channel id under a key: 0 when missing or not an integer.
pub open spec fn channel_id_at(p: Map<u8, ParamValue>, key: u8) -> i64 {
    match spec_param_i64(p, key) {
        Some(c) => c,
        None => 0,
    }
}

impl JoinedChatChannel {
    /// Chat index under key 0 (0 unless an integer from 0 to 255), channel
    /// under key 1 (0 unless an integer).
    pub fn from_params(parameters: &RawParameters) -> (r: JoinedChatChannel)
        ensures
            r.chat_index == joined_chat_index(parameters.view()),
            r.channel_id == channel_id_at(parameters.view(), 1),
    {
        let chat_index: u8 = match param_i64(parameters, 0) {
            Some(c) => if 0 <= c && c <= 255 {
                c as u8
            } else {
                0
            },
            None => 0,
        };
        JoinedChatChannel { chat_index, channel_id: param_i64(parameters, 1).unwrap_or(0) }
    }
}

} // verus!

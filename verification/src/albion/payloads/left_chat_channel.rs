use vstd::prelude::*;
use crate::packet::parameters::RawParameters;
use crate::albion::payloads::joined_chat_channel::channel_id_at;
use crate::util::param_i64;

verus! {

/// The player left a chat channel.
#[derive(Clone, Debug, PartialEq)]
pub struct LeftChatChannel {
    pub channel_id: i64,
}

impl LeftChatChannel {
    /// The channel under key 0; 0 when it is missing or not an integer.
    pub fn from_params(parameters: &RawParameters) -> (r: LeftChatChannel)
        ensures
            r.channel_id == channel_id_at(parameters.view(), 0),
    {
        LeftChatChannel { channel_id: param_i64(parameters, 0).unwrap_or(0) }
    }
}

} // verus!

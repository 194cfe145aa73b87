use vstd::prelude::*;
use crate::models::albion_location::opt_view;
use crate::models::chat_channel::ChatChannel;
use crate::packet::parameters::{ParamValue, RawParameters};
use crate::util::{param_i64, param_str, spec_param_i64, spec_param_str};

verus! {

/// A chat line: the channel it came on, who sent it, and what it says.
#[derive(Clone, Debug, PartialEq)]
pub struct ChatMessage {
    pub channel_id: i64,
    pub channel_type: ChatChannel,
    pub sender: Option<String>,
    pub message: Option<String>,
}

/// `r` is the message parameters `p` hold: channel under key 0 (0 unless
/// an integer), sender under key 1, text under key 2, on the given kind of
/// channel (say when none is given).
pub open spec fn is_chat_message(r: ChatMessage, p: Map<u8, ParamValue>, channel_type: Option<ChatChannel>) -> bool {
    &&& r.channel_id == (match spec_param_i64(p, 0) {
        Some(c) => c,
        None => 0,
    })
    &&& r.channel_type == (match channel_type {
        Some(c) => c,
        None => ChatChannel::Say,
    })
    &&& opt_view(r.sender) == spec_param_str(p, 1)
    &&& opt_view(r.message) == spec_param_str(p, 2)
}

impl ChatMessage {
    /// A message on channel `key 0` (0 unless an integer) from `key 1` saying
    /// `key 2`; the channel's kind is the one given, else say.
    pub fn from_params_with_channel_type(parameters: &RawParameters, channel_type: Option<ChatChannel>) -> (r: ChatMessage)
        ensures
            is_chat_message(r, parameters.view(), channel_type),
    {
        ChatMessage {
            channel_id: param_i64(parameters, 0).unwrap_or(0),
            channel_type: match channel_type {
                Some(c) => c,
                None => ChatChannel::Say,
            },
            sender: param_str(parameters, 1),
            message: param_str(parameters, 2),
        }
    }

    /// A message said aloud nearby: the same layout, on the say channel.
    pub fn from_say_params(parameters: &RawParameters) -> (r: ChatMessage)
        ensures
            is_chat_message(r, parameters.view(), Some(ChatChannel::Say)),
    {
        ChatMessage::from_params_with_channel_type(parameters, Some(ChatChannel::Say))
    }
}

} // verus!

//! The chat channels a message can arrive on.

use vstd::prelude::*;

verus! {

#[derive(Clone, Copy, Debug, PartialEq, Eq)]
pub enum ChatChannel {
    Say,
    Guild,
    Faction,
}

impl ChatChannel {
    /// The channel a chat index stands for: 24 guild, 29 faction, any other say.
    pub fn from_chat_index(value: i64) -> (r: ChatChannel)
        ensures
            r == (if value == 24 {
                ChatChannel::Guild
            } else if value == 29 {
                ChatChannel::Faction
            } else {
                ChatChannel::Say
            }),
    {
        match value {
            27 => ChatChannel::Say,
            24 => ChatChannel::Guild,
            29 => ChatChannel::Faction,
            _ => ChatChannel::Say,
        }
    }

    /// The channel of a well-known channel id: 3517 guild, 1868 and 1856 the
    /// city factions, any other say.
    pub fn from_i64(value: i64) -> (r: ChatChannel)
        ensures
            r == (if value == 3517 {
                ChatChannel::Guild
            } else if value == 1868 || value == 1856 {
                ChatChannel::Faction
            } else {
                ChatChannel::Say
            }),
    {
        match value {
            0 => ChatChannel::Say,
            3517 => ChatChannel::Guild,
            1868 => ChatChannel::Faction,
            1856 => ChatChannel::Faction,
            _ => ChatChannel::Say,
        }
    }

    /// The channel's display name: `Local`, `Guild` or `Faction`.
    pub fn display_name(&self) -> (r: &'static str)
        ensures
            r@ == (match self {
                ChatChannel::Say => "Local"@,
                ChatChannel::Guild => "Guild"@,
                ChatChannel::Faction => "Faction"@,
            }),
    {
        match self {
            ChatChannel::Say => "Local",
            ChatChannel::Faction => "Faction",
            ChatChannel::Guild => "Guild",
        }
    }
}

} // verus!

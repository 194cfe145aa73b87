//! Which chat channels the player has joined, and their kinds.

use vstd::prelude::*;
use std::collections::HashMap;
use crate::models::chat_channel::ChatChannel;

verus! {

broadcast use vstd::std_specs::hash::group_hash_axioms;

/// The kind of channel each joined chat index stands for.
pub open spec fn channel_of_index(chat_index: i64) -> ChatChannel {
    if chat_index == 24 {
        ChatChannel::Guild
    } else if chat_index == 29 {
        ChatChannel::Faction
    } else {
        ChatChannel::Say
    }
}

pub struct ChatState {
    channels_by_id: HashMap<i64, ChatChannel>,
}

impl ChatState {
    /// The joined channels: channel id to kind.
    pub closed spec fn view(&self) -> Map<i64, ChatChannel> {
        self.channels_by_id@
    }

    /// The joined channels are finitely many.
    pub proof fn lemma_view_finite(&self)
        ensures
            self.view().dom().finite(),
    {
        vstd::std_specs::hash::axiom_hashmap_view_finite_dom(self.channels_by_id);
    }

    /// No channel joined.
    pub fn new() -> (r: ChatState)
        ensures
            r.view() == Map::<i64, ChatChannel>::empty(),
            r.view().dom().finite(),
    {
        ChatState { channels_by_id: HashMap::new() }
    }

    /// Records that the channel `channel_id` was joined with `chat_index`.
    pub fn join_channel(&mut self, channel_id: i64, chat_index: i64)
        ensures
            final(self).view() == old(self).view().insert(channel_id, channel_of_index(chat_index)),
            final(self).view().dom().finite(),
            final(self).view().len() == old(self).view().len() + (if old(self).view().contains_key(
                channel_id,
            ) {
                0int
            } else {
                1int
            }),
    {
        proof {
            old(self).lemma_view_finite();
        }
        self.channels_by_id.insert(channel_id, ChatChannel::from_chat_index(chat_index));
        proof {
            self.lemma_view_finite();
            assert(self.view().dom() =~= old(self).view().dom().insert(channel_id));
        }
    }

    /// Forgets the channel `channel_id`.
    pub fn leave_channel(&mut self, channel_id: i64)
        ensures
            final(self).view() == old(self).view().remove(channel_id),
            final(self).view().dom().finite(),
            final(self).view().len() == old(self).view().len() - (if old(self).view().contains_key(
                channel_id,
            ) {
                1int
            } else {
                0int
            }),
    {
        proof {
            old(self).lemma_view_finite();
        }
        self.channels_by_id.remove(&channel_id);
        proof {
            self.lemma_view_finite();
            assert(self.view().dom() =~= old(self).view().dom().remove(channel_id));
        }
    }

    /// The kind of a joined channel.
    pub fn channel_type(&self, channel_id: i64) -> (r: Option<ChatChannel>)
        ensures
            r == (if self.view().contains_key(channel_id) {
                Some(self.view()[channel_id])
            } else {
                None
            }),
    {
        match self.channels_by_id.get(&channel_id) {
            Some(c) => Some(*c),
            None => None,
        }
    }

    /// Forgets every channel.
    pub fn clear(&mut self)
        ensures
            final(self).view() == Map::<i64, ChatChannel>::empty(),
            final(self).view().dom().finite(),
    {
        self.channels_by_id.clear();
    }

    /// The number of joined channels.
    pub fn len(&self) -> (r: usize)
        ensures
            r == self.view().len(),
    {
        self.channels_by_id.len()
    }

    pub fn is_empty(&self) -> (r: bool)
        ensures
            r == (self.view().len() == 0),
    {
        proof {
            vstd::std_specs::hash::axiom_hashmap_view_finite_dom(self.channels_by_id);
            if self.view().len() == 0 {
                self.view().dom().lemma_len0_is_empty();
            }
        }
        self.channels_by_id.is_empty()
    }
}

/// Joining a channel and then leaving it forgets it, whatever was known of
/// it before; other channels are unchanged.
pub proof fn law_leave_undoes_join(before: Map<i64, ChatChannel>, channel_id: i64, chat_index: i64)
    ensures
        before.insert(channel_id, channel_of_index(chat_index)).remove(channel_id) == before.remove(
            channel_id,
        ),
{
    assert(before.insert(channel_id, channel_of_index(chat_index)).remove(channel_id) =~= before.remove(
        channel_id,
    ));
}

} // verus!

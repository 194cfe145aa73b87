//! The local player as a session reveals it: location, name, server,
//! object id, and whether encrypted traffic was seen.

use vstd::prelude::*;
use crate::models::albion_location::{unknown_id, AlbionLocation};
use crate::text::to_owned_string;

verus! {

pub struct PlayerState {
    location: AlbionLocation,
    player_name: String,
    albion_server: Option<String>,
    user_object_id: Option<i32>,
    has_encrypted_data: bool,
}

impl PlayerState {
    pub closed spec fn spec_location(&self) -> AlbionLocation {
        self.location
    }

    pub closed spec fn spec_player_name(&self) -> Seq<char> {
        self.player_name@
    }

    pub closed spec fn spec_albion_server(&self) -> Option<String> {
        self.albion_server
    }

    pub closed spec fn spec_user_object_id(&self) -> Option<i32> {
        self.user_object_id
    }

    pub closed spec fn spec_has_encrypted_data(&self) -> bool {
        self.has_encrypted_data
    }

    /// A player not yet seen, as [`Default`] gives it.
    pub fn new() -> (r: PlayerState)
        ensures
            r.spec_location().id@ == unknown_id(),
            r.spec_location().location_name is None,
            r.spec_location().friendly_location_name is None,
            r.spec_player_name().len() == 0,
            r.spec_albion_server() is None,
            r.spec_user_object_id() is None,
            !r.spec_has_encrypted_data(),
    {
        PlayerState::default()
    }
}

impl Default for PlayerState {
    /// A player not yet seen: unknown location, empty name, no server, no
    /// object id, no encrypted traffic.
    fn default() -> (r: PlayerState)
        ensures
            r.spec_location().id@ == unknown_id(),
            r.spec_location().location_name is None,
            r.spec_location().friendly_location_name is None,
            r.spec_player_name().len() == 0,
            r.spec_albion_server() is None,
            r.spec_user_object_id() is None,
            !r.spec_has_encrypted_data(),
    {
        PlayerState {
            location: AlbionLocation::unknown(),
            player_name: String::new(),
            albion_server: None,
            user_object_id: None,
            has_encrypted_data: false,
        }
    }
}

impl PlayerState {
    pub fn location(&self) -> (r: &AlbionLocation)
        ensures
            *r == self.spec_location(),
    {
        &self.location
    }

    /// The numeric id of the current location.
    pub fn location_id(&self) -> (r: Option<i64>)
        ensures
            r == self.spec_location().spec_location_id(),
    {
        self.location.location_id()
    }

    /// The index of the current location, unless it is unknown.
    pub fn location_index(&self) -> (r: Option<&str>)
        ensures
            match r {
                Some(t) => !self.spec_location().spec_is_unknown() && t@ == self.spec_location().id@,
                None => self.spec_location().spec_is_unknown(),
            },
    {
        self.location.location_index()
    }

    pub fn player_name(&self) -> (r: &str)
        ensures
            r@ == self.spec_player_name(),
    {
        self.player_name.as_str()
    }

    pub fn has_encrypted_data(&self) -> (r: bool)
        ensures
            r == self.spec_has_encrypted_data(),
    {
        self.has_encrypted_data
    }

    pub fn user_object_id(&self) -> (r: Option<i32>)
        ensures
            r == self.spec_user_object_id(),
    {
        self.user_object_id
    }

    pub fn set_location(&mut self, location: AlbionLocation)
        ensures
            final(self).spec_location() == location,
            final(self).spec_player_name() == old(self).spec_player_name(),
            final(self).spec_albion_server() == old(self).spec_albion_server(),
            final(self).spec_user_object_id() == old(self).spec_user_object_id(),
            final(self).spec_has_encrypted_data() == old(self).spec_has_encrypted_data(),
    {
        self.location = location;
    }

    pub fn set_player_name(&mut self, player_name: &str)
        ensures
            final(self).spec_player_name() == player_name@,
            final(self).spec_location() == old(self).spec_location(),
            final(self).spec_albion_server() == old(self).spec_albion_server(),
            final(self).spec_user_object_id() == old(self).spec_user_object_id(),
            final(self).spec_has_encrypted_data() == old(self).spec_has_encrypted_data(),
    {
        self.player_name = to_owned_string(player_name);
    }

    pub fn set_albion_server(&mut self, albion_server: Option<String>)
        ensures
            final(self).spec_location() == old(self).spec_location(),
            final(self).spec_player_name() == old(self).spec_player_name(),
            final(self).spec_albion_server() == albion_server,
            final(self).spec_user_object_id() == old(self).spec_user_object_id(),
            final(self).spec_has_encrypted_data() == old(self).spec_has_encrypted_data(),
    {
        self.albion_server = albion_server;
    }

    pub fn set_user_object_id(&mut self, user_object_id: Option<i32>)
        ensures
            final(self).spec_location() == old(self).spec_location(),
            final(self).spec_player_name() == old(self).spec_player_name(),
            final(self).spec_albion_server() == old(self).spec_albion_server(),
            final(self).spec_user_object_id() == user_object_id,
            final(self).spec_has_encrypted_data() == old(self).spec_has_encrypted_data(),
    {
        self.user_object_id = user_object_id;
    }

    pub fn set_has_encrypted_data(&mut self, has_encrypted_data: bool)
        ensures
            final(self).spec_location() == old(self).spec_location(),
            final(self).spec_player_name() == old(self).spec_player_name(),
            final(self).spec_albion_server() == old(self).spec_albion_server(),
            final(self).spec_user_object_id() == old(self).spec_user_object_id(),
            final(self).spec_has_encrypted_data() == has_encrypted_data,
    {
        self.has_encrypted_data = has_encrypted_data;
    }

    /// Records that encrypted traffic was seen; nothing else changes.
    pub fn mark_encrypted_data_seen(&mut self)
        ensures
            final(self).spec_location() == old(self).spec_location(),
            final(self).spec_player_name() == old(self).spec_player_name(),
            final(self).spec_albion_server() == old(self).spec_albion_server(),
            final(self).spec_user_object_id() == old(self).spec_user_object_id(),
            final(self).spec_has_encrypted_data() == true,
    {
        self.has_encrypted_data = true;
    }
}

} // verus!

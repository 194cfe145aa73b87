//! The local player as a session reveals it, with locations resolved
//! against a world map.

use vstd::prelude::*;
use std::sync::Arc;
use crate::models::albion_location::{opt_view, unknown_id, AlbionLocation};
use crate::models::world_map::{is_resolution, spec_resolve, WorldMap};

verus! {

pub struct PlayerState {
    pub world_map: Arc<WorldMap>,
    pub location: AlbionLocation,
    pub player_name: String,
    pub albion_server: Option<String>,
    pub user_object_id: Option<i32>,
    pub has_encrypted_data: bool,
}

impl PlayerState {
    /// The map that locations are resolved against.
    pub open spec fn map(&self) -> WorldMap {
        *self.world_map
    }

    /// A player not yet seen: unknown location, empty name, no server or
    /// object id, no encrypted traffic.
    pub fn new(world_map: Arc<WorldMap>) -> (r: PlayerState)
        ensures
            r.map() == *world_map,
            r.location.id@ == unknown_id(),
            r.location.location_name is None,
            r.location.friendly_location_name is None,
            r.player_name@.len() == 0,
            r.albion_server is None,
            r.user_object_id is None,
            !r.has_encrypted_data,
    {
        PlayerState {
            world_map,
            location: AlbionLocation::unknown(),
            player_name: String::new(),
            albion_server: None,
            user_object_id: None,
            has_encrypted_data: false,
        }
    }

    /// The numeric id of the current location, as [`AlbionLocation::location_id`] gives it.
    pub fn location_id(&self) -> (r: Option<i64>)
        ensures
            r == self.location.spec_location_id(),
    {
        self.location.location_id()
    }

    /// The index of the current location, unless it is unknown.
    pub fn location_index(&self) -> (r: Option<&str>)
        ensures
            match r {
                Some(t) => !self.location.spec_is_unknown() && t@ == self.location.id@,
                None => self.location.spec_is_unknown(),
            },
    {
        self.location.location_index()
    }

    pub fn user_object_id(&self) -> (r: Option<i32>)
        ensures
            r == self.user_object_id,
    {
        self.user_object_id
    }

    pub fn set_has_encrypted_data(&mut self, has_encrypted_data: bool)
        ensures
            *final(self) == (PlayerState { has_encrypted_data, ..*old(self) }),
    {
        self.has_encrypted_data = has_encrypted_data;
    }

    /// Moves the player to the location a raw text resolves to on the map.
    pub fn set_location_raw(&mut self, location: &str)
        ensures
            is_resolution(
                final(self).location,
                spec_resolve(old(self).map().index_view(), old(self).map().name_view(), location@),
            ),
            final(self).world_map == old(self).world_map,
            final(self).map() == old(self).map(),
            final(self).player_name == old(self).player_name,
            final(self).albion_server == old(self).albion_server,
            final(self).user_object_id == old(self).user_object_id,
            final(self).has_encrypted_data == old(self).has_encrypted_data,
    {
        let resolved = self.world_map.resolve_location(location);
        self.location = resolved;
    }

    pub fn set_player_name(&mut self, player_name: &str)
        ensures
            final(self).player_name@ == player_name@,
            final(self).world_map == old(self).world_map,
            final(self).map() == old(self).map(),
            final(self).location == old(self).location,
            final(self).albion_server == old(self).albion_server,
            final(self).user_object_id == old(self).user_object_id,
            final(self).has_encrypted_data == old(self).has_encrypted_data,
    {
        self.player_name = crate::text::to_owned_string(player_name);
    }

    pub fn set_albion_server(&mut self, albion_server: Option<String>)
        ensures
            *final(self) == (PlayerState { albion_server, ..*old(self) }),
    {
        self.albion_server = albion_server;
    }

    pub fn set_user_object_id(&mut self, user_object_id: Option<i32>)
        ensures
            *final(self) == (PlayerState { user_object_id, ..*old(self) }),
    {
        self.user_object_id = user_object_id;
    }
}

} // verus!

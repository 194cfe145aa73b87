use albion_network_lib::albion::player_state::PlayerState;
use albion_network_lib::models::albion_location::AlbionLocation;
use albion_network_lib::models::player_state::PlayerState as TrackedPlayerState;
use albion_network_lib::models::world_map::WorldMap;
use std::sync::Arc;

#[test]
fn setters_update_identity_and_flags() {
    let mut state = PlayerState::new();

    state.set_user_object_id(Some(42));
    state.set_player_name("TestPlayer");
    state.mark_encrypted_data_seen();

    assert_eq!(state.user_object_id(), Some(42));
    assert_eq!(state.player_name(), "TestPlayer");
    assert!(state.has_encrypted_data());
}

#[test]
fn set_location_stores_resolved_location() {
    let mut state = PlayerState::new();

    state.set_location(AlbionLocation::with_names("2000", "Bridgewatch", "Bridgewatch"));

    assert_eq!(state.location().friendly_name(), "Bridgewatch");
    assert_eq!(state.location_id(), Some(2000));
}

fn tracked_state() -> TrackedPlayerState {
    TrackedPlayerState::new(Arc::new(WorldMap::from_embedded().unwrap()))
}

#[test]
fn defaults_match_csharp_intent() {
    let state = tracked_state();

    assert_eq!(state.location, AlbionLocation::unknown());
    assert_eq!(state.player_name, "");
    assert_eq!(state.user_object_id(), None);
}

#[test]
fn join_style_updates_set_identity_and_location() {
    let mut state = tracked_state();

    state.set_user_object_id(Some(42));
    state.set_player_name("TestPlayer");
    state.set_location_raw("Bridgewatch");

    assert_eq!(state.user_object_id(), Some(42));
    assert_eq!(state.player_name, "TestPlayer");
    assert_eq!(state.location.friendly_name(), "Bridgewatch");
    assert_eq!(state.location.location_id(), Some(2000));
}

#[test]
fn fresh_player_has_unknown_location_and_no_identity() {
    let state = PlayerState::new();

    assert!(state.location().is_unknown());
    assert_eq!(state.location_id(), None);
    assert_eq!(state.location_index(), None);
    assert_eq!(state.player_name(), "");
    assert_eq!(state.user_object_id(), None);
    assert!(!state.has_encrypted_data());
}

#[test]
fn albion_server_and_encryption_flag_are_kept_separately() {
    let mut state = PlayerState::new();

    state.set_albion_server(Some("live".to_string()));
    state.set_has_encrypted_data(true);
    state.set_has_encrypted_data(false);

    assert!(!state.has_encrypted_data());
    assert_eq!(state.location_index(), None);
}

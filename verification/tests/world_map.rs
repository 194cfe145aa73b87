use albion_network_lib::models::albion_location::AlbionLocation;
use albion_network_lib::models::world_map::WorldMap;
use albion_network_lib::packet::ParamValue;

#[test]
fn loads_embedded_world_map() {
    let world_map = WorldMap::from_embedded().unwrap();

    assert_eq!(world_map.index_from_name("Bridgewatch"), Some("2000"));
    assert_eq!(world_map.name_from_index("2000"), Some("Bridgewatch"));
}

#[test]
fn resolves_locations_by_index_and_unique_name() {
    let world_map = WorldMap::from_embedded().unwrap();

    assert_eq!(
        world_map.resolve_location("2000"),
        AlbionLocation::with_names("2000", "Bridgewatch", "Bridgewatch")
    );
    assert_eq!(
        world_map.resolve_location("Bridgewatch"),
        AlbionLocation::with_names("2000", "Bridgewatch", "Bridgewatch")
    );
}

#[test]
fn resolves_non_numeric_indexes_and_unknowns() {
    let world_map = WorldMap::from_embedded().unwrap();

    assert_eq!(
        world_map.resolve_location("ISLAND-GUILD-0001a"),
        AlbionLocation::with_names(
            "ISLAND-GUILD-0001a",
            "ISLAND-GUILD-0001a_ISL_DL_T1_NON",
            "ISLAND-GUILD-0001a_ISL_DL_T1_NON",
        )
    );
    assert_eq!(world_map.resolve_location("UNKNOWN-NON-NUMERIC"), AlbionLocation::unknown());
    assert_eq!(world_map.resolve_location("").id, "-2");
}

#[test]
fn placeholders_resolve_to_unknown() {
    let world_map = WorldMap::from_embedded().unwrap();

    assert!(world_map.resolve_location("unset").is_unknown());
    assert!(world_map.resolve_location("UNKNOWN").is_unknown());
    assert!(world_map.resolve_location("-2").is_unknown());
    assert!(world_map.resolve_location("   ").is_unknown());
}

#[test]
fn world_map_reads_json_entries_with_later_entries_winning() {
    let json = r#"[{"Index":"1","UniqueName":"A"},{"Index":"1","UniqueName":"B","Extra":3}]"#;
    let world_map = WorldMap::from_json_str(json).unwrap();

    assert_eq!(world_map.name_from_index("1"), Some("B"));
    assert_eq!(world_map.index_from_name("A"), Some("1"));
    assert!(WorldMap::from_json_str("{}").is_err());
    assert!(WorldMap::from_json_str("not json").is_err());
    assert!(WorldMap::from_json_str(r#"[{"Index":1,"UniqueName":"A"}]"#).is_err());
}

#[test]
fn empty_world_map_knows_nothing() {
    let world_map = WorldMap::empty();

    assert_eq!(world_map.name_from_index("2000"), None);
    assert!(world_map.resolve_location("2000").is_unknown());
}

#[test]
fn world_map_reads_json_entries() {
    let map = WorldMap::from_json_str(
        r#"[{"Index": "1", "UniqueName": "One", "Other": 5}, ["2", "Two"], {"Index": "1", "UniqueName": "Uno"}]"#,
    )
    .unwrap();

    assert_eq!(map.name_from_index("1"), Some("Uno"));
    assert_eq!(map.name_from_index("2"), Some("Two"));
    assert_eq!(map.index_from_name("One"), Some("1"));
    assert_eq!(map.index_from_name("Two"), Some("2"));

    assert!(WorldMap::from_json_str("not json").is_err());
    assert!(WorldMap::from_json_str(r#"{"Index": "1"}"#).is_err());
    assert!(WorldMap::from_json_str(r#"[{"Index": 1, "UniqueName": "One"}]"#).is_err());
    assert!(WorldMap::from_json_str(r#"[["1"]]"#).is_err());
}

#[test]
fn world_map_reads_a_parsed_value() {
    let text = |t: &str| ParamValue::Str(t.to_string());
    let entry = |index: &str, name: &str| {
        ParamValue::Object(vec![
            ("UniqueName".to_string(), text(name)),
            ("Index".to_string(), text(index)),
        ])
    };
    let value = ParamValue::Array(vec![
        entry("4002", "Fort Sterling"),
        ParamValue::Array(vec![text("0301"), text("Thetford")]),
    ]);

    let map = WorldMap::from_value(&value).unwrap();
    assert_eq!(map.name_from_index("4002"), Some("Fort Sterling"));
    assert_eq!(map.index_from_name("Thetford"), Some("0301"));
    assert_eq!(map.resolve_location("4002").friendly_name(), "Fort Sterling");

    assert!(WorldMap::from_value(&ParamValue::Object(Vec::new())).is_err());
    assert!(WorldMap::from_value(&ParamValue::Array(vec![ParamValue::Null])).is_err());

    let small = WorldMap::from_embedded().unwrap();
    assert!(small.resolve_location("4002").is_unknown());
}

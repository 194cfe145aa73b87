//! The world's locations by index and by unique name.

use vstd::prelude::*;
use vstd::hash_map::StringHashMap;
use crate::models::albion_location::{opt_view, unknown_id, AlbionLocation};
use crate::error::DecodeError;
use crate::models::guid::{find_field, object_field};
use crate::packet::json::{json_text_value, parse_json};
use crate::packet::parameters::{ParamModel, ParamValue};
use crate::text::{chars_of, eq_ignore_ascii_case, eq_ignore_case, str_eq, to_owned_string, trim_chars, trimmed};

verus! {

/// Locations looked up both ways: index to unique name, unique name to index.
pub struct WorldMap {
    by_index: StringHashMap<String>,
    by_name: StringHashMap<String>,
}

/// Index to name, for a list of (index, name) entries where later entries win.
pub open spec fn names_by_index(entries: Seq<(Seq<char>, Seq<char>)>) -> Map<Seq<char>, Seq<char>>
    decreases entries.len(),
{
    if entries.len() == 0 {
        Map::empty()
    } else {
        names_by_index(entries.drop_last()).insert(entries.last().0, entries.last().1)
    }
}

/// Name to index, for a list of (index, name) entries where later entries win.
pub open spec fn indexes_by_name(entries: Seq<(Seq<char>, Seq<char>)>) -> Map<Seq<char>, Seq<char>>
    decreases entries.len(),
{
    if entries.len() == 0 {
        Map::empty()
    } else {
        indexes_by_name(entries.drop_last()).insert(entries.last().1, entries.last().0)
    }
}

/// The text of each entry of a list of string pairs.
pub open spec fn pairs_view(entries: Seq<(String, String)>) -> Seq<(Seq<char>, Seq<char>)> {
    entries.map_values(|e: (String, String)| (e.0@, e.1@))
}

/// Texts that name no place: blank, `unset`, `unknown` (any case), `-2`.
pub open spec fn names_no_place(value: Seq<char>) -> bool {
    ||| trimmed(value).len() == 0
    ||| eq_ignore_case(value, "unset"@)
    ||| eq_ignore_case(value, "unknown"@)
    ||| value == unknown_id()
}

/// The location a text resolves to: by index first, then by unique name;
/// `None` stands for the unknown location. The pair is (index, name).
pub open spec fn spec_resolve(
    by_index: Map<Seq<char>, Seq<char>>,
    by_name: Map<Seq<char>, Seq<char>>,
    value: Seq<char>,
) -> Option<(Seq<char>, Seq<char>)> {
    if names_no_place(value) {
        None
    } else if by_index.contains_key(value) {
        Some((value, by_index[value]))
    } else if by_name.contains_key(value) {
        Some((by_name[value], value))
    } else {
        None
    }
}

/// A location is the resolution `res` of some text: known with both names
/// equal to the unique name, or the unknown location.
pub open spec fn is_resolution(loc: AlbionLocation, res: Option<(Seq<char>, Seq<char>)>) -> bool {
    match res {
        Some((index, name)) => {
            &&& loc.id@ == index
            &&& opt_view(loc.location_name) == Some(name)
            &&& opt_view(loc.friendly_location_name) == Some(name)
        },
        None => {
            &&& loc.id@ == unknown_id()
            &&& loc.location_name is None
            &&& loc.friendly_location_name is None
        },
    }
}

/// The (index, unique name) of one entry of a world map in JSON: an object
/// whose `Index` and `UniqueName` fields are strings, or the two strings in
/// an array of two.
pub open spec fn world_entry(v: ParamModel) -> Option<(Seq<char>, Seq<char>)> {
    match v {
        ParamModel::Object(fs) => match (object_field(fs, "Index"@), object_field(fs, "UniqueName"@)) {
            (Some(ParamModel::Str(index)), Some(ParamModel::Str(name))) => Some((index, name)),
            _ => None,
        },
        ParamModel::Array(parts) => if parts.len() == 2 {
            match (parts[0], parts[1]) {
                (ParamModel::Str(index), ParamModel::Str(name)) => Some((index, name)),
                _ => None,
            }
        } else {
            None
        },
        _ => None,
    }
}

/// The entries of a world map in JSON: an array of such objects.
pub open spec fn world_entries(v: ParamModel) -> Option<Seq<(Seq<char>, Seq<char>)>> {
    match v {
        ParamModel::Array(items) => if forall|i: int| 0 <= i < items.len() ==> (#[trigger] world_entry(items[i])) is Some {
            Some(items.map_values(|m: ParamModel| world_entry(m)->Some_0))
        } else {
            None
        },
        _ => None,
    }
}

/// The (index, unique name) entries built into the library: four
/// locations only, not the game's whole world. A full map is loaded from
/// its JSON with [`WorldMap::from_json_str`] (or [`WorldMap::from_value`]);
/// with this one, any other index resolves to an unknown location.
pub open spec fn embedded_world() -> Seq<(Seq<char>, Seq<char>)> {
    seq![
        ("2000"@, "Bridgewatch"@),
        ("3003"@, "Caerleon"@),
        ("3008"@, "Martlock Market"@),
        ("ISLAND-GUILD-0001a"@, "ISLAND-GUILD-0001a_ISL_DL_T1_NON"@),
    ]
}

fn entry(index: &str, name: &str) -> (r: (String, String))
    ensures
        r.0@ == index@,
        r.1@ == name@,
{
    (to_owned_string(index), to_owned_string(name))
}

fn embedded_entries() -> (r: Vec<(String, String)>)
    ensures
        pairs_view(r@) == embedded_world(),
{
    let mut r: Vec<(String, String)> = Vec::new();
    r.push(entry("2000", "Bridgewatch"));
    r.push(entry("3003", "Caerleon"));
    r.push(entry("3008", "Martlock Market"));
    r.push(entry("ISLAND-GUILD-0001a", "ISLAND-GUILD-0001a_ISL_DL_T1_NON"));
    assert(pairs_view(r@) =~= embedded_world());
    r
}

impl WorldMap {
    pub closed spec fn index_view(&self) -> Map<Seq<char>, Seq<char>> {
        self.by_index@.map_values(|v: String| v@)
    }

    pub closed spec fn name_view(&self) -> Map<Seq<char>, Seq<char>> {
        self.by_name@.map_values(|v: String| v@)
    }

    /// A map that knows no location.
    pub fn empty() -> (r: WorldMap)
        ensures
            r.index_view() == Map::<Seq<char>, Seq<char>>::empty(),
            r.name_view() == Map::<Seq<char>, Seq<char>>::empty(),
    {
        let r = WorldMap { by_index: StringHashMap::new(), by_name: StringHashMap::new() };
        assert(r.index_view() =~= Map::<Seq<char>, Seq<char>>::empty());
        assert(r.name_view() =~= Map::<Seq<char>, Seq<char>>::empty());
        r
    }

    /// A map of the given (index, unique name) entries; later entries win.
    pub fn from_entries(entries: &[(String, String)]) -> (r: WorldMap)
        ensures
            r.index_view() == names_by_index(pairs_view(entries@)),
            r.name_view() == indexes_by_name(pairs_view(entries@)),
    {
        let mut r = WorldMap::empty();
        let ghost all = pairs_view(entries@);
        let mut i: usize = 0;
        while i < entries.len()
            invariant
                i <= entries.len(),
                all == pairs_view(entries@),
                r.index_view() == names_by_index(all.take(i as int)),
                r.name_view() == indexes_by_name(all.take(i as int)),
            decreases entries.len() - i,
        {
            let index = entries[i].0.clone();
            let name = entries[i].1.clone();
            let ghost before_i = r.index_view();
            let ghost before_n = r.name_view();
            r.by_index.insert(index.clone(), name.clone());
            r.by_name.insert(name, index);
            proof {
                assert(all.take(i + 1).drop_last() =~= all.take(i as int));
                assert(all.take(i + 1).last() == all[i as int]);
                assert(r.index_view() =~= before_i.insert(all[i as int].0, all[i as int].1));
                assert(r.name_view() =~= before_n.insert(all[i as int].1, all[i as int].0));
            }
            i = i + 1;
        }
        assert(all.take(entries.len() as int) =~= all);
        r
    }

    /// A map from a JSON text: an array of objects with string fields
    /// `Index` and `UniqueName` (other fields are ignored), later entries
    /// winning, as [`world_entries`] reads it. Text that is not JSON, or
    /// JSON of another shape, is an error.
    pub fn from_json_str(json: &str) -> (r: crate::error::Result<WorldMap>)
        ensures
            match json_text_value(json@) {
                Some(v) => match world_entries(v) {
                    Some(es) => r matches Ok(m) && m.index_view() == names_by_index(es)
                        && m.name_view() == indexes_by_name(es),
                    None => r is Err,
                },
                None => r is Err,
            },
    {
        match parse_json(json) {
            Some(value) => WorldMap::from_value(&value),
            None => Err(DecodeError::new("world map is not valid JSON")),
        }
    }

    /// A map from a parsed JSON value, as [`world_entries`] reads it; a
    /// value of another shape is an error.
    pub fn from_value(value: &ParamValue) -> (r: crate::error::Result<WorldMap>)
        ensures
            match world_entries(value.model()) {
                Some(es) => r matches Ok(m) && m.index_view() == names_by_index(es)
                    && m.name_view() == indexes_by_name(es),
                None => r is Err,
            },
    {
        let items = match value {
            ParamValue::Array(items) => items,
            _ => return Err(DecodeError::new("world map must be a JSON array")),
        };
        let ghost ms = Seq::new(items.len() as nat, |k: int| items@[k].model());
        proof {
            assert(value.model()->Array_0 =~= ms);
        }
        let mut entries: Vec<(String, String)> = Vec::new();
        let mut i: usize = 0;
        while i < items.len()
            invariant
                i <= items.len(),
                ms == Seq::new(items.len() as nat, |k: int| items@[k].model()),
                value.model() == ParamModel::Array(ms),
                entries.len() == i,
                forall|j: int| 0 <= j < i ==> #[trigger] world_entry(ms[j]) == Some(pairs_view(entries@)[j]),
            decreases items.len() - i,
        {
            let entry = match &items[i] {
                ParamValue::Object(fields) => {
                    let ghost fs = Seq::new(fields.len() as nat, |k: int| (fields@[k].0@, fields@[k].1.model()));
                    proof {
                        assert(items@[i as int].model()->Object_0 =~= fs);
                    }
                    match (find_field(fields, "Index"), find_field(fields, "UniqueName")) {
                        (Some(ParamValue::Str(index)), Some(ParamValue::Str(name))) => (index.clone(), name.clone()),
                        _ => {
                            proof {
                                assert(ms[i as int] == ParamModel::Object(fs));
                                assert(world_entry(ms[i as int]) is None);
                            }
                            return Err(DecodeError::new("world map entries need string fields Index and UniqueName"));
                        },
                    }
                },
                ParamValue::Array(parts) => {
                    proof {
                        assert(items@[i as int].model()->Array_0.len() == parts.len());
                    }
                    if parts.len() != 2 {
                        return Err(DecodeError::new("world map entries need string fields Index and UniqueName"));
                    }
                    proof {
                        assert(items@[i as int].model()->Array_0[0] == parts@[0].model());
                        assert(items@[i as int].model()->Array_0[1] == parts@[1].model());
                    }
                    match (&parts[0], &parts[1]) {
                        (ParamValue::Str(index), ParamValue::Str(name)) => (index.clone(), name.clone()),
                        _ => {
                            return Err(DecodeError::new("world map entries need string fields Index and UniqueName"));
                        },
                    }
                },
                _ => {
                    proof {
                        assert(world_entry(ms[i as int]) is None);
                    }
                    return Err(DecodeError::new("world map entries must be JSON objects"));
                },
            };
            let ghost before = entries@;
            entries.push(entry);
            proof {
                assert forall|j: int| 0 <= j < i + 1 implies #[trigger] world_entry(ms[j]) == Some(
                    pairs_view(entries@)[j],
                ) by {
                    if j < i {
                        assert(entries@[j] == before[j]);
                    }
                }
            }
            i = i + 1;
        }
        proof {
            assert(pairs_view(entries@) =~= ms.map_values(|m: ParamModel| world_entry(m)->Some_0));
        }
        Ok(WorldMap::from_entries(&entries))
    }

    /// The small map built into the library ([`embedded_world`]: four
    /// locations, not the whole world).
    pub fn from_embedded() -> (r: crate::error::Result<WorldMap>)
        ensures
            r matches Ok(m) && m.index_view() == names_by_index(embedded_world())
                && m.name_view() == indexes_by_name(embedded_world()),
    {
        let entries = embedded_entries();
        Ok(WorldMap::from_entries(&entries))
    }

    /// The unique name of the location at `index`.
    pub fn name_from_index(&self, index: &str) -> (r: Option<&str>)
        ensures
            match r {
                Some(t) => self.index_view().contains_key(index@) && t@ == self.index_view()[index@],
                None => !self.index_view().contains_key(index@),
            },
    {
        match self.by_index.get(index) {
            Some(t) => Some(t.as_str()),
            None => None,
        }
    }

    /// The index of the location with unique name `name`.
    pub fn index_from_name(&self, name: &str) -> (r: Option<&str>)
        ensures
            match r {
                Some(t) => self.name_view().contains_key(name@) && t@ == self.name_view()[name@],
                None => !self.name_view().contains_key(name@),
            },
    {
        match self.by_name.get(name) {
            Some(t) => Some(t.as_str()),
            None => None,
        }
    }

    /// The location a text names, by index or by unique name, as
    /// [`spec_resolve`] says.
    pub fn resolve_location(&self, value: &str) -> (r: AlbionLocation)
        ensures
            is_resolution(r, spec_resolve(self.index_view(), self.name_view(), value@)),
    {
        let cs = chars_of(value);
        let trimmed_value = trim_chars(&cs);
        proof {
            reveal_strlit("-2");
            assert("-2"@ =~= unknown_id());
        }
        if trimmed_value.len() == 0 || eq_ignore_ascii_case(value, "unset") || eq_ignore_ascii_case(
            value,
            "unknown",
        ) || str_eq(value, "-2") {
            return AlbionLocation::unknown();
        }
        if let Some(unique_name) = self.name_from_index(value) {
            return AlbionLocation::with_names(value, unique_name, unique_name);
        }
        if let Some(index) = self.index_from_name(value) {
            return AlbionLocation::with_names(index, value, value);
        }
        AlbionLocation::unknown()
    }
}

} // verus!

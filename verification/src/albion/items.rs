//! Display names of items by item id.

use vstd::prelude::*;
use vstd::hash_map::StringHashMap;
use crate::error::DecodeError;
use crate::models::albion_location::opt_view;
use crate::packet::json::{json_text_value, parse_json};
use crate::packet::parameters::{ParamModel, ParamValue};
use crate::models::world_map::{names_by_index, pairs_view};

verus! {

/// The address the default item names are downloaded from.
pub const ITEM_NAME_MAPPINGS_URL: &'static str =
    "https://cdn.albionfreemarket.com/AlbionFormattedItemsParser/us_name_mappings.json";

pub struct ItemNameResolver {
    names_by_id: StringHashMap<String>,
}

/// A JSON object whose fields are all strings, as (name, text) pairs.
pub open spec fn string_fields(v: ParamModel) -> Option<Seq<(Seq<char>, Seq<char>)>> {
    match v {
        ParamModel::Object(fs) => if forall|i: int| 0 <= i < fs.len() ==> #[trigger] fs[i].1 is Str {
            Some(fs.map_values(|f: (Seq<char>, ParamModel)| (f.0, f.1->Str_0)))
        } else {
            None
        },
        _ => None,
    }
}

impl ItemNameResolver {
    /// Item id to display name.
    pub closed spec fn view(&self) -> Map<Seq<char>, Seq<char>> {
        self.names_by_id@.map_values(|v: String| v@)
    }

    /// Names from (item id, name) pairs; a later pair for an id wins.
    pub fn new(names_by_id: &[(String, String)]) -> (r: ItemNameResolver)
        ensures
            r.view() == names_by_index(pairs_view(names_by_id@)),
    {
        let mut map: StringHashMap<String> = StringHashMap::new();
        let ghost all = pairs_view(names_by_id@);
        let mut i: usize = 0;
        assert(map@.map_values(|v: String| v@) =~= names_by_index(all.take(0)));
        while i < names_by_id.len()
            invariant
                i <= names_by_id.len(),
                all == pairs_view(names_by_id@),
                map@.map_values(|v: String| v@) == names_by_index(all.take(i as int)),
            decreases names_by_id.len() - i,
        {
            let ghost before = map@.map_values(|v: String| v@);
            map.insert(names_by_id[i].0.clone(), names_by_id[i].1.clone());
            proof {
                assert(all.take(i + 1).drop_last() =~= all.take(i as int));
                assert(all.take(i + 1).last() == all[i as int]);
                assert(map@.map_values(|v: String| v@) =~= before.insert(all[i as int].0, all[i as int].1));
            }
            i = i + 1;
        }
        assert(all.take(names_by_id.len() as int) =~= all);
        ItemNameResolver { names_by_id: map }
    }

    /// No names.
    pub fn empty() -> (r: ItemNameResolver)
        ensures
            r.view() == Map::<Seq<char>, Seq<char>>::empty(),
    {
        let r = ItemNameResolver { names_by_id: StringHashMap::new() };
        assert(r.view() =~= Map::<Seq<char>, Seq<char>>::empty());
        r
    }

    /// Names from a JSON object of item id to name. Text that is not JSON,
    /// or JSON that is not such an object, is an error.
    pub fn from_json(json: &str) -> (r: Result<ItemNameResolver, DecodeError>)
        ensures
            match json_text_value(json@) {
                Some(v) => match string_fields(v) {
                    Some(pairs) => r matches Ok(res) && res.view() == names_by_index(pairs),
                    None => r is Err,
                },
                None => r is Err,
            },
    {
        match parse_json(json) {
            Some(value) => ItemNameResolver::from_value(&value),
            None => Err(DecodeError::new("item name mappings are not valid JSON")),
        }
    }

    /// Names from a parsed JSON value: an object of item id to name, as
    /// [`string_fields`] reads it; a value of another shape is an error.
    pub fn from_value(value: &ParamValue) -> (r: Result<ItemNameResolver, DecodeError>)
        ensures
            match string_fields(value.model()) {
                Some(pairs) => r matches Ok(res) && res.view() == names_by_index(pairs),
                None => r is Err,
            },
    {
        match value {
            ParamValue::Object(fields) => {
                let ghost fs = Seq::new(fields.len() as nat, |k: int| (fields@[k].0@, fields@[k].1.model()));
                proof {
                    assert(value.model()->Object_0 =~= fs);
                }
                let mut pairs: Vec<(String, String)> = Vec::new();
                let mut i: usize = 0;
                while i < fields.len()
                    invariant
                        i <= fields.len(),
                        fs == Seq::new(fields.len() as nat, |k: int| (fields@[k].0@, fields@[k].1.model())),
                        value.model() == ParamModel::Object(fs),
                        pairs.len() == i,
                        forall|j: int| 0 <= j < i ==> (#[trigger] fields@[j]).1 is Str,
                        forall|j: int|
                            0 <= j < i ==> (#[trigger] pairs@[j]).0@ == fields@[j].0@ && Some(
                                pairs@[j].1@,
                            ) == (match fields@[j].1.model() {
                                ParamModel::Str(t) => Some(t),
                                _ => None,
                            }),
                    decreases fields.len() - i,
                {
                    match &fields[i].1 {
                        ParamValue::Str(t) => {
                            pairs.push((fields[i].0.clone(), t.clone()));
                        },
                        _ => {
                            proof {
                                assert(!(fs[i as int].1 is Str));
                            }
                            return Err(DecodeError::new("item name mappings must map item ids to names"));
                        },
                    }
                    i = i + 1;
                }
                proof {
                    assert forall|k: int| 0 <= k < fs.len() implies #[trigger] fs[k].1 is Str by {
                        assert(fields@[k].1 is Str);
                    }
                    assert(pairs_view(pairs@) =~= fs.map_values(|f: (Seq<char>, ParamModel)| (f.0, f.1->Str_0)));
                }
                Ok(ItemNameResolver::new(&pairs))
            },
            _ => Err(DecodeError::new("item name mappings must be a JSON object")),
        }
    }

    /// The name of an item.
    pub fn resolve(&self, item_id: &str) -> (r: Option<&str>)
        ensures
            match r {
                Some(t) => self.view().contains_key(item_id@) && t@ == self.view()[item_id@],
                None => !self.view().contains_key(item_id@),
            },
    {
        match self.names_by_id.get(item_id) {
            Some(t) => Some(t.as_str()),
            None => None,
        }
    }

    /// The name of an item, as an owned string.
    pub fn resolve_owned(&self, item_id: &str) -> (r: Option<String>)
        ensures
            opt_view(r) == (if self.view().contains_key(item_id@) {
                Some(self.view()[item_id@])
            } else {
                None
            }),
    {
        match self.names_by_id.get(item_id) {
            Some(t) => Some(t.clone()),
            None => None,
        }
    }

    /// The number of items named.
    pub fn len(&self) -> (r: usize)
        ensures
            r == self.view().len(),
    {
        proof {
            assert(self.view().dom() =~= self.names_by_id@.dom());
        }
        self.names_by_id.len()
    }

    pub fn is_empty(&self) -> (r: bool)
        ensures
            r == (self.view().len() == 0),
    {
        self.len() == 0
    }
}

} // verus!

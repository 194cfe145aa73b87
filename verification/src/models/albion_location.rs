//! A place in the game world: its index and, when known, its names.

use vstd::prelude::*;
use crate::text::{chars_of, parse_i64_chars, spec_parse_int, str_eq, to_owned_string};

verus! {

/// The id that marks a location as unknown.
pub const UNKNOWN_LOCATION_ID: &'static str = "-2";

pub open spec fn unknown_id() -> Seq<char> {
    seq!['-', '2']
}

#[derive(Clone, Debug, PartialEq, Eq)]
pub struct AlbionLocation {
    pub id: String,
    pub location_name: Option<String>,
    pub friendly_location_name: Option<String>,
}

/// The text of an optional string.
pub open spec fn opt_view(o: Option<String>) -> Option<Seq<char>> {
    match o {
        Some(t) => Some(t@),
        None => None,
    }
}

impl AlbionLocation {
    /// The unknown location: id `-2`, no names.
    pub fn unknown() -> (r: AlbionLocation)
        ensures
            r.id@ == unknown_id(),
            r.location_name is None,
            r.friendly_location_name is None,
    {
        proof {
            reveal_strlit("-2");
            assert("-2"@ =~= unknown_id());
        }
        AlbionLocation {
            id: to_owned_string("-2"),
            location_name: None,
            friendly_location_name: None,
        }
    }

    /// A location known only by its id; an empty id gives the unknown location.
    pub fn from_id(id: &str) -> (r: AlbionLocation)
        ensures
            r.id@ == (if id@.len() == 0 {
                unknown_id()
            } else {
                id@
            }),
            r.location_name is None,
            r.friendly_location_name is None,
    {
        let cs = chars_of(id);
        if cs.len() == 0 {
            return AlbionLocation::unknown();
        }
        AlbionLocation { id: to_owned_string(id), location_name: None, friendly_location_name: None }
    }

    /// A location with its id and both of its names.
    pub fn with_names(id: &str, location_name: &str, friendly_location_name: &str) -> (r:
        AlbionLocation)
        ensures
            r.id@ == id@,
            opt_view(r.location_name) == Some(location_name@),
            opt_view(r.friendly_location_name) == Some(friendly_location_name@),
    {
        AlbionLocation {
            id: to_owned_string(id),
            location_name: Some(to_owned_string(location_name)),
            friendly_location_name: Some(to_owned_string(friendly_location_name)),
        }
    }

    pub open spec fn spec_is_unknown(&self) -> bool {
        self.id@ == unknown_id()
    }

    /// Whether the id is the unknown id `-2`.
    pub fn is_unknown(&self) -> (r: bool)
        ensures
            r == self.spec_is_unknown(),
    {
        proof {
            reveal_strlit("-2");
            assert("-2"@ =~= unknown_id());
        }
        str_eq(self.id.as_str(), "-2")
    }

    /// The name to show: the friendly name, else the location name, else `Unknown`.
    pub fn friendly_name(&self) -> (r: &str)
        ensures
            r@ == (match opt_view(self.friendly_location_name) {
                Some(t) => t,
                None => match opt_view(self.location_name) {
                    Some(t) => t,
                    None => "Unknown"@,
                },
            }),
    {
        match &self.friendly_location_name {
            Some(t) => t.as_str(),
            None => match &self.location_name {
                Some(t) => t.as_str(),
                None => "Unknown",
            },
        }
    }

    pub open spec fn spec_location_id(&self) -> Option<i64> {
        if self.spec_is_unknown() {
            None
        } else {
            match spec_parse_int(self.id@, i64::MIN as int, i64::MAX as int) {
                Some(n) => Some(n as i64),
                None => None,
            }
        }
    }

    /// The id as a number, unless the location is unknown or the id is not an `i64`.
    pub fn location_id(&self) -> (r: Option<i64>)
        ensures
            r == self.spec_location_id(),
    {
        if self.is_unknown() {
            return None;
        }
        let cs = chars_of(self.id.as_str());
        parse_i64_chars(&cs)
    }

    /// The id, unless the location is unknown.
    pub fn location_index(&self) -> (r: Option<&str>)
        ensures
            match r {
                Some(t) => !self.spec_is_unknown() && t@ == self.id@,
                None => self.spec_is_unknown(),
            },
    {
        if self.is_unknown() {
            None
        } else {
            Some(self.id.as_str())
        }
    }
}

/// A copy of an optional string.
pub fn duplicate_opt_string(o: &Option<String>) -> (r: Option<String>)
    ensures
        r == *o,
{
    match o {
        Some(t) => Some(t.clone()),
        None => None,
    }
}

impl AlbionLocation {
    /// A copy equal to this one.
    pub fn duplicate(&self) -> (r: AlbionLocation)
        ensures
            r == *self,
    {
        AlbionLocation {
            id: self.id.clone(),
            location_name: duplicate_opt_string(&self.location_name),
            friendly_location_name: duplicate_opt_string(&self.friendly_location_name),
        }
    }
}

} // verus!

//! Photon parameter tables: a value for each one-byte key.

use vstd::prelude::*;
use crate::text::{decimal, format_i64};

verus! {

/// A decoded parameter value, shaped as JSON. A number is kept in its JSON
/// text form, so integers of any size and fractions are held exactly.
#[derive(Debug, PartialEq)]
pub enum ParamValue {
    Null,
    Bool(bool),
    Number(String),
    Str(String),
    Array(Vec<ParamValue>),
    Object(Vec<(String, ParamValue)>),
}

/// The mathematical content of a [`ParamValue`]: the same shape with
/// sequences in place of vectors and strings.
pub enum ParamModel {
    Null,
    Bool(bool),
    Number(Seq<char>),
    Str(Seq<char>),
    Array(Seq<ParamModel>),
    Object(Seq<(Seq<char>, ParamModel)>),
}

impl ParamValue {
    /// The number `n`, written as JSON writes it.
    pub fn integer(n: i64) -> (r: ParamValue)
        ensures
            r.model() == ParamModel::Number(decimal(n as int)),
    {
        ParamValue::Number(format_i64(n))
    }

    /// A string value.
    pub fn text(t: &str) -> (r: ParamValue)
        ensures
            r.model() == ParamModel::Str(t@),
    {
        ParamValue::Str(crate::text::to_owned_string(t))
    }

    /// The content of the value.
    pub open spec fn model(&self) -> ParamModel
        decreases self,
    {
        match self {
            ParamValue::Null => ParamModel::Null,
            ParamValue::Bool(b) => ParamModel::Bool(*b),
            ParamValue::Number(t) => ParamModel::Number(t@),
            ParamValue::Str(t) => ParamModel::Str(t@),
            ParamValue::Array(items) => ParamModel::Array(
                Seq::new(
                    items.len() as nat,
                    |i: int|
                        if 0 <= i < items.len() {
                            items[i].model()
                        } else {
                            ParamModel::Null
                        },
                ),
            ),
            ParamValue::Object(fields) => ParamModel::Object(
                Seq::new(
                    fields.len() as nat,
                    |i: int|
                        if 0 <= i < fields.len() {
                            (fields[i].0@, fields[i].1.model())
                        } else {
                            (Seq::empty(), ParamModel::Null)
                        },
                ),
            ),
        }
    }

    /// A copy of the value, with the same content.
    pub fn duplicate(&self) -> (r: ParamValue)
        ensures
            r.model() == self.model(),
        decreases self,
    {
        match self {
            ParamValue::Null => ParamValue::Null,
            ParamValue::Bool(b) => ParamValue::Bool(*b),
            ParamValue::Number(t) => ParamValue::Number(t.clone()),
            ParamValue::Str(t) => ParamValue::Str(t.clone()),
            ParamValue::Array(items) => {
                let mut out: Vec<ParamValue> = Vec::new();
                let mut i: usize = 0;
                while i < items.len()
                    invariant
                        i <= items.len(),
                        out.len() == i,
                        self is Array,
                        self->Array_0 == *items,
                        forall|j: int| 0 <= j < i ==> (#[trigger] out@[j]).model() == items@[j].model(),
                    decreases items.len() - i,
                {
                    proof {
                        vstd::std_specs::vec::axiom_vec_index_decreases(*items, i as int);
                        assert(decreases_to!(*self => self->Array_0));
                        assert(self->Array_0 == *items);
                        assert(decreases_to!(*items => items[i as int]));
                    }
                    let item = items[i].duplicate();
                    out.push(item);
                    i = i + 1;
                }
                let r = ParamValue::Array(out);
                assert(r.model()->Array_0 =~= self.model()->Array_0);
                r
            },
            ParamValue::Object(fields) => {
                let mut out: Vec<(String, ParamValue)> = Vec::new();
                let mut i: usize = 0;
                while i < fields.len()
                    invariant
                        i <= fields.len(),
                        out.len() == i,
                        self is Object,
                        self->Object_0 == *fields,
                        forall|j: int|
                            0 <= j < i ==> (#[trigger] out@[j]).0@ == fields@[j].0@
                                && out@[j].1.model() == fields@[j].1.model(),
                    decreases fields.len() - i,
                {
                    proof {
                        vstd::std_specs::vec::axiom_vec_index_decreases(*fields, i as int);
                        assert(decreases_to!(*self => self->Object_0));
                        assert(self->Object_0 == *fields);
                        assert(decreases_to!(*fields => fields[i as int]));
                        assert(decreases_to!(fields[i as int] => fields[i as int].1));
                    }
                    let name = fields[i].0.clone();
                    let value = fields[i].1.duplicate();
                    out.push((name, value));
                    i = i + 1;
                }
                let r = ParamValue::Object(out);
                assert(r.model()->Object_0 =~= self.model()->Object_0);
                r
            },
        }
    }
}

/// The parameters of one Photon message: at most one value per byte key.
pub struct RawParameters {
    slots: Vec<Option<ParamValue>>,
}

impl RawParameters {
    #[verifier::type_invariant]
    spec fn slot_per_key(self) -> bool {
        self.slots.len() == 256
    }

    /// The table as a map from key to value.
    pub closed spec fn view(&self) -> Map<u8, ParamValue> {
        Map::new(
            |k: u8| self.slots@[k as int] is Some,
            |k: u8| self.slots@[k as int]->Some_0,
        )
    }

    /// A table with no parameters.
    pub fn empty() -> (r: RawParameters)
        ensures
            r.view() == Map::<u8, ParamValue>::empty(),
    {
        let mut slots: Vec<Option<ParamValue>> = Vec::new();
        let mut i: usize = 0;
        while i < 256
            invariant
                i <= 256,
                slots.len() == i,
                forall|j: int| 0 <= j < i ==> #[trigger] slots@[j] is None,
            decreases 256 - i,
        {
            slots.push(None);
            i = i + 1;
        }
        let r = RawParameters { slots };
        assert(r.view() =~= Map::<u8, ParamValue>::empty());
        r
    }

    /// The value under `key`, if any.
    pub fn get(&self, key: u8) -> (r: Option<&ParamValue>)
        ensures
            match r {
                Some(v) => self.view().contains_key(key) && *v == self.view()[key],
                None => !self.view().contains_key(key),
            },
    {
        proof {
            use_type_invariant(self);
        }
        match &self.slots[key as usize] {
            Some(v) => Some(v),
            None => None,
        }
    }

    /// Stores `value` under `key`, returning what was there before.
    pub fn insert(&mut self, key: u8, value: ParamValue) -> (r: Option<ParamValue>)
        ensures
            final(self).view() == old(self).view().insert(key, value),
            match r {
                Some(v) => old(self).view().contains_key(key) && v == old(self).view()[key],
                None => !old(self).view().contains_key(key),
            },
    {
        proof {
            use_type_invariant(&*self);
        }
        let ghost before = self.view();
        let slot = replace_at(&mut self.slots, key as usize, Some(value));
        assert(self.view() =~= before.insert(key, value));
        slot
    }

    /// Builds a table from key/value pairs; a later pair for a key wins.
    pub fn from_entries(entries: Vec<(u8, ParamValue)>) -> (r: RawParameters)
        ensures
            r.view() == entries_map(entries@),
    {
        let mut r = RawParameters::empty();
        let mut rest = entries;
        let ghost all = rest@;
        let mut i: usize = 0;
        let n = rest.len();
        proof {
            assert(all.take(0) =~= Seq::<(u8, ParamValue)>::empty());
        }
        while i < n
            invariant
                n == all.len(),
                i <= n,
                rest@ == all.skip(i as int),
                r.view() == entries_map(all.take(i as int)),
            decreases n - i,
        {
            let (k, v) = rest.remove(0);
            r.insert(k, v);
            proof {
                assert(all.take(i + 1).drop_last() =~= all.take(i as int));
                assert(all.take(i + 1).last() == all[i as int]);
                assert(all.skip(i + 1) =~= all.skip(i as int).drop_first());
            }
            i = i + 1;
        }
        assert(all.take(n as int) =~= all);
        r
    }

    /// The keys and values in increasing key order.
    pub fn entries(&self) -> (r: Vec<(u8, ParamValue)>)
        ensures
            r.len() == keys_below(self.view(), 256).len(),
            forall|i: int|
                0 <= i < r.len() ==> (#[trigger] r@[i]).0 == keys_below(self.view(), 256)[i]
                    && r@[i].1.model() == self.view()[keys_below(self.view(), 256)[i]].model(),
    {
        proof {
            use_type_invariant(self);
        }
        let ghost m = self.view();
        let mut r: Vec<(u8, ParamValue)> = Vec::new();
        let mut k: usize = 0;
        while k < 256
            invariant
                k <= 256,
                self.slots.len() == 256,
                m == self.view(),
                r.len() == keys_below(m, k as int).len(),
                forall|i: int|
                    0 <= i < r.len() ==> (#[trigger] r@[i]).0 == keys_below(m, k as int)[i]
                        && r@[i].1.model() == m[keys_below(m, k as int)[i]].model(),
            decreases 256 - k,
        {
            let ghost before = r@;
            match &self.slots[k] {
                Some(v) => {
                    r.push((k as u8, v.duplicate()));
                    assert(m.contains_key(k as u8));
                },
                None => {
                    assert(!m.contains_key(k as u8));
                },
            }
            proof {
                let ks = keys_below(m, k as int);
                let ks2 = keys_below(m, k + 1);
                assert forall|i: int| 0 <= i < r.len() implies (#[trigger] r@[i]).0 == ks2[i]
                    && r@[i].1.model() == m[ks2[i]].model() by {
                    if i < before.len() {
                        assert(ks2[i] == ks[i]);
                    }
                }
            }
            k = k + 1;
        }
        r
    }

    /// The same table with each key written as decimal text.
    pub fn to_serializable(&self) -> (r: SerializableParameters)
        ensures
            is_serialized(r, self.view()),
    {
        SerializableParameters::from_raw(self)
    }
}

/// `s` holds each entry of `m` in increasing key order, the key written as
/// decimal text.
pub open spec fn is_serialized(s: SerializableParameters, m: Map<u8, ParamValue>) -> bool {
    &&& s.entries.len() == keys_below(m, 256).len()
    &&& forall|i: int|
        0 <= i < s.entries.len() ==> (#[trigger] s.entries@[i]).0@ == decimal(
            keys_below(m, 256)[i] as int,
        ) && s.entries@[i].1.model() == m[keys_below(m, 256)[i]].model()
}

/// The keys below `n` that the map holds, in increasing order.
pub open spec fn keys_below(m: Map<u8, ParamValue>, n: int) -> Seq<u8>
    decreases n,
{
    if n <= 0 {
        Seq::empty()
    } else if m.contains_key((n - 1) as u8) {
        keys_below(m, n - 1).push((n - 1) as u8)
    } else {
        keys_below(m, n - 1)
    }
}

/// The map that a list of key/value pairs builds when later pairs win.
pub open spec fn entries_map(entries: Seq<(u8, ParamValue)>) -> Map<u8, ParamValue>
    decreases entries.len(),
{
    if entries.len() == 0 {
        Map::empty()
    } else {
        entries_map(entries.drop_last()).insert(entries.last().0, entries.last().1)
    }
}

/// Puts `x` at position `i` of a vector and hands back what was there.
fn replace_at<T>(v: &mut Vec<T>, i: usize, x: T) -> (r: T)
    requires
        i < old(v).len(),
    ensures
        r == old(v)@[i as int],
        final(v)@ == old(v)@.update(i as int, x),
    no_unwind
{
    let mut x = x;
    std::mem::swap(&mut x, &mut v[i]);
    x
}

/// Parameters keyed by their decimal text, ready to be written out.
#[derive(Debug, PartialEq)]
pub struct SerializableParameters {
    pub entries: Vec<(String, ParamValue)>,
}

impl SerializableParameters {
    /// Each key of `parameters` as decimal text, in increasing key order.
    pub fn from_raw(parameters: &RawParameters) -> (r: SerializableParameters)
        ensures
            r.entries.len() == keys_below(parameters.view(), 256).len(),
            forall|i: int|
                0 <= i < r.entries.len() ==> (#[trigger] r.entries@[i]).0@ == decimal(
                    keys_below(parameters.view(), 256)[i] as int,
                ) && r.entries@[i].1.model() == parameters.view()[keys_below(
                    parameters.view(),
                    256,
                )[i]].model(),
    {
        let raw = parameters.entries();
        let mut entries: Vec<(String, ParamValue)> = Vec::new();
        let mut i: usize = 0;
        while i < raw.len()
            invariant
                i <= raw.len(),
                entries.len() == i,
                forall|j: int|
                    0 <= j < i ==> (#[trigger] entries@[j]).0@ == decimal(raw@[j].0 as int)
                        && entries@[j].1.model() == raw@[j].1.model(),
            decreases raw.len() - i,
        {
            let key = format_i64(raw[i].0 as i64);
            entries.push((key, raw[i].1.duplicate()));
            i = i + 1;
        }
        SerializableParameters { entries }
    }
}

} // verus!

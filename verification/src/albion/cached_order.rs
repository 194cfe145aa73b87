//! A market order as the auction house lists it.

use vstd::prelude::*;
use crate::models::albion_location::{duplicate_opt_string, opt_view, unknown_id, AlbionLocation};
use crate::models::guid::{find_field, object_field};
use crate::models::types::{label_choice, AuctionType};
use crate::packet::parameters::{ParamModel, ParamValue};
use crate::text::{parse_i64_chars, chars_of, spec_parse_int, to_owned_string};

verus! {

#[derive(Clone, Debug, PartialEq)]
pub struct CachedOrder {
    pub amount: i64,
    pub auction_type: AuctionType,
    pub buyer_character_id: Option<String>,
    pub buyer_name: Option<String>,
    pub distance_fee: i64,
    pub enchantment_level: i64,
    pub expires: String,
    pub has_buyer_fetched: bool,
    pub has_seller_fetched: bool,
    pub id: i64,
    pub is_finished: bool,
    pub item_group_type_id: String,
    pub item_id: String,
    pub item_name: Option<String>,
    pub location: AlbionLocation,
    pub quality_level: i64,
    pub reference_id: String,
    pub seller_character_id: Option<String>,
    pub seller_name: Option<String>,
    pub tier: i64,
    pub total_price_silver: i64,
    pub unit_price_silver: i64,
}

/// The fields of a JSON object, as text and content.
pub open spec fn fields_model(fields: Seq<(String, ParamValue)>) -> Seq<(Seq<char>, ParamModel)> {
    Seq::new(fields.len() as nat, |i: int| (fields[i].0@, fields[i].1.model()))
}

/// A whole-number field: a JSON integer in the range of `i64`.
pub open spec fn int_field(fs: Seq<(Seq<char>, ParamModel)>, name: Seq<char>) -> Option<i64> {
    match object_field(fs, name) {
        Some(ParamModel::Number(t)) => match spec_parse_int(t, i64::MIN as int, i64::MAX as int) {
            Some(n) => Some(n as i64),
            None => None,
        },
        _ => None,
    }
}

pub open spec fn str_field(fs: Seq<(Seq<char>, ParamModel)>, name: Seq<char>) -> Option<Seq<char>> {
    match object_field(fs, name) {
        Some(ParamModel::Str(t)) => Some(t),
        _ => None,
    }
}

pub open spec fn bool_field(fs: Seq<(Seq<char>, ParamModel)>, name: Seq<char>) -> Option<bool> {
    match object_field(fs, name) {
        Some(ParamModel::Bool(b)) => Some(b),
        _ => None,
    }
}

/// An optional text field: absent or `null` is `Some(None)`, a string is
/// `Some(Some(text))`, anything else does not decode (`None`).
pub open spec fn opt_str_field(fs: Seq<(Seq<char>, ParamModel)>, name: Seq<char>) -> Option<Option<Seq<char>>> {
    match object_field(fs, name) {
        None => Some(None),
        Some(ParamModel::Null) => Some(None),
        Some(ParamModel::Str(t)) => Some(Some(t)),
        _ => None,
    }
}

/// The names of the whole-number fields of an order.
pub open spec fn order_int_names() -> Seq<Seq<char>> {
    seq![
        "Amount"@,
        "DistanceFee"@,
        "EnchantmentLevel"@,
        "Id"@,
        "QualityLevel"@,
        "Tier"@,
        "TotalPriceSilver"@,
        "UnitPriceSilver"@,
    ]
}

/// Whether an object has every field an order needs, each of the right type.
pub open spec fn order_decodes(fs: Seq<(Seq<char>, ParamModel)>) -> bool {
    &&& forall|i: int| 0 <= i < 8 ==> int_field(fs, #[trigger] order_int_names()[i]) is Some
    &&& str_field(fs, "AuctionType"@) is Some
    &&& str_field(fs, "Expires"@) is Some
    &&& str_field(fs, "ItemGroupTypeId"@) is Some
    &&& str_field(fs, "ItemTypeId"@) is Some
    &&& str_field(fs, "ReferenceId"@) is Some
    &&& bool_field(fs, "HasBuyerFetched"@) is Some
    &&& bool_field(fs, "HasSellerFetched"@) is Some
    &&& bool_field(fs, "IsFinished"@) is Some
    &&& opt_str_field(fs, "BuyerCharacterId"@) is Some
    &&& opt_str_field(fs, "BuyerName"@) is Some
    &&& opt_str_field(fs, "SellerCharacterId"@) is Some
    &&& opt_str_field(fs, "SellerName"@) is Some
}

/// The location an order names: a non-empty `LocationId` string is a
/// location known by id; anything else is the unknown location.
pub open spec fn order_location(fs: Seq<(Seq<char>, ParamModel)>, loc: AlbionLocation) -> bool {
    &&& loc.location_name is None
    &&& loc.friendly_location_name is None
    &&& loc.id@ == (match object_field(fs, "LocationId"@) {
        Some(ParamModel::Str(t)) => if t.len() > 0 {
            t
        } else {
            unknown_id()
        },
        _ => unknown_id(),
    })
}

/// The auction type of an order, as [`AuctionType::from_str`] reads its label.
pub open spec fn reads_auction_type(a: AuctionType, label: Seq<char>) -> bool {
    match label_choice(label, "offer"@, "request"@) {
        0 => a == AuctionType::Offer,
        1 => a == AuctionType::Request,
        _ => a matches AuctionType::Unknown(t) && t@ == label,
    }
}

/// An order's fields hold what a decodable object says; its location and
/// item name are set apart.
pub open spec fn decoded_order_fields(o: CachedOrder, fs: Seq<(Seq<char>, ParamModel)>) -> bool {
    &&& Some(o.amount) == int_field(fs, "Amount"@)
    &&& Some(o.distance_fee) == int_field(fs, "DistanceFee"@)
    &&& Some(o.enchantment_level) == int_field(fs, "EnchantmentLevel"@)
    &&& Some(o.id) == int_field(fs, "Id"@)
    &&& Some(o.quality_level) == int_field(fs, "QualityLevel"@)
    &&& Some(o.tier) == int_field(fs, "Tier"@)
    &&& Some(o.total_price_silver) == int_field(fs, "TotalPriceSilver"@)
    &&& Some(o.unit_price_silver) == int_field(fs, "UnitPriceSilver"@)
    &&& reads_auction_type(o.auction_type, str_field(fs, "AuctionType"@)->Some_0)
    &&& Some(o.expires@) == str_field(fs, "Expires"@)
    &&& Some(o.item_group_type_id@) == str_field(fs, "ItemGroupTypeId"@)
    &&& Some(o.item_id@) == str_field(fs, "ItemTypeId"@)
    &&& Some(o.reference_id@) == str_field(fs, "ReferenceId"@)
    &&& Some(o.has_buyer_fetched) == bool_field(fs, "HasBuyerFetched"@)
    &&& Some(o.has_seller_fetched) == bool_field(fs, "HasSellerFetched"@)
    &&& Some(o.is_finished) == bool_field(fs, "IsFinished"@)
    &&& Some(opt_view(o.buyer_character_id)) == opt_str_field(fs, "BuyerCharacterId"@)
    &&& Some(opt_view(o.buyer_name)) == opt_str_field(fs, "BuyerName"@)
    &&& Some(opt_view(o.seller_character_id)) == opt_str_field(fs, "SellerCharacterId"@)
    &&& Some(opt_view(o.seller_name)) == opt_str_field(fs, "SellerName"@)
}

/// The location id an order object names: a non-empty `LocationId`
/// string, else the unknown id.
pub open spec fn order_location_id(fs: Seq<(Seq<char>, ParamModel)>) -> Seq<char> {
    match object_field(fs, "LocationId"@) {
        Some(ParamModel::Str(t)) => if t.len() > 0 {
            t
        } else {
            unknown_id()
        },
        _ => unknown_id(),
    }
}

/// An order holds what a decodable object says, with no item name yet.
pub open spec fn decoded_order(o: CachedOrder, fs: Seq<(Seq<char>, ParamModel)>) -> bool {
    &&& decoded_order_fields(o, fs)
    &&& o.item_name is None
    &&& order_location(fs, o.location)
}

/// The field names of an order, in the order its array form lists them.
pub open spec fn order_field_names() -> Seq<Seq<char>> {
    seq![
        "Amount"@,
        "AuctionType"@,
        "BuyerCharacterId"@,
        "BuyerName"@,
        "DistanceFee"@,
        "EnchantmentLevel"@,
        "Expires"@,
        "HasBuyerFetched"@,
        "HasSellerFetched"@,
        "Id"@,
        "IsFinished"@,
        "ItemGroupTypeId"@,
        "ItemTypeId"@,
        "LocationId"@,
        "QualityLevel"@,
        "ReferenceId"@,
        "SellerCharacterId"@,
        "SellerName"@,
        "Tier"@,
        "TotalPriceSilver"@,
        "UnitPriceSilver"@,
    ]
}

pub open spec fn item_models(items: Seq<ParamValue>) -> Seq<ParamModel> {
    items.map_values(|v: ParamValue| v.model())
}

/// The object an array stands for: each name with the item at its place.
pub open spec fn named_items(names: Seq<Seq<char>>, items: Seq<ParamModel>) -> Seq<(Seq<char>, ParamModel)> {
    Seq::new(names.len(), |i: int| (names[i], items[i]))
}

/// The fields a record is read from: an object's own, or those that an
/// array with exactly one item per name stands for.
pub open spec fn order_object(v: ParamModel, names: Seq<Seq<char>>) -> Option<Seq<(Seq<char>, ParamModel)>> {
    match v {
        ParamModel::Object(fs) => Some(fs),
        ParamModel::Array(items) => if items.len() == names.len() {
            Some(named_items(names, items))
        } else {
            None
        },
        _ => None,
    }
}

/// The names of [`order_field_names`].
fn order_field_name_list() -> (r: Vec<String>)
    ensures
        r@.map_values(|t: String| t@) == order_field_names(),
{
    let mut r: Vec<String> = Vec::new();
    r.push(to_owned_string("Amount"));
    r.push(to_owned_string("AuctionType"));
    r.push(to_owned_string("BuyerCharacterId"));
    r.push(to_owned_string("BuyerName"));
    r.push(to_owned_string("DistanceFee"));
    r.push(to_owned_string("EnchantmentLevel"));
    r.push(to_owned_string("Expires"));
    r.push(to_owned_string("HasBuyerFetched"));
    r.push(to_owned_string("HasSellerFetched"));
    r.push(to_owned_string("Id"));
    r.push(to_owned_string("IsFinished"));
    r.push(to_owned_string("ItemGroupTypeId"));
    r.push(to_owned_string("ItemTypeId"));
    r.push(to_owned_string("LocationId"));
    r.push(to_owned_string("QualityLevel"));
    r.push(to_owned_string("ReferenceId"));
    r.push(to_owned_string("SellerCharacterId"));
    r.push(to_owned_string("SellerName"));
    r.push(to_owned_string("Tier"));
    r.push(to_owned_string("TotalPriceSilver"));
    r.push(to_owned_string("UnitPriceSilver"));
    assert(r@.map_values(|t: String| t@) =~= order_field_names());
    r
}

/// Each name with the item at its place, as [`named_items`] says.
pub(crate) fn name_items(names: &Vec<String>, items: &Vec<ParamValue>) -> (r: Vec<(String, ParamValue)>)
    requires
        names.len() == items.len(),
    ensures
        fields_model(r@) == named_items(names@.map_values(|t: String| t@), item_models(items@)),
{
    let mut r: Vec<(String, ParamValue)> = Vec::new();
    let mut i: usize = 0;
    while i < names.len()
        invariant
            i <= names.len(),
            names.len() == items.len(),
            r.len() == i,
            forall|j: int|
                0 <= j < i ==> (#[trigger] r@[j]).0@ == names@[j]@ && r@[j].1.model()
                    == items@[j].model(),
        decreases names.len() - i,
    {
        r.push((to_owned_string(names[i].as_str()), items[i].duplicate()));
        i = i + 1;
    }
    assert(fields_model(r@) =~= named_items(names@.map_values(|t: String| t@), item_models(items@)));
    r
}

fn get_int(fields: &Vec<(String, ParamValue)>, name: &str) -> (r: Option<i64>)
    ensures
        r == int_field(fields_model(fields@), name@),
{
    proof {
        assert(fields_model(fields@) =~= Seq::new(fields.len() as nat, |i: int| (fields@[i].0@, fields@[i].1.model())));
    }
    match find_field(fields, name) {
        Some(ParamValue::Number(t)) => {
            let cs = chars_of(t.as_str());
            parse_i64_chars(&cs)
        },
        _ => None,
    }
}

fn get_str(fields: &Vec<(String, ParamValue)>, name: &str) -> (r: Option<String>)
    ensures
        match r {
            Some(t) => str_field(fields_model(fields@), name@) == Some(t@),
            None => str_field(fields_model(fields@), name@) is None,
        },
{
    proof {
        assert(fields_model(fields@) =~= Seq::new(fields.len() as nat, |i: int| (fields@[i].0@, fields@[i].1.model())));
    }
    match find_field(fields, name) {
        Some(ParamValue::Str(t)) => Some(t.clone()),
        _ => None,
    }
}

fn get_bool(fields: &Vec<(String, ParamValue)>, name: &str) -> (r: Option<bool>)
    ensures
        r == bool_field(fields_model(fields@), name@),
{
    proof {
        assert(fields_model(fields@) =~= Seq::new(fields.len() as nat, |i: int| (fields@[i].0@, fields@[i].1.model())));
    }
    match find_field(fields, name) {
        Some(ParamValue::Bool(b)) => Some(*b),
        _ => None,
    }
}

pub(crate) fn get_opt_str(fields: &Vec<(String, ParamValue)>, name: &str) -> (r: Option<Option<String>>)
    ensures
        match r {
            Some(o) => opt_str_field(fields_model(fields@), name@) == Some(opt_view(o)),
            None => opt_str_field(fields_model(fields@), name@) is None,
        },
{
    proof {
        assert(fields_model(fields@) =~= Seq::new(fields.len() as nat, |i: int| (fields@[i].0@, fields@[i].1.model())));
    }
    match find_field(fields, name) {
        None => Some(None),
        Some(ParamValue::Null) => Some(None),
        Some(ParamValue::Str(t)) => Some(Some(t.clone())),
        _ => None,
    }
}

fn get_location(fields: &Vec<(String, ParamValue)>) -> (r: AlbionLocation)
    ensures
        order_location(fields_model(fields@), r),
{
    proof {
        assert(fields_model(fields@) =~= Seq::new(fields.len() as nat, |i: int| (fields@[i].0@, fields@[i].1.model())));
    }
    match find_field(fields, "LocationId") {
        Some(ParamValue::Str(t)) => AlbionLocation::from_id(t.as_str()),
        _ => AlbionLocation::unknown(),
    }
}

impl CachedOrder {
    /// Reads an order from a JSON object with the auction house's PascalCase
    /// field names, or from an array of its fields in the order
    /// [`order_field_names`] lists them ([`order_object`]); other values,
    /// and objects missing a field or holding one of the wrong type, give
    /// `None`.
    pub fn from_value(value: &ParamValue) -> (r: Option<CachedOrder>)
        ensures
            match order_object(value.model(), order_field_names()) {
                Some(fs) => match r {
                    Some(o) => order_decodes(fs) && decoded_order(o, fs),
                    None => !order_decodes(fs),
                },
                None => r is None,
            },
    {
        match value {
            ParamValue::Object(fields) => {
                proof {
                    assert(value.model()->Object_0 =~= fields_model(fields@));
                }
                Self::from_fields(fields)
            },
            ParamValue::Array(items) => {
                let names = order_field_name_list();
                if items.len() != names.len() {
                    return None;
                }
                let fields = name_items(&names, items);
                proof {
                    assert(value.model()->Array_0 =~= item_models(items@));
                }
                Self::from_fields(&fields)
            },
            _ => None,
        }
    }

    /// Reads an order from the fields of a JSON object, as [`Self::from_value`]
    /// says.
    pub(crate) fn from_fields(fields: &Vec<(String, ParamValue)>) -> (r: Option<CachedOrder>)
        ensures
            match r {
                Some(o) => order_decodes(fields_model(fields@)) && decoded_order(o, fields_model(fields@)),
                None => !order_decodes(fields_model(fields@)),
            },
    {
        let ghost fs = fields_model(fields@);
        let amount = get_int(fields, "Amount");
        let distance_fee = get_int(fields, "DistanceFee");
        let enchantment_level = get_int(fields, "EnchantmentLevel");
        let id = get_int(fields, "Id");
        let quality_level = get_int(fields, "QualityLevel");
        let tier = get_int(fields, "Tier");
        let total_price_silver = get_int(fields, "TotalPriceSilver");
        let unit_price_silver = get_int(fields, "UnitPriceSilver");
        let auction_type = get_str(fields, "AuctionType");
        let expires = get_str(fields, "Expires");
        let item_group_type_id = get_str(fields, "ItemGroupTypeId");
        let item_type_id = get_str(fields, "ItemTypeId");
        let reference_id = get_str(fields, "ReferenceId");
        let has_buyer_fetched = get_bool(fields, "HasBuyerFetched");
        let has_seller_fetched = get_bool(fields, "HasSellerFetched");
        let is_finished = get_bool(fields, "IsFinished");
        let buyer_character_id = get_opt_str(fields, "BuyerCharacterId");
        let buyer_name = get_opt_str(fields, "BuyerName");
        let seller_character_id = get_opt_str(fields, "SellerCharacterId");
        let seller_name = get_opt_str(fields, "SellerName");
        proof {
            let names = order_int_names();
            assert(names[0] == "Amount"@);
            assert(names[1] == "DistanceFee"@);
            assert(names[2] == "EnchantmentLevel"@);
            assert(names[3] == "Id"@);
            assert(names[4] == "QualityLevel"@);
            assert(names[5] == "Tier"@);
            assert(names[6] == "TotalPriceSilver"@);
            assert(names[7] == "UnitPriceSilver"@);
        }
        match (amount, distance_fee, enchantment_level, id, quality_level, tier, total_price_silver, unit_price_silver) {
            (Some(amount), Some(distance_fee), Some(enchantment_level), Some(id), Some(quality_level), Some(tier), Some(total_price_silver), Some(unit_price_silver)) => {
                match (auction_type, expires, item_group_type_id, item_type_id, reference_id) {
                    (Some(auction_type), Some(expires), Some(item_group_type_id), Some(item_id), Some(reference_id)) => {
                        match (has_buyer_fetched, has_seller_fetched, is_finished) {
                            (Some(has_buyer_fetched), Some(has_seller_fetched), Some(is_finished)) => {
                                match (buyer_character_id, buyer_name, seller_character_id, seller_name) {
                                    (Some(buyer_character_id), Some(buyer_name), Some(seller_character_id), Some(seller_name)) => {
                                        let o = CachedOrder {
                                            amount,
                                            auction_type: AuctionType::from_str(auction_type.as_str()),
                                            buyer_character_id,
                                            buyer_name,
                                            distance_fee,
                                            enchantment_level,
                                            expires,
                                            has_buyer_fetched,
                                            has_seller_fetched,
                                            id,
                                            is_finished,
                                            item_group_type_id,
                                            item_id,
                                            item_name: None,
                                            location: get_location(fields),
                                            quality_level,
                                            reference_id,
                                            seller_character_id,
                                            seller_name,
                                            tier,
                                            total_price_silver,
                                            unit_price_silver,
                                        };
                                        proof {
                                            assert(order_decodes(fs));
                                        }
                                        Some(o)
                                    },
                                    _ => None,
                                }
                            },
                            _ => None,
                        }
                    },
                    _ => None,
                }
            },
            _ => None,
        }
    }
}

impl CachedOrder {
    /// A copy equal to this one.
    pub fn duplicate(&self) -> (r: CachedOrder)
        ensures
            r == *self,
    {
        CachedOrder {
            amount: self.amount,
            auction_type: self.auction_type.duplicate(),
            buyer_character_id: duplicate_opt_string(&self.buyer_character_id),
            buyer_name: duplicate_opt_string(&self.buyer_name),
            distance_fee: self.distance_fee,
            enchantment_level: self.enchantment_level,
            expires: self.expires.clone(),
            has_buyer_fetched: self.has_buyer_fetched,
            has_seller_fetched: self.has_seller_fetched,
            id: self.id,
            is_finished: self.is_finished,
            item_group_type_id: self.item_group_type_id.clone(),
            item_id: self.item_id.clone(),
            item_name: duplicate_opt_string(&self.item_name),
            location: self.location.duplicate(),
            quality_level: self.quality_level,
            reference_id: self.reference_id.clone(),
            seller_character_id: duplicate_opt_string(&self.seller_character_id),
            seller_name: duplicate_opt_string(&self.seller_name),
            tier: self.tier,
            total_price_silver: self.total_price_silver,
            unit_price_silver: self.unit_price_silver,
        }
    }
}

} // verus!

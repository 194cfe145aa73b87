//! A market order with its location as the auction house names it.

use vstd::prelude::*;
use crate::albion::cached_order::{
    bool_field, fields_model, get_opt_str, int_field, item_models, name_items, opt_str_field,
    order_decodes, order_object, reads_auction_type, str_field,
};
use crate::text::to_owned_string;
use crate::models::albion_location::opt_view;
use crate::models::types::AuctionType;
use crate::packet::parameters::{ParamModel, ParamValue};

verus! {

#[derive(Clone, Debug, PartialEq)]
pub struct CachedOrder {
    pub amount: i64,
    pub auction_type: AuctionType,
    pub buyer_character_id: Option<String>,
    pub buyer_name: Option<String>,
    pub distance_fee: i64,
    pub enchantment_level: i64,
    pub expires: String,
    pub has_buyer_fetched: bool,
    pub has_seller_fetched: bool,
    pub id: i64,
    pub is_finished: bool,
    pub item_group_type_id: String,
    pub item_type_id: String,
    pub location_id: Option<String>,
    pub location_name: Option<String>,
    pub friendly_location_name: Option<String>,
    pub quality_level: i64,
    pub reference_id: String,
    pub seller_character_id: Option<String>,
    pub seller_name: Option<String>,
    pub tier: i64,
    pub total_price_silver: i64,
    pub unit_price_silver: i64,
}

/// Whether an object holds such an order: every field of a market order,
/// and the location fields each absent, `null` or a string.
pub open spec fn located_order_decodes(fs: Seq<(Seq<char>, ParamModel)>) -> bool {
    &&& order_decodes(fs)
    &&& opt_str_field(fs, "LocationId"@) is Some
    &&& opt_str_field(fs, "LocationName"@) is Some
    &&& opt_str_field(fs, "FriendlyLocationName"@) is Some
}

/// The order holds what a decodable object says.
pub open spec fn decoded_located_order(o: CachedOrder, fs: Seq<(Seq<char>, ParamModel)>) -> bool {
    &&& Some(o.amount) == int_field(fs, "Amount"@)
    &&& Some(o.distance_fee) == int_field(fs, "DistanceFee"@)
    &&& Some(o.enchantment_level) == int_field(fs, "EnchantmentLevel"@)
    &&& Some(o.id) == int_field(fs, "Id"@)
    &&& Some(o.quality_level) == int_field(fs, "QualityLevel"@)
    &&& Some(o.tier) == int_field(fs, "Tier"@)
    &&& Some(o.total_price_silver) == int_field(fs, "TotalPriceSilver"@)
    &&& Some(o.unit_price_silver) == int_field(fs, "UnitPriceSilver"@)
    &&& reads_auction_type(o.auction_type, str_field(fs, "AuctionType"@)->Some_0)
    &&& Some(o.expires@) == str_field(fs, "Expires"@)
    &&& Some(o.item_group_type_id@) == str_field(fs, "ItemGroupTypeId"@)
    &&& Some(o.item_type_id@) == str_field(fs, "ItemTypeId"@)
    &&& Some(o.reference_id@) == str_field(fs, "ReferenceId"@)
    &&& Some(o.has_buyer_fetched) == bool_field(fs, "HasBuyerFetched"@)
    &&& Some(o.has_seller_fetched) == bool_field(fs, "HasSellerFetched"@)
    &&& Some(o.is_finished) == bool_field(fs, "IsFinished"@)
    &&& Some(opt_view(o.buyer_character_id)) == opt_str_field(fs, "BuyerCharacterId"@)
    &&& Some(opt_view(o.buyer_name)) == opt_str_field(fs, "BuyerName"@)
    &&& Some(opt_view(o.seller_character_id)) == opt_str_field(fs, "SellerCharacterId"@)
    &&& Some(opt_view(o.seller_name)) == opt_str_field(fs, "SellerName"@)
    &&& Some(opt_view(o.location_id)) == opt_str_field(fs, "LocationId"@)
    &&& Some(opt_view(o.location_name)) == opt_str_field(fs, "LocationName"@)
    &&& Some(opt_view(o.friendly_location_name)) == opt_str_field(fs, "FriendlyLocationName"@)
}

/// The field names of such an order, in the order its array form lists
/// them.
pub open spec fn located_order_field_names() -> Seq<Seq<char>> {
    seq![
        "Amount"@,
        "AuctionType"@,
        "BuyerCharacterId"@,
        "BuyerName"@,
        "DistanceFee"@,
        "EnchantmentLevel"@,
        "Expires"@,
        "HasBuyerFetched"@,
        "HasSellerFetched"@,
        "Id"@,
        "IsFinished"@,
        "ItemGroupTypeId"@,
        "ItemTypeId"@,
        "LocationId"@,
        "LocationName"@,
        "FriendlyLocationName"@,
        "QualityLevel"@,
        "ReferenceId"@,
        "SellerCharacterId"@,
        "SellerName"@,
        "Tier"@,
        "TotalPriceSilver"@,
        "UnitPriceSilver"@,
    ]
}

/// The names of [`located_order_field_names`].
fn located_order_field_name_list() -> (r: Vec<String>)
    ensures
        r@.map_values(|t: String| t@) == located_order_field_names(),
{
    let mut r: Vec<String> = Vec::new();
    r.push(to_owned_string("Amount"));
    r.push(to_owned_string("AuctionType"));
    r.push(to_owned_string("BuyerCharacterId"));
    r.push(to_owned_string("BuyerName"));
    r.push(to_owned_string("DistanceFee"));
    r.push(to_owned_string("EnchantmentLevel"));
    r.push(to_owned_string("Expires"));
    r.push(to_owned_string("HasBuyerFetched"));
    r.push(to_owned_string("HasSellerFetched"));
    r.push(to_owned_string("Id"));
    r.push(to_owned_string("IsFinished"));
    r.push(to_owned_string("ItemGroupTypeId"));
    r.push(to_owned_string("ItemTypeId"));
    r.push(to_owned_string("LocationId"));
    r.push(to_owned_string("LocationName"));
    r.push(to_owned_string("FriendlyLocationName"));
    r.push(to_owned_string("QualityLevel"));
    r.push(to_owned_string("ReferenceId"));
    r.push(to_owned_string("SellerCharacterId"));
    r.push(to_owned_string("SellerName"));
    r.push(to_owned_string("Tier"));
    r.push(to_owned_string("TotalPriceSilver"));
    r.push(to_owned_string("UnitPriceSilver"));
    assert(r@.map_values(|t: String| t@) =~= located_order_field_names());
    r
}

impl CachedOrder {
    /// Reads an order from a JSON object with PascalCase field names, or
    /// from an array of its fields in the order
    /// [`located_order_field_names`] lists them ([`order_object`]); other
    /// values, and objects missing a field or holding one of the wrong type,
    /// give `None`.
    pub fn from_value(value: &ParamValue) -> (r: Option<CachedOrder>)
        ensures
            match order_object(value.model(), located_order_field_names()) {
                Some(fs) => match r {
                    Some(o) => located_order_decodes(fs) && decoded_located_order(o, fs),
                    None => !located_order_decodes(fs),
                },
                None => r is None,
            },
    {
        match value {
            ParamValue::Object(fields) => {
                proof {
                    assert(value.model()->Object_0 =~= fields_model(fields@));
                }
                Self::from_fields(fields)
            },
            ParamValue::Array(items) => {
                let names = located_order_field_name_list();
                if items.len() != names.len() {
                    return None;
                }
                let fields = name_items(&names, items);
                proof {
                    assert(value.model()->Array_0 =~= item_models(items@));
                }
                Self::from_fields(&fields)
            },
            _ => None,
        }
    }

    fn from_fields(fields: &Vec<(String, ParamValue)>) -> (r: Option<CachedOrder>)
        ensures
            match r {
                Some(o) => located_order_decodes(fields_model(fields@)) && decoded_located_order(
                    o,
                    fields_model(fields@),
                ),
                None => !located_order_decodes(fields_model(fields@)),
            },
    {
        let (base, location_id, location_name, friendly_location_name) = match (
            crate::albion::cached_order::CachedOrder::from_fields(fields),
            get_opt_str(fields, "LocationId"),
            get_opt_str(fields, "LocationName"),
            get_opt_str(fields, "FriendlyLocationName"),
        ) {
            (Some(b), Some(l), Some(n), Some(f)) => (b, l, n, f),
            _ => return None,
        };
        Some(
            CachedOrder {
                amount: base.amount,
                auction_type: base.auction_type,
                buyer_character_id: base.buyer_character_id,
                buyer_name: base.buyer_name,
                distance_fee: base.distance_fee,
                enchantment_level: base.enchantment_level,
                expires: base.expires,
                has_buyer_fetched: base.has_buyer_fetched,
                has_seller_fetched: base.has_seller_fetched,
                id: base.id,
                is_finished: base.is_finished,
                item_group_type_id: base.item_group_type_id,
                item_type_id: base.item_id,
                location_id,
                location_name,
                friendly_location_name,
                quality_level: base.quality_level,
                reference_id: base.reference_id,
                seller_character_id: base.seller_character_id,
                seller_name: base.seller_name,
                tier: base.tier,
                total_price_silver: base.total_price_silver,
                unit_price_silver: base.unit_price_silver,
            },
        )
    }
}

} // verus!

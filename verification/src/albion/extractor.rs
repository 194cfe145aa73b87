//! The game-level reading of decoded messages: what each operation and
//! event means, and the session state it updates.

use vstd::prelude::*;
use std::sync::Arc;
use crate::albion::cached_order::{
    decoded_order_fields, order_decodes, order_field_names, order_location_id, order_object, CachedOrder,
};
use crate::albion::chat_state::{channel_of_index, ChatState};
use crate::albion::codes::{EventCode, OperationCode};
use crate::albion::extracted::ExtractedPacket;
use crate::albion::items::ItemNameResolver;
use crate::albion::mail_state::{after_listing, after_read, MailState};
use crate::albion::market_state::{after_answer, after_begin, cached_all, MarketState};
use crate::albion::payloads::{
    AuctionGetOffers, AuctionGetOffersResult, AuctionGetRequests, AuctionGetRequestsResult,
    ChatMessage, GetMailInfos, JoinResponse, JoinedChatChannel, LeftChatChannel,
    MarketPlaceNotification, ReadMail,
};
use crate::albion::payloads::chat_message::is_chat_message;
use crate::albion::payloads::get_mail_infos::is_mail_listing;
use crate::albion::payloads::join_response::is_join_response;
use crate::albion::payloads::joined_chat_channel::{channel_id_at, joined_chat_index};
use crate::albion::payloads::read_mail::is_read_mail;
use crate::albion::player_state::PlayerState;
use crate::clock::now_millis;
use crate::models::albion_location::{opt_view, unknown_id, AlbionLocation};
use crate::models::chat_channel::ChatChannel;
use crate::models::world_map::{embedded_world, indexes_by_name, is_resolution, names_by_index, spec_resolve, WorldMap};
use crate::packet::json::{json_text_value, parse_json};
use crate::packet::kind::OperationPacketKind;
use crate::packet::parameters::{ParamModel, ParamValue, RawParameters};
use crate::util::{param_i64, spec_param_i64};

verus! {

/// The values a market listing holds under key 0: an array's items, or the
/// one value there.
pub open spec fn listing_values(p: Map<u8, ParamValue>) -> Seq<ParamModel> {
    if p.contains_key(0) {
        match p[0].model() {
            ParamModel::Array(items) => items,
            m => seq![m],
        }
    } else {
        Seq::empty()
    }
}

/// The fields of a listed order: an object, or a text holding one in JSON
/// (as an object or in array form, see [`order_object`]), that decodes as
/// an order.
pub open spec fn order_fields(m: ParamModel) -> Option<Seq<(Seq<char>, ParamModel)>> {
    match m {
        ParamModel::Object(fs) => if order_decodes(fs) {
            Some(fs)
        } else {
            None
        },
        ParamModel::Str(t) => match json_text_value(t) {
            Some(v) => match order_object(v, order_field_names()) {
                Some(fs) => if order_decodes(fs) {
                    Some(fs)
                } else {
                    None
                },
                None => None,
            },
            None => None,
        },
        _ => None,
    }
}

/// The orders among listed values, in order; values that are not orders
/// are left out.
pub open spec fn decodable_orders(ms: Seq<ParamModel>) -> Seq<Seq<(Seq<char>, ParamModel)>>
    decreases ms.len(),
{
    if ms.len() == 0 {
        Seq::empty()
    } else {
        let prev = decodable_orders(ms.drop_last());
        match order_fields(ms.last()) {
            Some(fs) => prev.push(fs),
            None => prev,
        }
    }
}

/// The text of an optional string slice.
pub open spec fn opt_str_view(o: Option<&str>) -> Option<Seq<char>> {
    match o {
        Some(t) => Some(t@),
        None => None,
    }
}

/// The name of an item, when the names know it.
pub open spec fn item_name_of(items: ItemNameResolver, item_id: Seq<char>) -> Option<Seq<char>> {
    if items.view().contains_key(item_id) {
        Some(items.view()[item_id])
    } else {
        None
    }
}

/// `o` is the order an object lists, placed in the world: its own location
/// resolved against the map, or, when it names none, the `fallback`
/// location resolved (the unknown location without one); and named.
pub open spec fn is_listed_order(
    o: CachedOrder,
    fs: Seq<(Seq<char>, ParamModel)>,
    world: WorldMap,
    items: ItemNameResolver,
    fallback: Option<Seq<char>>,
) -> bool {
    &&& decoded_order_fields(o, fs)
    &&& if order_location_id(fs) == unknown_id() {
        match fallback {
            Some(f) => is_resolution(o.location, spec_resolve(world.index_view(), world.name_view(), f)),
            None => is_resolution(o.location, None),
        }
    } else {
        is_resolution(
            o.location,
            spec_resolve(world.index_view(), world.name_view(), order_location_id(fs)),
        )
    }
    &&& opt_view(o.item_name) == item_name_of(items, o.item_id@)
}

/// The orders of a listing, each as [`is_listed_order`] says.
pub open spec fn are_listed_orders(
    orders: Seq<CachedOrder>,
    p: Map<u8, ParamValue>,
    world: WorldMap,
    items: ItemNameResolver,
    fallback: Option<Seq<char>>,
) -> bool {
    let fss = decodable_orders(listing_values(p));
    &&& orders.len() == fss.len()
    &&& forall|i: int|
        0 <= i < orders.len() ==> is_listed_order(
            #[trigger] orders[i],
            fss[i],
            world,
            items,
            fallback,
        )
}

pub struct AlbionExtractor {
    pub world_map: Arc<WorldMap>,
    pub item_names: ItemNameResolver,
    pub player_state: PlayerState,
    pub mail_state: MailState,
    pub market_state: MarketState,
    pub chat_state: ChatState,
}

/// The location a market listing's orders fall back to: the player's,
/// unless it is unknown.
pub open spec fn fallback_of(player: PlayerState) -> Option<Seq<char>> {
    if player.spec_location().spec_is_unknown() {
        None
    } else {
        Some(player.spec_location().id@)
    }
}

/// Only the market changed, and its pending trade did not.
pub open spec fn market_orders_changed(a: AlbionExtractor, b: AlbionExtractor) -> bool {
    &&& b.world_map == a.world_map
    &&& b.item_names == a.item_names
    &&& b.player_state == a.player_state
    &&& b.mail_state == a.mail_state
    &&& b.chat_state == a.chat_state
    &&& b.market_state.unconfirmed() == a.market_state.unconfirmed()
}

/// Only the market's pending trade changed.
pub open spec fn market_trade_changed(a: AlbionExtractor, b: AlbionExtractor) -> bool {
    &&& b.world_map == a.world_map
    &&& b.item_names == a.item_names
    &&& b.player_state == a.player_state
    &&& b.mail_state == a.mail_state
    &&& b.chat_state == a.chat_state
    &&& b.market_state.orders() == a.market_state.orders()
}

/// Only the mail changed.
pub open spec fn mail_changed(a: AlbionExtractor, b: AlbionExtractor) -> bool {
    &&& b.world_map == a.world_map
    &&& b.item_names == a.item_names
    &&& b.player_state == a.player_state
    &&& b.market_state == a.market_state
    &&& b.chat_state == a.chat_state
}

/// Only the chat changed.
pub open spec fn chat_changed(a: AlbionExtractor, b: AlbionExtractor) -> bool {
    &&& b.world_map == a.world_map
    &&& b.item_names == a.item_names
    &&& b.player_state == a.player_state
    &&& b.market_state == a.market_state
    &&& b.mail_state == a.mail_state
}

/// What joining tells of the player: object id, name (kept when none is
/// given), location resolved against the map; the rest stays.
pub open spec fn player_joined(a: PlayerState, x: JoinResponse, world: WorldMap, b: PlayerState) -> bool {
    &&& b.spec_user_object_id() == x.user_object_id
    &&& b.spec_player_name() == (match x.player_name {
        Some(n) => n@,
        None => a.spec_player_name(),
    })
    &&& is_resolution(
        b.spec_location(),
        spec_resolve(world.index_view(), world.name_view(), x.player_location@),
    )
    &&& b.spec_albion_server() == a.spec_albion_server()
    &&& b.spec_has_encrypted_data() == a.spec_has_encrypted_data()
}

/// What reading an operation message does, at time `now`, by operation and
/// kind: listings of offers and requests give their orders (with the
/// player's location as fallback), and responses cache them; buy and sell
/// requests start an instant trade (buy: amount key 1, order key 2; sell:
/// amount key 4, order key 1) and their responses answer it; a join
/// response updates the player; a mail listing and a mail body are
/// recorded and correlated. Anything else gives nothing and changes
/// nothing.
pub open spec fn operation_outcome(
    a: AlbionExtractor,
    kind: OperationPacketKind,
    code: OperationCode,
    p: Map<u8, ParamValue>,
    return_code: Option<i16>,
    now: i64,
    b: AlbionExtractor,
    r: Option<ExtractedPacket>,
) -> bool {
    let world = *a.world_map;
    let items = a.item_names;
    let fallback = fallback_of(a.player_state);
    match (code, kind) {
        (OperationCode::AuctionGetOffers, OperationPacketKind::Request) => {
            &&& r matches Some(ExtractedPacket::AuctionGetOffersRequest(x))
                && x.market_order_count == x.market_orders.len() && are_listed_orders(
                x.market_orders@,
                p,
                world,
                items,
                fallback,
            )
            &&& b == a
        },
        (OperationCode::AuctionGetRequests, OperationPacketKind::Request) => {
            &&& r matches Some(ExtractedPacket::AuctionGetRequestsRequest(x))
                && x.market_order_count == x.market_orders.len() && are_listed_orders(
                x.market_orders@,
                p,
                world,
                items,
                fallback,
            )
            &&& b == a
        },
        (OperationCode::AuctionGetOffers, OperationPacketKind::Response) => {
            &&& r matches Some(ExtractedPacket::AuctionGetOffersResponse(x))
                && x.market_order_count == x.market_orders.len() && are_listed_orders(
                x.market_orders@,
                p,
                world,
                items,
                fallback,
            ) && b.market_state.orders() == cached_all(a.market_state.orders(), x.market_orders@)
            &&& market_orders_changed(a, b)
        },
        (OperationCode::AuctionGetRequests, OperationPacketKind::Response) => {
            &&& r matches Some(ExtractedPacket::AuctionGetRequestsResponse(x))
                && x.market_order_count == x.market_orders.len() && are_listed_orders(
                x.market_orders@,
                p,
                world,
                items,
                fallback,
            ) && b.market_state.orders() == cached_all(a.market_state.orders(), x.market_orders@)
            &&& market_orders_changed(a, b)
        },
        (OperationCode::AuctionBuyOffer, OperationPacketKind::Request) => {
            &&& r matches Some(ExtractedPacket::AuctionBuyOfferRequest(x)) && x.amount
                == spec_param_i64(p, 1) && x.order_id == spec_param_i64(p, 2) && x.cached_order
                == a.market_state.order_of(x.order_id) && after_begin(
                a.market_state,
                x.order_id,
                x.amount,
                now,
                b.market_state,
            )
            &&& market_trade_changed(a, b)
        },
        (OperationCode::AuctionSellSpecificItem, OperationPacketKind::Request) => {
            &&& r matches Some(ExtractedPacket::AuctionSellSpecificItemRequest(x)) && x.amount
                == spec_param_i64(p, 4) && x.order_id == spec_param_i64(p, 1) && x.cached_order
                == a.market_state.order_of(x.order_id) && x.tax is None && after_begin(
                a.market_state,
                x.order_id,
                x.amount,
                now,
                b.market_state,
            )
            &&& market_trade_changed(a, b)
        },
        (OperationCode::AuctionBuyOffer, OperationPacketKind::Response)
        | (OperationCode::AuctionSellSpecificItem, OperationPacketKind::Response) => {
            &&& r matches Some(ExtractedPacket::AuctionTradeResponse(x)) && after_answer(
                a.market_state,
                return_code,
                b.market_state,
                x,
            )
            &&& market_trade_changed(a, b)
        },
        (OperationCode::Join, OperationPacketKind::Response) => {
            &&& r matches Some(ExtractedPacket::JoinResponse(x)) && is_join_response(x, p)
                && player_joined(a.player_state, x, world, b.player_state)
            &&& b.world_map == a.world_map
            &&& b.item_names == a.item_names
            &&& b.market_state == a.market_state
            &&& b.mail_state == a.mail_state
            &&& b.chat_state == a.chat_state
        },
        (OperationCode::GetMailInfos, OperationPacketKind::Response) => {
            &&& r matches Some(ExtractedPacket::GetMailInfos(x)) && is_mail_listing(x, p)
                && after_listing(
                a.mail_state,
                x,
                world,
                items,
                a.player_state.spec_player_name(),
                b.mail_state,
            )
            &&& mail_changed(a, b)
        },
        (OperationCode::ReadMail, OperationPacketKind::Response) => {
            &&& exists|read: ReadMail, m: Option<crate::models::albion_mail::AlbionMail>|
                is_read_mail(read, p) && after_read(
                    a.mail_state,
                    read,
                    world,
                    items,
                    a.player_state.spec_player_name(),
                    b.mail_state,
                    m,
                ) && match m {
                    Some(mail) => r matches Some(ExtractedPacket::AlbionMail(y)) && y == mail,
                    None => r is None,
                }
            &&& mail_changed(a, b)
        },
        _ => {
            &&& r is None
            &&& b == a
        },
    }
}

/// What reading an event does, by event: a marketplace notification hands
/// on the value under key 0 (`null` without one); a chat message is read on
/// the kind of channel the session knows for its channel id (say when it
/// knows none); a say message on the say channel; joining and leaving a
/// channel are recorded in the chat state. Anything else gives nothing.
pub open spec fn event_outcome(
    a: AlbionExtractor,
    code: EventCode,
    p: Map<u8, ParamValue>,
    b: AlbionExtractor,
    r: Option<ExtractedPacket>,
) -> bool {
    match code {
        EventCode::MarketPlaceNotification => {
            &&& r matches Some(ExtractedPacket::MarketPlaceNotification(x))
                && x.notification.model() == (if p.contains_key(0) {
                p[0].model()
            } else {
                ParamModel::Null
            })
            &&& b == a
        },
        EventCode::ChatMessage => {
            let channel_type = match spec_param_i64(p, 0) {
                Some(id) => if a.chat_state.view().contains_key(id) {
                    Some(a.chat_state.view()[id])
                } else {
                    None
                },
                None => None,
            };
            &&& r matches Some(ExtractedPacket::ChatMessage(x)) && is_chat_message(x, p, channel_type)
            &&& b == a
        },
        EventCode::ChatSay => {
            &&& r matches Some(ExtractedPacket::ChatMessage(x)) && is_chat_message(
                x,
                p,
                Some(ChatChannel::Say),
            )
            &&& b == a
        },
        EventCode::JoinedChatChannel => {
            &&& r matches Some(ExtractedPacket::JoinedChatChannel(x)) && x.chat_index
                == joined_chat_index(p) && x.channel_id == channel_id_at(p, 1)
                && b.chat_state.view() == a.chat_state.view().insert(
                x.channel_id,
                channel_of_index(x.chat_index as i64),
            )
            &&& chat_changed(a, b)
        },
        EventCode::LeftChatChannel => {
            &&& r matches Some(ExtractedPacket::LeftChatChannel(x)) && x.channel_id
                == channel_id_at(p, 0) && b.chat_state.view() == a.chat_state.view().remove(
                x.channel_id,
            )
            &&& chat_changed(a, b)
        },
        _ => {
            &&& r is None
            &&& b == a
        },
    }
}

impl AlbionExtractor {
    /// Reads one listed value as an order placed in the world.
    fn decode_listed(&self, v: &ParamValue, fallback: Option<&str>) -> (r: Option<CachedOrder>)
        ensures
            match order_fields(v.model()) {
                Some(fs) => r matches Some(o) && is_listed_order(
                    o,
                    fs,
                    *self.world_map,
                    self.item_names,
                    opt_str_view(fallback),
                ),
                None => r is None,
            },
    {
        let decoded = match v {
            ParamValue::Str(text) => match parse_json(text.as_str()) {
                Some(parsed) => CachedOrder::from_value(&parsed),
                None => None,
            },
            ParamValue::Object(_) => CachedOrder::from_value(v),
            _ => None,
        };
        let mut order = match decoded {
            Some(o) => o,
            None => return None,
        };
        let location = if order.location.is_unknown() {
            match fallback {
                Some(f) => self.world_map.resolve_location(f),
                None => AlbionLocation::unknown(),
            }
        } else {
            self.world_map.resolve_location(order.location.id.as_str())
        };
        order.location = location;
        order.item_name = self.item_names.resolve_owned(order.item_id.as_str());
        Some(order)
    }

    /// The orders a listing holds (key 0), as [`are_listed_orders`] says;
    /// orders that name no location take `fallback_location_index`.
    pub fn extract_market_orders(&self, params: &RawParameters, fallback_location_index: Option<&str>) -> (r:
        Vec<CachedOrder>)
        ensures
            are_listed_orders(
                r@,
                params.view(),
                *self.world_map,
                self.item_names,
                opt_str_view(fallback_location_index),
            ),
    {
        let ghost ms = listing_values(params.view());
        let raw = match params.get(0) {
            Some(v) => v,
            None => {
                assert(ms =~= Seq::<ParamModel>::empty());
                return Vec::new();
            },
        };
        assert(params.view().contains_key(0) && params.view()[0] == *raw);
        let mut out: Vec<CachedOrder> = Vec::new();
        match raw {
            ParamValue::Array(items) => {
                let ghost fallback = opt_str_view(fallback_location_index);
                assert(ms.len() == items.len());
                let mut i: usize = 0;
                assert(ms.take(0) =~= Seq::<ParamModel>::empty());
                while i < items.len()
                    invariant
                        i <= items.len(),
                        fallback == opt_str_view(fallback_location_index),
                        ms.len() == items.len(),
                        forall|j: int| 0 <= j < items.len() ==> ms[j] == (#[trigger] items@[j]).model(),
                        out.len() == decodable_orders(ms.take(i as int)).len(),
                        forall|j: int|
                            0 <= j < out.len() ==> is_listed_order(
                                #[trigger] out@[j],
                                decodable_orders(ms.take(i as int))[j],
                                *self.world_map,
                                self.item_names,
                                fallback,
                            ),
                    decreases items.len() - i,
                {
                    assert(ms.take(i + 1).drop_last() =~= ms.take(i as int));
                    assert(ms.take(i + 1).last() == items@[i as int].model());
                    let ghost prev = decodable_orders(ms.take(i as int));
                    let ghost out0 = out@;
                    match self.decode_listed(&items[i], fallback_location_index) {
                        Some(o) => {
                            let ghost og = o;
                            out.push(o);
                            proof {
                                let fs = order_fields(items@[i as int].model())->Some_0;
                                assert(decodable_orders(ms.take(i + 1)) == prev.push(fs));
                                assert forall|j: int| 0 <= j < out.len() implies is_listed_order(
                                    #[trigger] out@[j],
                                    decodable_orders(ms.take(i + 1))[j],
                                    *self.world_map,
                                    self.item_names,
                                    fallback,
                                ) by {
                                    if j < out0.len() {
                                        assert(out@[j] == out0[j]);
                                        assert(decodable_orders(ms.take(i + 1))[j] == prev[j]);
                                    } else {
                                        assert(out@[j] == og);
                                        assert(decodable_orders(ms.take(i + 1))[j] == fs);
                                    }
                                }
                            }
                        },
                        None => {
                            assert(decodable_orders(ms.take(i + 1)) == prev);
                        },
                    }
                    i = i + 1;
                }
                assert(ms.take(items.len() as int) =~= ms);
            },
            other => {
                assert(ms =~= seq![other.model()]);
                assert(ms.drop_last() =~= Seq::<ParamModel>::empty());
                assert(ms.last() == other.model());
                assert(decodable_orders(ms.drop_last()) =~= Seq::<
                    Seq<(Seq<char>, ParamModel)>,
                >::empty());
                match self.decode_listed(other, fallback_location_index) {
                    Some(o) => {
                        out.push(o);
                    },
                    None => {},
                }
            },
        }
        out
    }

    /// The session state is consistent: the mail state's own invariant.
    pub open spec fn wf(&self) -> bool {
        self.mail_state.wf()
    }

    /// A fresh session over the given map and item names.
    pub fn new(world_map: Arc<WorldMap>, item_names: ItemNameResolver) -> (r: AlbionExtractor)
        ensures
            r.wf(),
            r.world_map == world_map,
            r.item_names == item_names,
            r.market_state.orders() == Map::<i64, CachedOrder>::empty(),
            r.market_state.unconfirmed() is None,
            r.mail_state.mails() == Map::<i64, crate::models::albion_mail::AlbionMail>::empty(),
            r.chat_state.view() == Map::<i64, ChatChannel>::empty(),
            r.player_state.spec_location().spec_is_unknown(),
            r.player_state.spec_player_name().len() == 0,
            !r.player_state.spec_has_encrypted_data(),
    {
        AlbionExtractor {
            world_map,
            item_names,
            player_state: PlayerState::new(),
            market_state: MarketState::new(),
            mail_state: MailState::new(),
            chat_state: ChatState::new(),
        }
    }

    /// A fresh session over the built-in map (an empty one if it cannot be
    /// built) with no item names.
    pub fn with_defaults() -> (r: AlbionExtractor)
        ensures
            r.wf(),
            r.world_map.index_view() == names_by_index(embedded_world()),
            r.world_map.name_view() == indexes_by_name(embedded_world()),
            r.item_names.view() == Map::<Seq<char>, Seq<char>>::empty(),
            r.market_state.orders() == Map::<i64, CachedOrder>::empty(),
            r.market_state.unconfirmed() is None,
            r.mail_state.mails() == Map::<i64, crate::models::albion_mail::AlbionMail>::empty(),
            r.chat_state.view() == Map::<i64, ChatChannel>::empty(),
            r.player_state.spec_location().spec_is_unknown(),
            r.player_state.spec_player_name().len() == 0,
            !r.player_state.spec_has_encrypted_data(),
    {
        let world = match WorldMap::from_embedded() {
            Ok(w) => w,
            Err(_) => WorldMap::empty(),
        };
        AlbionExtractor::new(Arc::new(world), ItemNameResolver::empty())
    }

    pub fn player_state(&self) -> (r: &PlayerState)
        ensures
            *r == self.player_state,
    {
        &self.player_state
    }

    /// The number of market orders cached.
    pub fn market_order_count(&self) -> (r: usize)
        ensures
            r == self.market_state.orders().len(),
    {
        self.market_state.order_count()
    }

    /// The market mails built so far.
    pub fn albion_mails(&self) -> (r: &std::collections::HashMap<i64, crate::models::albion_mail::AlbionMail>)
        ensures
            r@ == self.mail_state.mails(),
    {
        self.mail_state.albion_mails()
    }

    /// The player's state, to be changed in place; nothing else changes.
    pub fn player_state_mut(&mut self) -> (r: &mut PlayerState)
        ensures
            *r == old(self).player_state,
            *final(self) == (AlbionExtractor { player_state: *final(r), ..*old(self) }),
    {
        &mut self.player_state
    }

    /// Records that encrypted traffic was seen.
    pub fn mark_encrypted_data_seen(&mut self)
        ensures
            final(self).player_state.spec_has_encrypted_data(),
            final(self).player_state.spec_location() == old(self).player_state.spec_location(),
            final(self).player_state.spec_player_name() == old(self).player_state.spec_player_name(),
            final(self).player_state.spec_user_object_id() == old(self).player_state.spec_user_object_id(),
            final(self).world_map == old(self).world_map,
            final(self).item_names == old(self).item_names,
            final(self).market_state == old(self).market_state,
            final(self).mail_state == old(self).mail_state,
            final(self).chat_state == old(self).chat_state,
    {
        self.player_state.set_has_encrypted_data(true);
    }

    fn handle_join_response(&mut self, parameters: &RawParameters) -> (r: ExtractedPacket)
        ensures
            r matches ExtractedPacket::JoinResponse(x) && is_join_response(x, parameters.view())
                && player_joined(old(self).player_state, x, *old(self).world_map, final(self).player_state),
            final(self).world_map == old(self).world_map,
            final(self).item_names == old(self).item_names,
            final(self).market_state == old(self).market_state,
            final(self).mail_state == old(self).mail_state,
            final(self).chat_state == old(self).chat_state,
    {
        let response = JoinResponse::from_params(parameters);
        self.player_state.set_user_object_id(response.user_object_id);
        match &response.player_name {
            Some(name) => self.player_state.set_player_name(name.as_str()),
            None => {},
        }
        let location = self.world_map.resolve_location(response.player_location.as_str());
        self.player_state.set_location(location);
        ExtractedPacket::JoinResponse(response)
    }

    /// Reads an operation message at time `now`, as [`operation_outcome`]
    /// says.
    #[verifier::spinoff_prover]
    pub fn extract_operation_at(
        &mut self,
        packet_kind: OperationPacketKind,
        operation_code: OperationCode,
        parameters: &RawParameters,
        return_code: Option<i16>,
        now: i64,
    ) -> (r: Option<ExtractedPacket>)
        requires
            old(self).wf(),
        ensures
            final(self).wf(),
            operation_outcome(
                *old(self),
                packet_kind,
                operation_code,
                parameters.view(),
                return_code,
                now,
                *final(self),
                r,
            ),
    {
        let fallback_location_index = self.player_state.location_index();
        match (operation_code, packet_kind) {
            (OperationCode::AuctionGetOffers, OperationPacketKind::Request) => {
                let orders = self.extract_market_orders(parameters, fallback_location_index);
                Some(
                    ExtractedPacket::AuctionGetOffersRequest(
                        AuctionGetOffers { market_order_count: orders.len(), market_orders: orders },
                    ),
                )
            },
            (OperationCode::AuctionGetRequests, OperationPacketKind::Request) => {
                let orders = self.extract_market_orders(parameters, fallback_location_index);
                Some(
                    ExtractedPacket::AuctionGetRequestsRequest(
                        AuctionGetRequests {
                            market_order_count: orders.len(),
                            market_orders: orders,
                        },
                    ),
                )
            },
            (OperationCode::AuctionGetOffers, OperationPacketKind::Response) => {
                let orders = self.extract_market_orders(parameters, fallback_location_index);
                self.market_state.cache_orders_from_slice(orders.as_slice());
                Some(
                    ExtractedPacket::AuctionGetOffersResponse(
                        AuctionGetOffersResult {
                            market_order_count: orders.len(),
                            market_orders: orders,
                        },
                    ),
                )
            },
            (OperationCode::AuctionGetRequests, OperationPacketKind::Response) => {
                let orders = self.extract_market_orders(parameters, fallback_location_index);
                self.market_state.cache_orders_from_slice(orders.as_slice());
                Some(
                    ExtractedPacket::AuctionGetRequestsResponse(
                        AuctionGetRequestsResult {
                            market_order_count: orders.len(),
                            market_orders: orders,
                        },
                    ),
                )
            },
            (OperationCode::AuctionBuyOffer, OperationPacketKind::Request) => {
                let amount = param_i64(parameters, 1);
                let order_id = param_i64(parameters, 2);
                let request = self.market_state.begin_buy_order_for(order_id, amount, now);
                Some(ExtractedPacket::AuctionBuyOfferRequest(request))
            },
            (OperationCode::AuctionSellSpecificItem, OperationPacketKind::Request) => {
                let amount = param_i64(parameters, 4);
                let order_id = param_i64(parameters, 1);
                let request = self.market_state.begin_sell_specific_item_for(order_id, amount, now);
                Some(ExtractedPacket::AuctionSellSpecificItemRequest(request))
            },
            (OperationCode::AuctionBuyOffer, OperationPacketKind::Response)
            | (OperationCode::AuctionSellSpecificItem, OperationPacketKind::Response) => {
                let response = self.market_state.finish_instant_trade_response(return_code);
                Some(ExtractedPacket::AuctionTradeResponse(response))
            },
            (OperationCode::Join, OperationPacketKind::Response) => {
                Some(self.handle_join_response(parameters))
            },
            (OperationCode::GetMailInfos, OperationPacketKind::Response) => {
                let response = GetMailInfos::from_params(parameters);
                self.mail_state.cache_mail_infos(
                    &response,
                    &self.world_map,
                    &self.item_names,
                    self.player_state.player_name(),
                );
                Some(ExtractedPacket::GetMailInfos(response))
            },
            (OperationCode::ReadMail, OperationPacketKind::Response) => {
                let response = ReadMail::from_params(parameters);
                let ghost read = response;
                let mail = self.mail_state.cache_read_mail(
                    response,
                    &self.world_map,
                    &self.item_names,
                    self.player_state.player_name(),
                );
                let ghost m = mail;
                let r = match mail {
                    Some(mail) => Some(ExtractedPacket::AlbionMail(mail)),
                    None => None,
                };
                proof {
                    assert(is_read_mail(read, parameters.view()));
                    assert(after_read(
                        old(self).mail_state,
                        read,
                        *old(self).world_map,
                        old(self).item_names,
                        old(self).player_state.spec_player_name(),
                        self.mail_state,
                        m,
                    ));
                }
                r
            },
            _ => None,
        }
    }

    /// [`Self::extract_operation_at`] at the current time, which only a
    /// buy or sell request reads, as the time of the trade it starts.
    pub fn extract_operation(
        &mut self,
        packet_kind: OperationPacketKind,
        operation_code: OperationCode,
        parameters: &RawParameters,
        return_code: Option<i16>,
    ) -> (r: Option<ExtractedPacket>)
        requires
            old(self).wf(),
        ensures
            final(self).wf(),
            exists|now: i64|
                operation_outcome(
                    *old(self),
                    packet_kind,
                    operation_code,
                    parameters.view(),
                    return_code,
                    now,
                    *final(self),
                    r,
                ),
    {
        let now = now_millis();
        self.extract_operation_at(packet_kind, operation_code, parameters, return_code, now)
    }

    /// Reads an event, as [`event_outcome`] says.
    pub fn extract_event(&mut self, event_code: EventCode, parameters: &RawParameters) -> (r: Option<
        ExtractedPacket,
    >)
        requires
            old(self).wf(),
        ensures
            final(self).wf(),
            event_outcome(*old(self), event_code, parameters.view(), *final(self), r),
    {
        match event_code {
            EventCode::MarketPlaceNotification => {
                let notification = match parameters.get(0) {
                    Some(v) => v.duplicate(),
                    None => ParamValue::Null,
                };
                Some(ExtractedPacket::MarketPlaceNotification(MarketPlaceNotification { notification }))
            },
            EventCode::ChatMessage => {
                let channel_type = match param_i64(parameters, 0) {
                    Some(channel_id) => self.chat_state.channel_type(channel_id),
                    None => None,
                };
                Some(
                    ExtractedPacket::ChatMessage(
                        ChatMessage::from_params_with_channel_type(parameters, channel_type),
                    ),
                )
            },
            EventCode::ChatSay => Some(
                ExtractedPacket::ChatMessage(ChatMessage::from_say_params(parameters)),
            ),
            EventCode::JoinedChatChannel => {
                let response = JoinedChatChannel::from_params(parameters);
                self.chat_state.join_channel(response.channel_id, response.chat_index as i64);
                Some(ExtractedPacket::JoinedChatChannel(response))
            },
            EventCode::LeftChatChannel => {
                let response = LeftChatChannel::from_params(parameters);
                self.chat_state.leave_channel(response.channel_id);
                Some(ExtractedPacket::LeftChatChannel(response))
            },
            _ => None,
        }
    }
}


/// After joining a channel, a chat message on it is read as the kind of
/// channel that the join's chat index names.
pub proof fn law_joined_channel_classifies_messages(
    a: AlbionExtractor,
    joined: Map<u8, ParamValue>,
    b: AlbionExtractor,
    r1: Option<ExtractedPacket>,
    message: Map<u8, ParamValue>,
    c: AlbionExtractor,
    r2: Option<ExtractedPacket>,
)
    requires
        event_outcome(a, EventCode::JoinedChatChannel, joined, b, r1),
        event_outcome(b, EventCode::ChatMessage, message, c, r2),
        spec_param_i64(message, 0) == Some(channel_id_at(joined, 1)),
    ensures
        r2 matches Some(ExtractedPacket::ChatMessage(x)) && x.channel_type == channel_of_index(
            joined_chat_index(joined) as i64,
        ),
{
}

/// After leaving a channel, a chat message on it is read as said nearby.
pub proof fn law_left_channel_unclassifies_messages(
    a: AlbionExtractor,
    left: Map<u8, ParamValue>,
    b: AlbionExtractor,
    r1: Option<ExtractedPacket>,
    message: Map<u8, ParamValue>,
    c: AlbionExtractor,
    r2: Option<ExtractedPacket>,
)
    requires
        event_outcome(a, EventCode::LeftChatChannel, left, b, r1),
        event_outcome(b, EventCode::ChatMessage, message, c, r2),
        spec_param_i64(message, 0) == Some(channel_id_at(left, 0)),
    ensures
        r2 matches Some(ExtractedPacket::ChatMessage(x)) && x.channel_type == ChatChannel::Say,
{
}

} // verus!

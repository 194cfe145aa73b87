//! The game messages that the library reads, one type per message.

pub mod action_on_building_cancel;
pub mod action_on_building_finished;
pub mod action_on_building_start;
pub mod auction_buy_offer;
pub mod auction_create_order;
pub mod auction_get_offers;
pub mod auction_get_requests;
pub mod auction_sell_specific_item;
pub mod auction_trade;
pub mod chat_message;
pub mod get_mail_infos;
pub mod join_response;
pub mod joined_chat_channel;
pub mod left_chat_channel;
pub mod marketplace_notification;
pub mod read_mail;
pub mod repair_building_info;

pub use action_on_building_cancel::ActionOnBuildingCancel;
pub use action_on_building_finished::ActionOnBuildingFinished;
pub use action_on_building_start::ActionOnBuildingStart;
pub use auction_buy_offer::AuctionBuyOffer;
pub use auction_create_order::{AuctionCreateOrder, CreateOrderKind};
pub use auction_get_offers::{AuctionGetOffers, AuctionGetOffersResult};
pub use auction_get_requests::{AuctionGetRequests, AuctionGetRequestsResult};
pub use auction_sell_specific_item::AuctionSellSpecificItem;
pub use auction_trade::{AuctionTrade, AuctionTradeResponse};
pub use chat_message::ChatMessage;
pub use get_mail_infos::GetMailInfos;
pub use join_response::JoinResponse;
pub use joined_chat_channel::JoinedChatChannel;
pub use left_chat_channel::LeftChatChannel;
pub use marketplace_notification::MarketPlaceNotification;
pub use read_mail::ReadMail;
pub use repair_building_info::RepairBuildingInfo;

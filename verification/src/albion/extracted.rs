//! What the library reads out of one game message.

use vstd::prelude::*;
use crate::albion::building_state::BuildingAction;
use crate::albion::payloads::{
    AuctionBuyOffer, AuctionGetOffers, AuctionGetOffersResult, AuctionGetRequests,
    AuctionGetRequestsResult, AuctionSellSpecificItem, AuctionTradeResponse, ChatMessage,
    GetMailInfos, JoinResponse, JoinedChatChannel, LeftChatChannel, MarketPlaceNotification,
};
use crate::models::albion_mail::AlbionMail;

verus! {

#[derive(Debug)]
pub enum ExtractedPacket {
    AuctionGetOffersRequest(AuctionGetOffers),
    AuctionGetRequestsRequest(AuctionGetRequests),
    AuctionGetOffersResponse(AuctionGetOffersResult),
    AuctionGetRequestsResponse(AuctionGetRequestsResult),
    AuctionBuyOfferRequest(AuctionBuyOffer),
    AuctionSellSpecificItemRequest(AuctionSellSpecificItem),
    AuctionTradeResponse(AuctionTradeResponse),
    JoinResponse(JoinResponse),
    MarketPlaceNotification(MarketPlaceNotification),
    ChatMessage(ChatMessage),
    JoinedChatChannel(JoinedChatChannel),
    LeftChatChannel(LeftChatChannel),
    GetMailInfos(GetMailInfos),
    AlbionMail(AlbionMail),
    BuildingAction(BuildingAction),
}

} // verus!

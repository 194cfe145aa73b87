//! The game's own data: locations, market and mail vocabulary, identifiers.

pub mod albion_location;
pub mod albion_mail;
pub mod cached_order;
pub mod chat_channel;
pub mod guid;
pub mod player_state;
pub mod types;
pub mod world_map;

pub use albion_location::AlbionLocation;
pub use albion_mail::AlbionMail;
pub use cached_order::CachedOrder;
pub use chat_channel::ChatChannel;
pub use guid::Guid;
pub use types::{AuctionType, MailInfoMetadata, MailInfoType, OperationType, TradeType};
pub use world_map::WorldMap;

//! The game-level meaning of decoded messages and the state they drive.

pub mod auction_event;
pub mod building_state;
pub mod cached_order;
pub mod codes;
pub mod extracted;
pub mod extractor;
pub mod chat_state;
pub mod items;
pub mod mail_state;
pub mod market_state;
pub mod payloads;
pub mod player_state;

pub use cached_order::CachedOrder;

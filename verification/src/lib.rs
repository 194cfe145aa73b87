//! Decoding of captured Albion Online network traffic: capture framing,
//! Photon command handling, and the game-level state that the decoded
//! messages drive (markets, mail, chat, player identity).

pub mod clock;
pub mod error;
pub mod text;
pub mod packet;
pub mod util;

pub mod models;
pub mod albion;
pub mod capture;
pub mod cli;
pub mod names;
pub mod photon;
pub mod live;

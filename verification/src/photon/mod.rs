//! The Photon protocol layer: framing of commands and messages.

pub mod framing;
pub mod parser;

pub use framing::{FramedMessage, PhotonFraming};

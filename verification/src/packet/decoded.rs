//! The records the parser makes of decoded messages.

use vstd::prelude::*;
use crate::albion::codes::{EventCode, OperationCode};
use crate::albion::extracted::ExtractedPacket;
use crate::packet::metadata::PacketMetadata;
use crate::packet::parameters::SerializableParameters;

verus! {

/// An operation request or response, with what the library read from it.
#[derive(Debug)]
pub struct DecodedOperation {
    pub metadata: PacketMetadata,
    pub file: String,
    pub message_type: String,
    pub code: OperationCode,
    /// The number the code was read from.
    pub number: i32,
    pub name: String,
    pub return_code: Option<i16>,
    pub debug_message: String,
    pub parameters: SerializableParameters,
    pub extracted: Option<ExtractedPacket>,
}

/// An event, with what the library read from it.
#[derive(Debug)]
pub struct DecodedEvent {
    pub metadata: PacketMetadata,
    pub file: String,
    pub message_type: String,
    pub code: EventCode,
    /// The number the code was read from.
    pub number: i32,
    pub name: String,
    pub return_code: Option<i16>,
    pub debug_message: String,
    pub parameters: SerializableParameters,
    pub extracted: Option<ExtractedPacket>,
}

/// A message whose code could not be read, kept as it came.
#[derive(Debug)]
pub struct DecodedUnknown {
    pub metadata: PacketMetadata,
    pub file: String,
    pub message_type: String,
    pub kind: String,
    pub code_parameter: u8,
    pub raw_code: Option<i32>,
    pub reason: String,
    pub return_code: Option<i16>,
    pub debug_message: String,
    pub parameters: SerializableParameters,
}

#[derive(Debug)]
pub enum DecodedPacket {
    Operation(DecodedOperation),
    Event(DecodedEvent),
    Unknown(DecodedUnknown),
}

impl DecodedPacket {
    /// What the library read from the message, if anything.
    pub fn extracted(&self) -> (r: Option<&ExtractedPacket>)
        ensures
            r == match self {
                DecodedPacket::Operation(p) => match &p.extracted {
                    Some(x) => Some(x),
                    None => None,
                },
                DecodedPacket::Event(p) => match &p.extracted {
                    Some(x) => Some(x),
                    None => None,
                },
                DecodedPacket::Unknown(_) => None::<&ExtractedPacket>,
            },
    {
        match self {
            DecodedPacket::Operation(p) => p.extracted.as_ref(),
            DecodedPacket::Event(p) => p.extracted.as_ref(),
            DecodedPacket::Unknown(_) => None,
        }
    }
}

} // verus!

//! Decoded packet records and the raw parameter tables they carry.

pub mod decoded;
pub mod json;
pub mod kind;
pub mod metadata;
pub mod parameters;

pub use decoded::{DecodedEvent, DecodedOperation, DecodedPacket, DecodedUnknown};
pub use kind::{OperationPacketKind, UnknownPacketKind};
pub use metadata::{PacketDirection, PacketMetadata};
pub use parameters::{ParamValue, RawParameters, SerializableParameters};

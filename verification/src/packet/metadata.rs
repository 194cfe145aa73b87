//! Where a packet came from and which way it went.

use vstd::prelude::*;
use crate::capture::endpoint::Endpoint;

verus! {

/// Which way a packet travelled between the game client and its server.
#[derive(Clone, Copy, Debug, PartialEq, Eq, Structural)]
pub enum PacketDirection {
    ClientToServer,
    ServerToClient,
    Unknown,
}

/// The direction of a packet by its endpoints: from a game port is server
/// to client, to one client to server; the source decides when both are.
pub open spec fn spec_direction(source: Endpoint, destination: Endpoint) -> PacketDirection {
    if source.spec_is_albion_port() {
        PacketDirection::ServerToClient
    } else if destination.spec_is_albion_port() {
        PacketDirection::ClientToServer
    } else {
        PacketDirection::Unknown
    }
}

impl PacketDirection {
    /// The direction of a packet, as [`spec_direction`] says.
    pub fn from_endpoints(source: &Endpoint, destination: &Endpoint) -> (r: PacketDirection)
        ensures
            r == spec_direction(*source, *destination),
    {
        if source.is_albion_port() {
            PacketDirection::ServerToClient
        } else if destination.is_albion_port() {
            PacketDirection::ClientToServer
        } else {
            PacketDirection::Unknown
        }
    }
}

/// Where a packet was read and between which endpoints it went.
#[derive(Clone, Debug, PartialEq, Eq)]
pub struct PacketMetadata {
    pub source_name: String,
    pub packet_number: usize,
    pub direction: PacketDirection,
    pub source: Endpoint,
    pub destination: Endpoint,
}

impl PacketMetadata {
    /// The metadata of a packet, its direction taken from its endpoints.
    pub fn new(source_name: String, packet_number: usize, source: Endpoint, destination: Endpoint) -> (r:
        PacketMetadata)
        ensures
            r.source_name == source_name,
            r.packet_number == packet_number,
            r.direction == spec_direction(source, destination),
            r.source == source,
            r.destination == destination,
    {
        let direction = PacketDirection::from_endpoints(&source, &destination);
        PacketMetadata { source_name, packet_number, direction, source, destination }
    }

    /// A copy equal to this one.
    pub fn duplicate(&self) -> (r: PacketMetadata)
        ensures
            r == *self,
    {
        PacketMetadata {
            source_name: self.source_name.clone(),
            packet_number: self.packet_number,
            direction: self.direction,
            source: self.source,
            destination: self.destination,
        }
    }
}

} // verus!

//! Capture framing: endpoints, which packets to keep, and the frames that
//! carry them.

pub mod endpoint;
pub mod filter;
pub mod frame;
pub mod hosts;
pub mod ipv6;
pub mod pcapng;

pub use endpoint::{Endpoint, IpAddress};
pub use filter::CaptureFilter;
pub use hosts::{CidrRange, HostFilter};
pub use frame::{extract_udp_payload, UdpPacket};
pub use pcapng::iter_pcapng_packets;

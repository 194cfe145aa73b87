//! Which captured packets to keep: by port, and optionally by host.

use vstd::prelude::*;
use crate::capture::endpoint::Endpoint;
use crate::capture::frame::UdpPacket;
use crate::capture::hosts::HostFilter;

verus! {

/// Keeps packets with an endpoint on one of the ports (any port when there
/// are none) and, with a host filter, on one of its hosts.
#[derive(Debug)]
pub struct CaptureFilter {
    ports: Vec<u16>,
    host_filter: Option<HostFilter>,
}

impl CaptureFilter {
    /// The ports kept; empty means any port.
    pub closed spec fn spec_ports(&self) -> Seq<u16> {
        self.ports@
    }

    /// The host filter, if any.
    pub closed spec fn spec_host_filter(&self) -> Option<HostFilter> {
        self.host_filter
    }

    /// Whether an endpoint passes: its port is kept, and its address is in
    /// the host filter when there is one.
    pub open spec fn spec_matches(&self, e: Endpoint) -> bool {
        &&& (self.spec_ports().len() == 0 || self.spec_ports().contains(e.port))
        &&& match self.spec_host_filter() {
            Some(h) => h.spec_contains(e.ip),
            None => true,
        }
    }

    /// The game's ports, 5056 and 4535, on any host, as [`Default`] gives.
    pub fn new() -> (r: CaptureFilter)
        ensures
            r.spec_ports() == seq![5056u16, 4535u16],
            r.spec_host_filter() is None,
    {
        CaptureFilter::default()
    }
}

impl Default for CaptureFilter {
    /// The game's ports, 5056 and 4535, on any host.
    fn default() -> (r: CaptureFilter)
        ensures
            r.spec_ports() == seq![5056u16, 4535u16],
            r.spec_host_filter() is None,
    {
        let mut ports: Vec<u16> = Vec::new();
        ports.push(5056);
        ports.push(4535);
        assert(ports@ =~= seq![5056u16, 4535u16]);
        CaptureFilter { ports, host_filter: None }
    }
}

impl CaptureFilter {
    /// The given ports, on any host.
    pub fn with_ports(ports: &[u16]) -> (r: CaptureFilter)
        ensures
            r.spec_ports() == ports@,
            r.spec_host_filter() is None,
    {
        CaptureFilter { ports: vstd::slice::slice_to_vec(ports), host_filter: None }
    }

    /// Any port, on any host.
    pub fn any_port() -> (r: CaptureFilter)
        ensures
            r.spec_ports() == Seq::<u16>::empty(),
            r.spec_host_filter() is None,
    {
        CaptureFilter { ports: Vec::new(), host_filter: None }
    }

    /// Keeps only the hosts of the given filter from now on.
    pub fn set_host_filter(&mut self, host_filter: HostFilter)
        ensures
            final(self).spec_ports() == old(self).spec_ports(),
            final(self).spec_host_filter() == Some(host_filter),
    {
        self.host_filter = Some(host_filter);
    }

    /// The same filter, keeping only the hosts of the given one.
    pub fn with_host_filter(self, host_filter: HostFilter) -> (r: CaptureFilter)
        ensures
            r.spec_ports() == self.spec_ports(),
            r.spec_host_filter() == Some(host_filter),
    {
        let mut f = self;
        f.host_filter = Some(host_filter);
        f
    }

    /// Whether a datagram passes: its source or its destination does.
    pub fn matches_udp_packet(&self, packet: &UdpPacket<'_>) -> (r: bool)
        ensures
            r == (self.spec_matches(packet.source) || self.spec_matches(packet.destination)),
    {
        self.matches_endpoint(&packet.source) || self.matches_endpoint(&packet.destination)
    }

    /// Whether an endpoint passes, as [`Self::spec_matches`] says.
    pub fn matches_endpoint(&self, endpoint: &Endpoint) -> (r: bool)
        ensures
            r == self.spec_matches(*endpoint),
    {
        let mut port_matches = self.ports.len() == 0;
        let mut i: usize = 0;
        while i < self.ports.len() && !port_matches
            invariant
                i <= self.ports.len(),
                port_matches == (self.ports.len() == 0 || exists|j: int|
                    0 <= j < i && self.ports@[j] == endpoint.port),
            decreases self.ports.len() - i,
        {
            if self.ports[i] == endpoint.port {
                port_matches = true;
            }
            i = i + 1;
        }
        proof {
            if self.ports@.contains(endpoint.port) && !port_matches {
                let j = choose|j: int| 0 <= j < self.ports@.len() && self.ports@[j] == endpoint.port;
                assert(j < i);
            }
        }
        let host_matches = match &self.host_filter {
            Some(filter) => filter.contains(endpoint.ip),
            None => true,
        };
        port_matches && host_matches
    }

    /// The ports kept.
    pub fn ports(&self) -> (r: &[u16])
        ensures
            r@ == self.spec_ports(),
    {
        self.ports.as_slice()
    }

    /// The host filter, if any.
    pub fn host_filter(&self) -> (r: Option<&HostFilter>)
        ensures
            match r {
                Some(h) => self.spec_host_filter() == Some(*h),
                None => self.spec_host_filter() is None,
            },
    {
        self.host_filter.as_ref()
    }
}

} // verus!

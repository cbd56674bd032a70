//! What the operator asks for: the filter specification of a capture, and
//! the file of a replay.

use crate::addr::IpAddr;
use crate::codes::{Alp, Ethertype, IpProto};
use vstd::prelude::*;

verus! {

/// The whole command line.
#[derive(Clone, Debug)]
pub struct Cli {
    pub command: Command,
}

/// What to do.
#[derive(Clone, Debug)]
pub enum Command {
    /// Snoop a packet stream.
    Snoop(Snoop),
    /// Read and display packets in hex format.
    HexRead(HexRead),
}

/// A capture and its filter specification. Each filter is one dimension:
/// it constrains one field of the frames that are shown, and leaves the
/// field free where it is empty or off.
#[derive(Clone, Debug)]
pub struct Snoop {
    /// The data link to snoop.
    pub link: String,
    /// Dump each frame in hex format behind its headers.
    pub hex: bool,
    /// Filter on the ethernet packet type.
    pub eth_type: Option<Ethertype>,
    /// Filter on source IPs.
    pub ip_src: Vec<IpAddr>,
    /// Filter on destination IPs.
    pub ip_dst: Vec<IpAddr>,
    /// Filter on IPs for source or destination.
    pub ip_host: Vec<IpAddr>,
    /// Filter on IP protocol types.
    pub ip_proto: Vec<IpProto>,
    /// Filter on transport layer source port.
    pub src_port: Vec<u16>,
    /// Filter on transport layer destination port.
    pub dst_port: Vec<u16>,
    /// Filter on transport layer port.
    pub port: Vec<u16>,
    /// Filter on application layer protocol types.
    pub alp: Vec<Alp>,
    /// Show VLAN-tagged frames only.
    pub vlan: bool,
    /// Filter on VLAN identifiers.
    pub vid: Vec<u16>,
    /// Show IPv4 only.
    pub v4: bool,
    /// Show IPv6 only.
    pub v6: bool,
    /// Show ARP only.
    pub arp: bool,
    /// Filter on the ethernet packet types of encapsulated packets.
    pub inner_eth_type: Vec<Ethertype>,
    /// Filter on source IPs of encapsulated packets.
    pub inner_ip_src: Vec<IpAddr>,
    /// Filter on destination IPs of encapsulated packets.
    pub inner_ip_dst: Vec<IpAddr>,
    /// Filter on IPs for source or destination of encapsulated packets.
    pub inner_ip_host: Vec<IpAddr>,
    /// Filter on IP protocol types of encapsulated packets.
    pub inner_ip_proto: Vec<IpProto>,
    /// Filter on transport layer source port of encapsulated packets.
    pub inner_src_port: Vec<u16>,
    /// Filter on transport layer destination port of encapsulated packets.
    pub inner_dst_port: Vec<u16>,
    /// Filter on transport layer port of encapsulated packets.
    pub inner_port: Vec<u16>,
    /// Filter on application layer protocol types of encapsulated packets.
    pub inner_alp: Vec<Alp>,
    /// Show encapsulated IPv4 only.
    pub inner_v4: bool,
    /// Show encapsulated IPv6 only.
    pub inner_v6: bool,
    /// Show encapsulated ARP only.
    pub inner_arp: bool,
}

/// A replay of recorded frames.
#[derive(Clone, Debug)]
pub struct HexRead {
    /// File containing the hex encoded packets.
    pub file: String,
}

impl Snoop {
    /// A capture of `link` without any filter.
    pub fn new(link: String) -> (r: Snoop)
        ensures
            r.link == link,
            r.is_unfiltered(),
            !r.hex,
    {
        Snoop {
            link,
            hex: false,
            eth_type: None,
            ip_src: Vec::new(),
            ip_dst: Vec::new(),
            ip_host: Vec::new(),
            ip_proto: Vec::new(),
            src_port: Vec::new(),
            dst_port: Vec::new(),
            port: Vec::new(),
            alp: Vec::new(),
            vlan: false,
            vid: Vec::new(),
            v4: false,
            v6: false,
            arp: false,
            inner_eth_type: Vec::new(),
            inner_ip_src: Vec::new(),
            inner_ip_dst: Vec::new(),
            inner_ip_host: Vec::new(),
            inner_ip_proto: Vec::new(),
            inner_src_port: Vec::new(),
            inner_dst_port: Vec::new(),
            inner_port: Vec::new(),
            inner_alp: Vec::new(),
            inner_v4: false,
            inner_v6: false,
            inner_arp: false,
        }
    }

    /// Whether no dimension is populated.
    pub open spec fn is_unfiltered(&self) -> bool {
        &&& self.eth_type is None
        &&& self.ip_src@.len() == 0
        &&& self.ip_dst@.len() == 0
        &&& self.ip_host@.len() == 0
        &&& self.ip_proto@.len() == 0
        &&& self.src_port@.len() == 0
        &&& self.dst_port@.len() == 0
        &&& self.port@.len() == 0
        &&& self.alp@.len() == 0
        &&& !self.vlan
        &&& self.vid@.len() == 0
        &&& !self.v4
        &&& !self.v6
        &&& !self.arp
        &&& self.inner_eth_type@.len() == 0
        &&& self.inner_ip_src@.len() == 0
        &&& self.inner_ip_dst@.len() == 0
        &&& self.inner_ip_host@.len() == 0
        &&& self.inner_ip_proto@.len() == 0
        &&& self.inner_src_port@.len() == 0
        &&& self.inner_dst_port@.len() == 0
        &&& self.inner_port@.len() == 0
        &&& self.inner_alp@.len() == 0
        &&& !self.inner_v4
        &&& !self.inner_v6
        &&& !self.inner_arp
    }
}

} // verus!

//! The header chain: what the parsing engine has decoded of one frame.
//!
//! Each record holds a validity flag and the values of the fields that the
//! renderer reads. A number is held as the number that the field encodes.
//! An address is held as the bytes of its field, last octet of the address
//! first, as the parsing engine stores it.

use vstd::prelude::*;
use vstd::slice::slice_subrange;

verus! {

/// The length in bytes of an Ethernet header on the wire.
pub const ETHERNET_LEN: usize = 14;

/// The length in bytes of a VLAN tag on the wire.
pub const VLAN_LEN: usize = 4;

/// The length in bytes of a sidecar header on the wire.
pub const SIDECAR_LEN: usize = 24;

/// The length in bytes of an ARP packet on the wire.
pub const ARP_LEN: usize = 28;

/// The length in bytes of an IPv6 header on the wire.
pub const IPV6_LEN: usize = 40;

/// The length in bytes of the fixed part of an ICMP message on the wire.
pub const ICMP_LEN: usize = 4;

/// The length in bytes of the identifier and sequence number of an echo on the wire.
pub const ECHO_LEN: usize = 4;

/// The length in bytes of a UDP header on the wire.
pub const UDP_LEN: usize = 8;

/// The length in bytes of the fixed part of a discovery packet on the wire.
pub const DDM_DISCOVERY_LEN: usize = 4;

/// The length in bytes of a BFD control packet on the wire.
pub const BFD_LEN: usize = 24;

/// The length in bytes of a Geneve header on the wire.
pub const GENEVE_LEN: usize = 8;

/// An Ethernet header.
#[derive(Clone, Debug)]
pub struct EthernetHeader {
    /// Whether the frame holds this header.
    pub valid: bool,
    /// Destination link address.
    pub dst: Vec<u8>,
    /// Source link address.
    pub src: Vec<u8>,
    /// Protocol of the payload.
    pub ether_type: u16,
}

impl Default for EthernetHeader {
    /// A header that is absent, with every field zero or empty.
    fn default() -> (r: Self)
        ensures
            !r.valid,
            r.dst@ == Seq::<u8>::empty(),
            r.src@ == Seq::<u8>::empty(),
            r.ether_type == 0,
    {
        EthernetHeader {
            valid: false,
            dst: Vec::new(),
            src: Vec::new(),
            ether_type: 0,
        }
    }
}

/// An 802.1Q VLAN tag.
#[derive(Clone, Debug)]
pub struct VlanHeader {
    /// Whether the frame holds this header.
    pub valid: bool,
    /// Priority code point, three bits.
    pub pcp: u8,
    /// Drop-eligible indicator.
    pub dei: bool,
    /// VLAN identifier, twelve bits.
    pub vid: u16,
    /// Protocol of the payload.
    pub ether_type: u16,
}

impl Default for VlanHeader {
    /// A header that is absent, with every field zero or empty.
    fn default() -> (r: Self)
        ensures
            !r.valid,
            r.pcp == 0,
            !r.dei,
            r.vid == 0,
            r.ether_type == 0,
    {
        VlanHeader {
            valid: false,
            pcp: 0,
            dei: false,
            vid: 0,
            ether_type: 0,
        }
    }
}

/// The header that a switch and its host put before a packet that they hand
/// to each other.
#[derive(Clone, Debug)]
pub struct SidecarHeader {
    /// Whether the frame holds this header.
    pub valid: bool,
    /// Why the packet was handed over.
    pub sc_code: u8,
    /// Port on which the packet came in.
    pub sc_ingress: u16,
    /// Port on which the packet is to leave.
    pub sc_egress: u16,
    /// Protocol of the payload.
    pub sc_ether_type: u16,
}

impl Default for SidecarHeader {
    /// A header that is absent, with every field zero or empty.
    fn default() -> (r: Self)
        ensures
            !r.valid,
            r.sc_code == 0,
            r.sc_ingress == 0,
            r.sc_egress == 0,
            r.sc_ether_type == 0,
    {
        SidecarHeader {
            valid: false,
            sc_code: 0,
            sc_ingress: 0,
            sc_egress: 0,
            sc_ether_type: 0,
        }
    }
}

/// A link-layer discovery header. Its content is a list of type-length-value
/// records in the frame itself.
#[derive(Clone, Debug)]
pub struct LldpHeader {
    /// Whether the frame holds this header.
    pub valid: bool,
}

impl Default for LldpHeader {
    /// A header that is absent, with every field zero or empty.
    fn default() -> (r: Self)
        ensures
            !r.valid,
    {
        LldpHeader {
            valid: false,
        }
    }
}

/// An ARP packet for Ethernet and IPv4.
#[derive(Clone, Debug)]
pub struct ArpHeader {
    /// Whether the frame holds this header.
    pub valid: bool,
    /// Hardware type.
    pub hw_type: u16,
    /// Protocol type.
    pub proto_type: u16,
    /// Length of a hardware address.
    pub hw_addr_len: u8,
    /// Length of a protocol address.
    pub proto_addr_len: u8,
    /// Operation.
    pub opcode: u16,
    /// Link address of the sender.
    pub sender_mac: Vec<u8>,
    /// IPv4 address of the sender.
    pub sender_ip: Vec<u8>,
    /// Link address of the target.
    pub target_mac: Vec<u8>,
    /// IPv4 address of the target.
    pub target_ip: Vec<u8>,
}

impl Default for ArpHeader {
    /// A header that is absent, with every field zero or empty.
    fn default() -> (r: Self)
        ensures
            !r.valid,
            r.hw_type == 0,
            r.proto_type == 0,
            r.hw_addr_len == 0,
            r.proto_addr_len == 0,
            r.opcode == 0,
            r.sender_mac@ == Seq::<u8>::empty(),
            r.sender_ip@ == Seq::<u8>::empty(),
            r.target_mac@ == Seq::<u8>::empty(),
            r.target_ip@ == Seq::<u8>::empty(),
    {
        ArpHeader {
            valid: false,
            hw_type: 0,
            proto_type: 0,
            hw_addr_len: 0,
            proto_addr_len: 0,
            opcode: 0,
            sender_mac: Vec::new(),
            sender_ip: Vec::new(),
            target_mac: Vec::new(),
            target_ip: Vec::new(),
        }
    }
}

/// An IPv4 header. Its length on the wire is `ihl` words of four bytes.
#[derive(Clone, Debug)]
pub struct Ipv4Header {
    /// Whether the frame holds this header.
    pub valid: bool,
    /// Version, four bits.
    pub version: u8,
    /// Header length in words of four bytes, four bits.
    pub ihl: u8,
    /// Differentiated services.
    pub diffserv: u8,
    /// Length of the packet.
    pub total_len: u16,
    /// Identification.
    pub identification: u16,
    /// Flags, three bits: reserved, don't fragment, more fragments.
    pub flags: u8,
    /// Fragment offset, thirteen bits.
    pub frag_offset: u16,
    /// Time to live.
    pub ttl: u8,
    /// Protocol of the payload.
    pub protocol: u8,
    /// Header checksum.
    pub hdr_checksum: u16,
    /// Source address.
    pub src: Vec<u8>,
    /// Destination address.
    pub dst: Vec<u8>,
}

impl Default for Ipv4Header {
    /// A header that is absent, with every field zero or empty.
    fn default() -> (r: Self)
        ensures
            !r.valid,
            r.version == 0,
            r.ihl == 0,
            r.diffserv == 0,
            r.total_len == 0,
            r.identification == 0,
            r.flags == 0,
            r.frag_offset == 0,
            r.ttl == 0,
            r.protocol == 0,
            r.hdr_checksum == 0,
            r.src@ == Seq::<u8>::empty(),
            r.dst@ == Seq::<u8>::empty(),
    {
        Ipv4Header {
            valid: false,
            version: 0,
            ihl: 0,
            diffserv: 0,
            total_len: 0,
            identification: 0,
            flags: 0,
            frag_offset: 0,
            ttl: 0,
            protocol: 0,
            hdr_checksum: 0,
            src: Vec::new(),
            dst: Vec::new(),
        }
    }
}

/// An IPv6 header.
#[derive(Clone, Debug)]
pub struct Ipv6Header {
    /// Whether the frame holds this header.
    pub valid: bool,
    /// Version, four bits.
    pub version: u8,
    /// Traffic class.
    pub traffic_class: u8,
    /// Flow label, twenty bits.
    pub flow_label: u32,
    /// Length of the payload.
    pub payload_len: u16,
    /// Protocol of the payload.
    pub next_hdr: u8,
    /// Hop limit.
    pub hop_limit: u8,
    /// Source address.
    pub src: Vec<u8>,
    /// Destination address.
    pub dst: Vec<u8>,
}

impl Default for Ipv6Header {
    /// A header that is absent, with every field zero or empty.
    fn default() -> (r: Self)
        ensures
            !r.valid,
            r.version == 0,
            r.traffic_class == 0,
            r.flow_label == 0,
            r.payload_len == 0,
            r.next_hdr == 0,
            r.hop_limit == 0,
            r.src@ == Seq::<u8>::empty(),
            r.dst@ == Seq::<u8>::empty(),
    {
        Ipv6Header {
            valid: false,
            version: 0,
            traffic_class: 0,
            flow_label: 0,
            payload_len: 0,
            next_hdr: 0,
            hop_limit: 0,
            src: Vec::new(),
            dst: Vec::new(),
        }
    }
}

/// The first four bytes of an ICMP or ICMPv6 message.
#[derive(Clone, Debug)]
pub struct IcmpHeader {
    /// Whether the frame holds this header.
    pub valid: bool,
    /// Message type.
    pub typ: u8,
    /// Message code; its meaning depends on the type.
    pub code: u8,
    /// Checksum.
    pub hdr_checksum: u16,
}

impl Default for IcmpHeader {
    /// A header that is absent, with every field zero or empty.
    fn default() -> (r: Self)
        ensures
            !r.valid,
            r.typ == 0,
            r.code == 0,
            r.hdr_checksum == 0,
    {
        IcmpHeader {
            valid: false,
            typ: 0,
            code: 0,
            hdr_checksum: 0,
        }
    }
}

/// The identifier and sequence number of an ICMP echo.
#[derive(Clone, Debug)]
pub struct EchoHeader {
    /// Whether the frame holds this header.
    pub valid: bool,
    /// Identifier.
    pub id: u16,
    /// Sequence number.
    pub seq: u16,
}

impl Default for EchoHeader {
    /// A header that is absent, with every field zero or empty.
    fn default() -> (r: Self)
        ensures
            !r.valid,
            r.id == 0,
            r.seq == 0,
    {
        EchoHeader {
            valid: false,
            id: 0,
            seq: 0,
        }
    }
}

/// A TCP header. Its length on the wire is `data_offset` words of four bytes.
#[derive(Clone, Debug)]
pub struct TcpHeader {
    /// Whether the frame holds this header.
    pub valid: bool,
    /// Source port.
    pub src_port: u16,
    /// Destination port.
    pub dst_port: u16,
    /// Sequence number.
    pub seq_no: u32,
    /// Acknowledgement number.
    pub ack_no: u32,
    /// Header length in words of four bytes, four bits.
    pub data_offset: u8,
    /// Reserved bits.
    pub res: u8,
    /// Flags, most significant bit first: CWR, ECE, URG, ACK, PSH, RST, SYN, FIN.
    pub flags: u8,
    /// Window size.
    pub window: u16,
    /// Checksum.
    pub checksum: u16,
    /// Urgent pointer.
    pub urgent_ptr: u16,
}

impl Default for TcpHeader {
    /// A header that is absent, with every field zero or empty.
    fn default() -> (r: Self)
        ensures
            !r.valid,
            r.src_port == 0,
            r.dst_port == 0,
            r.seq_no == 0,
            r.ack_no == 0,
            r.data_offset == 0,
            r.res == 0,
            r.flags == 0,
            r.window == 0,
            r.checksum == 0,
            r.urgent_ptr == 0,
    {
        TcpHeader {
            valid: false,
            src_port: 0,
            dst_port: 0,
            seq_no: 0,
            ack_no: 0,
            data_offset: 0,
            res: 0,
            flags: 0,
            window: 0,
            checksum: 0,
            urgent_ptr: 0,
        }
    }
}

/// A UDP header.
#[derive(Clone, Debug)]
pub struct UdpHeader {
    /// Whether the frame holds this header.
    pub valid: bool,
    /// Source port.
    pub src_port: u16,
    /// Destination port.
    pub dst_port: u16,
    /// Length of header and payload.
    pub len: u16,
    /// Checksum.
    pub checksum: u16,
}

impl Default for UdpHeader {
    /// A header that is absent, with every field zero or empty.
    fn default() -> (r: Self)
        ensures
            !r.valid,
            r.src_port == 0,
            r.dst_port == 0,
            r.len == 0,
            r.checksum == 0,
    {
        UdpHeader {
            valid: false,
            src_port: 0,
            dst_port: 0,
            len: 0,
            checksum: 0,
        }
    }
}

/// The fixed part of a router discovery packet. The sender's host name
/// follows it in the frame.
#[derive(Clone, Debug)]
pub struct DdmDiscoveryHeader {
    /// Whether the frame holds this header.
    pub valid: bool,
    /// Protocol version.
    pub version: u8,
    /// Flags: solicit is the lowest bit, advertise the next.
    pub flags: u8,
    /// Kind of the sending router.
    pub router_kind: u8,
    /// Length of the host name that follows.
    pub hostname_len: u8,
}

impl Default for DdmDiscoveryHeader {
    /// A header that is absent, with every field zero or empty.
    fn default() -> (r: Self)
        ensures
            !r.valid,
            r.version == 0,
            r.flags == 0,
            r.router_kind == 0,
            r.hostname_len == 0,
    {
        DdmDiscoveryHeader {
            valid: false,
            version: 0,
            flags: 0,
            router_kind: 0,
            hostname_len: 0,
        }
    }
}

/// A BFD control packet.
#[derive(Clone, Debug)]
pub struct BfdHeader {
    /// Whether the frame holds this header.
    pub valid: bool,
    /// Protocol version, three bits.
    pub version: u8,
    /// Diagnostic code, five bits.
    pub diag: u8,
    /// Session state, two bits.
    pub status: u8,
    /// Poll flag.
    pub poll: bool,
    /// Final flag.
    pub fin: bool,
    /// Control-plane-independent flag.
    pub control_plane_independent: bool,
    /// Authentication-present flag.
    pub authentication_present: bool,
    /// Demand flag.
    pub demand: bool,
    /// Multipoint flag.
    pub multipoint: bool,
    /// Detection time multiplier.
    pub detect_mult: u8,
    /// Length of the packet.
    pub len: u8,
    /// Discriminator of the sender.
    pub my_discriminator: u32,
    /// Discriminator of the receiver.
    pub your_discriminator: u32,
    /// Desired minimum transmit interval.
    pub desired_min_tx_interval: u32,
    /// Required minimum interval between received control packets.
    pub required_min_tx_interval: u32,
    /// Required minimum echo receive interval.
    pub required_min_echo_rx_interval: u32,
}

impl Default for BfdHeader {
    /// A header that is absent, with every field zero or empty.
    fn default() -> (r: Self)
        ensures
            !r.valid,
            r.version == 0,
            r.diag == 0,
            r.status == 0,
            !r.poll,
            !r.fin,
            !r.control_plane_independent,
            !r.authentication_present,
            !r.demand,
            !r.multipoint,
            r.detect_mult == 0,
            r.len == 0,
            r.my_discriminator == 0,
            r.your_discriminator == 0,
            r.desired_min_tx_interval == 0,
            r.required_min_tx_interval == 0,
            r.required_min_echo_rx_interval == 0,
    {
        BfdHeader {
            valid: false,
            version: 0,
            diag: 0,
            status: 0,
            poll: false,
            fin: false,
            control_plane_independent: false,
            authentication_present: false,
            demand: false,
            multipoint: false,
            detect_mult: 0,
            len: 0,
            my_discriminator: 0,
            your_discriminator: 0,
            desired_min_tx_interval: 0,
            required_min_tx_interval: 0,
            required_min_echo_rx_interval: 0,
        }
    }
}

/// A Geneve tunnel header.
#[derive(Clone, Debug)]
pub struct GeneveHeader {
    /// Whether the frame holds this header.
    pub valid: bool,
    /// Version, two bits.
    pub version: u8,
    /// Length of the options in words of four bytes, six bits.
    pub opt_len: u8,
    /// Control packet flag.
    pub ctrl: bool,
    /// Critical options flag.
    pub crit: bool,
    /// Protocol of the tunnelled frame.
    pub protocol: u16,
    /// Virtual network identifier, twenty-four bits.
    pub vni: u32,
}

impl Default for GeneveHeader {
    /// A header that is absent, with every field zero or empty.
    fn default() -> (r: Self)
        ensures
            !r.valid,
            r.version == 0,
            r.opt_len == 0,
            !r.ctrl,
            !r.crit,
            r.protocol == 0,
            r.vni == 0,
    {
        GeneveHeader {
            valid: false,
            version: 0,
            opt_len: 0,
            ctrl: false,
            crit: false,
            protocol: 0,
            vni: 0,
        }
    }
}

/// The decoded headers of one frame, in wire order: the outer frame, then,
/// behind a tunnel header, the inner frame. In each of the two at most one
/// of the IPv4 and IPv6 headers is valid, and the ICMP header is read as
/// ICMP or as ICMPv6 according to which one is.
#[derive(Clone, Debug)]
pub struct HeaderChain {
    pub ethernet: EthernetHeader,
    pub vlan: VlanHeader,
    pub sidecar: SidecarHeader,
    pub lldp: LldpHeader,
    pub arp: ArpHeader,
    pub ipv4: Ipv4Header,
    pub ipv6: Ipv6Header,
    pub icmp: IcmpHeader,
    pub echo: EchoHeader,
    pub tcp: TcpHeader,
    pub udp: UdpHeader,
    pub ddm_discovery: DdmDiscoveryHeader,
    pub bfd: BfdHeader,
    pub geneve: GeneveHeader,
    pub inner_eth: EthernetHeader,
    pub inner_arp: ArpHeader,
    pub inner_ipv4: Ipv4Header,
    pub inner_ipv6: Ipv6Header,
    pub inner_icmp: IcmpHeader,
    pub inner_echo: EchoHeader,
    pub inner_tcp: TcpHeader,
    pub inner_udp: UdpHeader,
}

impl Default for HeaderChain {
    /// A chain in which every header is absent.
    fn default() -> (r: Self)
        ensures
            !r.ethernet.valid,
            !r.vlan.valid,
            !r.sidecar.valid,
            !r.lldp.valid,
            !r.arp.valid,
            !r.ipv4.valid,
            !r.ipv6.valid,
            !r.icmp.valid,
            !r.echo.valid,
            !r.tcp.valid,
            !r.udp.valid,
            !r.ddm_discovery.valid,
            !r.bfd.valid,
            !r.geneve.valid,
            !r.inner_eth.valid,
            !r.inner_arp.valid,
            !r.inner_ipv4.valid,
            !r.inner_ipv6.valid,
            !r.inner_icmp.valid,
            !r.inner_echo.valid,
            !r.inner_tcp.valid,
            !r.inner_udp.valid,
    {
        HeaderChain {
            ethernet: EthernetHeader::default(),
            vlan: VlanHeader::default(),
            sidecar: SidecarHeader::default(),
            lldp: LldpHeader::default(),
            arp: ArpHeader::default(),
            ipv4: Ipv4Header::default(),
            ipv6: Ipv6Header::default(),
            icmp: IcmpHeader::default(),
            echo: EchoHeader::default(),
            tcp: TcpHeader::default(),
            udp: UdpHeader::default(),
            ddm_discovery: DdmDiscoveryHeader::default(),
            bfd: BfdHeader::default(),
            geneve: GeneveHeader::default(),
            inner_eth: EthernetHeader::default(),
            inner_arp: ArpHeader::default(),
            inner_ipv4: Ipv4Header::default(),
            inner_ipv6: Ipv6Header::default(),
            inner_icmp: IcmpHeader::default(),
            inner_echo: EchoHeader::default(),
            inner_tcp: TcpHeader::default(),
            inner_udp: UdpHeader::default(),
        }
    }
}

impl Ipv4Header {
    /// The length of the header on the wire: `ihl` words of four bytes.
    pub open spec fn wire_len(&self) -> int {
        4 * self.ihl
    }

    /// The length of the header on the wire: `ihl` words of four bytes.
    pub fn header_len(&self) -> (r: usize)
        ensures
            r == self.wire_len(),
    {
        4 * (self.ihl as usize)
    }
}

impl TcpHeader {
    /// The length of the header on the wire: `data_offset` words of four
    /// bytes.
    pub open spec fn wire_len(&self) -> int {
        4 * self.data_offset
    }

    /// The length of the header on the wire: `data_offset` words of four
    /// bytes.
    pub fn header_len(&self) -> (r: usize)
        ensures
            r == self.wire_len(),
    {
        4 * (self.data_offset as usize)
    }
}

/// The content of a link-layer discovery data unit, as the decoder of its
/// type-length-value records hands it over: each identifier and each record
/// in the text in which it is shown.
#[derive(Clone, Debug, PartialEq, Eq)]
pub struct Lldpdu {
    /// The chassis identifier.
    pub chassis_id: String,
    /// The port identifier.
    pub port_id: String,
    /// The time to live, in seconds.
    pub ttl: u16,
    /// The port description, if the unit holds one.
    pub port_description: Option<String>,
    /// The system name, if the unit holds one.
    pub system_name: Option<String>,
    /// The system description, if the unit holds one.
    pub system_description: Option<String>,
    /// The management address records, in the order of the unit.
    pub management_addresses: Vec<String>,
    /// The organizationally specific records, in the order of the unit.
    pub organizationally_specific: Vec<String>,
}

/// What has been computed of one frame from its bytes, outside the header
/// chain.
#[derive(Clone, Debug)]
pub struct Payloads {
    /// The decoded link-layer discovery data unit, or the reason why it
    /// could not be decoded; `None` where the frame holds none or it was not
    /// decoded, which the renderer reports where the header is valid.
    pub lldp: Option<Result<Lldpdu, String>>,
    /// The checksum that the UDP datagram should carry, where the frame
    /// holds one in an IPv6 packet and the checksum was computed.
    pub udp6_checksum: Option<u16>,
}

impl Default for Payloads {
    /// Nothing computed.
    fn default() -> (r: Self)
        ensures
            r.lldp is None,
            r.udp6_checksum is None,
    {
        Payloads { lldp: None, udp6_checksum: None }
    }
}

/// Where in a frame the parts start that the renderer cannot read from the
/// header chain alone.
#[derive(Clone, Copy, Debug, PartialEq, Eq)]
pub struct Offsets {
    /// Where the records of the link-layer discovery header start, if the
    /// frame holds that header.
    pub lldp: Option<usize>,
    /// Where the IPv6 header starts, if the frame holds a UDP datagram in an
    /// IPv6 packet: the expected UDP checksum is computed over the frame from
    /// here on.
    pub udp6: Option<usize>,
    /// Where the discovery packet starts, if the frame holds one.
    pub ddm_discovery: Option<usize>,
}

/// The bytes of `frame` from `start` on. None where there is no start, or
/// the frame ends before it.
pub open spec fn bytes_from(frame: Seq<u8>, start: Option<usize>) -> Option<Seq<u8>> {
    match start {
        Some(s) => if s <= frame.len() {
            Some(frame.subrange(s as int, frame.len() as int))
        } else {
            None
        },
        None => None,
    }
}

/// The value of a part of a frame that may be missing.
pub open spec fn option_bytes(part: Option<&[u8]>) -> Option<Seq<u8>> {
    match part {
        Some(b) => Some(b@),
        None => None,
    }
}

fn tail<'a>(frame: &'a [u8], start: Option<usize>) -> (r: Option<&'a [u8]>)
    ensures
        option_bytes(r) == bytes_from(frame@, start),
{
    match start {
        Some(s) => if s <= frame.len() {
            Some(slice_subrange(frame, s, frame.len()))
        } else {
            None
        },
        None => None,
    }
}

impl HeaderChain {
    /// Whether at most one IP header is valid in the outer frame, and at
    /// most one in the inner frame.
    pub open spec fn one_ip_per_layer(&self) -> bool {
        &&& !(self.ipv4.valid && self.ipv6.valid)
        &&& !(self.inner_ipv4.valid && self.inner_ipv6.valid)
    }

    /// Where the header that follows the Ethernet header, the VLAN tag and
    /// the sidecar header starts.
    pub open spec fn link_end(&self) -> int {
        (if self.ethernet.valid {
            ETHERNET_LEN as int
        } else {
            0
        }) + (if self.vlan.valid {
            VLAN_LEN as int
        } else {
            0
        }) + (if self.sidecar.valid {
            SIDECAR_LEN as int
        } else {
            0
        })
    }

    /// Where the IP header starts: behind the link headers and the ARP
    /// packet.
    pub open spec fn ip_start(&self) -> int {
        self.link_end() + (if self.arp.valid {
            ARP_LEN as int
        } else {
            0
        })
    }

    /// Whether the outer frame is walked as an IPv6 packet: it holds an IPv6
    /// header and no IPv4 header. Where both are valid, the IPv4 header is
    /// walked.
    pub open spec fn walks_ipv6(&self) -> bool {
        !self.ipv4.valid && self.ipv6.valid
    }

    /// The length of the ICMP header and the echo header behind it, as far
    /// as the frame holds them.
    pub open spec fn control_len(&self) -> int {
        if self.icmp.valid && self.echo.valid {
            ICMP_LEN + ECHO_LEN
        } else if self.icmp.valid {
            ICMP_LEN + 0
        } else {
            0
        }
    }

    /// Where the transport header starts: behind the IP header, whose length
    /// an IPv4 header gives in its `ihl` field, and the ICMP and echo headers.
    pub open spec fn transport_start(&self) -> int {
        if self.ipv4.valid {
            self.ip_start() + self.ipv4.wire_len() + self.control_len()
        } else if self.ipv6.valid {
            self.ip_start() + IPV6_LEN + self.control_len()
        } else {
            self.ip_start()
        }
    }

    /// Where the header behind the TCP header starts; a TCP header gives its
    /// length in its `data_offset` field.
    pub open spec fn tcp_end(&self) -> int {
        if self.tcp.valid {
            self.transport_start() + self.tcp.wire_len()
        } else {
            self.transport_start()
        }
    }

    /// Where the payload of the transport layer starts: behind the TCP and
    /// UDP headers.
    pub open spec fn transport_end(&self) -> int {
        if self.udp.valid {
            self.tcp_end() + UDP_LEN
        } else {
            self.tcp_end()
        }
    }

    /// Where the inner frame starts: behind what the transport layer of the
    /// outer frame carries, a discovery packet, a BFD control packet and a
    /// Geneve header.
    pub open spec fn carried_end(&self) -> int {
        self.transport_end() + (if self.ddm_discovery.valid {
            DDM_DISCOVERY_LEN as int
        } else {
            0
        }) + (if self.bfd.valid {
            BFD_LEN as int
        } else {
            0
        }) + (if self.geneve.valid {
            GENEVE_LEN as int
        } else {
            0
        })
    }

    /// Where the IP header of the inner frame starts: behind its Ethernet
    /// header and its ARP packet.
    pub open spec fn inner_ip_start(&self) -> int {
        self.carried_end() + (if self.inner_eth.valid {
            ETHERNET_LEN as int
        } else {
            0
        }) + (if self.inner_arp.valid {
            ARP_LEN as int
        } else {
            0
        })
    }

    /// The length of the ICMP header of the inner frame and of the echo
    /// header behind it, as far as the frame holds them.
    pub open spec fn inner_control_len(&self) -> int {
        if self.inner_icmp.valid && self.inner_echo.valid {
            ICMP_LEN + ECHO_LEN
        } else if self.inner_icmp.valid {
            ICMP_LEN + 0
        } else {
            0
        }
    }

    /// Where the transport header of the inner frame starts: behind its IP
    /// header, whose length an IPv4 header gives in its `ihl` field and which
    /// is forty bytes for IPv6, and the ICMP and echo headers.
    pub open spec fn inner_transport_start(&self) -> int {
        if self.inner_ipv4.valid {
            self.inner_ip_start() + self.inner_ipv4.wire_len() + self.inner_control_len()
        } else if self.inner_ipv6.valid {
            self.inner_ip_start() + IPV6_LEN + self.inner_control_len()
        } else {
            self.inner_ip_start()
        }
    }

    /// Where the header behind the TCP header of the inner frame starts.
    pub open spec fn inner_tcp_end(&self) -> int {
        if self.inner_tcp.valid {
            self.inner_transport_start() + self.inner_tcp.wire_len()
        } else {
            self.inner_transport_start()
        }
    }

    /// Where the walk through the chain ends: behind the TCP and UDP headers
    /// of the inner frame.
    pub open spec fn inner_transport_end(&self) -> int {
        if self.inner_udp.valid {
            self.inner_tcp_end() + UDP_LEN
        } else {
            self.inner_tcp_end()
        }
    }

    fn link_bytes(&self) -> (r: usize)
        ensures
            r == self.link_end(),
    {
        let mut off: usize = 0;
        if self.ethernet.valid {
            off += ETHERNET_LEN;
        }
        if self.vlan.valid {
            off += VLAN_LEN;
        }
        if self.sidecar.valid {
            off += SIDECAR_LEN;
        }
        off
    }

    fn control_bytes(&self) -> (r: usize)
        ensures
            r == self.control_len(),
    {
        if self.icmp.valid && self.echo.valid {
            ICMP_LEN + ECHO_LEN
        } else if self.icmp.valid {
            ICMP_LEN
        } else {
            0
        }
    }

    fn inner_control_bytes(&self) -> (r: usize)
        ensures
            r == self.inner_control_len(),
    {
        if self.inner_icmp.valid && self.inner_echo.valid {
            ICMP_LEN + ECHO_LEN
        } else if self.inner_icmp.valid {
            ICMP_LEN
        } else {
            0
        }
    }

    fn outer_bytes(&self) -> (r: usize)
        ensures
            r == self.transport_end(),
            r <= 4096,
    {
        let mut off = self.link_bytes();
        if self.arp.valid {
            off += ARP_LEN;
        }
        if self.ipv4.valid {
            off += self.ipv4.header_len() + self.control_bytes();
        } else if self.ipv6.valid {
            off += IPV6_LEN + self.control_bytes();
        }
        if self.tcp.valid {
            off += self.tcp.header_len();
        }
        if self.udp.valid {
            off += UDP_LEN;
        }
        off
    }

    /// Where the inner frame starts: the running offset behind the headers
    /// of the outer frame.
    pub fn inner_offset(&self) -> (r: usize)
        ensures
            r == self.carried_end(),
    {
        self.carried_bytes()
    }

    fn carried_bytes(&self) -> (r: usize)
        ensures
            r == self.carried_end(),
            r <= 8192,
    {
        let mut off = self.outer_bytes();
        if self.ddm_discovery.valid {
            off += DDM_DISCOVERY_LEN;
        }
        if self.bfd.valid {
            off += BFD_LEN;
        }
        if self.geneve.valid {
            off += GENEVE_LEN;
        }
        off
    }

    fn inner_ip_bytes(&self) -> (r: usize)
        ensures
            r == self.inner_ip_start(),
            r <= 9000,
    {
        let mut off = self.carried_bytes();
        if self.inner_eth.valid {
            off += ETHERNET_LEN;
        }
        if self.inner_arp.valid {
            off += ARP_LEN;
        }
        off
    }

    fn inner_transport_bytes(&self) -> (r: usize)
        ensures
            r == self.inner_transport_start(),
            r <= 11000,
    {
        let start = self.inner_ip_bytes();
        if self.inner_ipv4.valid {
            start + self.inner_ipv4.header_len() + self.inner_control_bytes()
        } else if self.inner_ipv6.valid {
            start + IPV6_LEN + self.inner_control_bytes()
        } else {
            start
        }
    }

    /// Where the walk through the chain ends: the running offset behind the
    /// last header of the inner frame.
    pub fn end_offset(&self) -> (r: usize)
        ensures
            r == self.inner_transport_end(),
    {
        let mut off = self.inner_transport_bytes();
        if self.inner_tcp.valid {
            off += self.inner_tcp.header_len();
        }
        if self.inner_udp.valid {
            off += UDP_LEN;
        }
        off
    }

    /// The bytes of the link-layer discovery records: the frame from their
    /// offset on. `None` where the chain holds no such header, or the frame
    /// ends before the offset.
    pub fn lldp_bytes<'a>(&self, frame: &'a [u8]) -> (r: Option<&'a [u8]>)
        ensures
            option_bytes(r) == bytes_from(frame@, self.spec_offsets().lldp),
    {
        tail(frame, self.offsets().lldp)
    }

    /// The bytes over which the expected checksum of a UDP datagram in an
    /// IPv6 packet is computed: the frame from the IPv6 header on. `None`
    /// where the chain holds no such datagram, or the frame ends before the
    /// offset.
    pub fn udp6_bytes<'a>(&self, frame: &'a [u8]) -> (r: Option<&'a [u8]>)
        ensures
            option_bytes(r) == bytes_from(frame@, self.spec_offsets().udp6),
    {
        tail(frame, self.offsets().udp6)
    }

    /// The bytes of the discovery packet: the frame from its offset on.
    /// `None` where the chain holds no such packet, or the frame ends before
    /// the offset.
    pub fn ddm_discovery_bytes<'a>(&self, frame: &'a [u8]) -> (r: Option<&'a [u8]>)
        ensures
            option_bytes(r) == bytes_from(frame@, self.spec_offsets().ddm_discovery),
    {
        tail(frame, self.offsets().ddm_discovery)
    }

    /// The offsets of the parts of the frame that are read from its bytes:
    /// the running offset of the walk through the chain, at the headers that
    /// need it.
    pub fn offsets(&self) -> (r: Offsets)
        ensures
            r == self.spec_offsets(),
    {
        let mut off = self.link_bytes();
        let lldp = if self.lldp.valid {
            Some(off)
        } else {
            None
        };
        if self.arp.valid {
            off += ARP_LEN;
        }
        let udp6 = if self.udp.valid && !self.ipv4.valid && self.ipv6.valid {
            Some(off)
        } else {
            None
        };
        if self.ipv4.valid {
            off += self.ipv4.header_len() + self.control_bytes();
        } else if self.ipv6.valid {
            off += IPV6_LEN + self.control_bytes();
        }
        if self.tcp.valid {
            off += self.tcp.header_len();
        }
        if self.udp.valid {
            off += UDP_LEN;
        }
        let ddm_discovery = if self.ddm_discovery.valid {
            Some(off)
        } else {
            None
        };
        Offsets { lldp, udp6, ddm_discovery }
    }

    /// The offsets of the parts of the frame that are read from its bytes.
    pub open spec fn spec_offsets(&self) -> Offsets {
        Offsets {
            lldp: if self.lldp.valid {
                Some(self.link_end() as usize)
            } else {
                None
            },
            udp6: if self.udp.valid && self.walks_ipv6() {
                Some(self.ip_start() as usize)
            } else {
                None
            },
            ddm_discovery: if self.ddm_discovery.valid {
                Some(self.transport_end() as usize)
            } else {
                None
            },
        }
    }
}


/// A TCP header moves the running offset on by four bytes for each word that
/// its `data_offset` field counts, whatever the fixed size of a header
/// without options is: a discovery packet behind it is looked for at that
/// distance behind the start of the TCP header, and behind the UDP header
/// where there is one.
pub proof fn tcp_header_advances_offset(h: HeaderChain)
    requires
        h.tcp.valid,
        h.ddm_discovery.valid,
    ensures
        h.tcp_end() == h.transport_start() + 4 * h.tcp.data_offset,
        h.spec_offsets().ddm_discovery == Some(
            (h.transport_start() + 4 * h.tcp.data_offset + if h.udp.valid {
                UDP_LEN
            } else {
                0
            }) as usize,
        ),
{
}

/// In a chain with at most one IP header per frame, the outer frame is
/// walked as an IPv6 packet exactly if its IPv6 header is valid.
pub proof fn one_ip_header_is_walked(h: HeaderChain)
    requires
        h.one_ip_per_layer(),
    ensures
        h.walks_ipv6() == h.ipv6.valid,
{
}

/// The running offset never moves back: each header starts at or behind the
/// start of the one before it.
pub proof fn offsets_advance_monotonically(h: HeaderChain)
    ensures
        0 <= h.link_end() <= h.ip_start() <= h.transport_start() <= h.tcp_end()
            <= h.transport_end() <= h.carried_end() <= h.inner_ip_start()
            <= h.inner_transport_start() <= h.inner_tcp_end() <= h.inner_transport_end(),
{
}

/// An IPv6 header moves the running offset on by forty bytes, in the inner
/// frame as in the outer one, and an IPv4 header by four bytes for each word
/// that its `ihl` field counts.
pub proof fn ip_header_advances_offset(h: HeaderChain)
    ensures
        h.walks_ipv6() ==> h.transport_start() == h.ip_start() + 40 + h.control_len(),
        h.ipv4.valid ==> h.transport_start() == h.ip_start() + 4 * h.ipv4.ihl + h.control_len(),
        !h.inner_ipv4.valid && h.inner_ipv6.valid ==> h.inner_transport_start()
            == h.inner_ip_start() + 40 + h.inner_control_len(),
        h.inner_ipv4.valid ==> h.inner_transport_start() == h.inner_ip_start() + 4
            * h.inner_ipv4.ihl + h.inner_control_len(),
        h.inner_tcp.valid ==> h.inner_tcp_end() == h.inner_transport_start() + 4
            * h.inner_tcp.data_offset,
{
}

} // verus!

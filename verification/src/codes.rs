//! The code tables: for each numbered field of a protocol header, the codes
//! that have a name. A code without a name is no error: the caller shows the
//! number.

use vstd::prelude::*;

verus! {

/// The protocol that an Ethernet frame, a VLAN tag or a tunnel carries.
#[allow(clippy::upper_case_acronyms, clippy::enum_variant_names)]
#[derive(Clone, Copy, Debug, PartialEq, Eq, Structural)]
pub enum Ethertype {
    IPv4,
    IPv6,
    Arp,
    Wol,
    Vlan,
    Pbr,
    Lldp,
    QnQ,
    Sidecar,
    Ethernet,
}

impl Ethertype {
    /// The number that stands for this value on the wire.
    pub open spec fn spec_code(self) -> u16 {
        match self {
            Ethertype::IPv4 => 0x0800,
            Ethertype::IPv6 => 0x86dd,
            Ethertype::Arp => 0x0806,
            Ethertype::Wol => 0x0842,
            Ethertype::Vlan => 0x8100,
            Ethertype::Pbr => 0x88a8,
            Ethertype::Lldp => 0x88cc,
            Ethertype::QnQ => 0x9100,
            Ethertype::Sidecar => 0x0901,
            Ethertype::Ethernet => 0x6558,
        }
    }

    /// The value that `code` stands for, if it has a name.
    pub open spec fn spec_from_code(code: u16) -> Option<Ethertype> {
        if code == 0x0800 {
            Some(Ethertype::IPv4)
        } else if code == 0x86dd {
            Some(Ethertype::IPv6)
        } else if code == 0x0806 {
            Some(Ethertype::Arp)
        } else if code == 0x0842 {
            Some(Ethertype::Wol)
        } else if code == 0x8100 {
            Some(Ethertype::Vlan)
        } else if code == 0x88a8 {
            Some(Ethertype::Pbr)
        } else if code == 0x88cc {
            Some(Ethertype::Lldp)
        } else if code == 0x9100 {
            Some(Ethertype::QnQ)
        } else if code == 0x0901 {
            Some(Ethertype::Sidecar)
        } else if code == 0x6558 {
            Some(Ethertype::Ethernet)
        } else {
            None
        }
    }

    /// The name under which this value is shown.
    pub open spec fn spec_name(self) -> Seq<char> {
        match self {
            Ethertype::IPv4 => "IPv4"@,
            Ethertype::IPv6 => "IPv6"@,
            Ethertype::Arp => "Arp"@,
            Ethertype::Wol => "Wol"@,
            Ethertype::Vlan => "Vlan"@,
            Ethertype::Pbr => "Pbr"@,
            Ethertype::Lldp => "Lldp"@,
            Ethertype::QnQ => "QnQ"@,
            Ethertype::Sidecar => "Sidecar"@,
            Ethertype::Ethernet => "Ethernet"@,
        }
    }

    /// The number that stands for this value on the wire.
    pub fn code(self) -> (r: u16)
        ensures
            r == self.spec_code(),
    {
        match self {
            Ethertype::IPv4 => 0x0800,
            Ethertype::IPv6 => 0x86dd,
            Ethertype::Arp => 0x0806,
            Ethertype::Wol => 0x0842,
            Ethertype::Vlan => 0x8100,
            Ethertype::Pbr => 0x88a8,
            Ethertype::Lldp => 0x88cc,
            Ethertype::QnQ => 0x9100,
            Ethertype::Sidecar => 0x0901,
            Ethertype::Ethernet => 0x6558,
        }
    }

    /// The value that `code` stands for; `None` where the code has no name.
    pub fn from_code(code: u16) -> (r: Option<Ethertype>)
        ensures
            r == Self::spec_from_code(code),
    {
        if code == 0x0800 {
            Some(Ethertype::IPv4)
        } else if code == 0x86dd {
            Some(Ethertype::IPv6)
        } else if code == 0x0806 {
            Some(Ethertype::Arp)
        } else if code == 0x0842 {
            Some(Ethertype::Wol)
        } else if code == 0x8100 {
            Some(Ethertype::Vlan)
        } else if code == 0x88a8 {
            Some(Ethertype::Pbr)
        } else if code == 0x88cc {
            Some(Ethertype::Lldp)
        } else if code == 0x9100 {
            Some(Ethertype::QnQ)
        } else if code == 0x0901 {
            Some(Ethertype::Sidecar)
        } else if code == 0x6558 {
            Some(Ethertype::Ethernet)
        } else {
            None
        }
    }

    /// The name under which this value is shown.
    pub fn name(self) -> (r: &'static str)
        ensures
            r@ == self.spec_name(),
    {
        match self {
            Ethertype::IPv4 => "IPv4",
            Ethertype::IPv6 => "IPv6",
            Ethertype::Arp => "Arp",
            Ethertype::Wol => "Wol",
            Ethertype::Vlan => "Vlan",
            Ethertype::Pbr => "Pbr",
            Ethertype::Lldp => "Lldp",
            Ethertype::QnQ => "QnQ",
            Ethertype::Sidecar => "Sidecar",
            Ethertype::Ethernet => "Ethernet",
        }
    }

    /// Decoding undoes encoding, and a decoded value encodes to the code it
    /// was decoded from.
    pub proof fn code_round_trip(self, code: u16)
        ensures
            Self::spec_from_code(self.spec_code()) == Some(self),
            Self::spec_from_code(code) == Some(self) ==> self.spec_code() == code,
    {
    }
}

/// Why a switch handed a packet to its host, or the host to the switch.
#[allow(clippy::upper_case_acronyms, clippy::enum_variant_names)]
#[derive(Clone, Copy, Debug, PartialEq, Eq, Structural)]
pub enum SidecarCode {
    FwdFromUserspace,
    FwdToUserspace,
    IcmpNeeded,
    ArpNeeded,
    NeighborNeeded,
    Invalid,
}

impl SidecarCode {
    /// The number that stands for this value on the wire.
    pub open spec fn spec_code(self) -> u8 {
        match self {
            SidecarCode::FwdFromUserspace => 0,
            SidecarCode::FwdToUserspace => 1,
            SidecarCode::IcmpNeeded => 2,
            SidecarCode::ArpNeeded => 3,
            SidecarCode::NeighborNeeded => 4,
            SidecarCode::Invalid => 5,
        }
    }

    /// The value that `code` stands for, if it has a name.
    pub open spec fn spec_from_code(code: u8) -> Option<SidecarCode> {
        if code == 0 {
            Some(SidecarCode::FwdFromUserspace)
        } else if code == 1 {
            Some(SidecarCode::FwdToUserspace)
        } else if code == 2 {
            Some(SidecarCode::IcmpNeeded)
        } else if code == 3 {
            Some(SidecarCode::ArpNeeded)
        } else if code == 4 {
            Some(SidecarCode::NeighborNeeded)
        } else if code == 5 {
            Some(SidecarCode::Invalid)
        } else {
            None
        }
    }

    /// The name under which this value is shown.
    pub open spec fn spec_name(self) -> Seq<char> {
        match self {
            SidecarCode::FwdFromUserspace => "FwdFromUserspace"@,
            SidecarCode::FwdToUserspace => "FwdToUserspace"@,
            SidecarCode::IcmpNeeded => "IcmpNeeded"@,
            SidecarCode::ArpNeeded => "ArpNeeded"@,
            SidecarCode::NeighborNeeded => "NeighborNeeded"@,
            SidecarCode::Invalid => "Invalid"@,
        }
    }

    /// The number that stands for this value on the wire.
    pub fn code(self) -> (r: u8)
        ensures
            r == self.spec_code(),
    {
        match self {
            SidecarCode::FwdFromUserspace => 0,
            SidecarCode::FwdToUserspace => 1,
            SidecarCode::IcmpNeeded => 2,
            SidecarCode::ArpNeeded => 3,
            SidecarCode::NeighborNeeded => 4,
            SidecarCode::Invalid => 5,
        }
    }

    /// The value that `code` stands for; `None` where the code has no name.
    pub fn from_code(code: u8) -> (r: Option<SidecarCode>)
        ensures
            r == Self::spec_from_code(code),
    {
        if code == 0 {
            Some(SidecarCode::FwdFromUserspace)
        } else if code == 1 {
            Some(SidecarCode::FwdToUserspace)
        } else if code == 2 {
            Some(SidecarCode::IcmpNeeded)
        } else if code == 3 {
            Some(SidecarCode::ArpNeeded)
        } else if code == 4 {
            Some(SidecarCode::NeighborNeeded)
        } else if code == 5 {
            Some(SidecarCode::Invalid)
        } else {
            None
        }
    }

    /// The name under which this value is shown.
    pub fn name(self) -> (r: &'static str)
        ensures
            r@ == self.spec_name(),
    {
        match self {
            SidecarCode::FwdFromUserspace => "FwdFromUserspace",
            SidecarCode::FwdToUserspace => "FwdToUserspace",
            SidecarCode::IcmpNeeded => "IcmpNeeded",
            SidecarCode::ArpNeeded => "ArpNeeded",
            SidecarCode::NeighborNeeded => "NeighborNeeded",
            SidecarCode::Invalid => "Invalid",
        }
    }

    /// Decoding undoes encoding, and a decoded value encodes to the code it
    /// was decoded from.
    pub proof fn code_round_trip(self, code: u8)
        ensures
            Self::spec_from_code(self.spec_code()) == Some(self),
            Self::spec_from_code(code) == Some(self) ==> self.spec_code() == code,
    {
    }
}

/// The operation of an ARP packet.
#[allow(clippy::upper_case_acronyms, clippy::enum_variant_names)]
#[derive(Clone, Copy, Debug, PartialEq, Eq, Structural)]
pub enum ArpOpcode {
    Request,
    Reply,
}

impl ArpOpcode {
    /// The number that stands for this value on the wire.
    pub open spec fn spec_code(self) -> u16 {
        match self {
            ArpOpcode::Request => 0x0001,
            ArpOpcode::Reply => 0x0002,
        }
    }

    /// The value that `code` stands for, if it has a name.
    pub open spec fn spec_from_code(code: u16) -> Option<ArpOpcode> {
        if code == 0x0001 {
            Some(ArpOpcode::Request)
        } else if code == 0x0002 {
            Some(ArpOpcode::Reply)
        } else {
            None
        }
    }

    /// The name under which this value is shown.
    pub open spec fn spec_name(self) -> Seq<char> {
        match self {
            ArpOpcode::Request => "Request"@,
            ArpOpcode::Reply => "Reply"@,
        }
    }

    /// The number that stands for this value on the wire.
    pub fn code(self) -> (r: u16)
        ensures
            r == self.spec_code(),
    {
        match self {
            ArpOpcode::Request => 0x0001,
            ArpOpcode::Reply => 0x0002,
        }
    }

    /// The value that `code` stands for; `None` where the code has no name.
    pub fn from_code(code: u16) -> (r: Option<ArpOpcode>)
        ensures
            r == Self::spec_from_code(code),
    {
        if code == 0x0001 {
            Some(ArpOpcode::Request)
        } else if code == 0x0002 {
            Some(ArpOpcode::Reply)
        } else {
            None
        }
    }

    /// The name under which this value is shown.
    pub fn name(self) -> (r: &'static str)
        ensures
            r@ == self.spec_name(),
    {
        match self {
            ArpOpcode::Request => "Request",
            ArpOpcode::Reply => "Reply",
        }
    }

    /// Decoding undoes encoding, and a decoded value encodes to the code it
    /// was decoded from.
    pub proof fn code_round_trip(self, code: u16)
        ensures
            Self::spec_from_code(self.spec_code()) == Some(self),
            Self::spec_from_code(code) == Some(self) ==> self.spec_code() == code,
    {
    }
}

/// The hardware type of an ARP packet.
#[allow(clippy::upper_case_acronyms, clippy::enum_variant_names)]
#[derive(Clone, Copy, Debug, PartialEq, Eq, Structural)]
pub enum ArpHwType {
    Ethernet,
}

impl ArpHwType {
    /// The number that stands for this value on the wire.
    pub open spec fn spec_code(self) -> u16 {
        match self {
            ArpHwType::Ethernet => 0x0001,
        }
    }

    /// The value that `code` stands for, if it has a name.
    pub open spec fn spec_from_code(code: u16) -> Option<ArpHwType> {
        if code == 0x0001 {
            Some(ArpHwType::Ethernet)
        } else {
            None
        }
    }

    /// The name under which this value is shown.
    pub open spec fn spec_name(self) -> Seq<char> {
        match self {
            ArpHwType::Ethernet => "Ethernet"@,
        }
    }

    /// The number that stands for this value on the wire.
    pub fn code(self) -> (r: u16)
        ensures
            r == self.spec_code(),
    {
        match self {
            ArpHwType::Ethernet => 0x0001,
        }
    }

    /// The value that `code` stands for; `None` where the code has no name.
    pub fn from_code(code: u16) -> (r: Option<ArpHwType>)
        ensures
            r == Self::spec_from_code(code),
    {
        if code == 0x0001 {
            Some(ArpHwType::Ethernet)
        } else {
            None
        }
    }

    /// The name under which this value is shown.
    pub fn name(self) -> (r: &'static str)
        ensures
            r@ == self.spec_name(),
    {
        match self {
            ArpHwType::Ethernet => "Ethernet",
        }
    }

    /// Decoding undoes encoding, and a decoded value encodes to the code it
    /// was decoded from.
    pub proof fn code_round_trip(self, code: u16)
        ensures
            Self::spec_from_code(self.spec_code()) == Some(self),
            Self::spec_from_code(code) == Some(self) ==> self.spec_code() == code,
    {
    }
}

/// The kind of router that sent a discovery packet.
#[allow(clippy::upper_case_acronyms, clippy::enum_variant_names)]
#[derive(Clone, Copy, Debug, PartialEq, Eq, Structural)]
pub enum DdmRouterKind {
    Server,
    Transit,
}

impl DdmRouterKind {
    /// The number that stands for this value on the wire.
    pub open spec fn spec_code(self) -> u8 {
        match self {
            DdmRouterKind::Server => 0,
            DdmRouterKind::Transit => 1,
        }
    }

    /// The value that `code` stands for, if it has a name.
    pub open spec fn spec_from_code(code: u8) -> Option<DdmRouterKind> {
        if code == 0 {
            Some(DdmRouterKind::Server)
        } else if code == 1 {
            Some(DdmRouterKind::Transit)
        } else {
            None
        }
    }

    /// The name under which this value is shown.
    pub open spec fn spec_name(self) -> Seq<char> {
        match self {
            DdmRouterKind::Server => "Server"@,
            DdmRouterKind::Transit => "Transit"@,
        }
    }

    /// The number that stands for this value on the wire.
    pub fn code(self) -> (r: u8)
        ensures
            r == self.spec_code(),
    {
        match self {
            DdmRouterKind::Server => 0,
            DdmRouterKind::Transit => 1,
        }
    }

    /// The value that `code` stands for; `None` where the code has no name.
    pub fn from_code(code: u8) -> (r: Option<DdmRouterKind>)
        ensures
            r == Self::spec_from_code(code),
    {
        if code == 0 {
            Some(DdmRouterKind::Server)
        } else if code == 1 {
            Some(DdmRouterKind::Transit)
        } else {
            None
        }
    }

    /// The name under which this value is shown.
    pub fn name(self) -> (r: &'static str)
        ensures
            r@ == self.spec_name(),
    {
        match self {
            DdmRouterKind::Server => "Server",
            DdmRouterKind::Transit => "Transit",
        }
    }

    /// Decoding undoes encoding, and a decoded value encodes to the code it
    /// was decoded from.
    pub proof fn code_round_trip(self, code: u8)
        ensures
            Self::spec_from_code(self.spec_code()) == Some(self),
            Self::spec_from_code(code) == Some(self) ==> self.spec_code() == code,
    {
    }
}

/// The protocol that an IP packet carries.
#[allow(clippy::upper_case_acronyms, clippy::enum_variant_names)]
#[derive(Clone, Copy, Debug, PartialEq, Eq, Structural)]
pub enum IpProto {
    Ipv6Hbh,
    Icmp,
    Igmp,
    Ipv4,
    Tcp,
    Egp,
    Igp,
    Udp,
    Ipv6,
    Ipv6Rth,
    Ipv6Frag,
    Gre,
    Icmp6,
    Ipv6NoNext,
    Ipv6DstOpt,
    Eigrp,
    Vrrp,
    Stp,
    Ptp,
    Sctp,
}

impl IpProto {
    /// The number that stands for this value on the wire.
    pub open spec fn spec_code(self) -> u8 {
        match self {
            IpProto::Ipv6Hbh => 0,
            IpProto::Icmp => 1,
            IpProto::Igmp => 2,
            IpProto::Ipv4 => 4,
            IpProto::Tcp => 6,
            IpProto::Egp => 8,
            IpProto::Igp => 9,
            IpProto::Udp => 17,
            IpProto::Ipv6 => 41,
            IpProto::Ipv6Rth => 43,
            IpProto::Ipv6Frag => 44,
            IpProto::Gre => 47,
            IpProto::Icmp6 => 58,
            IpProto::Ipv6NoNext => 59,
            IpProto::Ipv6DstOpt => 60,
            IpProto::Eigrp => 88,
            IpProto::Vrrp => 112,
            IpProto::Stp => 118,
            IpProto::Ptp => 123,
            IpProto::Sctp => 132,
        }
    }

    /// The value that `code` stands for, if it has a name.
    pub open spec fn spec_from_code(code: u8) -> Option<IpProto> {
        if code == 0 {
            Some(IpProto::Ipv6Hbh)
        } else if code == 1 {
            Some(IpProto::Icmp)
        } else if code == 2 {
            Some(IpProto::Igmp)
        } else if code == 4 {
            Some(IpProto::Ipv4)
        } else if code == 6 {
            Some(IpProto::Tcp)
        } else if code == 8 {
            Some(IpProto::Egp)
        } else if code == 9 {
            Some(IpProto::Igp)
        } else if code == 17 {
            Some(IpProto::Udp)
        } else if code == 41 {
            Some(IpProto::Ipv6)
        } else if code == 43 {
            Some(IpProto::Ipv6Rth)
        } else if code == 44 {
            Some(IpProto::Ipv6Frag)
        } else if code == 47 {
            Some(IpProto::Gre)
        } else if code == 58 {
            Some(IpProto::Icmp6)
        } else if code == 59 {
            Some(IpProto::Ipv6NoNext)
        } else if code == 60 {
            Some(IpProto::Ipv6DstOpt)
        } else if code == 88 {
            Some(IpProto::Eigrp)
        } else if code == 112 {
            Some(IpProto::Vrrp)
        } else if code == 118 {
            Some(IpProto::Stp)
        } else if code == 123 {
            Some(IpProto::Ptp)
        } else if code == 132 {
            Some(IpProto::Sctp)
        } else {
            None
        }
    }

    /// The name under which this value is shown.
    pub open spec fn spec_name(self) -> Seq<char> {
        match self {
            IpProto::Ipv6Hbh => "Ipv6Hbh"@,
            IpProto::Icmp => "Icmp"@,
            IpProto::Igmp => "Igmp"@,
            IpProto::Ipv4 => "Ipv4"@,
            IpProto::Tcp => "Tcp"@,
            IpProto::Egp => "Egp"@,
            IpProto::Igp => "Igp"@,
            IpProto::Udp => "Udp"@,
            IpProto::Ipv6 => "Ipv6"@,
            IpProto::Ipv6Rth => "Ipv6Rth"@,
            IpProto::Ipv6Frag => "Ipv6Frag"@,
            IpProto::Gre => "Gre"@,
            IpProto::Icmp6 => "Icmp6"@,
            IpProto::Ipv6NoNext => "Ipv6NoNext"@,
            IpProto::Ipv6DstOpt => "Ipv6DstOpt"@,
            IpProto::Eigrp => "Eigrp"@,
            IpProto::Vrrp => "Vrrp"@,
            IpProto::Stp => "Stp"@,
            IpProto::Ptp => "Ptp"@,
            IpProto::Sctp => "Sctp"@,
        }
    }

    /// The number that stands for this value on the wire.
    pub fn code(self) -> (r: u8)
        ensures
            r == self.spec_code(),
    {
        match self {
            IpProto::Ipv6Hbh => 0,
            IpProto::Icmp => 1,
            IpProto::Igmp => 2,
            IpProto::Ipv4 => 4,
            IpProto::Tcp => 6,
            IpProto::Egp => 8,
            IpProto::Igp => 9,
            IpProto::Udp => 17,
            IpProto::Ipv6 => 41,
            IpProto::Ipv6Rth => 43,
            IpProto::Ipv6Frag => 44,
            IpProto::Gre => 47,
            IpProto::Icmp6 => 58,
            IpProto::Ipv6NoNext => 59,
            IpProto::Ipv6DstOpt => 60,
            IpProto::Eigrp => 88,
            IpProto::Vrrp => 112,
            IpProto::Stp => 118,
            IpProto::Ptp => 123,
            IpProto::Sctp => 132,
        }
    }

    /// The value that `code` stands for; `None` where the code has no name.
    pub fn from_code(code: u8) -> (r: Option<IpProto>)
        ensures
            r == Self::spec_from_code(code),
    {
        if code == 0 {
            Some(IpProto::Ipv6Hbh)
        } else if code == 1 {
            Some(IpProto::Icmp)
        } else if code == 2 {
            Some(IpProto::Igmp)
        } else if code == 4 {
            Some(IpProto::Ipv4)
        } else if code == 6 {
            Some(IpProto::Tcp)
        } else if code == 8 {
            Some(IpProto::Egp)
        } else if code == 9 {
            Some(IpProto::Igp)
        } else if code == 17 {
            Some(IpProto::Udp)
        } else if code == 41 {
            Some(IpProto::Ipv6)
        } else if code == 43 {
            Some(IpProto::Ipv6Rth)
        } else if code == 44 {
            Some(IpProto::Ipv6Frag)
        } else if code == 47 {
            Some(IpProto::Gre)
        } else if code == 58 {
            Some(IpProto::Icmp6)
        } else if code == 59 {
            Some(IpProto::Ipv6NoNext)
        } else if code == 60 {
            Some(IpProto::Ipv6DstOpt)
        } else if code == 88 {
            Some(IpProto::Eigrp)
        } else if code == 112 {
            Some(IpProto::Vrrp)
        } else if code == 118 {
            Some(IpProto::Stp)
        } else if code == 123 {
            Some(IpProto::Ptp)
        } else if code == 132 {
            Some(IpProto::Sctp)
        } else {
            None
        }
    }

    /// The name under which this value is shown.
    pub fn name(self) -> (r: &'static str)
        ensures
            r@ == self.spec_name(),
    {
        match self {
            IpProto::Ipv6Hbh => "Ipv6Hbh",
            IpProto::Icmp => "Icmp",
            IpProto::Igmp => "Igmp",
            IpProto::Ipv4 => "Ipv4",
            IpProto::Tcp => "Tcp",
            IpProto::Egp => "Egp",
            IpProto::Igp => "Igp",
            IpProto::Udp => "Udp",
            IpProto::Ipv6 => "Ipv6",
            IpProto::Ipv6Rth => "Ipv6Rth",
            IpProto::Ipv6Frag => "Ipv6Frag",
            IpProto::Gre => "Gre",
            IpProto::Icmp6 => "Icmp6",
            IpProto::Ipv6NoNext => "Ipv6NoNext",
            IpProto::Ipv6DstOpt => "Ipv6DstOpt",
            IpProto::Eigrp => "Eigrp",
            IpProto::Vrrp => "Vrrp",
            IpProto::Stp => "Stp",
            IpProto::Ptp => "Ptp",
            IpProto::Sctp => "Sctp",
        }
    }

    /// Decoding undoes encoding, and a decoded value encodes to the code it
    /// was decoded from.
    pub proof fn code_round_trip(self, code: u8)
        ensures
            Self::spec_from_code(self.spec_code()) == Some(self),
            Self::spec_from_code(code) == Some(self) ==> self.spec_code() == code,
    {
    }
}

/// Application layer protocol, as the parsing engine tags it.
#[allow(clippy::upper_case_acronyms, clippy::enum_variant_names)]
#[derive(Clone, Copy, Debug, PartialEq, Eq, Structural)]
pub enum Alp {
    Geneve,
    Bgp,
    Http,
    DdmDiscovery,
    DdmExchange,
    Bfd,
}

impl Alp {
    /// The number that stands for this value on the wire.
    pub open spec fn spec_code(self) -> u8 {
        match self {
            Alp::Geneve => 1,
            Alp::Bgp => 2,
            Alp::Http => 3,
            Alp::DdmDiscovery => 4,
            Alp::DdmExchange => 5,
            Alp::Bfd => 6,
        }
    }

    /// The value that `code` stands for, if it has a name.
    pub open spec fn spec_from_code(code: u8) -> Option<Alp> {
        if code == 1 {
            Some(Alp::Geneve)
        } else if code == 2 {
            Some(Alp::Bgp)
        } else if code == 3 {
            Some(Alp::Http)
        } else if code == 4 {
            Some(Alp::DdmDiscovery)
        } else if code == 5 {
            Some(Alp::DdmExchange)
        } else if code == 6 {
            Some(Alp::Bfd)
        } else {
            None
        }
    }

    /// The name under which this value is shown.
    pub open spec fn spec_name(self) -> Seq<char> {
        match self {
            Alp::Geneve => "Geneve"@,
            Alp::Bgp => "Bgp"@,
            Alp::Http => "Http"@,
            Alp::DdmDiscovery => "DdmDiscovery"@,
            Alp::DdmExchange => "DdmExchange"@,
            Alp::Bfd => "Bfd"@,
        }
    }

    /// The number that stands for this value on the wire.
    pub fn code(self) -> (r: u8)
        ensures
            r == self.spec_code(),
    {
        match self {
            Alp::Geneve => 1,
            Alp::Bgp => 2,
            Alp::Http => 3,
            Alp::DdmDiscovery => 4,
            Alp::DdmExchange => 5,
            Alp::Bfd => 6,
        }
    }

    /// The value that `code` stands for; `None` where the code has no name.
    pub fn from_code(code: u8) -> (r: Option<Alp>)
        ensures
            r == Self::spec_from_code(code),
    {
        if code == 1 {
            Some(Alp::Geneve)
        } else if code == 2 {
            Some(Alp::Bgp)
        } else if code == 3 {
            Some(Alp::Http)
        } else if code == 4 {
            Some(Alp::DdmDiscovery)
        } else if code == 5 {
            Some(Alp::DdmExchange)
        } else if code == 6 {
            Some(Alp::Bfd)
        } else {
            None
        }
    }

    /// The name under which this value is shown.
    pub fn name(self) -> (r: &'static str)
        ensures
            r@ == self.spec_name(),
    {
        match self {
            Alp::Geneve => "Geneve",
            Alp::Bgp => "Bgp",
            Alp::Http => "Http",
            Alp::DdmDiscovery => "DdmDiscovery",
            Alp::DdmExchange => "DdmExchange",
            Alp::Bfd => "Bfd",
        }
    }

    /// Decoding undoes encoding, and a decoded value encodes to the code it
    /// was decoded from.
    pub proof fn code_round_trip(self, code: u8)
        ensures
            Self::spec_from_code(self.spec_code()) == Some(self),
            Self::spec_from_code(code) == Some(self) ==> self.spec_code() == code,
    {
    }
}

/// The type of an ICMP message.
#[allow(clippy::upper_case_acronyms, clippy::enum_variant_names)]
#[derive(Clone, Copy, Debug, PartialEq, Eq, Structural)]
pub enum IcmpType {
    EchoReply,
    Unassigned1,
    Unassigned2,
    DestinationUnreachable,
    SourceQuench,
    Redirect,
    AlternateHostAddress,
    Unassigned7,
    Echo,
    RouterAdvertisement,
    RouterSolicitation,
    TimeExceeded,
    ParameterProblem,
    Timestamp,
    TimestampReply,
    InformationRequest,
    InformationReply,
    AddressMaskRequest,
    AddressMaskReply,
    Reserved19,
    Reserved20,
    Reserved21,
    Reserved22,
    Reserved23,
    Reserved24,
    Reserved25,
    Reserved26,
    Reserved27,
    Reserved28,
    Reserved29,
    Traceroute,
    DatagramConversionError,
    MobileHostRedirect,
    IPv6WhereAreYou,
    IPv6IAmHere,
    MobileRegistrationRequest,
    MobileRegistrationReply,
    DomainNameRequest,
    DomainNameReply,
    SKIP,
    Photuris,
    ExtendedEchoRequest,
    ExtendedEchoReply,
    Experiment1,
    Experiment2,
    Reserved,
}

impl IcmpType {
    /// The number that stands for this value on the wire.
    pub open spec fn spec_code(self) -> u8 {
        match self {
            IcmpType::EchoReply => 0,
            IcmpType::Unassigned1 => 1,
            IcmpType::Unassigned2 => 2,
            IcmpType::DestinationUnreachable => 3,
            IcmpType::SourceQuench => 4,
            IcmpType::Redirect => 5,
            IcmpType::AlternateHostAddress => 6,
            IcmpType::Unassigned7 => 7,
            IcmpType::Echo => 8,
            IcmpType::RouterAdvertisement => 9,
            IcmpType::RouterSolicitation => 10,
            IcmpType::TimeExceeded => 11,
            IcmpType::ParameterProblem => 12,
            IcmpType::Timestamp => 13,
            IcmpType::TimestampReply => 14,
            IcmpType::InformationRequest => 15,
            IcmpType::InformationReply => 16,
            IcmpType::AddressMaskRequest => 17,
            IcmpType::AddressMaskReply => 18,
            IcmpType::Reserved19 => 19,
            IcmpType::Reserved20 => 20,
            IcmpType::Reserved21 => 21,
            IcmpType::Reserved22 => 22,
            IcmpType::Reserved23 => 23,
            IcmpType::Reserved24 => 24,
            IcmpType::Reserved25 => 25,
            IcmpType::Reserved26 => 26,
            IcmpType::Reserved27 => 27,
            IcmpType::Reserved28 => 28,
            IcmpType::Reserved29 => 29,
            IcmpType::Traceroute => 30,
            IcmpType::DatagramConversionError => 31,
            IcmpType::MobileHostRedirect => 32,
            IcmpType::IPv6WhereAreYou => 33,
            IcmpType::IPv6IAmHere => 34,
            IcmpType::MobileRegistrationRequest => 35,
            IcmpType::MobileRegistrationReply => 36,
            IcmpType::DomainNameRequest => 37,
            IcmpType::DomainNameReply => 38,
            IcmpType::SKIP => 39,
            IcmpType::Photuris => 40,
            IcmpType::ExtendedEchoRequest => 42,
            IcmpType::ExtendedEchoReply => 43,
            IcmpType::Experiment1 => 253,
            IcmpType::Experiment2 => 254,
            IcmpType::Reserved => 255,
        }
    }

    /// The value that `code` stands for, if it has a name.
    pub open spec fn spec_from_code(code: u8) -> Option<IcmpType> {
        if code == 0 {
            Some(IcmpType::EchoReply)
        } else if code == 1 {
            Some(IcmpType::Unassigned1)
        } else if code == 2 {
            Some(IcmpType::Unassigned2)
        } else if code == 3 {
            Some(IcmpType::DestinationUnreachable)
        } else if code == 4 {
            Some(IcmpType::SourceQuench)
        } else if code == 5 {
            Some(IcmpType::Redirect)
        } else if code == 6 {
            Some(IcmpType::AlternateHostAddress)
        } else if code == 7 {
            Some(IcmpType::Unassigned7)
        } else if code == 8 {
            Some(IcmpType::Echo)
        } else if code == 9 {
            Some(IcmpType::RouterAdvertisement)
        } else if code == 10 {
            Some(IcmpType::RouterSolicitation)
        } else if code == 11 {
            Some(IcmpType::TimeExceeded)
        } else if code == 12 {
            Some(IcmpType::ParameterProblem)
        } else if code == 13 {
            Some(IcmpType::Timestamp)
        } else if code == 14 {
            Some(IcmpType::TimestampReply)
        } else if code == 15 {
            Some(IcmpType::InformationRequest)
        } else if code == 16 {
            Some(IcmpType::InformationReply)
        } else if code == 17 {
            Some(IcmpType::AddressMaskRequest)
        } else if code == 18 {
            Some(IcmpType::AddressMaskReply)
        } else if code == 19 {
            Some(IcmpType::Reserved19)
        } else if code == 20 {
            Some(IcmpType::Reserved20)
        } else if code == 21 {
            Some(IcmpType::Reserved21)
        } else if code == 22 {
            Some(IcmpType::Reserved22)
        } else if code == 23 {
            Some(IcmpType::Reserved23)
        } else if code == 24 {
            Some(IcmpType::Reserved24)
        } else if code == 25 {
            Some(IcmpType::Reserved25)
        } else if code == 26 {
            Some(IcmpType::Reserved26)
        } else if code == 27 {
            Some(IcmpType::Reserved27)
        } else if code == 28 {
            Some(IcmpType::Reserved28)
        } else if code == 29 {
            Some(IcmpType::Reserved29)
        } else if code == 30 {
            Some(IcmpType::Traceroute)
        } else if code == 31 {
            Some(IcmpType::DatagramConversionError)
        } else if code == 32 {
            Some(IcmpType::MobileHostRedirect)
        } else if code == 33 {
            Some(IcmpType::IPv6WhereAreYou)
        } else if code == 34 {
            Some(IcmpType::IPv6IAmHere)
        } else if code == 35 {
            Some(IcmpType::MobileRegistrationRequest)
        } else if code == 36 {
            Some(IcmpType::MobileRegistrationReply)
        } else if code == 37 {
            Some(IcmpType::DomainNameRequest)
        } else if code == 38 {
            Some(IcmpType::DomainNameReply)
        } else if code == 39 {
            Some(IcmpType::SKIP)
        } else if code == 40 {
            Some(IcmpType::Photuris)
        } else if code == 42 {
            Some(IcmpType::ExtendedEchoRequest)
        } else if code == 43 {
            Some(IcmpType::ExtendedEchoReply)
        } else if code == 253 {
            Some(IcmpType::Experiment1)
        } else if code == 254 {
            Some(IcmpType::Experiment2)
        } else if code == 255 {
            Some(IcmpType::Reserved)
        } else {
            None
        }
    }

    /// The name under which this value is shown.
    pub open spec fn spec_name(self) -> Seq<char> {
        match self {
            IcmpType::EchoReply => "EchoReply"@,
            IcmpType::Unassigned1 => "Unassigned1"@,
            IcmpType::Unassigned2 => "Unassigned2"@,
            IcmpType::DestinationUnreachable => "DestinationUnreachable"@,
            IcmpType::SourceQuench => "SourceQuench"@,
            IcmpType::Redirect => "Redirect"@,
            IcmpType::AlternateHostAddress => "AlternateHostAddress"@,
            IcmpType::Unassigned7 => "Unassigned7"@,
            IcmpType::Echo => "Echo"@,
            IcmpType::RouterAdvertisement => "RouterAdvertisement"@,
            IcmpType::RouterSolicitation => "RouterSolicitation"@,
            IcmpType::TimeExceeded => "TimeExceeded"@,
            IcmpType::ParameterProblem => "ParameterProblem"@,
            IcmpType::Timestamp => "Timestamp"@,
            IcmpType::TimestampReply => "TimestampReply"@,
            IcmpType::InformationRequest => "InformationRequest"@,
            IcmpType::InformationReply => "InformationReply"@,
            IcmpType::AddressMaskRequest => "AddressMaskRequest"@,
            IcmpType::AddressMaskReply => "AddressMaskReply"@,
            IcmpType::Reserved19 => "Reserved19"@,
            IcmpType::Reserved20 => "Reserved20"@,
            IcmpType::Reserved21 => "Reserved21"@,
            IcmpType::Reserved22 => "Reserved22"@,
            IcmpType::Reserved23 => "Reserved23"@,
            IcmpType::Reserved24 => "Reserved24"@,
            IcmpType::Reserved25 => "Reserved25"@,
            IcmpType::Reserved26 => "Reserved26"@,
            IcmpType::Reserved27 => "Reserved27"@,
            IcmpType::Reserved28 => "Reserved28"@,
            IcmpType::Reserved29 => "Reserved29"@,
            IcmpType::Traceroute => "Traceroute"@,
            IcmpType::DatagramConversionError => "DatagramConversionError"@,
            IcmpType::MobileHostRedirect => "MobileHostRedirect"@,
            IcmpType::IPv6WhereAreYou => "IPv6WhereAreYou"@,
            IcmpType::IPv6IAmHere => "IPv6IAmHere"@,
            IcmpType::MobileRegistrationRequest => "MobileRegistrationRequest"@,
            IcmpType::MobileRegistrationReply => "MobileRegistrationReply"@,
            IcmpType::DomainNameRequest => "DomainNameRequest"@,
            IcmpType::DomainNameReply => "DomainNameReply"@,
            IcmpType::SKIP => "SKIP"@,
            IcmpType::Photuris => "Photuris"@,
            IcmpType::ExtendedEchoRequest => "ExtendedEchoRequest"@,
            IcmpType::ExtendedEchoReply => "ExtendedEchoReply"@,
            IcmpType::Experiment1 => "Experiment1"@,
            IcmpType::Experiment2 => "Experiment2"@,
            IcmpType::Reserved => "Reserved"@,
        }
    }

    /// The number that stands for this value on the wire.
    pub fn code(self) -> (r: u8)
        ensures
            r == self.spec_code(),
    {
        match self {
            IcmpType::EchoReply => 0,
            IcmpType::Unassigned1 => 1,
            IcmpType::Unassigned2 => 2,
            IcmpType::DestinationUnreachable => 3,
            IcmpType::SourceQuench => 4,
            IcmpType::Redirect => 5,
            IcmpType::AlternateHostAddress => 6,
            IcmpType::Unassigned7 => 7,
            IcmpType::Echo => 8,
            IcmpType::RouterAdvertisement => 9,
            IcmpType::RouterSolicitation => 10,
            IcmpType::TimeExceeded => 11,
            IcmpType::ParameterProblem => 12,
            IcmpType::Timestamp => 13,
            IcmpType::TimestampReply => 14,
            IcmpType::InformationRequest => 15,
            IcmpType::InformationReply => 16,
            IcmpType::AddressMaskRequest => 17,
            IcmpType::AddressMaskReply => 18,
            IcmpType::Reserved19 => 19,
            IcmpType::Reserved20 => 20,
            IcmpType::Reserved21 => 21,
            IcmpType::Reserved22 => 22,
            IcmpType::Reserved23 => 23,
            IcmpType::Reserved24 => 24,
            IcmpType::Reserved25 => 25,
            IcmpType::Reserved26 => 26,
            IcmpType::Reserved27 => 27,
            IcmpType::Reserved28 => 28,
            IcmpType::Reserved29 => 29,
            IcmpType::Traceroute => 30,
            IcmpType::DatagramConversionError => 31,
            IcmpType::MobileHostRedirect => 32,
            IcmpType::IPv6WhereAreYou => 33,
            IcmpType::IPv6IAmHere => 34,
            IcmpType::MobileRegistrationRequest => 35,
            IcmpType::MobileRegistrationReply => 36,
            IcmpType::DomainNameRequest => 37,
            IcmpType::DomainNameReply => 38,
            IcmpType::SKIP => 39,
            IcmpType::Photuris => 40,
            IcmpType::ExtendedEchoRequest => 42,
            IcmpType::ExtendedEchoReply => 43,
            IcmpType::Experiment1 => 253,
            IcmpType::Experiment2 => 254,
            IcmpType::Reserved => 255,
        }
    }

    /// The value that `code` stands for; `None` where the code has no name.
    pub fn from_code(code: u8) -> (r: Option<IcmpType>)
        ensures
            r == Self::spec_from_code(code),
    {
        if code == 0 {
            Some(IcmpType::EchoReply)
        } else if code == 1 {
            Some(IcmpType::Unassigned1)
        } else if code == 2 {
            Some(IcmpType::Unassigned2)
        } else if code == 3 {
            Some(IcmpType::DestinationUnreachable)
        } else if code == 4 {
            Some(IcmpType::SourceQuench)
        } else if code == 5 {
            Some(IcmpType::Redirect)
        } else if code == 6 {
            Some(IcmpType::AlternateHostAddress)
        } else if code == 7 {
            Some(IcmpType::Unassigned7)
        } else if code == 8 {
            Some(IcmpType::Echo)
        } else if code == 9 {
            Some(IcmpType::RouterAdvertisement)
        } else if code == 10 {
            Some(IcmpType::RouterSolicitation)
        } else if code == 11 {
            Some(IcmpType::TimeExceeded)
        } else if code == 12 {
            Some(IcmpType::ParameterProblem)
        } else if code == 13 {
            Some(IcmpType::Timestamp)
        } else if code == 14 {
            Some(IcmpType::TimestampReply)
        } else if code == 15 {
            Some(IcmpType::InformationRequest)
        } else if code == 16 {
            Some(IcmpType::InformationReply)
        } else if code == 17 {
            Some(IcmpType::AddressMaskRequest)
        } else if code == 18 {
            Some(IcmpType::AddressMaskReply)
        } else if code == 19 {
            Some(IcmpType::Reserved19)
        } else if code == 20 {
            Some(IcmpType::Reserved20)
        } else if code == 21 {
            Some(IcmpType::Reserved21)
        } else if code == 22 {
            Some(IcmpType::Reserved22)
        } else if code == 23 {
            Some(IcmpType::Reserved23)
        } else if code == 24 {
            Some(IcmpType::Reserved24)
        } else if code == 25 {
            Some(IcmpType::Reserved25)
        } else if code == 26 {
            Some(IcmpType::Reserved26)
        } else if code == 27 {
            Some(IcmpType::Reserved27)
        } else if code == 28 {
            Some(IcmpType::Reserved28)
        } else if code == 29 {
            Some(IcmpType::Reserved29)
        } else if code == 30 {
            Some(IcmpType::Traceroute)
        } else if code == 31 {
            Some(IcmpType::DatagramConversionError)
        } else if code == 32 {
            Some(IcmpType::MobileHostRedirect)
        } else if code == 33 {
            Some(IcmpType::IPv6WhereAreYou)
        } else if code == 34 {
            Some(IcmpType::IPv6IAmHere)
        } else if code == 35 {
            Some(IcmpType::MobileRegistrationRequest)
        } else if code == 36 {
            Some(IcmpType::MobileRegistrationReply)
        } else if code == 37 {
            Some(IcmpType::DomainNameRequest)
        } else if code == 38 {
            Some(IcmpType::DomainNameReply)
        } else if code == 39 {
            Some(IcmpType::SKIP)
        } else if code == 40 {
            Some(IcmpType::Photuris)
        } else if code == 42 {
            Some(IcmpType::ExtendedEchoRequest)
        } else if code == 43 {
            Some(IcmpType::ExtendedEchoReply)
        } else if code == 253 {
            Some(IcmpType::Experiment1)
        } else if code == 254 {
            Some(IcmpType::Experiment2)
        } else if code == 255 {
            Some(IcmpType::Reserved)
        } else {
            None
        }
    }

    /// The name under which this value is shown.
    pub fn name(self) -> (r: &'static str)
        ensures
            r@ == self.spec_name(),
    {
        match self {
            IcmpType::EchoReply => "EchoReply",
            IcmpType::Unassigned1 => "Unassigned1",
            IcmpType::Unassigned2 => "Unassigned2",
            IcmpType::DestinationUnreachable => "DestinationUnreachable",
            IcmpType::SourceQuench => "SourceQuench",
            IcmpType::Redirect => "Redirect",
            IcmpType::AlternateHostAddress => "AlternateHostAddress",
            IcmpType::Unassigned7 => "Unassigned7",
            IcmpType::Echo => "Echo",
            IcmpType::RouterAdvertisement => "RouterAdvertisement",
            IcmpType::RouterSolicitation => "RouterSolicitation",
            IcmpType::TimeExceeded => "TimeExceeded",
            IcmpType::ParameterProblem => "ParameterProblem",
            IcmpType::Timestamp => "Timestamp",
            IcmpType::TimestampReply => "TimestampReply",
            IcmpType::InformationRequest => "InformationRequest",
            IcmpType::InformationReply => "InformationReply",
            IcmpType::AddressMaskRequest => "AddressMaskRequest",
            IcmpType::AddressMaskReply => "AddressMaskReply",
            IcmpType::Reserved19 => "Reserved19",
            IcmpType::Reserved20 => "Reserved20",
            IcmpType::Reserved21 => "Reserved21",
            IcmpType::Reserved22 => "Reserved22",
            IcmpType::Reserved23 => "Reserved23",
            IcmpType::Reserved24 => "Reserved24",
            IcmpType::Reserved25 => "Reserved25",
            IcmpType::Reserved26 => "Reserved26",
            IcmpType::Reserved27 => "Reserved27",
            IcmpType::Reserved28 => "Reserved28",
            IcmpType::Reserved29 => "Reserved29",
            IcmpType::Traceroute => "Traceroute",
            IcmpType::DatagramConversionError => "DatagramConversionError",
            IcmpType::MobileHostRedirect => "MobileHostRedirect",
            IcmpType::IPv6WhereAreYou => "IPv6WhereAreYou",
            IcmpType::IPv6IAmHere => "IPv6IAmHere",
            IcmpType::MobileRegistrationRequest => "MobileRegistrationRequest",
            IcmpType::MobileRegistrationReply => "MobileRegistrationReply",
            IcmpType::DomainNameRequest => "DomainNameRequest",
            IcmpType::DomainNameReply => "DomainNameReply",
            IcmpType::SKIP => "SKIP",
            IcmpType::Photuris => "Photuris",
            IcmpType::ExtendedEchoRequest => "ExtendedEchoRequest",
            IcmpType::ExtendedEchoReply => "ExtendedEchoReply",
            IcmpType::Experiment1 => "Experiment1",
            IcmpType::Experiment2 => "Experiment2",
            IcmpType::Reserved => "Reserved",
        }
    }

    /// Decoding undoes encoding, and a decoded value encodes to the code it
    /// was decoded from.
    pub proof fn code_round_trip(self, code: u8)
        ensures
            Self::spec_from_code(self.spec_code()) == Some(self),
            Self::spec_from_code(code) == Some(self) ==> self.spec_code() == code,
    {
    }
}

/// Why a destination could not be reached.
#[allow(clippy::upper_case_acronyms, clippy::enum_variant_names)]
#[derive(Clone, Copy, Debug, PartialEq, Eq, Structural)]
pub enum IcmpDUCode {
    NetUnreachable,
    HostUnreachable,
    ProtocolUnreachable,
    PortUnreachable,
    FragmentationNeededandDontFragmentWasSet,
    SourceRouteFailed,
    DestinationNetworkUnknown,
    DestinationHostUnknown,
    SourceHostIsolated,
    NetworkAdministrativelyProhibited,
    HostAdministrativelyProhibited,
    NetworkUnreachableTOS,
    DestinationHostUnreachableTOS,
    CommunicationAdministrativelyProhibited,
    HostPrecedenceViolation,
    PrecedenceCutoffInEffect,
}

impl IcmpDUCode {
    /// The number that stands for this value on the wire.
    pub open spec fn spec_code(self) -> u8 {
        match self {
            IcmpDUCode::NetUnreachable => 0,
            IcmpDUCode::HostUnreachable => 1,
            IcmpDUCode::ProtocolUnreachable => 2,
            IcmpDUCode::PortUnreachable => 3,
            IcmpDUCode::FragmentationNeededandDontFragmentWasSet => 4,
            IcmpDUCode::SourceRouteFailed => 5,
            IcmpDUCode::DestinationNetworkUnknown => 6,
            IcmpDUCode::DestinationHostUnknown => 7,
            IcmpDUCode::SourceHostIsolated => 8,
            IcmpDUCode::NetworkAdministrativelyProhibited => 9,
            IcmpDUCode::HostAdministrativelyProhibited => 10,
            IcmpDUCode::NetworkUnreachableTOS => 11,
            IcmpDUCode::DestinationHostUnreachableTOS => 12,
            IcmpDUCode::CommunicationAdministrativelyProhibited => 13,
            IcmpDUCode::HostPrecedenceViolation => 14,
            IcmpDUCode::PrecedenceCutoffInEffect => 15,
        }
    }

    /// The value that `code` stands for, if it has a name.
    pub open spec fn spec_from_code(code: u8) -> Option<IcmpDUCode> {
        if code == 0 {
            Some(IcmpDUCode::NetUnreachable)
        } else if code == 1 {
            Some(IcmpDUCode::HostUnreachable)
        } else if code == 2 {
            Some(IcmpDUCode::ProtocolUnreachable)
        } else if code == 3 {
            Some(IcmpDUCode::PortUnreachable)
        } else if code == 4 {
            Some(IcmpDUCode::FragmentationNeededandDontFragmentWasSet)
        } else if code == 5 {
            Some(IcmpDUCode::SourceRouteFailed)
        } else if code == 6 {
            Some(IcmpDUCode::DestinationNetworkUnknown)
        } else if code == 7 {
            Some(IcmpDUCode::DestinationHostUnknown)
        } else if code == 8 {
            Some(IcmpDUCode::SourceHostIsolated)
        } else if code == 9 {
            Some(IcmpDUCode::NetworkAdministrativelyProhibited)
        } else if code == 10 {
            Some(IcmpDUCode::HostAdministrativelyProhibited)
        } else if code == 11 {
            Some(IcmpDUCode::NetworkUnreachableTOS)
        } else if code == 12 {
            Some(IcmpDUCode::DestinationHostUnreachableTOS)
        } else if code == 13 {
            Some(IcmpDUCode::CommunicationAdministrativelyProhibited)
        } else if code == 14 {
            Some(IcmpDUCode::HostPrecedenceViolation)
        } else if code == 15 {
            Some(IcmpDUCode::PrecedenceCutoffInEffect)
        } else {
            None
        }
    }

    /// The name under which this value is shown.
    pub open spec fn spec_name(self) -> Seq<char> {
        match self {
            IcmpDUCode::NetUnreachable => "NetUnreachable"@,
            IcmpDUCode::HostUnreachable => "HostUnreachable"@,
            IcmpDUCode::ProtocolUnreachable => "ProtocolUnreachable"@,
            IcmpDUCode::PortUnreachable => "PortUnreachable"@,
            IcmpDUCode::FragmentationNeededandDontFragmentWasSet => "FragmentationNeededandDontFragmentWasSet"@,
            IcmpDUCode::SourceRouteFailed => "SourceRouteFailed"@,
            IcmpDUCode::DestinationNetworkUnknown => "DestinationNetworkUnknown"@,
            IcmpDUCode::DestinationHostUnknown => "DestinationHostUnknown"@,
            IcmpDUCode::SourceHostIsolated => "SourceHostIsolated"@,
            IcmpDUCode::NetworkAdministrativelyProhibited => "NetworkAdministrativelyProhibited"@,
            IcmpDUCode::HostAdministrativelyProhibited => "HostAdministrativelyProhibited"@,
            IcmpDUCode::NetworkUnreachableTOS => "NetworkUnreachableTOS"@,
            IcmpDUCode::DestinationHostUnreachableTOS => "DestinationHostUnreachableTOS"@,
            IcmpDUCode::CommunicationAdministrativelyProhibited => "CommunicationAdministrativelyProhibited"@,
            IcmpDUCode::HostPrecedenceViolation => "HostPrecedenceViolation"@,
            IcmpDUCode::PrecedenceCutoffInEffect => "PrecedenceCutoffInEffect"@,
        }
    }

    /// The number that stands for this value on the wire.
    pub fn code(self) -> (r: u8)
        ensures
            r == self.spec_code(),
    {
        match self {
            IcmpDUCode::NetUnreachable => 0,
            IcmpDUCode::HostUnreachable => 1,
            IcmpDUCode::ProtocolUnreachable => 2,
            IcmpDUCode::PortUnreachable => 3,
            IcmpDUCode::FragmentationNeededandDontFragmentWasSet => 4,
            IcmpDUCode::SourceRouteFailed => 5,
            IcmpDUCode::DestinationNetworkUnknown => 6,
            IcmpDUCode::DestinationHostUnknown => 7,
            IcmpDUCode::SourceHostIsolated => 8,
            IcmpDUCode::NetworkAdministrativelyProhibited => 9,
            IcmpDUCode::HostAdministrativelyProhibited => 10,
            IcmpDUCode::NetworkUnreachableTOS => 11,
            IcmpDUCode::DestinationHostUnreachableTOS => 12,
            IcmpDUCode::CommunicationAdministrativelyProhibited => 13,
            IcmpDUCode::HostPrecedenceViolation => 14,
            IcmpDUCode::PrecedenceCutoffInEffect => 15,
        }
    }

    /// The value that `code` stands for; `None` where the code has no name.
    pub fn from_code(code: u8) -> (r: Option<IcmpDUCode>)
        ensures
            r == Self::spec_from_code(code),
    {
        if code == 0 {
            Some(IcmpDUCode::NetUnreachable)
        } else if code == 1 {
            Some(IcmpDUCode::HostUnreachable)
        } else if code == 2 {
            Some(IcmpDUCode::ProtocolUnreachable)
        } else if code == 3 {
            Some(IcmpDUCode::PortUnreachable)
        } else if code == 4 {
            Some(IcmpDUCode::FragmentationNeededandDontFragmentWasSet)
        } else if code == 5 {
            Some(IcmpDUCode::SourceRouteFailed)
        } else if code == 6 {
            Some(IcmpDUCode::DestinationNetworkUnknown)
        } else if code == 7 {
            Some(IcmpDUCode::DestinationHostUnknown)
        } else if code == 8 {
            Some(IcmpDUCode::SourceHostIsolated)
        } else if code == 9 {
            Some(IcmpDUCode::NetworkAdministrativelyProhibited)
        } else if code == 10 {
            Some(IcmpDUCode::HostAdministrativelyProhibited)
        } else if code == 11 {
            Some(IcmpDUCode::NetworkUnreachableTOS)
        } else if code == 12 {
            Some(IcmpDUCode::DestinationHostUnreachableTOS)
        } else if code == 13 {
            Some(IcmpDUCode::CommunicationAdministrativelyProhibited)
        } else if code == 14 {
            Some(IcmpDUCode::HostPrecedenceViolation)
        } else if code == 15 {
            Some(IcmpDUCode::PrecedenceCutoffInEffect)
        } else {
            None
        }
    }

    /// The name under which this value is shown.
    pub fn name(self) -> (r: &'static str)
        ensures
            r@ == self.spec_name(),
    {
        match self {
            IcmpDUCode::NetUnreachable => "NetUnreachable",
            IcmpDUCode::HostUnreachable => "HostUnreachable",
            IcmpDUCode::ProtocolUnreachable => "ProtocolUnreachable",
            IcmpDUCode::PortUnreachable => "PortUnreachable",
            IcmpDUCode::FragmentationNeededandDontFragmentWasSet => "FragmentationNeededandDontFragmentWasSet",
            IcmpDUCode::SourceRouteFailed => "SourceRouteFailed",
            IcmpDUCode::DestinationNetworkUnknown => "DestinationNetworkUnknown",
            IcmpDUCode::DestinationHostUnknown => "DestinationHostUnknown",
            IcmpDUCode::SourceHostIsolated => "SourceHostIsolated",
            IcmpDUCode::NetworkAdministrativelyProhibited => "NetworkAdministrativelyProhibited",
            IcmpDUCode::HostAdministrativelyProhibited => "HostAdministrativelyProhibited",
            IcmpDUCode::NetworkUnreachableTOS => "NetworkUnreachableTOS",
            IcmpDUCode::DestinationHostUnreachableTOS => "DestinationHostUnreachableTOS",
            IcmpDUCode::CommunicationAdministrativelyProhibited => "CommunicationAdministrativelyProhibited",
            IcmpDUCode::HostPrecedenceViolation => "HostPrecedenceViolation",
            IcmpDUCode::PrecedenceCutoffInEffect => "PrecedenceCutoffInEffect",
        }
    }

    /// Decoding undoes encoding, and a decoded value encodes to the code it
    /// was decoded from.
    pub proof fn code_round_trip(self, code: u8)
        ensures
            Self::spec_from_code(self.spec_code()) == Some(self),
            Self::spec_from_code(code) == Some(self) ==> self.spec_code() == code,
    {
    }
}

/// What an ICMP redirect applies to.
#[allow(clippy::upper_case_acronyms, clippy::enum_variant_names)]
#[derive(Clone, Copy, Debug, PartialEq, Eq, Structural)]
pub enum IcmpRedirectMessageCode {
    RedirectDatagramForNetwork,
    RedirectDatagramForHost,
    RedirectDatagramForToSNetwork,
    RedirectDatagramForToSHost,
}

impl IcmpRedirectMessageCode {
    /// The number that stands for this value on the wire.
    pub open spec fn spec_code(self) -> u8 {
        match self {
            IcmpRedirectMessageCode::RedirectDatagramForNetwork => 0,
            IcmpRedirectMessageCode::RedirectDatagramForHost => 1,
            IcmpRedirectMessageCode::RedirectDatagramForToSNetwork => 2,
            IcmpRedirectMessageCode::RedirectDatagramForToSHost => 3,
        }
    }

    /// The value that `code` stands for, if it has a name.
    pub open spec fn spec_from_code(code: u8) -> Option<IcmpRedirectMessageCode> {
        if code == 0 {
            Some(IcmpRedirectMessageCode::RedirectDatagramForNetwork)
        } else if code == 1 {
            Some(IcmpRedirectMessageCode::RedirectDatagramForHost)
        } else if code == 2 {
            Some(IcmpRedirectMessageCode::RedirectDatagramForToSNetwork)
        } else if code == 3 {
            Some(IcmpRedirectMessageCode::RedirectDatagramForToSHost)
        } else {
            None
        }
    }

    /// The name under which this value is shown.
    pub open spec fn spec_name(self) -> Seq<char> {
        match self {
            IcmpRedirectMessageCode::RedirectDatagramForNetwork => "RedirectDatagramForNetwork"@,
            IcmpRedirectMessageCode::RedirectDatagramForHost => "RedirectDatagramForHost"@,
            IcmpRedirectMessageCode::RedirectDatagramForToSNetwork => "RedirectDatagramForToSNetwork"@,
            IcmpRedirectMessageCode::RedirectDatagramForToSHost => "RedirectDatagramForToSHost"@,
        }
    }

    /// The number that stands for this value on the wire.
    pub fn code(self) -> (r: u8)
        ensures
            r == self.spec_code(),
    {
        match self {
            IcmpRedirectMessageCode::RedirectDatagramForNetwork => 0,
            IcmpRedirectMessageCode::RedirectDatagramForHost => 1,
            IcmpRedirectMessageCode::RedirectDatagramForToSNetwork => 2,
            IcmpRedirectMessageCode::RedirectDatagramForToSHost => 3,
        }
    }

    /// The value that `code` stands for; `None` where the code has no name.
    pub fn from_code(code: u8) -> (r: Option<IcmpRedirectMessageCode>)
        ensures
            r == Self::spec_from_code(code),
    {
        if code == 0 {
            Some(IcmpRedirectMessageCode::RedirectDatagramForNetwork)
        } else if code == 1 {
            Some(IcmpRedirectMessageCode::RedirectDatagramForHost)
        } else if code == 2 {
            Some(IcmpRedirectMessageCode::RedirectDatagramForToSNetwork)
        } else if code == 3 {
            Some(IcmpRedirectMessageCode::RedirectDatagramForToSHost)
        } else {
            None
        }
    }

    /// The name under which this value is shown.
    pub fn name(self) -> (r: &'static str)
        ensures
            r@ == self.spec_name(),
    {
        match self {
            IcmpRedirectMessageCode::RedirectDatagramForNetwork => "RedirectDatagramForNetwork",
            IcmpRedirectMessageCode::RedirectDatagramForHost => "RedirectDatagramForHost",
            IcmpRedirectMessageCode::RedirectDatagramForToSNetwork => "RedirectDatagramForToSNetwork",
            IcmpRedirectMessageCode::RedirectDatagramForToSHost => "RedirectDatagramForToSHost",
        }
    }

    /// Decoding undoes encoding, and a decoded value encodes to the code it
    /// was decoded from.
    pub proof fn code_round_trip(self, code: u8)
        ensures
            Self::spec_from_code(self.spec_code()) == Some(self),
            Self::spec_from_code(code) == Some(self) ==> self.spec_code() == code,
    {
    }
}

/// Which time limit an ICMP time-exceeded message reports.
#[allow(clippy::upper_case_acronyms, clippy::enum_variant_names)]
#[derive(Clone, Copy, Debug, PartialEq, Eq, Structural)]
pub enum IcmpTimeExceededCode {
    TTLExpiredInTransit,
    FragmentReassemblyTimeExceeded,
}

impl IcmpTimeExceededCode {
    /// The number that stands for this value on the wire.
    pub open spec fn spec_code(self) -> u8 {
        match self {
            IcmpTimeExceededCode::TTLExpiredInTransit => 0,
            IcmpTimeExceededCode::FragmentReassemblyTimeExceeded => 1,
        }
    }

    /// The value that `code` stands for, if it has a name.
    pub open spec fn spec_from_code(code: u8) -> Option<IcmpTimeExceededCode> {
        if code == 0 {
            Some(IcmpTimeExceededCode::TTLExpiredInTransit)
        } else if code == 1 {
            Some(IcmpTimeExceededCode::FragmentReassemblyTimeExceeded)
        } else {
            None
        }
    }

    /// The name under which this value is shown.
    pub open spec fn spec_name(self) -> Seq<char> {
        match self {
            IcmpTimeExceededCode::TTLExpiredInTransit => "TTLExpiredInTransit"@,
            IcmpTimeExceededCode::FragmentReassemblyTimeExceeded => "FragmentReassemblyTimeExceeded"@,
        }
    }

    /// The number that stands for this value on the wire.
    pub fn code(self) -> (r: u8)
        ensures
            r == self.spec_code(),
    {
        match self {
            IcmpTimeExceededCode::TTLExpiredInTransit => 0,
            IcmpTimeExceededCode::FragmentReassemblyTimeExceeded => 1,
        }
    }

    /// The value that `code` stands for; `None` where the code has no name.
    pub fn from_code(code: u8) -> (r: Option<IcmpTimeExceededCode>)
        ensures
            r == Self::spec_from_code(code),
    {
        if code == 0 {
            Some(IcmpTimeExceededCode::TTLExpiredInTransit)
        } else if code == 1 {
            Some(IcmpTimeExceededCode::FragmentReassemblyTimeExceeded)
        } else {
            None
        }
    }

    /// The name under which this value is shown.
    pub fn name(self) -> (r: &'static str)
        ensures
            r@ == self.spec_name(),
    {
        match self {
            IcmpTimeExceededCode::TTLExpiredInTransit => "TTLExpiredInTransit",
            IcmpTimeExceededCode::FragmentReassemblyTimeExceeded => "FragmentReassemblyTimeExceeded",
        }
    }

    /// Decoding undoes encoding, and a decoded value encodes to the code it
    /// was decoded from.
    pub proof fn code_round_trip(self, code: u8)
        ensures
            Self::spec_from_code(self.spec_code()) == Some(self),
            Self::spec_from_code(code) == Some(self) ==> self.spec_code() == code,
    {
    }
}

/// What kind of fault an ICMP parameter-problem message reports.
#[allow(clippy::upper_case_acronyms, clippy::enum_variant_names)]
#[derive(Clone, Copy, Debug, PartialEq, Eq, Structural)]
pub enum IcmpParameterProblemCode {
    PointerIndicatesError,
    MissingRequiredOption,
    BadLength,
}

impl IcmpParameterProblemCode {
    /// The number that stands for this value on the wire.
    pub open spec fn spec_code(self) -> u8 {
        match self {
            IcmpParameterProblemCode::PointerIndicatesError => 0,
            IcmpParameterProblemCode::MissingRequiredOption => 1,
            IcmpParameterProblemCode::BadLength => 2,
        }
    }

    /// The value that `code` stands for, if it has a name.
    pub open spec fn spec_from_code(code: u8) -> Option<IcmpParameterProblemCode> {
        if code == 0 {
            Some(IcmpParameterProblemCode::PointerIndicatesError)
        } else if code == 1 {
            Some(IcmpParameterProblemCode::MissingRequiredOption)
        } else if code == 2 {
            Some(IcmpParameterProblemCode::BadLength)
        } else {
            None
        }
    }

    /// The name under which this value is shown.
    pub open spec fn spec_name(self) -> Seq<char> {
        match self {
            IcmpParameterProblemCode::PointerIndicatesError => "PointerIndicatesError"@,
            IcmpParameterProblemCode::MissingRequiredOption => "MissingRequiredOption"@,
            IcmpParameterProblemCode::BadLength => "BadLength"@,
        }
    }

    /// The number that stands for this value on the wire.
    pub fn code(self) -> (r: u8)
        ensures
            r == self.spec_code(),
    {
        match self {
            IcmpParameterProblemCode::PointerIndicatesError => 0,
            IcmpParameterProblemCode::MissingRequiredOption => 1,
            IcmpParameterProblemCode::BadLength => 2,
        }
    }

    /// The value that `code` stands for; `None` where the code has no name.
    pub fn from_code(code: u8) -> (r: Option<IcmpParameterProblemCode>)
        ensures
            r == Self::spec_from_code(code),
    {
        if code == 0 {
            Some(IcmpParameterProblemCode::PointerIndicatesError)
        } else if code == 1 {
            Some(IcmpParameterProblemCode::MissingRequiredOption)
        } else if code == 2 {
            Some(IcmpParameterProblemCode::BadLength)
        } else {
            None
        }
    }

    /// The name under which this value is shown.
    pub fn name(self) -> (r: &'static str)
        ensures
            r@ == self.spec_name(),
    {
        match self {
            IcmpParameterProblemCode::PointerIndicatesError => "PointerIndicatesError",
            IcmpParameterProblemCode::MissingRequiredOption => "MissingRequiredOption",
            IcmpParameterProblemCode::BadLength => "BadLength",
        }
    }

    /// Decoding undoes encoding, and a decoded value encodes to the code it
    /// was decoded from.
    pub proof fn code_round_trip(self, code: u8)
        ensures
            Self::spec_from_code(self.spec_code()) == Some(self),
            Self::spec_from_code(code) == Some(self) ==> self.spec_code() == code,
    {
    }
}

/// The outcome that an ICMP extended echo reply reports.
#[allow(clippy::upper_case_acronyms, clippy::enum_variant_names)]
#[derive(Clone, Copy, Debug, PartialEq, Eq, Structural)]
pub enum IcmpExtendedEchoReplyCode {
    NoError,
    MalformedQuery,
    NoSuchInterface,
    NoSuchTableEntry,
    MultipleInterfacesSatisfyQuery,
}

impl IcmpExtendedEchoReplyCode {
    /// The number that stands for this value on the wire.
    pub open spec fn spec_code(self) -> u8 {
        match self {
            IcmpExtendedEchoReplyCode::NoError => 0,
            IcmpExtendedEchoReplyCode::MalformedQuery => 1,
            IcmpExtendedEchoReplyCode::NoSuchInterface => 2,
            IcmpExtendedEchoReplyCode::NoSuchTableEntry => 3,
            IcmpExtendedEchoReplyCode::MultipleInterfacesSatisfyQuery => 4,
        }
    }

    /// The value that `code` stands for, if it has a name.
    pub open spec fn spec_from_code(code: u8) -> Option<IcmpExtendedEchoReplyCode> {
        if code == 0 {
            Some(IcmpExtendedEchoReplyCode::NoError)
        } else if code == 1 {
            Some(IcmpExtendedEchoReplyCode::MalformedQuery)
        } else if code == 2 {
            Some(IcmpExtendedEchoReplyCode::NoSuchInterface)
        } else if code == 3 {
            Some(IcmpExtendedEchoReplyCode::NoSuchTableEntry)
        } else if code == 4 {
            Some(IcmpExtendedEchoReplyCode::MultipleInterfacesSatisfyQuery)
        } else {
            None
        }
    }

    /// The name under which this value is shown.
    pub open spec fn spec_name(self) -> Seq<char> {
        match self {
            IcmpExtendedEchoReplyCode::NoError => "NoError"@,
            IcmpExtendedEchoReplyCode::MalformedQuery => "MalformedQuery"@,
            IcmpExtendedEchoReplyCode::NoSuchInterface => "NoSuchInterface"@,
            IcmpExtendedEchoReplyCode::NoSuchTableEntry => "NoSuchTableEntry"@,
            IcmpExtendedEchoReplyCode::MultipleInterfacesSatisfyQuery => "MultipleInterfacesSatisfyQuery"@,
        }
    }

    /// The number that stands for this value on the wire.
    pub fn code(self) -> (r: u8)
        ensures
            r == self.spec_code(),
    {
        match self {
            IcmpExtendedEchoReplyCode::NoError => 0,
            IcmpExtendedEchoReplyCode::MalformedQuery => 1,
            IcmpExtendedEchoReplyCode::NoSuchInterface => 2,
            IcmpExtendedEchoReplyCode::NoSuchTableEntry => 3,
            IcmpExtendedEchoReplyCode::MultipleInterfacesSatisfyQuery => 4,
        }
    }

    /// The value that `code` stands for; `None` where the code has no name.
    pub fn from_code(code: u8) -> (r: Option<IcmpExtendedEchoReplyCode>)
        ensures
            r == Self::spec_from_code(code),
    {
        if code == 0 {
            Some(IcmpExtendedEchoReplyCode::NoError)
        } else if code == 1 {
            Some(IcmpExtendedEchoReplyCode::MalformedQuery)
        } else if code == 2 {
            Some(IcmpExtendedEchoReplyCode::NoSuchInterface)
        } else if code == 3 {
            Some(IcmpExtendedEchoReplyCode::NoSuchTableEntry)
        } else if code == 4 {
            Some(IcmpExtendedEchoReplyCode::MultipleInterfacesSatisfyQuery)
        } else {
            None
        }
    }

    /// The name under which this value is shown.
    pub fn name(self) -> (r: &'static str)
        ensures
            r@ == self.spec_name(),
    {
        match self {
            IcmpExtendedEchoReplyCode::NoError => "NoError",
            IcmpExtendedEchoReplyCode::MalformedQuery => "MalformedQuery",
            IcmpExtendedEchoReplyCode::NoSuchInterface => "NoSuchInterface",
            IcmpExtendedEchoReplyCode::NoSuchTableEntry => "NoSuchTableEntry",
            IcmpExtendedEchoReplyCode::MultipleInterfacesSatisfyQuery => "MultipleInterfacesSatisfyQuery",
        }
    }

    /// Decoding undoes encoding, and a decoded value encodes to the code it
    /// was decoded from.
    pub proof fn code_round_trip(self, code: u8)
        ensures
            Self::spec_from_code(self.spec_code()) == Some(self),
            Self::spec_from_code(code) == Some(self) ==> self.spec_code() == code,
    {
    }
}

/// The type of an ICMPv6 message.
#[allow(clippy::upper_case_acronyms, clippy::enum_variant_names)]
#[derive(Clone, Copy, Debug, PartialEq, Eq, Structural)]
pub enum Icmp6Type {
    Reserved,
    DestinationUnreachable,
    PacketTooBig,
    TimeExceeded,
    ParameterProblem,
    PrivateExperimentation100,
    PrivateExperimentation101,
    ReservedForExpansion,
    EchoRequest,
    EchoReply,
    MulticastListenerQuery,
    MulticastListenerReport,
    MulticastListenerDone,
    RouterSolicitation,
    RouterAdvertisement,
    NeighborSolicitation,
    NeighborAdvertisement,
    RedirectMessage,
    RouterRenumbering,
    ICMPNodeInformationQuery,
    ICMPNodeInformationResponse,
    InverseNeighborDiscoverySolicitationMessage,
    InverseNeighborDiscoveryAdvertisementMessage,
    Version2MulticastListenerReport,
    HomeAgentAddressDiscoveryRequestMessage,
    HomeAgentAddressDiscoveryReplyMessage,
    MobilePrefixSolicitation,
    MobilePrefixAdvertisement,
    CertificationPathSolicitationMessage,
    CertificationPathAdvertisementMessage,
    ExperimentalMobilityProtocols,
    MulticastRouterAdvertisement,
    MulticastRouterSolicitation,
    MulticastRouterTermination,
    FMIPv6Messages,
    RPLControlMessage,
    ILNPv6LocatorUpdateMessage,
    DuplicateAddressRequest,
    DuplicateAddressConfirmation,
    MPLControlMessage,
    ExtendedEchoRequest,
    ExtendedEchoReply,
    PrivateExperimentation1,
    PrivateExperimentation2,
    ReservedForInformationalExpansion,
}

impl Icmp6Type {
    /// The number that stands for this value on the wire.
    pub open spec fn spec_code(self) -> u8 {
        match self {
            Icmp6Type::Reserved => 0,
            Icmp6Type::DestinationUnreachable => 1,
            Icmp6Type::PacketTooBig => 2,
            Icmp6Type::TimeExceeded => 3,
            Icmp6Type::ParameterProblem => 4,
            Icmp6Type::PrivateExperimentation100 => 100,
            Icmp6Type::PrivateExperimentation101 => 101,
            Icmp6Type::ReservedForExpansion => 127,
            Icmp6Type::EchoRequest => 128,
            Icmp6Type::EchoReply => 129,
            Icmp6Type::MulticastListenerQuery => 130,
            Icmp6Type::MulticastListenerReport => 131,
            Icmp6Type::MulticastListenerDone => 132,
            Icmp6Type::RouterSolicitation => 133,
            Icmp6Type::RouterAdvertisement => 134,
            Icmp6Type::NeighborSolicitation => 135,
            Icmp6Type::NeighborAdvertisement => 136,
            Icmp6Type::RedirectMessage => 137,
            Icmp6Type::RouterRenumbering => 138,
            Icmp6Type::ICMPNodeInformationQuery => 139,
            Icmp6Type::ICMPNodeInformationResponse => 140,
            Icmp6Type::InverseNeighborDiscoverySolicitationMessage => 141,
            Icmp6Type::InverseNeighborDiscoveryAdvertisementMessage => 142,
            Icmp6Type::Version2MulticastListenerReport => 143,
            Icmp6Type::HomeAgentAddressDiscoveryRequestMessage => 144,
            Icmp6Type::HomeAgentAddressDiscoveryReplyMessage => 145,
            Icmp6Type::MobilePrefixSolicitation => 146,
            Icmp6Type::MobilePrefixAdvertisement => 147,
            Icmp6Type::CertificationPathSolicitationMessage => 148,
            Icmp6Type::CertificationPathAdvertisementMessage => 149,
            Icmp6Type::ExperimentalMobilityProtocols => 150,
            Icmp6Type::MulticastRouterAdvertisement => 151,
            Icmp6Type::MulticastRouterSolicitation => 152,
            Icmp6Type::MulticastRouterTermination => 153,
            Icmp6Type::FMIPv6Messages => 154,
            Icmp6Type::RPLControlMessage => 155,
            Icmp6Type::ILNPv6LocatorUpdateMessage => 156,
            Icmp6Type::DuplicateAddressRequest => 157,
            Icmp6Type::DuplicateAddressConfirmation => 158,
            Icmp6Type::MPLControlMessage => 159,
            Icmp6Type::ExtendedEchoRequest => 160,
            Icmp6Type::ExtendedEchoReply => 161,
            Icmp6Type::PrivateExperimentation1 => 200,
            Icmp6Type::PrivateExperimentation2 => 201,
            Icmp6Type::ReservedForInformationalExpansion => 255,
        }
    }

    /// The value that `code` stands for, if it has a name.
    pub open spec fn spec_from_code(code: u8) -> Option<Icmp6Type> {
        if code == 0 {
            Some(Icmp6Type::Reserved)
        } else if code == 1 {
            Some(Icmp6Type::DestinationUnreachable)
        } else if code == 2 {
            Some(Icmp6Type::PacketTooBig)
        } else if code == 3 {
            Some(Icmp6Type::TimeExceeded)
        } else if code == 4 {
            Some(Icmp6Type::ParameterProblem)
        } else if code == 100 {
            Some(Icmp6Type::PrivateExperimentation100)
        } else if code == 101 {
            Some(Icmp6Type::PrivateExperimentation101)
        } else if code == 127 {
            Some(Icmp6Type::ReservedForExpansion)
        } else if code == 128 {
            Some(Icmp6Type::EchoRequest)
        } else if code == 129 {
            Some(Icmp6Type::EchoReply)
        } else if code == 130 {
            Some(Icmp6Type::MulticastListenerQuery)
        } else if code == 131 {
            Some(Icmp6Type::MulticastListenerReport)
        } else if code == 132 {
            Some(Icmp6Type::MulticastListenerDone)
        } else if code == 133 {
            Some(Icmp6Type::RouterSolicitation)
        } else if code == 134 {
            Some(Icmp6Type::RouterAdvertisement)
        } else if code == 135 {
            Some(Icmp6Type::NeighborSolicitation)
        } else if code == 136 {
            Some(Icmp6Type::NeighborAdvertisement)
        } else if code == 137 {
            Some(Icmp6Type::RedirectMessage)
        } else if code == 138 {
            Some(Icmp6Type::RouterRenumbering)
        } else if code == 139 {
            Some(Icmp6Type::ICMPNodeInformationQuery)
        } else if code == 140 {
            Some(Icmp6Type::ICMPNodeInformationResponse)
        } else if code == 141 {
            Some(Icmp6Type::InverseNeighborDiscoverySolicitationMessage)
        } else if code == 142 {
            Some(Icmp6Type::InverseNeighborDiscoveryAdvertisementMessage)
        } else if code == 143 {
            Some(Icmp6Type::Version2MulticastListenerReport)
        } else if code == 144 {
            Some(Icmp6Type::HomeAgentAddressDiscoveryRequestMessage)
        } else if code == 145 {
            Some(Icmp6Type::HomeAgentAddressDiscoveryReplyMessage)
        } else if code == 146 {
            Some(Icmp6Type::MobilePrefixSolicitation)
        } else if code == 147 {
            Some(Icmp6Type::MobilePrefixAdvertisement)
        } else if code == 148 {
            Some(Icmp6Type::CertificationPathSolicitationMessage)
        } else if code == 149 {
            Some(Icmp6Type::CertificationPathAdvertisementMessage)
        } else if code == 150 {
            Some(Icmp6Type::ExperimentalMobilityProtocols)
        } else if code == 151 {
            Some(Icmp6Type::MulticastRouterAdvertisement)
        } else if code == 152 {
            Some(Icmp6Type::MulticastRouterSolicitation)
        } else if code == 153 {
            Some(Icmp6Type::MulticastRouterTermination)
        } else if code == 154 {
            Some(Icmp6Type::FMIPv6Messages)
        } else if code == 155 {
            Some(Icmp6Type::RPLControlMessage)
        } else if code == 156 {
            Some(Icmp6Type::ILNPv6LocatorUpdateMessage)
        } else if code == 157 {
            Some(Icmp6Type::DuplicateAddressRequest)
        } else if code == 158 {
            Some(Icmp6Type::DuplicateAddressConfirmation)
        } else if code == 159 {
            Some(Icmp6Type::MPLControlMessage)
        } else if code == 160 {
            Some(Icmp6Type::ExtendedEchoRequest)
        } else if code == 161 {
            Some(Icmp6Type::ExtendedEchoReply)
        } else if code == 200 {
            Some(Icmp6Type::PrivateExperimentation1)
        } else if code == 201 {
            Some(Icmp6Type::PrivateExperimentation2)
        } else if code == 255 {
            Some(Icmp6Type::ReservedForInformationalExpansion)
        } else {
            None
        }
    }

    /// The name under which this value is shown.
    pub open spec fn spec_name(self) -> Seq<char> {
        match self {
            Icmp6Type::Reserved => "Reserved"@,
            Icmp6Type::DestinationUnreachable => "DestinationUnreachable"@,
            Icmp6Type::PacketTooBig => "PacketTooBig"@,
            Icmp6Type::TimeExceeded => "TimeExceeded"@,
            Icmp6Type::ParameterProblem => "ParameterProblem"@,
            Icmp6Type::PrivateExperimentation100 => "PrivateExperimentation100"@,
            Icmp6Type::PrivateExperimentation101 => "PrivateExperimentation101"@,
            Icmp6Type::ReservedForExpansion => "ReservedForExpansion"@,
            Icmp6Type::EchoRequest => "EchoRequest"@,
            Icmp6Type::EchoReply => "EchoReply"@,
            Icmp6Type::MulticastListenerQuery => "MulticastListenerQuery"@,
            Icmp6Type::MulticastListenerReport => "MulticastListenerReport"@,
            Icmp6Type::MulticastListenerDone => "MulticastListenerDone"@,
            Icmp6Type::RouterSolicitation => "RouterSolicitation"@,
            Icmp6Type::RouterAdvertisement => "RouterAdvertisement"@,
            Icmp6Type::NeighborSolicitation => "NeighborSolicitation"@,
            Icmp6Type::NeighborAdvertisement => "NeighborAdvertisement"@,
            Icmp6Type::RedirectMessage => "RedirectMessage"@,
            Icmp6Type::RouterRenumbering => "RouterRenumbering"@,
            Icmp6Type::ICMPNodeInformationQuery => "ICMPNodeInformationQuery"@,
            Icmp6Type::ICMPNodeInformationResponse => "ICMPNodeInformationResponse"@,
            Icmp6Type::InverseNeighborDiscoverySolicitationMessage => "InverseNeighborDiscoverySolicitationMessage"@,
            Icmp6Type::InverseNeighborDiscoveryAdvertisementMessage => "InverseNeighborDiscoveryAdvertisementMessage"@,
            Icmp6Type::Version2MulticastListenerReport => "Version2MulticastListenerReport"@,
            Icmp6Type::HomeAgentAddressDiscoveryRequestMessage => "HomeAgentAddressDiscoveryRequestMessage"@,
            Icmp6Type::HomeAgentAddressDiscoveryReplyMessage => "HomeAgentAddressDiscoveryReplyMessage"@,
            Icmp6Type::MobilePrefixSolicitation => "MobilePrefixSolicitation"@,
            Icmp6Type::MobilePrefixAdvertisement => "MobilePrefixAdvertisement"@,
            Icmp6Type::CertificationPathSolicitationMessage => "CertificationPathSolicitationMessage"@,
            Icmp6Type::CertificationPathAdvertisementMessage => "CertificationPathAdvertisementMessage"@,
            Icmp6Type::ExperimentalMobilityProtocols => "ExperimentalMobilityProtocols"@,
            Icmp6Type::MulticastRouterAdvertisement => "MulticastRouterAdvertisement"@,
            Icmp6Type::MulticastRouterSolicitation => "MulticastRouterSolicitation"@,
            Icmp6Type::MulticastRouterTermination => "MulticastRouterTermination"@,
            Icmp6Type::FMIPv6Messages => "FMIPv6Messages"@,
            Icmp6Type::RPLControlMessage => "RPLControlMessage"@,
            Icmp6Type::ILNPv6LocatorUpdateMessage => "ILNPv6LocatorUpdateMessage"@,
            Icmp6Type::DuplicateAddressRequest => "DuplicateAddressRequest"@,
            Icmp6Type::DuplicateAddressConfirmation => "DuplicateAddressConfirmation"@,
            Icmp6Type::MPLControlMessage => "MPLControlMessage"@,
            Icmp6Type::ExtendedEchoRequest => "ExtendedEchoRequest"@,
            Icmp6Type::ExtendedEchoReply => "ExtendedEchoReply"@,
            Icmp6Type::PrivateExperimentation1 => "PrivateExperimentation1"@,
            Icmp6Type::PrivateExperimentation2 => "PrivateExperimentation2"@,
            Icmp6Type::ReservedForInformationalExpansion => "ReservedForInformationalExpansion"@,
        }
    }

    /// The number that stands for this value on the wire.
    pub fn code(self) -> (r: u8)
        ensures
            r == self.spec_code(),
    {
        match self {
            Icmp6Type::Reserved => 0,
            Icmp6Type::DestinationUnreachable => 1,
            Icmp6Type::PacketTooBig => 2,
            Icmp6Type::TimeExceeded => 3,
            Icmp6Type::ParameterProblem => 4,
            Icmp6Type::PrivateExperimentation100 => 100,
            Icmp6Type::PrivateExperimentation101 => 101,
            Icmp6Type::ReservedForExpansion => 127,
            Icmp6Type::EchoRequest => 128,
            Icmp6Type::EchoReply => 129,
            Icmp6Type::MulticastListenerQuery => 130,
            Icmp6Type::MulticastListenerReport => 131,
            Icmp6Type::MulticastListenerDone => 132,
            Icmp6Type::RouterSolicitation => 133,
            Icmp6Type::RouterAdvertisement => 134,
            Icmp6Type::NeighborSolicitation => 135,
            Icmp6Type::NeighborAdvertisement => 136,
            Icmp6Type::RedirectMessage => 137,
            Icmp6Type::RouterRenumbering => 138,
            Icmp6Type::ICMPNodeInformationQuery => 139,
            Icmp6Type::ICMPNodeInformationResponse => 140,
            Icmp6Type::InverseNeighborDiscoverySolicitationMessage => 141,
            Icmp6Type::InverseNeighborDiscoveryAdvertisementMessage => 142,
            Icmp6Type::Version2MulticastListenerReport => 143,
            Icmp6Type::HomeAgentAddressDiscoveryRequestMessage => 144,
            Icmp6Type::HomeAgentAddressDiscoveryReplyMessage => 145,
            Icmp6Type::MobilePrefixSolicitation => 146,
            Icmp6Type::MobilePrefixAdvertisement => 147,
            Icmp6Type::CertificationPathSolicitationMessage => 148,
            Icmp6Type::CertificationPathAdvertisementMessage => 149,
            Icmp6Type::ExperimentalMobilityProtocols => 150,
            Icmp6Type::MulticastRouterAdvertisement => 151,
            Icmp6Type::MulticastRouterSolicitation => 152,
            Icmp6Type::MulticastRouterTermination => 153,
            Icmp6Type::FMIPv6Messages => 154,
            Icmp6Type::RPLControlMessage => 155,
            Icmp6Type::ILNPv6LocatorUpdateMessage => 156,
            Icmp6Type::DuplicateAddressRequest => 157,
            Icmp6Type::DuplicateAddressConfirmation => 158,
            Icmp6Type::MPLControlMessage => 159,
            Icmp6Type::ExtendedEchoRequest => 160,
            Icmp6Type::ExtendedEchoReply => 161,
            Icmp6Type::PrivateExperimentation1 => 200,
            Icmp6Type::PrivateExperimentation2 => 201,
            Icmp6Type::ReservedForInformationalExpansion => 255,
        }
    }

    /// The value that `code` stands for; `None` where the code has no name.
    pub fn from_code(code: u8) -> (r: Option<Icmp6Type>)
        ensures
            r == Self::spec_from_code(code),
    {
        if code == 0 {
            Some(Icmp6Type::Reserved)
        } else if code == 1 {
            Some(Icmp6Type::DestinationUnreachable)
        } else if code == 2 {
            Some(Icmp6Type::PacketTooBig)
        } else if code == 3 {
            Some(Icmp6Type::TimeExceeded)
        } else if code == 4 {
            Some(Icmp6Type::ParameterProblem)
        } else if code == 100 {
            Some(Icmp6Type::PrivateExperimentation100)
        } else if code == 101 {
            Some(Icmp6Type::PrivateExperimentation101)
        } else if code == 127 {
            Some(Icmp6Type::ReservedForExpansion)
        } else if code == 128 {
            Some(Icmp6Type::EchoRequest)
        } else if code == 129 {
            Some(Icmp6Type::EchoReply)
        } else if code == 130 {
            Some(Icmp6Type::MulticastListenerQuery)
        } else if code == 131 {
            Some(Icmp6Type::MulticastListenerReport)
        } else if code == 132 {
            Some(Icmp6Type::MulticastListenerDone)
        } else if code == 133 {
            Some(Icmp6Type::RouterSolicitation)
        } else if code == 134 {
            Some(Icmp6Type::RouterAdvertisement)
        } else if code == 135 {
            Some(Icmp6Type::NeighborSolicitation)
        } else if code == 136 {
            Some(Icmp6Type::NeighborAdvertisement)
        } else if code == 137 {
            Some(Icmp6Type::RedirectMessage)
        } else if code == 138 {
            Some(Icmp6Type::RouterRenumbering)
        } else if code == 139 {
            Some(Icmp6Type::ICMPNodeInformationQuery)
        } else if code == 140 {
            Some(Icmp6Type::ICMPNodeInformationResponse)
        } else if code == 141 {
            Some(Icmp6Type::InverseNeighborDiscoverySolicitationMessage)
        } else if code == 142 {
            Some(Icmp6Type::InverseNeighborDiscoveryAdvertisementMessage)
        } else if code == 143 {
            Some(Icmp6Type::Version2MulticastListenerReport)
        } else if code == 144 {
            Some(Icmp6Type::HomeAgentAddressDiscoveryRequestMessage)
        } else if code == 145 {
            Some(Icmp6Type::HomeAgentAddressDiscoveryReplyMessage)
        } else if code == 146 {
            Some(Icmp6Type::MobilePrefixSolicitation)
        } else if code == 147 {
            Some(Icmp6Type::MobilePrefixAdvertisement)
        } else if code == 148 {
            Some(Icmp6Type::CertificationPathSolicitationMessage)
        } else if code == 149 {
            Some(Icmp6Type::CertificationPathAdvertisementMessage)
        } else if code == 150 {
            Some(Icmp6Type::ExperimentalMobilityProtocols)
        } else if code == 151 {
            Some(Icmp6Type::MulticastRouterAdvertisement)
        } else if code == 152 {
            Some(Icmp6Type::MulticastRouterSolicitation)
        } else if code == 153 {
            Some(Icmp6Type::MulticastRouterTermination)
        } else if code == 154 {
            Some(Icmp6Type::FMIPv6Messages)
        } else if code == 155 {
            Some(Icmp6Type::RPLControlMessage)
        } else if code == 156 {
            Some(Icmp6Type::ILNPv6LocatorUpdateMessage)
        } else if code == 157 {
            Some(Icmp6Type::DuplicateAddressRequest)
        } else if code == 158 {
            Some(Icmp6Type::DuplicateAddressConfirmation)
        } else if code == 159 {
            Some(Icmp6Type::MPLControlMessage)
        } else if code == 160 {
            Some(Icmp6Type::ExtendedEchoRequest)
        } else if code == 161 {
            Some(Icmp6Type::ExtendedEchoReply)
        } else if code == 200 {
            Some(Icmp6Type::PrivateExperimentation1)
        } else if code == 201 {
            Some(Icmp6Type::PrivateExperimentation2)
        } else if code == 255 {
            Some(Icmp6Type::ReservedForInformationalExpansion)
        } else {
            None
        }
    }

    /// The name under which this value is shown.
    pub fn name(self) -> (r: &'static str)
        ensures
            r@ == self.spec_name(),
    {
        match self {
            Icmp6Type::Reserved => "Reserved",
            Icmp6Type::DestinationUnreachable => "DestinationUnreachable",
            Icmp6Type::PacketTooBig => "PacketTooBig",
            Icmp6Type::TimeExceeded => "TimeExceeded",
            Icmp6Type::ParameterProblem => "ParameterProblem",
            Icmp6Type::PrivateExperimentation100 => "PrivateExperimentation100",
            Icmp6Type::PrivateExperimentation101 => "PrivateExperimentation101",
            Icmp6Type::ReservedForExpansion => "ReservedForExpansion",
            Icmp6Type::EchoRequest => "EchoRequest",
            Icmp6Type::EchoReply => "EchoReply",
            Icmp6Type::MulticastListenerQuery => "MulticastListenerQuery",
            Icmp6Type::MulticastListenerReport => "MulticastListenerReport",
            Icmp6Type::MulticastListenerDone => "MulticastListenerDone",
            Icmp6Type::RouterSolicitation => "RouterSolicitation",
            Icmp6Type::RouterAdvertisement => "RouterAdvertisement",
            Icmp6Type::NeighborSolicitation => "NeighborSolicitation",
            Icmp6Type::NeighborAdvertisement => "NeighborAdvertisement",
            Icmp6Type::RedirectMessage => "RedirectMessage",
            Icmp6Type::RouterRenumbering => "RouterRenumbering",
            Icmp6Type::ICMPNodeInformationQuery => "ICMPNodeInformationQuery",
            Icmp6Type::ICMPNodeInformationResponse => "ICMPNodeInformationResponse",
            Icmp6Type::InverseNeighborDiscoverySolicitationMessage => "InverseNeighborDiscoverySolicitationMessage",
            Icmp6Type::InverseNeighborDiscoveryAdvertisementMessage => "InverseNeighborDiscoveryAdvertisementMessage",
            Icmp6Type::Version2MulticastListenerReport => "Version2MulticastListenerReport",
            Icmp6Type::HomeAgentAddressDiscoveryRequestMessage => "HomeAgentAddressDiscoveryRequestMessage",
            Icmp6Type::HomeAgentAddressDiscoveryReplyMessage => "HomeAgentAddressDiscoveryReplyMessage",
            Icmp6Type::MobilePrefixSolicitation => "MobilePrefixSolicitation",
            Icmp6Type::MobilePrefixAdvertisement => "MobilePrefixAdvertisement",
            Icmp6Type::CertificationPathSolicitationMessage => "CertificationPathSolicitationMessage",
            Icmp6Type::CertificationPathAdvertisementMessage => "CertificationPathAdvertisementMessage",
            Icmp6Type::ExperimentalMobilityProtocols => "ExperimentalMobilityProtocols",
            Icmp6Type::MulticastRouterAdvertisement => "MulticastRouterAdvertisement",
            Icmp6Type::MulticastRouterSolicitation => "MulticastRouterSolicitation",
            Icmp6Type::MulticastRouterTermination => "MulticastRouterTermination",
            Icmp6Type::FMIPv6Messages => "FMIPv6Messages",
            Icmp6Type::RPLControlMessage => "RPLControlMessage",
            Icmp6Type::ILNPv6LocatorUpdateMessage => "ILNPv6LocatorUpdateMessage",
            Icmp6Type::DuplicateAddressRequest => "DuplicateAddressRequest",
            Icmp6Type::DuplicateAddressConfirmation => "DuplicateAddressConfirmation",
            Icmp6Type::MPLControlMessage => "MPLControlMessage",
            Icmp6Type::ExtendedEchoRequest => "ExtendedEchoRequest",
            Icmp6Type::ExtendedEchoReply => "ExtendedEchoReply",
            Icmp6Type::PrivateExperimentation1 => "PrivateExperimentation1",
            Icmp6Type::PrivateExperimentation2 => "PrivateExperimentation2",
            Icmp6Type::ReservedForInformationalExpansion => "ReservedForInformationalExpansion",
        }
    }

    /// Decoding undoes encoding, and a decoded value encodes to the code it
    /// was decoded from.
    pub proof fn code_round_trip(self, code: u8)
        ensures
            Self::spec_from_code(self.spec_code()) == Some(self),
            Self::spec_from_code(code) == Some(self) ==> self.spec_code() == code,
    {
    }
}

/// Why a destination could not be reached over IPv6.
#[allow(clippy::upper_case_acronyms, clippy::enum_variant_names)]
#[derive(Clone, Copy, Debug, PartialEq, Eq, Structural)]
pub enum Icmp6DUCode {
    NoRouteToDestination,
    CommunicationWithDestinationAdministrativelyProhibited,
    BeyondScopeOfSourceAddress,
    AddressUnreachable,
    PortUnreachable,
    SourceAddressFailedIngressEgressPolicy,
    RejectRouteToDestination,
    ErrorInSourceRoutingHeader,
}

impl Icmp6DUCode {
    /// The number that stands for this value on the wire.
    pub open spec fn spec_code(self) -> u8 {
        match self {
            Icmp6DUCode::NoRouteToDestination => 0,
            Icmp6DUCode::CommunicationWithDestinationAdministrativelyProhibited => 1,
            Icmp6DUCode::BeyondScopeOfSourceAddress => 2,
            Icmp6DUCode::AddressUnreachable => 3,
            Icmp6DUCode::PortUnreachable => 4,
            Icmp6DUCode::SourceAddressFailedIngressEgressPolicy => 5,
            Icmp6DUCode::RejectRouteToDestination => 6,
            Icmp6DUCode::ErrorInSourceRoutingHeader => 7,
        }
    }

    /// The value that `code` stands for, if it has a name.
    pub open spec fn spec_from_code(code: u8) -> Option<Icmp6DUCode> {
        if code == 0 {
            Some(Icmp6DUCode::NoRouteToDestination)
        } else if code == 1 {
            Some(Icmp6DUCode::CommunicationWithDestinationAdministrativelyProhibited)
        } else if code == 2 {
            Some(Icmp6DUCode::BeyondScopeOfSourceAddress)
        } else if code == 3 {
            Some(Icmp6DUCode::AddressUnreachable)
        } else if code == 4 {
            Some(Icmp6DUCode::PortUnreachable)
        } else if code == 5 {
            Some(Icmp6DUCode::SourceAddressFailedIngressEgressPolicy)
        } else if code == 6 {
            Some(Icmp6DUCode::RejectRouteToDestination)
        } else if code == 7 {
            Some(Icmp6DUCode::ErrorInSourceRoutingHeader)
        } else {
            None
        }
    }

    /// The name under which this value is shown.
    pub open spec fn spec_name(self) -> Seq<char> {
        match self {
            Icmp6DUCode::NoRouteToDestination => "NoRouteToDestination"@,
            Icmp6DUCode::CommunicationWithDestinationAdministrativelyProhibited => "CommunicationWithDestinationAdministrativelyProhibited"@,
            Icmp6DUCode::BeyondScopeOfSourceAddress => "BeyondScopeOfSourceAddress"@,
            Icmp6DUCode::AddressUnreachable => "AddressUnreachable"@,
            Icmp6DUCode::PortUnreachable => "PortUnreachable"@,
            Icmp6DUCode::SourceAddressFailedIngressEgressPolicy => "SourceAddressFailedIngressEgressPolicy"@,
            Icmp6DUCode::RejectRouteToDestination => "RejectRouteToDestination"@,
            Icmp6DUCode::ErrorInSourceRoutingHeader => "ErrorInSourceRoutingHeader"@,
        }
    }

    /// The number that stands for this value on the wire.
    pub fn code(self) -> (r: u8)
        ensures
            r == self.spec_code(),
    {
        match self {
            Icmp6DUCode::NoRouteToDestination => 0,
            Icmp6DUCode::CommunicationWithDestinationAdministrativelyProhibited => 1,
            Icmp6DUCode::BeyondScopeOfSourceAddress => 2,
            Icmp6DUCode::AddressUnreachable => 3,
            Icmp6DUCode::PortUnreachable => 4,
            Icmp6DUCode::SourceAddressFailedIngressEgressPolicy => 5,
            Icmp6DUCode::RejectRouteToDestination => 6,
            Icmp6DUCode::ErrorInSourceRoutingHeader => 7,
        }
    }

    /// The value that `code` stands for; `None` where the code has no name.
    pub fn from_code(code: u8) -> (r: Option<Icmp6DUCode>)
        ensures
            r == Self::spec_from_code(code),
    {
        if code == 0 {
            Some(Icmp6DUCode::NoRouteToDestination)
        } else if code == 1 {
            Some(Icmp6DUCode::CommunicationWithDestinationAdministrativelyProhibited)
        } else if code == 2 {
            Some(Icmp6DUCode::BeyondScopeOfSourceAddress)
        } else if code == 3 {
            Some(Icmp6DUCode::AddressUnreachable)
        } else if code == 4 {
            Some(Icmp6DUCode::PortUnreachable)
        } else if code == 5 {
            Some(Icmp6DUCode::SourceAddressFailedIngressEgressPolicy)
        } else if code == 6 {
            Some(Icmp6DUCode::RejectRouteToDestination)
        } else if code == 7 {
            Some(Icmp6DUCode::ErrorInSourceRoutingHeader)
        } else {
            None
        }
    }

    /// The name under which this value is shown.
    pub fn name(self) -> (r: &'static str)
        ensures
            r@ == self.spec_name(),
    {
        match self {
            Icmp6DUCode::NoRouteToDestination => "NoRouteToDestination",
            Icmp6DUCode::CommunicationWithDestinationAdministrativelyProhibited => "CommunicationWithDestinationAdministrativelyProhibited",
            Icmp6DUCode::BeyondScopeOfSourceAddress => "BeyondScopeOfSourceAddress",
            Icmp6DUCode::AddressUnreachable => "AddressUnreachable",
            Icmp6DUCode::PortUnreachable => "PortUnreachable",
            Icmp6DUCode::SourceAddressFailedIngressEgressPolicy => "SourceAddressFailedIngressEgressPolicy",
            Icmp6DUCode::RejectRouteToDestination => "RejectRouteToDestination",
            Icmp6DUCode::ErrorInSourceRoutingHeader => "ErrorInSourceRoutingHeader",
        }
    }

    /// Decoding undoes encoding, and a decoded value encodes to the code it
    /// was decoded from.
    pub proof fn code_round_trip(self, code: u8)
        ensures
            Self::spec_from_code(self.spec_code()) == Some(self),
            Self::spec_from_code(code) == Some(self) ==> self.spec_code() == code,
    {
    }
}

/// Which time limit an ICMPv6 time-exceeded message reports.
#[allow(clippy::upper_case_acronyms, clippy::enum_variant_names)]
#[derive(Clone, Copy, Debug, PartialEq, Eq, Structural)]
pub enum Icmp6TimeExceededCode {
    HopLimitExceededInTransit,
    FragmentReassemblyTimeExceeded,
}

impl Icmp6TimeExceededCode {
    /// The number that stands for this value on the wire.
    pub open spec fn spec_code(self) -> u8 {
        match self {
            Icmp6TimeExceededCode::HopLimitExceededInTransit => 0,
            Icmp6TimeExceededCode::FragmentReassemblyTimeExceeded => 1,
        }
    }

    /// The value that `code` stands for, if it has a name.
    pub open spec fn spec_from_code(code: u8) -> Option<Icmp6TimeExceededCode> {
        if code == 0 {
            Some(Icmp6TimeExceededCode::HopLimitExceededInTransit)
        } else if code == 1 {
            Some(Icmp6TimeExceededCode::FragmentReassemblyTimeExceeded)
        } else {
            None
        }
    }

    /// The name under which this value is shown.
    pub open spec fn spec_name(self) -> Seq<char> {
        match self {
            Icmp6TimeExceededCode::HopLimitExceededInTransit => "HopLimitExceededInTransit"@,
            Icmp6TimeExceededCode::FragmentReassemblyTimeExceeded => "FragmentReassemblyTimeExceeded"@,
        }
    }

    /// The number that stands for this value on the wire.
    pub fn code(self) -> (r: u8)
        ensures
            r == self.spec_code(),
    {
        match self {
            Icmp6TimeExceededCode::HopLimitExceededInTransit => 0,
            Icmp6TimeExceededCode::FragmentReassemblyTimeExceeded => 1,
        }
    }

    /// The value that `code` stands for; `None` where the code has no name.
    pub fn from_code(code: u8) -> (r: Option<Icmp6TimeExceededCode>)
        ensures
            r == Self::spec_from_code(code),
    {
        if code == 0 {
            Some(Icmp6TimeExceededCode::HopLimitExceededInTransit)
        } else if code == 1 {
            Some(Icmp6TimeExceededCode::FragmentReassemblyTimeExceeded)
        } else {
            None
        }
    }

    /// The name under which this value is shown.
    pub fn name(self) -> (r: &'static str)
        ensures
            r@ == self.spec_name(),
    {
        match self {
            Icmp6TimeExceededCode::HopLimitExceededInTransit => "HopLimitExceededInTransit",
            Icmp6TimeExceededCode::FragmentReassemblyTimeExceeded => "FragmentReassemblyTimeExceeded",
        }
    }

    /// Decoding undoes encoding, and a decoded value encodes to the code it
    /// was decoded from.
    pub proof fn code_round_trip(self, code: u8)
        ensures
            Self::spec_from_code(self.spec_code()) == Some(self),
            Self::spec_from_code(code) == Some(self) ==> self.spec_code() == code,
    {
    }
}

/// What kind of fault an ICMPv6 parameter-problem message reports.
#[allow(clippy::upper_case_acronyms, clippy::enum_variant_names)]
#[derive(Clone, Copy, Debug, PartialEq, Eq, Structural)]
pub enum Icmp6ParameterProblemCode {
    ErroneousHeaderFieldEncountered,
    UnrecognizedNextHeaderTypeEncountered,
    UnrecognizedIpv6OptionEncountered,
}

impl Icmp6ParameterProblemCode {
    /// The number that stands for this value on the wire.
    pub open spec fn spec_code(self) -> u8 {
        match self {
            Icmp6ParameterProblemCode::ErroneousHeaderFieldEncountered => 0,
            Icmp6ParameterProblemCode::UnrecognizedNextHeaderTypeEncountered => 1,
            Icmp6ParameterProblemCode::UnrecognizedIpv6OptionEncountered => 2,
        }
    }

    /// The value that `code` stands for, if it has a name.
    pub open spec fn spec_from_code(code: u8) -> Option<Icmp6ParameterProblemCode> {
        if code == 0 {
            Some(Icmp6ParameterProblemCode::ErroneousHeaderFieldEncountered)
        } else if code == 1 {
            Some(Icmp6ParameterProblemCode::UnrecognizedNextHeaderTypeEncountered)
        } else if code == 2 {
            Some(Icmp6ParameterProblemCode::UnrecognizedIpv6OptionEncountered)
        } else {
            None
        }
    }

    /// The name under which this value is shown.
    pub open spec fn spec_name(self) -> Seq<char> {
        match self {
            Icmp6ParameterProblemCode::ErroneousHeaderFieldEncountered => "ErroneousHeaderFieldEncountered"@,
            Icmp6ParameterProblemCode::UnrecognizedNextHeaderTypeEncountered => "UnrecognizedNextHeaderTypeEncountered"@,
            Icmp6ParameterProblemCode::UnrecognizedIpv6OptionEncountered => "UnrecognizedIpv6OptionEncountered"@,
        }
    }

    /// The number that stands for this value on the wire.
    pub fn code(self) -> (r: u8)
        ensures
            r == self.spec_code(),
    {
        match self {
            Icmp6ParameterProblemCode::ErroneousHeaderFieldEncountered => 0,
            Icmp6ParameterProblemCode::UnrecognizedNextHeaderTypeEncountered => 1,
            Icmp6ParameterProblemCode::UnrecognizedIpv6OptionEncountered => 2,
        }
    }

    /// The value that `code` stands for; `None` where the code has no name.
    pub fn from_code(code: u8) -> (r: Option<Icmp6ParameterProblemCode>)
        ensures
            r == Self::spec_from_code(code),
    {
        if code == 0 {
            Some(Icmp6ParameterProblemCode::ErroneousHeaderFieldEncountered)
        } else if code == 1 {
            Some(Icmp6ParameterProblemCode::UnrecognizedNextHeaderTypeEncountered)
        } else if code == 2 {
            Some(Icmp6ParameterProblemCode::UnrecognizedIpv6OptionEncountered)
        } else {
            None
        }
    }

    /// The name under which this value is shown.
    pub fn name(self) -> (r: &'static str)
        ensures
            r@ == self.spec_name(),
    {
        match self {
            Icmp6ParameterProblemCode::ErroneousHeaderFieldEncountered => "ErroneousHeaderFieldEncountered",
            Icmp6ParameterProblemCode::UnrecognizedNextHeaderTypeEncountered => "UnrecognizedNextHeaderTypeEncountered",
            Icmp6ParameterProblemCode::UnrecognizedIpv6OptionEncountered => "UnrecognizedIpv6OptionEncountered",
        }
    }

    /// Decoding undoes encoding, and a decoded value encodes to the code it
    /// was decoded from.
    pub proof fn code_round_trip(self, code: u8)
        ensures
            Self::spec_from_code(self.spec_code()) == Some(self),
            Self::spec_from_code(code) == Some(self) ==> self.spec_code() == code,
    {
    }
}

/// The kind of an ICMPv6 router-renumbering message.
#[allow(clippy::upper_case_acronyms, clippy::enum_variant_names)]
#[derive(Clone, Copy, Debug, PartialEq, Eq, Structural)]
pub enum Icmp6RouterRenumberingCode {
    RouterRenumberingCommand,
    RouterRenumberingResult,
    SequenceNumberReset,
}

impl Icmp6RouterRenumberingCode {
    /// The number that stands for this value on the wire.
    pub open spec fn spec_code(self) -> u8 {
        match self {
            Icmp6RouterRenumberingCode::RouterRenumberingCommand => 0,
            Icmp6RouterRenumberingCode::RouterRenumberingResult => 1,
            Icmp6RouterRenumberingCode::SequenceNumberReset => 255,
        }
    }

    /// The value that `code` stands for, if it has a name.
    pub open spec fn spec_from_code(code: u8) -> Option<Icmp6RouterRenumberingCode> {
        if code == 0 {
            Some(Icmp6RouterRenumberingCode::RouterRenumberingCommand)
        } else if code == 1 {
            Some(Icmp6RouterRenumberingCode::RouterRenumberingResult)
        } else if code == 255 {
            Some(Icmp6RouterRenumberingCode::SequenceNumberReset)
        } else {
            None
        }
    }

    /// The name under which this value is shown.
    pub open spec fn spec_name(self) -> Seq<char> {
        match self {
            Icmp6RouterRenumberingCode::RouterRenumberingCommand => "RouterRenumberingCommand"@,
            Icmp6RouterRenumberingCode::RouterRenumberingResult => "RouterRenumberingResult"@,
            Icmp6RouterRenumberingCode::SequenceNumberReset => "SequenceNumberReset"@,
        }
    }

    /// The number that stands for this value on the wire.
    pub fn code(self) -> (r: u8)
        ensures
            r == self.spec_code(),
    {
        match self {
            Icmp6RouterRenumberingCode::RouterRenumberingCommand => 0,
            Icmp6RouterRenumberingCode::RouterRenumberingResult => 1,
            Icmp6RouterRenumberingCode::SequenceNumberReset => 255,
        }
    }

    /// The value that `code` stands for; `None` where the code has no name.
    pub fn from_code(code: u8) -> (r: Option<Icmp6RouterRenumberingCode>)
        ensures
            r == Self::spec_from_code(code),
    {
        if code == 0 {
            Some(Icmp6RouterRenumberingCode::RouterRenumberingCommand)
        } else if code == 1 {
            Some(Icmp6RouterRenumberingCode::RouterRenumberingResult)
        } else if code == 255 {
            Some(Icmp6RouterRenumberingCode::SequenceNumberReset)
        } else {
            None
        }
    }

    /// The name under which this value is shown.
    pub fn name(self) -> (r: &'static str)
        ensures
            r@ == self.spec_name(),
    {
        match self {
            Icmp6RouterRenumberingCode::RouterRenumberingCommand => "RouterRenumberingCommand",
            Icmp6RouterRenumberingCode::RouterRenumberingResult => "RouterRenumberingResult",
            Icmp6RouterRenumberingCode::SequenceNumberReset => "SequenceNumberReset",
        }
    }

    /// Decoding undoes encoding, and a decoded value encodes to the code it
    /// was decoded from.
    pub proof fn code_round_trip(self, code: u8)
        ensures
            Self::spec_from_code(self.spec_code()) == Some(self),
            Self::spec_from_code(code) == Some(self) ==> self.spec_code() == code,
    {
    }
}

/// What the data field of an ICMPv6 node-information query holds.
#[allow(clippy::upper_case_acronyms, clippy::enum_variant_names)]
#[derive(Clone, Copy, Debug, PartialEq, Eq, Structural)]
pub enum Icmp6NodeInformationQueryCode {
    DataFieldV6Address,
    DataFieldNodeName,
    DataFieldV4Address,
}

impl Icmp6NodeInformationQueryCode {
    /// The number that stands for this value on the wire.
    pub open spec fn spec_code(self) -> u8 {
        match self {
            Icmp6NodeInformationQueryCode::DataFieldV6Address => 0,
            Icmp6NodeInformationQueryCode::DataFieldNodeName => 1,
            Icmp6NodeInformationQueryCode::DataFieldV4Address => 2,
        }
    }

    /// The value that `code` stands for, if it has a name.
    pub open spec fn spec_from_code(code: u8) -> Option<Icmp6NodeInformationQueryCode> {
        if code == 0 {
            Some(Icmp6NodeInformationQueryCode::DataFieldV6Address)
        } else if code == 1 {
            Some(Icmp6NodeInformationQueryCode::DataFieldNodeName)
        } else if code == 2 {
            Some(Icmp6NodeInformationQueryCode::DataFieldV4Address)
        } else {
            None
        }
    }

    /// The name under which this value is shown.
    pub open spec fn spec_name(self) -> Seq<char> {
        match self {
            Icmp6NodeInformationQueryCode::DataFieldV6Address => "DataFieldV6Address"@,
            Icmp6NodeInformationQueryCode::DataFieldNodeName => "DataFieldNodeName"@,
            Icmp6NodeInformationQueryCode::DataFieldV4Address => "DataFieldV4Address"@,
        }
    }

    /// The number that stands for this value on the wire.
    pub fn code(self) -> (r: u8)
        ensures
            r == self.spec_code(),
    {
        match self {
            Icmp6NodeInformationQueryCode::DataFieldV6Address => 0,
            Icmp6NodeInformationQueryCode::DataFieldNodeName => 1,
            Icmp6NodeInformationQueryCode::DataFieldV4Address => 2,
        }
    }

    /// The value that `code` stands for; `None` where the code has no name.
    pub fn from_code(code: u8) -> (r: Option<Icmp6NodeInformationQueryCode>)
        ensures
            r == Self::spec_from_code(code),
    {
        if code == 0 {
            Some(Icmp6NodeInformationQueryCode::DataFieldV6Address)
        } else if code == 1 {
            Some(Icmp6NodeInformationQueryCode::DataFieldNodeName)
        } else if code == 2 {
            Some(Icmp6NodeInformationQueryCode::DataFieldV4Address)
        } else {
            None
        }
    }

    /// The name under which this value is shown.
    pub fn name(self) -> (r: &'static str)
        ensures
            r@ == self.spec_name(),
    {
        match self {
            Icmp6NodeInformationQueryCode::DataFieldV6Address => "DataFieldV6Address",
            Icmp6NodeInformationQueryCode::DataFieldNodeName => "DataFieldNodeName",
            Icmp6NodeInformationQueryCode::DataFieldV4Address => "DataFieldV4Address",
        }
    }

    /// Decoding undoes encoding, and a decoded value encodes to the code it
    /// was decoded from.
    pub proof fn code_round_trip(self, code: u8)
        ensures
            Self::spec_from_code(self.spec_code()) == Some(self),
            Self::spec_from_code(code) == Some(self) ==> self.spec_code() == code,
    {
    }
}

/// The outcome that an ICMPv6 node-information response reports.
#[allow(clippy::upper_case_acronyms, clippy::enum_variant_names)]
#[derive(Clone, Copy, Debug, PartialEq, Eq, Structural)]
pub enum Icmp6NodeInformationResponseCode {
    SuccessfulReply,
    ReesponderRefuses,
    QtypeUnknown,
}

impl Icmp6NodeInformationResponseCode {
    /// The number that stands for this value on the wire.
    pub open spec fn spec_code(self) -> u8 {
        match self {
            Icmp6NodeInformationResponseCode::SuccessfulReply => 0,
            Icmp6NodeInformationResponseCode::ReesponderRefuses => 1,
            Icmp6NodeInformationResponseCode::QtypeUnknown => 2,
        }
    }

    /// The value that `code` stands for, if it has a name.
    pub open spec fn spec_from_code(code: u8) -> Option<Icmp6NodeInformationResponseCode> {
        if code == 0 {
            Some(Icmp6NodeInformationResponseCode::SuccessfulReply)
        } else if code == 1 {
            Some(Icmp6NodeInformationResponseCode::ReesponderRefuses)
        } else if code == 2 {
            Some(Icmp6NodeInformationResponseCode::QtypeUnknown)
        } else {
            None
        }
    }

    /// The name under which this value is shown.
    pub open spec fn spec_name(self) -> Seq<char> {
        match self {
            Icmp6NodeInformationResponseCode::SuccessfulReply => "SuccessfulReply"@,
            Icmp6NodeInformationResponseCode::ReesponderRefuses => "ReesponderRefuses"@,
            Icmp6NodeInformationResponseCode::QtypeUnknown => "QtypeUnknown"@,
        }
    }

    /// The number that stands for this value on the wire.
    pub fn code(self) -> (r: u8)
        ensures
            r == self.spec_code(),
    {
        match self {
            Icmp6NodeInformationResponseCode::SuccessfulReply => 0,
            Icmp6NodeInformationResponseCode::ReesponderRefuses => 1,
            Icmp6NodeInformationResponseCode::QtypeUnknown => 2,
        }
    }

    /// The value that `code` stands for; `None` where the code has no name.
    pub fn from_code(code: u8) -> (r: Option<Icmp6NodeInformationResponseCode>)
        ensures
            r == Self::spec_from_code(code),
    {
        if code == 0 {
            Some(Icmp6NodeInformationResponseCode::SuccessfulReply)
        } else if code == 1 {
            Some(Icmp6NodeInformationResponseCode::ReesponderRefuses)
        } else if code == 2 {
            Some(Icmp6NodeInformationResponseCode::QtypeUnknown)
        } else {
            None
        }
    }

    /// The name under which this value is shown.
    pub fn name(self) -> (r: &'static str)
        ensures
            r@ == self.spec_name(),
    {
        match self {
            Icmp6NodeInformationResponseCode::SuccessfulReply => "SuccessfulReply",
            Icmp6NodeInformationResponseCode::ReesponderRefuses => "ReesponderRefuses",
            Icmp6NodeInformationResponseCode::QtypeUnknown => "QtypeUnknown",
        }
    }

    /// Decoding undoes encoding, and a decoded value encodes to the code it
    /// was decoded from.
    pub proof fn code_round_trip(self, code: u8)
        ensures
            Self::spec_from_code(self.spec_code()) == Some(self),
            Self::spec_from_code(code) == Some(self) ==> self.spec_code() == code,
    {
    }
}

/// Why a BFD session last changed state.
#[allow(clippy::upper_case_acronyms, clippy::enum_variant_names)]
#[derive(Clone, Copy, Debug, PartialEq, Eq, Structural)]
pub enum BfdDiagnostic {
    NoDiagnostic,
    ControlDetectionTimeExpired,
    EchoFunctionFailed,
    NeighborSignaledSessionDown,
    ForwardingPlaneReset,
    PathDown,
    ConcatenatedPathDown,
    AdministrativelyDown,
    ReverseConcatenatedPathDown,
}

impl BfdDiagnostic {
    /// The number that stands for this value on the wire.
    pub open spec fn spec_code(self) -> u8 {
        match self {
            BfdDiagnostic::NoDiagnostic => 0,
            BfdDiagnostic::ControlDetectionTimeExpired => 1,
            BfdDiagnostic::EchoFunctionFailed => 2,
            BfdDiagnostic::NeighborSignaledSessionDown => 3,
            BfdDiagnostic::ForwardingPlaneReset => 4,
            BfdDiagnostic::PathDown => 5,
            BfdDiagnostic::ConcatenatedPathDown => 6,
            BfdDiagnostic::AdministrativelyDown => 7,
            BfdDiagnostic::ReverseConcatenatedPathDown => 8,
        }
    }

    /// The value that `code` stands for, if it has a name.
    pub open spec fn spec_from_code(code: u8) -> Option<BfdDiagnostic> {
        if code == 0 {
            Some(BfdDiagnostic::NoDiagnostic)
        } else if code == 1 {
            Some(BfdDiagnostic::ControlDetectionTimeExpired)
        } else if code == 2 {
            Some(BfdDiagnostic::EchoFunctionFailed)
        } else if code == 3 {
            Some(BfdDiagnostic::NeighborSignaledSessionDown)
        } else if code == 4 {
            Some(BfdDiagnostic::ForwardingPlaneReset)
        } else if code == 5 {
            Some(BfdDiagnostic::PathDown)
        } else if code == 6 {
            Some(BfdDiagnostic::ConcatenatedPathDown)
        } else if code == 7 {
            Some(BfdDiagnostic::AdministrativelyDown)
        } else if code == 8 {
            Some(BfdDiagnostic::ReverseConcatenatedPathDown)
        } else {
            None
        }
    }

    /// The name under which this value is shown.
    pub open spec fn spec_name(self) -> Seq<char> {
        match self {
            BfdDiagnostic::NoDiagnostic => "NoDiagnostic"@,
            BfdDiagnostic::ControlDetectionTimeExpired => "ControlDetectionTimeExpired"@,
            BfdDiagnostic::EchoFunctionFailed => "EchoFunctionFailed"@,
            BfdDiagnostic::NeighborSignaledSessionDown => "NeighborSignaledSessionDown"@,
            BfdDiagnostic::ForwardingPlaneReset => "ForwardingPlaneReset"@,
            BfdDiagnostic::PathDown => "PathDown"@,
            BfdDiagnostic::ConcatenatedPathDown => "ConcatenatedPathDown"@,
            BfdDiagnostic::AdministrativelyDown => "AdministrativelyDown"@,
            BfdDiagnostic::ReverseConcatenatedPathDown => "ReverseConcatenatedPathDown"@,
        }
    }

    /// The number that stands for this value on the wire.
    pub fn code(self) -> (r: u8)
        ensures
            r == self.spec_code(),
    {
        match self {
            BfdDiagnostic::NoDiagnostic => 0,
            BfdDiagnostic::ControlDetectionTimeExpired => 1,
            BfdDiagnostic::EchoFunctionFailed => 2,
            BfdDiagnostic::NeighborSignaledSessionDown => 3,
            BfdDiagnostic::ForwardingPlaneReset => 4,
            BfdDiagnostic::PathDown => 5,
            BfdDiagnostic::ConcatenatedPathDown => 6,
            BfdDiagnostic::AdministrativelyDown => 7,
            BfdDiagnostic::ReverseConcatenatedPathDown => 8,
        }
    }

    /// The value that `code` stands for; `None` where the code has no name.
    pub fn from_code(code: u8) -> (r: Option<BfdDiagnostic>)
        ensures
            r == Self::spec_from_code(code),
    {
        if code == 0 {
            Some(BfdDiagnostic::NoDiagnostic)
        } else if code == 1 {
            Some(BfdDiagnostic::ControlDetectionTimeExpired)
        } else if code == 2 {
            Some(BfdDiagnostic::EchoFunctionFailed)
        } else if code == 3 {
            Some(BfdDiagnostic::NeighborSignaledSessionDown)
        } else if code == 4 {
            Some(BfdDiagnostic::ForwardingPlaneReset)
        } else if code == 5 {
            Some(BfdDiagnostic::PathDown)
        } else if code == 6 {
            Some(BfdDiagnostic::ConcatenatedPathDown)
        } else if code == 7 {
            Some(BfdDiagnostic::AdministrativelyDown)
        } else if code == 8 {
            Some(BfdDiagnostic::ReverseConcatenatedPathDown)
        } else {
            None
        }
    }

    /// The name under which this value is shown.
    pub fn name(self) -> (r: &'static str)
        ensures
            r@ == self.spec_name(),
    {
        match self {
            BfdDiagnostic::NoDiagnostic => "NoDiagnostic",
            BfdDiagnostic::ControlDetectionTimeExpired => "ControlDetectionTimeExpired",
            BfdDiagnostic::EchoFunctionFailed => "EchoFunctionFailed",
            BfdDiagnostic::NeighborSignaledSessionDown => "NeighborSignaledSessionDown",
            BfdDiagnostic::ForwardingPlaneReset => "ForwardingPlaneReset",
            BfdDiagnostic::PathDown => "PathDown",
            BfdDiagnostic::ConcatenatedPathDown => "ConcatenatedPathDown",
            BfdDiagnostic::AdministrativelyDown => "AdministrativelyDown",
            BfdDiagnostic::ReverseConcatenatedPathDown => "ReverseConcatenatedPathDown",
        }
    }

    /// Decoding undoes encoding, and a decoded value encodes to the code it
    /// was decoded from.
    pub proof fn code_round_trip(self, code: u8)
        ensures
            Self::spec_from_code(self.spec_code()) == Some(self),
            Self::spec_from_code(code) == Some(self) ==> self.spec_code() == code,
    {
    }
}

/// The state of a BFD session.
#[allow(clippy::upper_case_acronyms, clippy::enum_variant_names)]
#[derive(Clone, Copy, Debug, PartialEq, Eq, Structural)]
pub enum BfdStatus {
    AdministrativelyDown,
    Down,
    Init,
    Up,
}

impl BfdStatus {
    /// The number that stands for this value on the wire.
    pub open spec fn spec_code(self) -> u8 {
        match self {
            BfdStatus::AdministrativelyDown => 0,
            BfdStatus::Down => 1,
            BfdStatus::Init => 2,
            BfdStatus::Up => 3,
        }
    }

    /// The value that `code` stands for, if it has a name.
    pub open spec fn spec_from_code(code: u8) -> Option<BfdStatus> {
        if code == 0 {
            Some(BfdStatus::AdministrativelyDown)
        } else if code == 1 {
            Some(BfdStatus::Down)
        } else if code == 2 {
            Some(BfdStatus::Init)
        } else if code == 3 {
            Some(BfdStatus::Up)
        } else {
            None
        }
    }

    /// The name under which this value is shown.
    pub open spec fn spec_name(self) -> Seq<char> {
        match self {
            BfdStatus::AdministrativelyDown => "AdministrativelyDown"@,
            BfdStatus::Down => "Down"@,
            BfdStatus::Init => "Init"@,
            BfdStatus::Up => "Up"@,
        }
    }

    /// The number that stands for this value on the wire.
    pub fn code(self) -> (r: u8)
        ensures
            r == self.spec_code(),
    {
        match self {
            BfdStatus::AdministrativelyDown => 0,
            BfdStatus::Down => 1,
            BfdStatus::Init => 2,
            BfdStatus::Up => 3,
        }
    }

    /// The value that `code` stands for; `None` where the code has no name.
    pub fn from_code(code: u8) -> (r: Option<BfdStatus>)
        ensures
            r == Self::spec_from_code(code),
    {
        if code == 0 {
            Some(BfdStatus::AdministrativelyDown)
        } else if code == 1 {
            Some(BfdStatus::Down)
        } else if code == 2 {
            Some(BfdStatus::Init)
        } else if code == 3 {
            Some(BfdStatus::Up)
        } else {
            None
        }
    }

    /// The name under which this value is shown.
    pub fn name(self) -> (r: &'static str)
        ensures
            r@ == self.spec_name(),
    {
        match self {
            BfdStatus::AdministrativelyDown => "AdministrativelyDown",
            BfdStatus::Down => "Down",
            BfdStatus::Init => "Init",
            BfdStatus::Up => "Up",
        }
    }

    /// Decoding undoes encoding, and a decoded value encodes to the code it
    /// was decoded from.
    pub proof fn code_round_trip(self, code: u8)
        ensures
            Self::spec_from_code(self.spec_code()) == Some(self),
            Self::spec_from_code(code) == Some(self) ==> self.spec_code() == code,
    {
    }
}

} // verus!

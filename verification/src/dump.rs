//! The protocol renderer: one line of styled text for each header that a
//! frame holds, in wire order.

use crate::addr::{bv_to_ipv4, bv_to_ipv6, bv_to_mac, ipv4_text, ipv6_text, mac_text};
use crate::codes::{
    ArpHwType, ArpOpcode, BfdDiagnostic, BfdStatus, DdmRouterKind, Ethertype, Icmp6DUCode,
    Icmp6NodeInformationQueryCode, Icmp6NodeInformationResponseCode, Icmp6ParameterProblemCode,
    Icmp6RouterRenumberingCode, Icmp6TimeExceededCode, Icmp6Type, IcmpDUCode,
    IcmpExtendedEchoReplyCode, IcmpParameterProblemCode, IcmpRedirectMessageCode,
    IcmpTimeExceededCode, IcmpType, IpProto, SidecarCode,
};
use crate::headers::{
    ArpHeader, BfdHeader, DdmDiscoveryHeader, EchoHeader, EthernetHeader, GeneveHeader,
    HeaderChain, IcmpHeader, Ipv4Header, Ipv6Header, LldpHeader, Lldpdu, Payloads,
    SidecarHeader, TcpHeader, UdpHeader, VlanHeader, DDM_DISCOVERY_LEN,
};
use crate::text::{
    append_lines, bad_field, bool_string, bool_text, dec, dec_is_faithful, dec_string, dec_u8,
    dec_u8_string,
    field, from_to, item, item_dec, item_u16, layer, lines_view, prefixed_hex2,
    prefixed_hex2_string, prefixed_hex4, prefixed_hex4_string, push_flag, push_line, resolve,
    space, styled, utf8_lossy, utf8_lossy_text, with_flag, Line, SpanView, Style,
};
use vstd::prelude::*;
use vstd::slice::slice_subrange;

verus! {

/// The value of a line that may be missing.
pub open spec fn option_line_view(line: Option<Line>) -> Option<Seq<SpanView>> {
    match line {
        Some(l) => Some(l@),
        None => None,
    }
}

/// The line that separates one frame from the next.
pub open spec fn sep_line() -> Seq<SpanView> {
    seq![styled(Style::Dimmed, "=====|"@)]
}

/// The line that separates a tunnel header from the frame it carries.
pub open spec fn encap_line() -> Seq<SpanView> {
    seq![styled(Style::Dimmed, "-----|"@)]
}

/// The text of an ethertype: its name, or `0x` and four hexadecimal digits
/// where it has none.
pub open spec fn ethertype_text(et: u16) -> Seq<char> {
    match Ethertype::spec_from_code(et) {
        Some(e) => e.spec_name(),
        None => prefixed_hex4(et),
    }
}

/// An IP protocol number: its name in green, or the plain number where it
/// has none.
pub open spec fn ip_proto_span(proto: u8) -> SpanView {
    match IpProto::spec_from_code(proto) {
        Some(p) => styled(Style::Green, p.spec_name()),
        None => styled(Style::Plain, dec(proto as nat)),
    }
}

/// The line of an Ethernet header, with the frame's length where it is
/// given. No line where an address field does not hold six bytes.
pub open spec fn ethernet_line(h: EthernetHeader, frame_len: Option<usize>) -> Option<
    Seq<SpanView>,
> {
    if h.dst@.len() != 6 || h.src@.len() != 6 {
        None
    } else {
        let l = layer("Eth"@) + space() + from_to(
            mac_text(h.src@.reverse()),
            mac_text(h.dst@.reverse()),
        ) + item("et"@, styled(Style::Green, ethertype_text(h.ether_type)));
        match frame_len {
            Some(n) => Some(l + item_dec("len"@, n as nat)),
            None => Some(l),
        }
    }
}

/// The line of a VLAN tag.
pub open spec fn vlan_line(h: VlanHeader) -> Seq<SpanView> {
    (layer("Vlan"@) + space()).push(styled(Style::Blue, dec(h.vid as nat))) + item_dec(
        "pcp"@,
        h.pcp as nat,
    ) + item("dei"@, styled(Style::Plain, bool_text(h.dei))) + item(
        "et"@,
        styled(Style::Green, ethertype_text(h.ether_type)),
    )
}

/// The text of a sidecar code: its name, or `0x` and two hexadecimal digits
/// where it has none.
pub open spec fn sidecar_code_text(code: u8) -> Seq<char> {
    match SidecarCode::spec_from_code(code) {
        Some(c) => c.spec_name(),
        None => prefixed_hex2(code),
    }
}

/// The line of a sidecar header.
pub open spec fn sidecar_line(h: SidecarHeader) -> Seq<SpanView> {
    (layer("Sc"@) + space()).push(styled(Style::Plain, sidecar_code_text(h.sc_code))) + item_dec(
        "ingress"@,
        h.sc_ingress as nat,
    ) + item_dec("egress"@, h.sc_egress as nat) + item(
        "et"@,
        styled(Style::Green, ethertype_text(h.sc_ether_type)),
    )
}

/// The text of an ARP operation: its name, or `0x` and four hexadecimal
/// digits where it has none.
pub open spec fn arp_opcode_text(op: u16) -> Seq<char> {
    match ArpOpcode::spec_from_code(op) {
        Some(o) => o.spec_name(),
        None => prefixed_hex4(op),
    }
}

/// The text of an ARP hardware type: its name, or `0x` and four hexadecimal
/// digits where it has none.
pub open spec fn arp_hw_type_text(ht: u16) -> Seq<char> {
    match ArpHwType::spec_from_code(ht) {
        Some(t) => t.spec_name(),
        None => prefixed_hex4(ht),
    }
}

/// The line of an ARP packet. No line where a link address field does not
/// hold six bytes or a protocol address field does not hold four.
pub open spec fn arp_line(h: ArpHeader) -> Option<Seq<SpanView>> {
    if h.sender_mac@.len() != 6 || h.sender_ip@.len() != 4 || h.target_mac@.len() != 6
        || h.target_ip@.len() != 4 {
        None
    } else {
        Some(
            layer("Arp"@) + space() + resolve(
                ipv4_text(h.sender_ip@.reverse()),
                mac_text(h.sender_mac@.reverse()),
                ipv4_text(h.target_ip@.reverse()),
                mac_text(h.target_mac@.reverse()),
            ) + item("op"@, styled(Style::Plain, arp_opcode_text(h.opcode))) + item(
                "ht"@,
                styled(Style::Plain, arp_hw_type_text(h.hw_type)),
            ) + item("pt"@, styled(Style::Green, ethertype_text(h.proto_type))) + item_dec(
                "hlen"@,
                h.hw_addr_len as nat,
            ) + item_dec("plen"@, h.proto_addr_len as nat),
        )
    }
}

/// The text of the three flag bits of an IPv4 header.
pub open spec fn ipv4_flags_text(flags: u8) -> Seq<char> {
    if flags == 2 {
        "DF"@
    } else if flags == 1 {
        "MF"@
    } else if flags == 3 {
        "DF|MF"@
    } else {
        ""@
    }
}

/// The line of an IPv4 header. No line where an address field does not hold
/// four bytes.
pub open spec fn ipv4_line(h: Ipv4Header) -> Option<Seq<SpanView>> {
    if h.src@.len() != 4 || h.dst@.len() != 4 {
        None
    } else {
        Some(
            layer("Ip4"@) + space() + from_to(
                ipv4_text(h.src@.reverse()),
                ipv4_text(h.dst@.reverse()),
            ) + item_dec("ihl"@, h.ihl as nat) + item_dec("ds"@, h.diffserv as nat) + item_dec(
                "len"@,
                h.total_len as nat,
            ) + item_dec("id"@, h.identification as nat) + item(
                "flags"@,
                styled(Style::Plain, ipv4_flags_text(h.flags)),
            ) + item_dec("fo"@, h.frag_offset as nat) + item_dec("ttl"@, h.ttl as nat) + item_dec(
                "chk"@,
                h.hdr_checksum as nat,
            ) + item("proto"@, ip_proto_span(h.protocol)),
        )
    }
}

/// The line of an IPv6 header. No line where an address field does not hold
/// sixteen bytes.
pub open spec fn ipv6_line(h: Ipv6Header) -> Option<Seq<SpanView>> {
    if h.src@.len() != 16 || h.dst@.len() != 16 {
        None
    } else {
        Some(
            layer("Ip6"@) + space() + from_to(
                ipv6_text(h.src@.reverse()),
                ipv6_text(h.dst@.reverse()),
            ) + item_dec("tc"@, h.traffic_class as nat) + item_dec("fl"@, h.flow_label as nat)
                + item_dec("len"@, h.payload_len as nat) + item_dec("ttl"@, h.hop_limit as nat)
                + item("proto"@, ip_proto_span(h.next_hdr)),
        )
    }
}

/// The names of the TCP flags that are set, with bars between them.
pub open spec fn tcp_flags_text(flags: u8) -> Seq<char> {
    let s = Seq::<char>::empty();
    let s = with_flag(s, flags & 0x80 != 0, "CWR"@);
    let s = with_flag(s, flags & 0x40 != 0, "ECE"@);
    let s = with_flag(s, flags & 0x20 != 0, "URG"@);
    let s = with_flag(s, flags & 0x08 != 0, "PSH"@);
    let s = with_flag(s, flags & 0x04 != 0, "RST"@);
    let s = with_flag(s, flags & 0x02 != 0, "SYN"@);
    let s = with_flag(s, flags & 0x10 != 0, "ACK"@);
    let s = with_flag(s, flags & 0x01 != 0, "FIN"@);
    s
}

/// The line of a TCP header.
pub open spec fn tcp_line(h: TcpHeader) -> Seq<SpanView> {
    layer("TCP"@) + space() + from_to(dec(h.src_port as nat), dec(h.dst_port as nat)) + item_dec(
        "seq"@,
        h.seq_no as nat,
    ) + item_dec("ack"@, h.ack_no as nat) + item_dec("off"@, h.data_offset as nat) + item_dec(
        "res"@,
        h.res as nat,
    ) + item("flags"@, styled(Style::Plain, tcp_flags_text(h.flags))) + item_dec(
        "win"@,
        h.window as nat,
    ) + item_dec("chk"@, h.checksum as nat) + item_dec("urg"@, h.urgent_ptr as nat)
}

/// The checksum of a UDP header: the stored value, and beside it the
/// expected one where one is given and the stored value differs from it.
pub open spec fn udp_checksum_field(chk: u16, csum: Option<u16>) -> Seq<SpanView> {
    match csum {
        Some(expected) => if chk == expected {
            field("chk"@, styled(Style::Plain, dec(chk as nat)))
        } else {
            bad_field("chk"@, dec(chk as nat), dec(expected as nat))
        },
        None => field("chk"@, styled(Style::Plain, dec(chk as nat))),
    }
}

/// The line of a UDP header; `csum` is the checksum that the datagram should
/// carry, where that is known.
pub open spec fn udp_line(h: UdpHeader, csum: Option<u16>) -> Seq<SpanView> {
    layer("UDP"@) + space() + from_to(dec(h.src_port as nat), dec(h.dst_port as nat)) + item_dec(
        "len"@,
        h.len as nat,
    ) + space() + udp_checksum_field(h.checksum, csum)
}

/// The line of the identifier and sequence number of an echo.
pub open spec fn echo_line(h: EchoHeader) -> Seq<SpanView> {
    layer("Echo"@) + item_dec("id"@, h.id as nat) + item_dec("seq"@, h.seq as nat)
}

/// The text of an ICMP type: its name, or the number where it has none.
pub open spec fn icmp_type_text(typ: u8) -> Seq<char> {
    match IcmpType::spec_from_code(typ) {
        Some(t) => t.spec_name(),
        None => dec_u8(typ),
    }
}

/// The text of an ICMP code. A code has a name only in the table of its
/// type; where the type has no table, or the table no such code, the text is
/// the number of the code.
pub open spec fn icmp_code_text(typ: u8, code: u8) -> Seq<char> {
    match IcmpType::spec_from_code(typ) {
        Some(IcmpType::DestinationUnreachable) => match IcmpDUCode::spec_from_code(code) {
            Some(c) => c.spec_name(),
            None => dec_u8(code),
        },
        Some(IcmpType::Redirect) => match IcmpRedirectMessageCode::spec_from_code(code) {
            Some(c) => c.spec_name(),
            None => dec_u8(code),
        },
        Some(IcmpType::TimeExceeded) => match IcmpTimeExceededCode::spec_from_code(code) {
            Some(c) => c.spec_name(),
            None => dec_u8(code),
        },
        Some(IcmpType::ParameterProblem) => match IcmpParameterProblemCode::spec_from_code(code) {
            Some(c) => c.spec_name(),
            None => dec_u8(code),
        },
        Some(IcmpType::ExtendedEchoReply) => match IcmpExtendedEchoReplyCode::spec_from_code(code) {
            Some(c) => c.spec_name(),
            None => dec_u8(code),
        },
        _ => dec_u8(code),
    }
}

/// The line of an ICMP header.
pub open spec fn icmp_line(h: IcmpHeader) -> Seq<SpanView> {
    layer("ICMP"@) + item("type"@, styled(Style::Plain, icmp_type_text(h.typ))) + item(
        "code"@,
        styled(Style::Plain, icmp_code_text(h.typ, h.code)),
    ) + item_u16("chk"@, h.hdr_checksum)
}

/// The text of an ICMPv6 type: its name, or the number where it has none.
pub open spec fn icmp6_type_text(typ: u8) -> Seq<char> {
    match Icmp6Type::spec_from_code(typ) {
        Some(t) => t.spec_name(),
        None => dec_u8(typ),
    }
}

/// The text of an ICMPv6 code. A code has a name only in the table of its
/// type; where the type has no table, or the table no such code, the text is
/// the number of the code.
pub open spec fn icmp6_code_text(typ: u8, code: u8) -> Seq<char> {
    match Icmp6Type::spec_from_code(typ) {
        Some(Icmp6Type::DestinationUnreachable) => match Icmp6DUCode::spec_from_code(code) {
            Some(c) => c.spec_name(),
            None => dec_u8(code),
        },
        Some(Icmp6Type::TimeExceeded) => match Icmp6TimeExceededCode::spec_from_code(code) {
            Some(c) => c.spec_name(),
            None => dec_u8(code),
        },
        Some(Icmp6Type::ParameterProblem) => match Icmp6ParameterProblemCode::spec_from_code(code) {
            Some(c) => c.spec_name(),
            None => dec_u8(code),
        },
        Some(Icmp6Type::RouterRenumbering) => match Icmp6RouterRenumberingCode::spec_from_code(
            code,
        ) {
            Some(c) => c.spec_name(),
            None => dec_u8(code),
        },
        Some(Icmp6Type::ICMPNodeInformationQuery) => match Icmp6NodeInformationQueryCode::spec_from_code(
            code,
        ) {
            Some(c) => c.spec_name(),
            None => dec_u8(code),
        },
        Some(Icmp6Type::ICMPNodeInformationResponse) => match Icmp6NodeInformationResponseCode::spec_from_code(
            code,
        ) {
            Some(c) => c.spec_name(),
            None => dec_u8(code),
        },
        _ => dec_u8(code),
    }
}

/// The line of an ICMP header that an IPv6 packet carries.
pub open spec fn icmp6_line(h: IcmpHeader) -> Seq<SpanView> {
    layer("ICMP6"@) + item("type"@, styled(Style::Plain, icmp6_type_text(h.typ))) + item(
        "code"@,
        styled(Style::Plain, icmp6_code_text(h.typ, h.code)),
    ) + item_u16("chk"@, h.hdr_checksum)
}

/// The names of the discovery flags that are set, with bars between them.
pub open spec fn ddm_flags_text(flags: u8) -> Seq<char> {
    let s = Seq::<char>::empty();
    let s = with_flag(s, flags & 0x01 != 0, "Solicit"@);
    let s = with_flag(s, flags & 0x02 != 0, "Advertise"@);
    s
}

/// The text of a router kind: its name, or the number where it has none.
pub open spec fn ddm_kind_text(kind: u8) -> Seq<char> {
    match DdmRouterKind::spec_from_code(kind) {
        Some(k) => k.spec_name(),
        None => dec(kind as nat),
    }
}

/// The bytes of the host name that follows the fixed part of a discovery
/// packet: `len` bytes from the end of the fixed part on, or as many of them
/// as `frame`, which starts where the packet starts, still holds.
pub open spec fn ddm_host_bytes(frame: Seq<u8>, len: u8) -> Seq<u8> {
    let from = if frame.len() < DDM_DISCOVERY_LEN {
        frame.len() as int
    } else {
        DDM_DISCOVERY_LEN as int
    };
    let to = if frame.len() < DDM_DISCOVERY_LEN + len {
        frame.len() as int
    } else {
        DDM_DISCOVERY_LEN + len
    };
    frame.subrange(from, to)
}

/// The line of a discovery packet whose host name reads `host`.
pub open spec fn ddm_discovery_host_line(h: DdmDiscoveryHeader, host: Seq<char>) -> Seq<SpanView> {
    layer("DDMd"@) + item_dec("version"@, h.version as nat) + item(
        "flags"@,
        styled(Style::Plain, ddm_flags_text(h.flags)),
    ) + item("kind"@, styled(Style::Plain, ddm_kind_text(h.router_kind))) + item_dec(
        "len"@,
        h.hostname_len as nat,
    ) + item("host"@, styled(Style::Plain, host))
}

/// The line of a discovery packet; `frame` holds the bytes of the frame from
/// the start of the packet on. The host name is decoded from the bytes
/// behind the fixed part.
pub open spec fn ddm_discovery_line(h: DdmDiscoveryHeader, frame: Seq<u8>) -> Seq<SpanView> {
    ddm_discovery_host_line(h, utf8_lossy_text(ddm_host_bytes(frame, h.hostname_len)))
}

/// The names of the BFD flags that are set, with bars between them.
pub open spec fn bfd_flags_text(h: BfdHeader) -> Seq<char> {
    let s = Seq::<char>::empty();
    let s = with_flag(s, h.poll, "poll"@);
    let s = with_flag(s, h.fin, "final"@);
    let s = with_flag(s, h.control_plane_independent, "cpi"@);
    let s = with_flag(s, h.authentication_present, "auth"@);
    let s = with_flag(s, h.demand, "demand"@);
    let s = with_flag(s, h.multipoint, "mp"@);
    s
}

/// A BFD session state: its name, or the number in red where it has none.
pub open spec fn bfd_status_span(status: u8) -> SpanView {
    match BfdStatus::spec_from_code(status) {
        Some(s) => styled(Style::Plain, s.spec_name()),
        None => styled(Style::Red, dec(status as nat)),
    }
}

/// A BFD diagnostic: nothing where there is none to report, else its name,
/// or the number in red where it has none.
pub open spec fn bfd_diag_span(diag: u8) -> Option<SpanView> {
    match BfdDiagnostic::spec_from_code(diag) {
        Some(BfdDiagnostic::NoDiagnostic) => None,
        Some(d) => Some(styled(Style::Plain, d.spec_name())),
        None => Some(styled(Style::Red, dec(diag as nat))),
    }
}

/// The line of a BFD control packet. The diagnostic is left out where there
/// is none to report, and the flags where none is set.
pub open spec fn bfd_line(h: BfdHeader) -> Seq<SpanView> {
    let l = layer("Bfd"@) + item_dec("ver"@, h.version as nat) + item(
        "status"@,
        bfd_status_span(h.status),
    );
    let l = match bfd_diag_span(h.diag) {
        Some(d) => l + item("diag"@, d),
        None => l,
    };
    let l = if bfd_flags_text(h).len() > 0 {
        l + item("flags"@, styled(Style::Plain, bfd_flags_text(h)))
    } else {
        l
    };
    l + item_dec("dm"@, h.detect_mult as nat) + item_dec("len"@, h.len as nat) + item_dec(
        "m"@,
        h.my_discriminator as nat,
    ) + item_dec("y"@, h.your_discriminator as nat) + item_dec(
        "dtx"@,
        h.desired_min_tx_interval as nat,
    ) + item_dec("rtx"@, h.required_min_tx_interval as nat) + item_dec(
        "rex"@,
        h.required_min_echo_rx_interval as nat,
    )
}

/// The line of a Geneve header.
pub open spec fn geneve_line(h: GeneveHeader) -> Seq<SpanView> {
    (layer("Gnv"@) + space()).push(styled(Style::Blue, dec(h.vni as nat))) + item_dec(
        "ver"@,
        h.version as nat,
    ) + item_dec("olen"@, h.opt_len as nat) + item(
        "ctrl"@,
        styled(Style::Plain, bool_text(h.ctrl)),
    ) + item("crit"@, styled(Style::Plain, bool_text(h.crit))) + item(
        "proto"@,
        styled(Style::Green, ethertype_text(h.protocol)),
    )
}

/// A line of a link-layer discovery data unit that holds one labelled
/// value. The first line of a unit is headed by the layer's name, the others
/// by an empty column.
pub open spec fn lldp_field_line(first: bool, label: Seq<char>, value: Seq<char>) -> Seq<
    SpanView,
> {
    layer(
        if first {
            "Lldp"@
        } else {
            ""@
        },
    ) + space() + field(label, styled(Style::Plain, value))
}

/// The line that heads a list of records.
pub open spec fn lldp_heading_line(heading: Seq<char>) -> Seq<SpanView> {
    (layer(""@) + space()).push(styled(Style::Dimmed, heading))
}

/// The line of one record of a list: behind the empty column a tab, then
/// the record.
pub open spec fn lldp_entry_line(entry: Seq<char>) -> Seq<SpanView> {
    layer(""@).push(styled(Style::Plain, "\t"@)).push(styled(Style::Plain, entry))
}

/// `lines`, and behind them the line of `value` where there is one.
pub open spec fn with_lldp_field(
    lines: Seq<Seq<SpanView>>,
    label: Seq<char>,
    value: Option<String>,
) -> Seq<Seq<SpanView>> {
    match value {
        Some(v) => lines.push(lldp_field_line(false, label, v@)),
        None => lines,
    }
}

/// The lines of the records `entries`, one each, in their order.
pub open spec fn lldp_entry_lines(entries: Seq<String>) -> Seq<Seq<SpanView>> {
    Seq::new(entries.len(), |i: int| lldp_entry_line(entries[i]@))
}

/// `lines`, and behind them, where there are records, the heading and the
/// lines of the records.
pub open spec fn with_lldp_list(
    lines: Seq<Seq<SpanView>>,
    heading: Seq<char>,
    entries: Seq<String>,
) -> Seq<Seq<SpanView>> {
    if entries.len() == 0 {
        lines
    } else {
        lines.push(lldp_heading_line(heading)) + lldp_entry_lines(entries)
    }
}

/// The one line that reports why a link-layer discovery data unit could not
/// be decoded.
pub open spec fn lldp_error_line(reason: Seq<char>) -> Seq<SpanView> {
    seq![styled(Style::Plain, "<unable to parse lldp packet: "@ + reason + ">"@)]
}

/// The lines of a link-layer discovery data unit: the chassis identifier,
/// the port identifier and the time to live, then each description that the
/// unit holds, then the management addresses and the organizationally
/// specific records, each list under a heading and left out where it is
/// empty. One line with the reason where the unit could not be decoded.
pub open spec fn lldp_lines(parsed: Result<Lldpdu, String>) -> Seq<Seq<SpanView>> {
    match parsed {
        Ok(l) => {
            let lines = seq![
                lldp_field_line(true, "ChassisID"@, l.chassis_id@),
                lldp_field_line(false, "PortId"@, l.port_id@),
                lldp_field_line(false, "TTL"@, dec(l.ttl as nat)),
            ];
            let lines = with_lldp_field(lines, "PortDescription"@, l.port_description);
            let lines = with_lldp_field(lines, "System Name"@, l.system_name);
            let lines = with_lldp_field(lines, "System Description"@, l.system_description);
            let lines = with_lldp_list(lines, "Management addresses:"@, l.management_addresses@);
            with_lldp_list(lines, "Organizationally Specific:"@, l.organizationally_specific@)
        },
        Err(e) => seq![lldp_error_line(e@)],
    }
}

/// `lines`, and behind them `line` where there is one.
pub open spec fn with_optional_line(
    lines: Seq<Seq<SpanView>>,
    line: Option<Seq<SpanView>>,
) -> Seq<Seq<SpanView>> {
    match line {
        Some(l) => lines.push(l),
        None => lines,
    }
}

/// The line of the outer Ethernet header, which shows the frame's length.
pub open spec fn outer_ethernet_line(h: EthernetHeader, frame: Seq<u8>) -> Option<
    Seq<SpanView>,
> {
    ethernet_line(h, Some(frame.len() as usize))
}

/// The bytes of the frame from the start of the discovery packet on; none
/// where the frame ends before it.
pub open spec fn ddm_discovery_bytes(h: HeaderChain, frame: Seq<u8>) -> Seq<u8> {
    match h.spec_offsets().ddm_discovery {
        Some(start) => if start <= frame.len() {
            frame.subrange(start as int, frame.len() as int)
        } else {
            Seq::empty()
        },
        None => Seq::empty(),
    }
}

/// The checksum against which the outer UDP header is held: the one that
/// was computed, where the datagram lies in an IPv6 packet.
pub open spec fn udp_expected(h: HeaderChain, payloads: Payloads) -> Option<u16> {
    if h.walks_ipv6() {
        payloads.udp6_checksum
    } else {
        None
    }
}

/// `lines`, and behind them the lines of the ICMP header and of the echo
/// header behind it. The ICMP header is read as ICMPv6 where `v6` holds. An
/// echo header is shown only behind an ICMP header.
pub open spec fn control_lines(
    lines: Seq<Seq<SpanView>>,
    icmp_h: IcmpHeader,
    echo_h: EchoHeader,
    v6: bool,
) -> Seq<Seq<SpanView>> {
    if !icmp_h.valid {
        lines
    } else {
        let lines = lines.push(
            if v6 {
                icmp6_line(icmp_h)
            } else {
                icmp_line(icmp_h)
            },
        );
        if echo_h.valid {
            lines.push(echo_line(echo_h))
        } else {
            lines
        }
    }
}

/// `lines`, and behind them the lines of the network layer of one frame:
/// the IPv4 header if it is valid, else the IPv6 header if that is valid, and
/// behind either the ICMP and echo headers.
pub open spec fn network_lines(
    lines: Seq<Seq<SpanView>>,
    ipv4_h: Ipv4Header,
    ipv6_h: Ipv6Header,
    icmp_h: IcmpHeader,
    echo_h: EchoHeader,
) -> Seq<Seq<SpanView>> {
    if ipv4_h.valid {
        control_lines(with_optional_line(lines, ipv4_line(ipv4_h)), icmp_h, echo_h, false)
    } else if ipv6_h.valid {
        control_lines(with_optional_line(lines, ipv6_line(ipv6_h)), icmp_h, echo_h, true)
    } else {
        lines
    }
}

/// `lines`, and behind them the lines of the link headers of the outer
/// frame: the Ethernet header, the VLAN tag and the sidecar header.
pub open spec fn link_lines(
    lines: Seq<Seq<SpanView>>,
    ethernet_h: EthernetHeader,
    vlan_h: VlanHeader,
    sidecar_h: SidecarHeader,
    frame: Seq<u8>,
) -> Seq<Seq<SpanView>> {
    let l = if ethernet_h.valid {
        with_optional_line(lines, outer_ethernet_line(ethernet_h, frame))
    } else {
        lines
    };
    let l = if vlan_h.valid {
        l.push(vlan_line(vlan_h))
    } else {
        l
    };
    if sidecar_h.valid {
        l.push(sidecar_line(sidecar_h))
    } else {
        l
    }
}

/// `lines`, and behind them, where the frame holds a link-layer discovery
/// header, the lines of its data unit. Where no data unit was handed over,
/// that is reported in one line, as a data unit is that cannot be decoded.
pub open spec fn discovery_lines(
    lines: Seq<Seq<SpanView>>,
    lldp_h: LldpHeader,
    parsed: Option<Result<Lldpdu, String>>,
) -> Seq<Seq<SpanView>> {
    if !lldp_h.valid {
        lines
    } else {
        match parsed {
            Some(p) => lines + lldp_lines(p),
            None => lines.push(lldp_error_line("not decoded"@)),
        }
    }
}

/// `lines`, and behind them the lines of the transport headers of one
/// frame; the UDP header is held against `csum`.
pub open spec fn transport_lines(
    lines: Seq<Seq<SpanView>>,
    tcp_h: TcpHeader,
    udp_h: UdpHeader,
    csum: Option<u16>,
) -> Seq<Seq<SpanView>> {
    let l = if tcp_h.valid {
        lines.push(tcp_line(tcp_h))
    } else {
        lines
    };
    if udp_h.valid {
        l.push(udp_line(udp_h, csum))
    } else {
        l
    }
}

/// `lines`, and behind them the lines of what the transport layer of the
/// outer frame carries: a discovery packet, whose bytes in the frame are
/// `packet`, a BFD control packet, and a Geneve header with the line that
/// closes the outer frame.
pub open spec fn carried_lines(
    lines: Seq<Seq<SpanView>>,
    ddm_h: DdmDiscoveryHeader,
    packet: Seq<u8>,
    bfd_h: BfdHeader,
    geneve_h: GeneveHeader,
) -> Seq<Seq<SpanView>> {
    let l = if ddm_h.valid {
        lines.push(ddm_discovery_line(ddm_h, packet))
    } else {
        lines
    };
    let l = if bfd_h.valid {
        l.push(bfd_line(bfd_h))
    } else {
        l
    };
    if geneve_h.valid {
        l.push(geneve_line(geneve_h)).push(encap_line())
    } else {
        l
    }
}

/// `lines`, and behind them the line of an ARP packet, where the frame
/// holds one that can be shown.
pub open spec fn arp_lines(lines: Seq<Seq<SpanView>>, arp_h: ArpHeader) -> Seq<Seq<SpanView>> {
    if arp_h.valid {
        with_optional_line(lines, arp_line(arp_h))
    } else {
        lines
    }
}

/// `lines`, and behind them the line of the Ethernet header of the inner
/// frame, which shows no length.
pub open spec fn inner_ethernet_lines(lines: Seq<Seq<SpanView>>, ethernet_h: EthernetHeader) -> Seq<
    Seq<SpanView>,
> {
    if ethernet_h.valid {
        with_optional_line(lines, ethernet_line(ethernet_h, None))
    } else {
        lines
    }
}

/// The lines of the outer frame, up to and including a tunnel header and
/// the line that closes it.
pub open spec fn outer_lines(h: HeaderChain, frame: Seq<u8>, payloads: Payloads) -> Seq<
    Seq<SpanView>,
> {
    let l = link_lines(Seq::empty(), h.ethernet, h.vlan, h.sidecar, frame);
    let l = discovery_lines(l, h.lldp, payloads.lldp);
    let l = arp_lines(l, h.arp);
    let l = network_lines(l, h.ipv4, h.ipv6, h.icmp, h.echo);
    let l = transport_lines(l, h.tcp, h.udp, udp_expected(h, payloads));
    carried_lines(l, h.ddm_discovery, ddm_discovery_bytes(h, frame), h.bfd, h.geneve)
}

/// `lines`, and behind them the lines of the inner frame.
pub open spec fn inner_lines(lines: Seq<Seq<SpanView>>, h: HeaderChain) -> Seq<Seq<SpanView>> {
    let l = inner_ethernet_lines(lines, h.inner_eth);
    let l = arp_lines(l, h.inner_arp);
    let l = network_lines(l, h.inner_ipv4, h.inner_ipv6, h.inner_icmp, h.inner_echo);
    transport_lines(l, h.inner_tcp, h.inner_udp, None)
}

/// The lines of one frame: one line for each valid header that can be
/// shown, the outer frame first, in wire order.
pub open spec fn headers_lines(h: HeaderChain, frame: Seq<u8>, payloads: Payloads) -> Seq<
    Seq<SpanView>,
> {
    inner_lines(outer_lines(h, frame, payloads), h)
}

/// The text of the hexadecimal dump that `pretty_hex` makes of `bytes`, in
/// rows of `width` bytes and words of `chunk` bytes, headed by a title line
/// if `title` holds.
pub uninterp spec fn hex_dump_text(bytes: Seq<u8>, title: bool, width: usize, chunk: usize) -> Seq<
    char,
>;

/// The rows of a text: its parts between one line feed and the next. A text
/// without a line feed is one row.
pub open spec fn rows(text: Seq<char>) -> Seq<Seq<char>>
    decreases text.len(),
{
    if text.len() == 0 {
        seq![Seq::empty()]
    } else {
        let before = rows(text.drop_last());
        if text.last() == '\n' {
            before.push(Seq::empty())
        } else {
            before.drop_last().push(before.last().push(text.last()))
        }
    }
}

/// What stands before a row of a dump: a rule before the first, a blank
/// column before the others.
pub open spec fn dump_margin(first: bool) -> Seq<char> {
    if first {
        "-----| "@
    } else {
        "     | "@
    }
}

/// The line of one row of a dump.
pub open spec fn dump_line(first: bool, row: Seq<char>) -> Seq<SpanView> {
    seq![styled(Style::Dimmed, dump_margin(first) + row)]
}

/// The lines of a dump: one for each row of `text`.
pub open spec fn dump_lines(text: Seq<char>) -> Seq<Seq<SpanView>> {
    Seq::new(rows(text).len(), |i: int| dump_line(i == 0, rows(text)[i]))
}

/// The lines of one frame: those of its headers, then, if `dump_hex` holds,
/// the dump of its bytes in rows of sixteen bytes and words of two, then the
/// line that separates it from the next frame.
pub open spec fn frame_lines(
    h: HeaderChain,
    frame: Seq<u8>,
    payloads: Payloads,
    dump_hex: bool,
) -> Seq<Seq<SpanView>> {
    let lines = headers_lines(h, frame, payloads);
    let lines = if dump_hex {
        lines + dump_lines(hex_dump_text(frame, false, 16, 2))
    } else {
        lines
    };
    lines.push(sep_line())
}

/// The line that separates one frame from the next.
pub fn sep() -> (r: Line)
    ensures
        r@ == sep_line(),
{
    let mut line = Line::new();
    line.push_str(Style::Dimmed, "=====|");
    line
}

fn ethertype_string(et: u16) -> (r: String)
    ensures
        r@ == ethertype_text(et),
{
    match Ethertype::from_code(et) {
        Some(e) => String::from_str(e.name()),
        None => prefixed_hex4_string(et),
    }
}

/// Renders an Ethernet header, with the frame's length where it is given.
/// Nothing is rendered where an address field does not hold six bytes.
pub fn ethernet(h: EthernetHeader, frame_len: Option<usize>) -> (r: Option<Line>)
    ensures
        option_line_view(r) == ethernet_line(h, frame_len),
{
    let dst = match bv_to_mac(h.dst.as_slice()) {
        Ok(a) => a,
        Err(_) => {
            return None;
        },
    };
    let src = match bv_to_mac(h.src.as_slice()) {
        Ok(a) => a,
        Err(_) => {
            return None;
        },
    };
    let mut line = Line::new();
    line.layer("Eth");
    line.space();
    line.from_to(src.to_string(), dst.to_string());
    line.item("et", Style::Green, ethertype_string(h.ether_type));
    if let Some(n) = frame_len {
        line.item_dec("len", n as u64);
    }
    Some(line)
}

/// Renders a VLAN tag.
pub fn vlan(h: VlanHeader) -> (r: Line)
    ensures
        r@ == vlan_line(h),
{
    let mut line = Line::new();
    line.layer("Vlan");
    line.space();
    line.push(Style::Blue, dec_string(h.vid as u64));
    line.item_dec("pcp", h.pcp as u64);
    line.item("dei", Style::Plain, bool_string(h.dei));
    line.item("et", Style::Green, ethertype_string(h.ether_type));
    line
}

/// Renders a sidecar header.
pub fn sidecar(h: SidecarHeader) -> (r: Line)
    ensures
        r@ == sidecar_line(h),
{
    let code = match SidecarCode::from_code(h.sc_code) {
        Some(c) => String::from_str(c.name()),
        None => prefixed_hex2_string(h.sc_code),
    };
    let mut line = Line::new();
    line.layer("Sc");
    line.space();
    line.push(Style::Plain, code);
    line.item_dec("ingress", h.sc_ingress as u64);
    line.item_dec("egress", h.sc_egress as u64);
    line.item("et", Style::Green, ethertype_string(h.sc_ether_type));
    line
}

/// Renders an ARP packet. Nothing is rendered where a link address field
/// does not hold six bytes or a protocol address field does not hold four.
pub fn arp(h: ArpHeader) -> (r: Option<Line>)
    ensures
        option_line_view(r) == arp_line(h),
{
    let ht = match ArpHwType::from_code(h.hw_type) {
        Some(t) => String::from_str(t.name()),
        None => prefixed_hex4_string(h.hw_type),
    };
    let opcode = match ArpOpcode::from_code(h.opcode) {
        Some(o) => String::from_str(o.name()),
        None => prefixed_hex4_string(h.opcode),
    };
    let sender_mac = match bv_to_mac(h.sender_mac.as_slice()) {
        Ok(a) => a,
        Err(_) => {
            return None;
        },
    };
    let sender_ip = match bv_to_ipv4(h.sender_ip.as_slice()) {
        Ok(a) => a,
        Err(_) => {
            return None;
        },
    };
    let target_mac = match bv_to_mac(h.target_mac.as_slice()) {
        Ok(a) => a,
        Err(_) => {
            return None;
        },
    };
    let target_ip = match bv_to_ipv4(h.target_ip.as_slice()) {
        Ok(a) => a,
        Err(_) => {
            return None;
        },
    };
    let mut line = Line::new();
    line.layer("Arp");
    line.space();
    line.resolve(
        sender_ip.to_string(),
        sender_mac.to_string(),
        target_ip.to_string(),
        target_mac.to_string(),
    );
    line.item("op", Style::Plain, opcode);
    line.item("ht", Style::Plain, ht);
    line.item("pt", Style::Green, ethertype_string(h.proto_type));
    line.item_dec("hlen", h.hw_addr_len as u64);
    line.item_dec("plen", h.proto_addr_len as u64);
    Some(line)
}

fn ip_proto_item(line: &mut Line, proto: u8)
    ensures
        final(line)@ == old(line)@ + item("proto"@, ip_proto_span(proto)),
{
    match IpProto::from_code(proto) {
        Some(p) => line.item("proto", Style::Green, String::from_str(p.name())),
        None => line.item("proto", Style::Plain, dec_string(proto as u64)),
    }
}

/// Renders an IPv4 header. Nothing is rendered where an address field does
/// not hold four bytes.
pub fn ipv4(h: Ipv4Header) -> (r: Option<Line>)
    ensures
        option_line_view(r) == ipv4_line(h),
{
    let src = match bv_to_ipv4(h.src.as_slice()) {
        Ok(a) => a,
        Err(_) => {
            return None;
        },
    };
    let dst = match bv_to_ipv4(h.dst.as_slice()) {
        Ok(a) => a,
        Err(_) => {
            return None;
        },
    };
    let flags = if h.flags == 2 {
        "DF"
    } else if h.flags == 1 {
        "MF"
    } else if h.flags == 3 {
        "DF|MF"
    } else {
        ""
    };
    let mut line = Line::new();
    line.layer("Ip4");
    line.space();
    line.from_to(src.to_string(), dst.to_string());
    line.item_dec("ihl", h.ihl as u64);
    line.item_dec("ds", h.diffserv as u64);
    line.item_dec("len", h.total_len as u64);
    line.item_dec("id", h.identification as u64);
    line.item("flags", Style::Plain, String::from_str(flags));
    line.item_dec("fo", h.frag_offset as u64);
    line.item_dec("ttl", h.ttl as u64);
    line.item_dec("chk", h.hdr_checksum as u64);
    ip_proto_item(&mut line, h.protocol);
    Some(line)
}

/// Renders an IPv6 header. Nothing is rendered where an address field does
/// not hold sixteen bytes.
pub fn ipv6(h: Ipv6Header) -> (r: Option<Line>)
    ensures
        option_line_view(r) == ipv6_line(h),
{
    let src = match bv_to_ipv6(h.src.as_slice()) {
        Ok(a) => a,
        Err(_) => {
            return None;
        },
    };
    let dst = match bv_to_ipv6(h.dst.as_slice()) {
        Ok(a) => a,
        Err(_) => {
            return None;
        },
    };
    let mut line = Line::new();
    line.layer("Ip6");
    line.space();
    line.from_to(src.to_string(), dst.to_string());
    line.item_dec("tc", h.traffic_class as u64);
    line.item_dec("fl", h.flow_label as u64);
    line.item_dec("len", h.payload_len as u64);
    line.item_dec("ttl", h.hop_limit as u64);
    ip_proto_item(&mut line, h.next_hdr);
    Some(line)
}

/// Renders a TCP header.
pub fn tcp(h: TcpHeader) -> (r: Line)
    ensures
        r@ == tcp_line(h),
{
    let mut flags = String::new();
    push_flag(&mut flags, h.flags & 0x80 != 0, "CWR");
    push_flag(&mut flags, h.flags & 0x40 != 0, "ECE");
    push_flag(&mut flags, h.flags & 0x20 != 0, "URG");
    push_flag(&mut flags, h.flags & 0x08 != 0, "PSH");
    push_flag(&mut flags, h.flags & 0x04 != 0, "RST");
    push_flag(&mut flags, h.flags & 0x02 != 0, "SYN");
    push_flag(&mut flags, h.flags & 0x10 != 0, "ACK");
    push_flag(&mut flags, h.flags & 0x01 != 0, "FIN");
    let mut line = Line::new();
    line.layer("TCP");
    line.space();
    line.from_to(dec_string(h.src_port as u64), dec_string(h.dst_port as u64));
    line.item_dec("seq", h.seq_no as u64);
    line.item_dec("ack", h.ack_no as u64);
    line.item_dec("off", h.data_offset as u64);
    line.item_dec("res", h.res as u64);
    line.item("flags", Style::Plain, flags);
    line.item_dec("win", h.window as u64);
    line.item_dec("chk", h.checksum as u64);
    line.item_dec("urg", h.urgent_ptr as u64);
    line
}

/// Renders a UDP header. Where `csum`, the checksum that the datagram should
/// carry, is given and differs from the stored one, both are shown.
pub fn udp(h: UdpHeader, csum: Option<u16>) -> (r: Line)
    ensures
        r@ == udp_line(h, csum),
{
    let mut line = Line::new();
    line.layer("UDP");
    line.space();
    line.from_to(dec_string(h.src_port as u64), dec_string(h.dst_port as u64));
    line.item_dec("len", h.len as u64);
    line.space();
    match csum {
        Some(expected) => {
            if h.checksum == expected {
                line.field("chk", Style::Plain, dec_string(h.checksum as u64));
            } else {
                line.bad_field(
                    "chk",
                    dec_string(h.checksum as u64),
                    dec_string(expected as u64),
                );
            }
        },
        None => {
            line.field("chk", Style::Plain, dec_string(h.checksum as u64));
        },
    }
    line
}

/// Renders the identifier and sequence number of an echo.
pub fn echo(h: EchoHeader) -> (r: Line)
    ensures
        r@ == echo_line(h),
{
    let mut line = Line::new();
    line.layer("Echo");
    line.item_dec("id", h.id as u64);
    line.item_dec("seq", h.seq as u64);
    line
}

fn icmp_code_string(typ: u8, code: u8) -> (r: String)
    ensures
        r@ == icmp_code_text(typ, code),
{
    match IcmpType::from_code(typ) {
        Some(IcmpType::DestinationUnreachable) => match IcmpDUCode::from_code(code) {
            Some(c) => String::from_str(c.name()),
            None => dec_u8_string(code),
        },
        Some(IcmpType::Redirect) => match IcmpRedirectMessageCode::from_code(code) {
            Some(c) => String::from_str(c.name()),
            None => dec_u8_string(code),
        },
        Some(IcmpType::TimeExceeded) => match IcmpTimeExceededCode::from_code(code) {
            Some(c) => String::from_str(c.name()),
            None => dec_u8_string(code),
        },
        Some(IcmpType::ParameterProblem) => match IcmpParameterProblemCode::from_code(code) {
            Some(c) => String::from_str(c.name()),
            None => dec_u8_string(code),
        },
        Some(IcmpType::ExtendedEchoReply) => match IcmpExtendedEchoReplyCode::from_code(code) {
            Some(c) => String::from_str(c.name()),
            None => dec_u8_string(code),
        },
        _ => dec_u8_string(code),
    }
}

/// Renders an ICMP header.
pub fn icmp(h: IcmpHeader) -> (r: Line)
    ensures
        r@ == icmp_line(h),
{
    let typ = match IcmpType::from_code(h.typ) {
        Some(t) => String::from_str(t.name()),
        None => dec_u8_string(h.typ),
    };
    let mut line = Line::new();
    line.layer("ICMP");
    line.item("type", Style::Plain, typ);
    line.item("code", Style::Plain, icmp_code_string(h.typ, h.code));
    line.item_u16("chk", h.hdr_checksum);
    line
}

fn icmp6_code_string(typ: u8, code: u8) -> (r: String)
    ensures
        r@ == icmp6_code_text(typ, code),
{
    match Icmp6Type::from_code(typ) {
        Some(Icmp6Type::DestinationUnreachable) => match Icmp6DUCode::from_code(code) {
            Some(c) => String::from_str(c.name()),
            None => dec_u8_string(code),
        },
        Some(Icmp6Type::TimeExceeded) => match Icmp6TimeExceededCode::from_code(code) {
            Some(c) => String::from_str(c.name()),
            None => dec_u8_string(code),
        },
        Some(Icmp6Type::ParameterProblem) => match Icmp6ParameterProblemCode::from_code(code) {
            Some(c) => String::from_str(c.name()),
            None => dec_u8_string(code),
        },
        Some(Icmp6Type::RouterRenumbering) => match Icmp6RouterRenumberingCode::from_code(code) {
            Some(c) => String::from_str(c.name()),
            None => dec_u8_string(code),
        },
        Some(Icmp6Type::ICMPNodeInformationQuery) => match Icmp6NodeInformationQueryCode::from_code(
            code,
        ) {
            Some(c) => String::from_str(c.name()),
            None => dec_u8_string(code),
        },
        Some(Icmp6Type::ICMPNodeInformationResponse) => match Icmp6NodeInformationResponseCode::from_code(
            code,
        ) {
            Some(c) => String::from_str(c.name()),
            None => dec_u8_string(code),
        },
        _ => dec_u8_string(code),
    }
}

/// Renders an ICMP header that an IPv6 packet carries.
pub fn icmp6(h: IcmpHeader) -> (r: Line)
    ensures
        r@ == icmp6_line(h),
{
    let typ = match Icmp6Type::from_code(h.typ) {
        Some(t) => String::from_str(t.name()),
        None => dec_u8_string(h.typ),
    };
    let mut line = Line::new();
    line.layer("ICMP6");
    line.item("type", Style::Plain, typ);
    line.item("code", Style::Plain, icmp6_code_string(h.typ, h.code));
    line.item_u16("chk", h.hdr_checksum);
    line
}

/// Renders a discovery packet whose host name reads `host`.
pub fn ddm_discovery_host(h: DdmDiscoveryHeader, host: String) -> (r: Line)
    ensures
        r@ == ddm_discovery_host_line(h, host@),
{
    let kind = match DdmRouterKind::from_code(h.router_kind) {
        Some(k) => String::from_str(k.name()),
        None => dec_string(h.router_kind as u64),
    };
    let mut flags = String::new();
    push_flag(&mut flags, h.flags & 0x01 != 0, "Solicit");
    push_flag(&mut flags, h.flags & 0x02 != 0, "Advertise");
    let mut line = Line::new();
    line.layer("DDMd");
    line.item_dec("version", h.version as u64);
    line.item("flags", Style::Plain, flags);
    line.item("kind", Style::Plain, kind);
    line.item_dec("len", h.hostname_len as u64);
    line.item("host", Style::Plain, host);
    line
}

/// Renders a discovery packet; `frame` holds the bytes of the frame from the
/// start of the packet on. The host name is read from the bytes that follow
/// the fixed part, as many as the header says or as the frame still holds;
/// bytes that are no valid UTF-8 are shown as replacement characters.
pub fn ddm_discovery(h: DdmDiscoveryHeader, frame: &[u8]) -> (r: Line)
    ensures
        r@ == ddm_discovery_line(h, frame@),
{
    let from = if frame.len() < DDM_DISCOVERY_LEN {
        frame.len()
    } else {
        DDM_DISCOVERY_LEN
    };
    let to = if frame.len() - from < h.hostname_len as usize {
        frame.len()
    } else {
        from + h.hostname_len as usize
    };
    let host = utf8_lossy(slice_subrange(frame, from, to));
    ddm_discovery_host(h, host)
}

/// Renders a BFD control packet.
pub fn bfd(h: BfdHeader) -> (r: Line)
    ensures
        r@ == bfd_line(h),
{
    let mut flags = String::new();
    push_flag(&mut flags, h.poll, "poll");
    push_flag(&mut flags, h.fin, "final");
    push_flag(&mut flags, h.control_plane_independent, "cpi");
    push_flag(&mut flags, h.authentication_present, "auth");
    push_flag(&mut flags, h.demand, "demand");
    push_flag(&mut flags, h.multipoint, "mp");
    let mut line = Line::new();
    line.layer("Bfd");
    line.item_dec("ver", h.version as u64);
    match BfdStatus::from_code(h.status) {
        Some(s) => line.item("status", Style::Plain, String::from_str(s.name())),
        None => line.item("status", Style::Red, dec_string(h.status as u64)),
    }
    match BfdDiagnostic::from_code(h.diag) {
        Some(BfdDiagnostic::NoDiagnostic) => {},
        Some(d) => line.item("diag", Style::Plain, String::from_str(d.name())),
        None => line.item("diag", Style::Red, dec_string(h.diag as u64)),
    }
    if !flags.as_str().is_empty() {
        line.item("flags", Style::Plain, flags);
    }
    line.item_dec("dm", h.detect_mult as u64);
    line.item_dec("len", h.len as u64);
    line.item_dec("m", h.my_discriminator as u64);
    line.item_dec("y", h.your_discriminator as u64);
    line.item_dec("dtx", h.desired_min_tx_interval as u64);
    line.item_dec("rtx", h.required_min_tx_interval as u64);
    line.item_dec("rex", h.required_min_echo_rx_interval as u64);
    line
}

/// Renders a Geneve header.
pub fn geneve(h: GeneveHeader) -> (r: Line)
    ensures
        r@ == geneve_line(h),
{
    let mut line = Line::new();
    line.layer("Gnv");
    line.space();
    line.push(Style::Blue, dec_string(h.vni as u64));
    line.item_dec("ver", h.version as u64);
    line.item_dec("olen", h.opt_len as u64);
    line.item("ctrl", Style::Plain, bool_string(h.ctrl));
    line.item("crit", Style::Plain, bool_string(h.crit));
    line.item("proto", Style::Green, ethertype_string(h.protocol));
    line
}

fn lldp_field(first: bool, label: &str, value: String) -> (r: Line)
    ensures
        r@ == lldp_field_line(first, label@, value@),
{
    let mut line = Line::new();
    if first {
        line.layer("Lldp");
    } else {
        line.layer("");
    }
    line.space();
    line.field(label, Style::Plain, value);
    line
}

fn push_lldp_field(lines: &mut Vec<Line>, label: &str, value: Option<String>)
    ensures
        lines_view(final(lines)@) == with_lldp_field(lines_view(old(lines)@), label@, value),
{
    if let Some(v) = value {
        push_line(lines, lldp_field(false, label, v));
    }
}

fn push_lldp_list(lines: &mut Vec<Line>, heading: &str, entries: Vec<String>)
    ensures
        lines_view(final(lines)@) == with_lldp_list(lines_view(old(lines)@), heading@, entries@),
{
    if entries.len() == 0 {
        return ;
    }
    let mut head = Line::new();
    head.layer("");
    head.space();
    head.push_str(Style::Dimmed, heading);
    push_line(lines, head);
    let mut i: usize = 0;
    while i < entries.len()
        invariant
            i <= entries.len(),
            lines_view(lines@) == lines_view(old(lines)@).push(lldp_heading_line(heading@))
                + lldp_entry_lines(entries@.take(i as int)),
        decreases entries.len() - i,
    {
        let mut line = Line::new();
        line.layer("");
        line.push_str(Style::Plain, "\t");
        line.push(Style::Plain, entries[i].clone());
        push_line(lines, line);
        proof {
            assert(lldp_entry_lines(entries@.take(i + 1)) =~= lldp_entry_lines(
                entries@.take(i as int),
            ).push(lldp_entry_line(entries@[i as int]@)));
        }
        i += 1;
    }
    proof {
        assert(entries@.take(i as int) =~= entries@);
    }
}

fn lldp_error(reason: &str) -> (r: Line)
    ensures
        r@ == lldp_error_line(reason@),
{
    let mut text = String::from_str("<unable to parse lldp packet: ");
    text.append(reason);
    text.append(">");
    let mut line = Line::new();
    line.push(Style::Plain, text);
    line
}

/// Renders a link-layer discovery data unit: `parsed` is what the decoder of
/// its records made of the frame's bytes. A unit that could not be decoded is
/// reported in one line, and rendering goes on.
pub fn lldp(parsed: Result<Lldpdu, String>) -> (r: Vec<Line>)
    ensures
        lines_view(r@) == lldp_lines(parsed),
{
    let mut lines: Vec<Line> = Vec::new();
    match parsed {
        Ok(l) => {
            push_line(&mut lines, lldp_field(true, "ChassisID", l.chassis_id));
            push_line(&mut lines, lldp_field(false, "PortId", l.port_id));
            push_line(&mut lines, lldp_field(false, "TTL", dec_string(l.ttl as u64)));
            push_lldp_field(&mut lines, "PortDescription", l.port_description);
            push_lldp_field(&mut lines, "System Name", l.system_name);
            push_lldp_field(&mut lines, "System Description", l.system_description);
            push_lldp_list(&mut lines, "Management addresses:", l.management_addresses);
            push_lldp_list(&mut lines, "Organizationally Specific:", l.organizationally_specific);
        },
        Err(e) => {
            push_line(&mut lines, lldp_error(e.as_str()));
        },
    }
    lines
}

fn push_discovery(
    lines: &mut Vec<Line>,
    lldp_h: LldpHeader,
    parsed: Option<Result<Lldpdu, String>>,
)
    ensures
        lines_view(final(lines)@) == discovery_lines(lines_view(old(lines)@), lldp_h, parsed),
{
    if lldp_h.valid {
        match parsed {
            Some(p) => append_lines(lines, lldp(p)),
            None => push_line(lines, lldp_error("not decoded")),
        }
    }
}

fn push_optional_line(lines: &mut Vec<Line>, line: Option<Line>)
    ensures
        lines_view(final(lines)@) == with_optional_line(
            lines_view(old(lines)@),
            option_line_view(line),
        ),
{
    if let Some(l) = line {
        push_line(lines, l);
    }
}

fn push_network(
    lines: &mut Vec<Line>,
    ipv4_h: Ipv4Header,
    ipv6_h: Ipv6Header,
    icmp_h: IcmpHeader,
    echo_h: EchoHeader,
)
    ensures
        lines_view(final(lines)@) == network_lines(
            lines_view(old(lines)@),
            ipv4_h,
            ipv6_h,
            icmp_h,
            echo_h,
        ),
{
    let v6 = !ipv4_h.valid;
    if ipv4_h.valid {
        push_optional_line(lines, ipv4(ipv4_h));
    } else if ipv6_h.valid {
        push_optional_line(lines, ipv6(ipv6_h));
    } else {
        return ;
    }
    if icmp_h.valid {
        if v6 {
            push_line(lines, icmp6(icmp_h));
        } else {
            push_line(lines, icmp(icmp_h));
        }
        if echo_h.valid {
            push_line(lines, echo(echo_h));
        }
    }
}

fn discovery_bytes<'a>(h: &HeaderChain, frame: &'a [u8]) -> (r: &'a [u8])
    ensures
        r@ == ddm_discovery_bytes(*h, frame@),
{
    let start = match h.offsets().ddm_discovery {
        Some(start) => if start <= frame.len() {
            start
        } else {
            frame.len()
        },
        None => frame.len(),
    };
    slice_subrange(frame, start, frame.len())
}

fn push_link(
    lines: &mut Vec<Line>,
    ethernet_h: EthernetHeader,
    vlan_h: VlanHeader,
    sidecar_h: SidecarHeader,
    frame: &[u8],
)
    ensures
        lines_view(final(lines)@) == link_lines(
            lines_view(old(lines)@),
            ethernet_h,
            vlan_h,
            sidecar_h,
            frame@,
        ),
{
    if ethernet_h.valid {
        push_optional_line(lines, ethernet(ethernet_h, Some(frame.len())));
    }
    if vlan_h.valid {
        push_line(lines, vlan(vlan_h));
    }
    if sidecar_h.valid {
        push_line(lines, sidecar(sidecar_h));
    }
}

fn push_transport(lines: &mut Vec<Line>, tcp_h: TcpHeader, udp_h: UdpHeader, csum: Option<u16>)
    ensures
        lines_view(final(lines)@) == transport_lines(lines_view(old(lines)@), tcp_h, udp_h, csum),
{
    if tcp_h.valid {
        push_line(lines, tcp(tcp_h));
    }
    if udp_h.valid {
        push_line(lines, udp(udp_h, csum));
    }
}

fn push_carried(
    lines: &mut Vec<Line>,
    ddm_h: DdmDiscoveryHeader,
    packet: &[u8],
    bfd_h: BfdHeader,
    geneve_h: GeneveHeader,
)
    ensures
        lines_view(final(lines)@) == carried_lines(
            lines_view(old(lines)@),
            ddm_h,
            packet@,
            bfd_h,
            geneve_h,
        ),
{
    if ddm_h.valid {
        push_line(lines, ddm_discovery(ddm_h, packet));
    }
    if bfd_h.valid {
        push_line(lines, bfd(bfd_h));
    }
    if geneve_h.valid {
        push_line(lines, geneve(geneve_h));
        let mut line = Line::new();
        line.push_str(Style::Dimmed, "-----|");
        push_line(lines, line);
    }
}

/// Walks the header chain of one frame in wire order and renders each valid
/// header, the outer frame first. `frame` holds the bytes of the frame, from
/// which the host name of a discovery packet is read, at the offset that the
/// lengths of the headers before it add up to. `payloads` holds what was
/// computed of the frame elsewhere. A header whose address fields are
/// malformed gives no line, and a link-layer discovery header without a
/// decoded data unit gives a line that says so; the walk goes on behind
/// either.
pub fn headers(h: HeaderChain, frame: &[u8], payloads: Payloads) -> (r: Vec<Line>)
    ensures
        lines_view(r@) == headers_lines(h, frame@, payloads),
{
    let packet = discovery_bytes(&h, frame);
    let csum = if !h.ipv4.valid && h.ipv6.valid {
        payloads.udp6_checksum
    } else {
        None
    };
    let mut lines: Vec<Line> = Vec::new();
    push_link(&mut lines, h.ethernet, h.vlan, h.sidecar, frame);
    let ghost l1 = link_lines(Seq::empty(), h.ethernet, h.vlan, h.sidecar, frame@);
    assert(lines_view(lines@) == l1);
    push_discovery(&mut lines, h.lldp, payloads.lldp);
    let ghost l2 = discovery_lines(l1, h.lldp, payloads.lldp);
    assert(lines_view(lines@) == l2);
    if h.arp.valid {
        push_optional_line(&mut lines, arp(h.arp));
    }
    let ghost l3 = arp_lines(l2, h.arp);
    assert(lines_view(lines@) == l3);
    push_network(&mut lines, h.ipv4, h.ipv6, h.icmp, h.echo);
    let ghost l4 = network_lines(l3, h.ipv4, h.ipv6, h.icmp, h.echo);
    assert(lines_view(lines@) == l4);
    push_transport(&mut lines, h.tcp, h.udp, csum);
    let ghost l5 = transport_lines(l4, h.tcp, h.udp, udp_expected(h, payloads));
    assert(lines_view(lines@) == l5);
    push_carried(&mut lines, h.ddm_discovery, packet, h.bfd, h.geneve);
    let ghost l6 = carried_lines(
        l5,
        h.ddm_discovery,
        ddm_discovery_bytes(h, frame@),
        h.bfd,
        h.geneve,
    );
    assert(lines_view(lines@) == l6);
    assert(l6 == outer_lines(h, frame@, payloads));
    if h.inner_eth.valid {
        push_optional_line(&mut lines, ethernet(h.inner_eth, None));
    }
    let ghost l7 = inner_ethernet_lines(l6, h.inner_eth);
    assert(lines_view(lines@) == l7);
    if h.inner_arp.valid {
        push_optional_line(&mut lines, arp(h.inner_arp));
    }
    let ghost l8 = arp_lines(l7, h.inner_arp);
    assert(lines_view(lines@) == l8);
    push_network(&mut lines, h.inner_ipv4, h.inner_ipv6, h.inner_icmp, h.inner_echo);
    let ghost l9 = network_lines(l8, h.inner_ipv4, h.inner_ipv6, h.inner_icmp, h.inner_echo);
    assert(lines_view(lines@) == l9);
    push_transport(&mut lines, h.inner_tcp, h.inner_udp, None);
    lines
}

/// The dump that `pretty_hex::config_hex` makes of `bytes` with a
/// configuration that holds `title`, `width` and `chunk` and is the crate's
/// default otherwise. The contract only gives the text a name. The crate
/// multiplies `chunk` by its default group of four, and fills a short row
/// with blanks up to `width`.
#[verifier::external_body]
fn hex_dump(bytes: &[u8], title: bool, width: usize, chunk: usize) -> (r: String)
    requires
        chunk <= usize::MAX / 4,
        width <= 4096,
    ensures
        r@ == hex_dump_text(bytes@, title, width, chunk),
{
    let cfg = pretty_hex::HexConfig { title, width, chunk, ..pretty_hex::HexConfig::default() };
    pretty_hex::config_hex(&bytes, cfg)
}

/// The lines of a dump: one for each row of `text`, the first behind a rule,
/// the others behind a blank column.
pub fn dump(text: &str) -> (r: Vec<Line>)
    ensures
        lines_view(r@) == dump_lines(text@),
{
    let mut lines: Vec<Line> = Vec::new();
    let mut row = String::from_str("-----| ");
    let ghost mut done: Seq<Seq<char>> = Seq::empty();
    let ghost mut cur: Seq<char> = Seq::empty();
    for c in it: text.chars()
        invariant
            it.seq() == text@,
            rows(text@.take(it.index())) == done.push(cur),
            row@ == dump_margin(done.len() == 0) + cur,
            lines_view(lines@) == Seq::new(done.len(), |i: int| dump_line(i == 0, done[i])),
    {
        proof {
            let i = it.index();
            assert(text@.take(i + 1).drop_last() =~= text@.take(i));
            assert(text@.take(i + 1).last() == c);
        }
        if c == '\n' {
            let mut line = Line::new();
            line.push(Style::Dimmed, row);
            push_line(&mut lines, line);
            row = String::from_str("     | ");
            proof {
                done = done.push(cur);
                cur = Seq::empty();
            }
        } else {
            row.push(c);
            proof {
                cur = cur.push(c);
            }
        }
    }
    proof {
        assert(text@.take(text@.len() as int) =~= text@);
    }
    let mut line = Line::new();
    line.push(Style::Dimmed, row);
    push_line(&mut lines, line);
    lines
}

/// Renders one frame: its headers, then, if `dump_hex` holds, a dump of its
/// bytes, then the line that separates it from the next frame.
pub fn frame(h: HeaderChain, bytes: &[u8], payloads: Payloads, dump_hex: bool) -> (r: Vec<Line>)
    ensures
        lines_view(r@) == frame_lines(h, bytes@, payloads, dump_hex),
{
    let mut lines = headers(h, bytes, payloads);
    if dump_hex {
        let text = hex_dump(bytes, false, 16, 2);
        append_lines(&mut lines, dump(text.as_str()));
    }
    push_line(&mut lines, sep());
    lines
}

/// A stored checksum that differs from the expected one is flagged: the
/// field shows the stored value in red and the expected value beside it, and
/// the two texts differ. In the chain this is the case for a UDP datagram in
/// an IPv6 packet whose expected checksum was computed.
pub proof fn corrupted_checksum_is_flagged(h: HeaderChain, payloads: Payloads, expected: u16)
    requires
        h.walks_ipv6(),
        payloads.udp6_checksum == Some(expected),
        h.udp.checksum != expected,
    ensures
        udp_expected(h, payloads) == Some(expected),
        udp_checksum_field(h.udp.checksum, udp_expected(h, payloads)) == bad_field(
            "chk"@,
            dec(h.udp.checksum as nat),
            dec(expected as nat),
        ),
        dec(h.udp.checksum as nat) != dec(expected as nat),
        udp_line(h.udp, udp_expected(h, payloads)).last() == styled(
            Style::Plain,
            dec(expected as nat),
        ),
{
    if dec(h.udp.checksum as nat) == dec(expected as nat) {
        dec_is_faithful(h.udp.checksum as nat, expected as nat);
    }
}

/// A type without a name is no error: an ICMP header of such a type is shown
/// with the numbers of its type and of its code.
pub proof fn unknown_type_is_shown_as_number(typ: u8, code: u8)
    ensures
        IcmpType::spec_from_code(typ) is None ==> icmp_type_text(typ) == dec_u8(typ)
            && icmp_code_text(typ, code) == dec_u8(code),
        Icmp6Type::spec_from_code(typ) is None ==> icmp6_type_text(typ) == dec_u8(typ)
            && icmp6_code_text(typ, code) == dec_u8(code),
{
}

} // verus!

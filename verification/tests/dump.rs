use overwatch::dump::{
    arp, bfd, ddm_discovery, ddm_discovery_host, dump, echo, ethernet, frame, geneve, headers,
    icmp, icmp6, ipv4, ipv6, lldp, sep, sidecar, tcp, udp, vlan,
};
use overwatch::headers::{
    ArpHeader, BfdHeader, DdmDiscoveryHeader, EchoHeader, EthernetHeader, GeneveHeader,
    HeaderChain, IcmpHeader, Ipv4Header, Ipv6Header, LldpHeader, Lldpdu, Offsets, Payloads,
    SidecarHeader, TcpHeader, UdpHeader, VlanHeader,
};
use overwatch::text::{Line, Style};

fn texts(lines: &[Line]) -> Vec<String> {
    lines.iter().map(|l| l.text()).collect()
}

fn style_of(line: &Line, text: &str) -> Style {
    line.spans.iter().find(|s| s.text == text).map(|s| s.style).unwrap()
}

fn eth(ether_type: u16) -> EthernetHeader {
    EthernetHeader {
        valid: true,
        dst: vec![0x66, 0x55, 0x44, 0x33, 0x22, 0x11],
        src: vec![0xff, 0xee, 0xdd, 0xcc, 0xbb, 0xaa],
        ether_type,
    }
}

fn ip4(protocol: u8) -> Ipv4Header {
    Ipv4Header {
        valid: true,
        version: 4,
        ihl: 5,
        diffserv: 0,
        total_len: 84,
        identification: 4660,
        flags: 2,
        frag_offset: 0,
        ttl: 64,
        protocol,
        hdr_checksum: 48879,
        src: vec![1, 0, 0, 10],
        dst: vec![2, 0, 0, 10],
    }
}

fn ip6(next_hdr: u8) -> Ipv6Header {
    let mut src = vec![0u8; 16];
    src[0] = 1;
    src[14] = 0x80;
    src[15] = 0xfe;
    let mut dst = vec![0u8; 16];
    dst[0] = 1;
    dst[14] = 0x02;
    dst[15] = 0xff;
    Ipv6Header {
        valid: true,
        version: 6,
        traffic_class: 0,
        flow_label: 12345,
        payload_len: 64,
        next_hdr,
        hop_limit: 255,
        src,
        dst,
    }
}

fn tcp_h(data_offset: u8, flags: u8) -> TcpHeader {
    TcpHeader {
        valid: true,
        src_port: 443,
        dst_port: 51000,
        seq_no: 1,
        ack_no: 2,
        data_offset,
        res: 0,
        flags,
        window: 65535,
        checksum: 1,
        urgent_ptr: 0,
    }
}

fn udp_h(checksum: u16) -> UdpHeader {
    UdpHeader { valid: true, src_port: 53, dst_port: 5353, len: 20, checksum }
}

#[test]
fn separator_line() {
    let l = sep();
    assert_eq!(l.text(), "=====|");
    assert_eq!(l.spans.len(), 1);
    assert_eq!(l.spans[0].style, Style::Dimmed);
}

#[test]
fn ethernet_with_frame_length() {
    let l = ethernet(eth(0x0800), Some(64)).unwrap();
    assert_eq!(l.text(), "Eth  | AA:BB:CC:DD:EE:FF > 11:22:33:44:55:66 et IPv4 len 64");
    assert_eq!(style_of(&l, "IPv4"), Style::Green);
    assert_eq!(style_of(&l, "AA:BB:CC:DD:EE:FF"), Style::Blue);
    assert_eq!(style_of(&l, "et"), Style::Dimmed);
}

#[test]
fn ethernet_without_frame_length() {
    let l = ethernet(eth(0x86dd), None).unwrap();
    assert_eq!(l.text(), "Eth  | AA:BB:CC:DD:EE:FF > 11:22:33:44:55:66 et IPv6");
}

#[test]
fn ethernet_with_unknown_ethertype_shows_hex() {
    let l = ethernet(eth(0x1234), None).unwrap();
    assert_eq!(l.text(), "Eth  | AA:BB:CC:DD:EE:FF > 11:22:33:44:55:66 et 0x1234");
    let l = ethernet(eth(0x0901), None).unwrap();
    assert_eq!(l.text(), "Eth  | AA:BB:CC:DD:EE:FF > 11:22:33:44:55:66 et Sidecar");
}

#[test]
fn ethernet_with_malformed_address_is_skipped() {
    let mut h = eth(0x0800);
    h.dst = vec![1, 2, 3, 4, 5];
    assert_eq!(ethernet(h, Some(64)), None);
    let mut h = eth(0x0800);
    h.src = vec![];
    assert_eq!(ethernet(h, None), None);
}

#[test]
fn vlan_tag() {
    let h = VlanHeader { valid: true, pcp: 3, dei: true, vid: 100, ether_type: 0x86dd };
    let l = vlan(h);
    assert_eq!(l.text(), "Vlan | 100 pcp 3 dei true et IPv6");
    assert_eq!(style_of(&l, "100"), Style::Blue);
    let h = VlanHeader { valid: true, pcp: 0, dei: false, vid: 4095, ether_type: 0x8100 };
    assert_eq!(vlan(h).text(), "Vlan | 4095 pcp 0 dei false et Vlan");
}

#[test]
fn sidecar_header() {
    let h = SidecarHeader {
        valid: true,
        sc_code: 1,
        sc_ingress: 7,
        sc_egress: 9,
        sc_ether_type: 0x0806,
    };
    assert_eq!(sidecar(h).text(), "Sc   | FwdToUserspace ingress 7 egress 9 et Arp");
    let h = SidecarHeader {
        valid: true,
        sc_code: 0x2a,
        sc_ingress: 0,
        sc_egress: 65535,
        sc_ether_type: 0xbeef,
    };
    assert_eq!(sidecar(h).text(), "Sc   | 0x2a ingress 0 egress 65535 et 0xbeef");
}

fn arp_h(opcode: u16) -> ArpHeader {
    ArpHeader {
        valid: true,
        hw_type: 1,
        proto_type: 0x0800,
        hw_addr_len: 6,
        proto_addr_len: 4,
        opcode,
        sender_mac: vec![0xff, 0xee, 0xdd, 0xcc, 0xbb, 0xaa],
        sender_ip: vec![1, 0, 0, 10],
        target_mac: vec![0x66, 0x55, 0x44, 0x33, 0x22, 0x11],
        target_ip: vec![2, 0, 0, 10],
    }
}

#[test]
fn arp_request() {
    let l = arp(arp_h(1)).unwrap();
    assert_eq!(
        l.text(),
        "Arp  | 10.0.0.1/AA:BB:CC:DD:EE:FF > 10.0.0.2/11:22:33:44:55:66 op Request ht Ethernet pt IPv4 hlen 6 plen 4"
    );
}

#[test]
fn arp_with_unknown_codes_shows_hex() {
    let mut h = arp_h(3);
    h.hw_type = 6;
    h.proto_type = 0x0801;
    let l = arp(h).unwrap();
    assert_eq!(
        l.text(),
        "Arp  | 10.0.0.1/AA:BB:CC:DD:EE:FF > 10.0.0.2/11:22:33:44:55:66 op 0x0003 ht 0x0006 pt 0x0801 hlen 6 plen 4"
    );
    assert_eq!(arp(arp_h(2)).unwrap().spans.iter().any(|s| s.text == "Reply"), true);
}

#[test]
fn arp_with_malformed_address_is_skipped() {
    let mut h = arp_h(1);
    h.sender_ip = vec![1, 2, 3];
    assert_eq!(arp(h), None);
    let mut h = arp_h(1);
    h.target_mac = vec![1, 2, 3, 4, 5, 6, 7];
    assert_eq!(arp(h), None);
    let mut h = arp_h(1);
    h.target_ip = vec![];
    assert_eq!(arp(h), None);
    let mut h = arp_h(1);
    h.sender_mac = vec![0; 4];
    assert_eq!(arp(h), None);
}

#[test]
fn ipv4_fields_are_shown_as_encoded() {
    let l = ipv4(ip4(17)).unwrap();
    assert_eq!(
        l.text(),
        "Ip4  | 10.0.0.1 > 10.0.0.2 ihl 5 ds 0 len 84 id 4660 flags DF fo 0 ttl 64 chk 48879 proto Udp"
    );
    assert!(l.text().contains("ttl 64"));
    assert!(l.text().contains("proto Udp"));
    assert_eq!(style_of(&l, "Udp"), Style::Green);
}

#[test]
fn ipv4_flags() {
    let mut h = ip4(6);
    h.flags = 1;
    assert!(ipv4(h).unwrap().text().contains(" flags MF fo "));
    let mut h = ip4(6);
    h.flags = 3;
    assert!(ipv4(h).unwrap().text().contains(" flags DF|MF fo "));
    let mut h = ip4(6);
    h.flags = 0;
    assert!(ipv4(h).unwrap().text().contains(" flags  fo "));
    let mut h = ip4(6);
    h.flags = 4;
    assert!(ipv4(h).unwrap().text().contains(" flags  fo "));
}

#[test]
fn ipv4_with_unknown_protocol_shows_number() {
    let l = ipv4(ip4(200)).unwrap();
    assert!(l.text().ends_with(" proto 200"));
    assert_eq!(style_of(&l, "200"), Style::Plain);
    assert!(ipv4(ip4(6)).unwrap().text().ends_with(" proto Tcp"));
    assert!(ipv4(ip4(1)).unwrap().text().ends_with(" proto Icmp"));
}

#[test]
fn ipv4_with_malformed_address_is_skipped() {
    let mut h = ip4(17);
    h.src = vec![1, 2, 3, 4, 5];
    assert_eq!(ipv4(h), None);
    let mut h = ip4(17);
    h.dst = vec![];
    assert_eq!(ipv4(h), None);
}

#[test]
fn ipv6_header() {
    let l = ipv6(ip6(58)).unwrap();
    assert_eq!(l.text(), "Ip6  | fe80::1 > ff02::1 tc 0 fl 12345 len 64 ttl 255 proto Icmp6");
    let l = ipv6(ip6(143)).unwrap();
    assert_eq!(l.text(), "Ip6  | fe80::1 > ff02::1 tc 0 fl 12345 len 64 ttl 255 proto 143");
}

#[test]
fn ipv6_with_malformed_address_is_skipped() {
    let mut h = ip6(58);
    h.src = vec![0; 4];
    assert_eq!(ipv6(h), None);
    let mut h = ip6(58);
    h.dst = vec![0; 15];
    assert_eq!(ipv6(h), None);
}

#[test]
fn tcp_header_and_flags() {
    assert_eq!(
        tcp(tcp_h(8, 0x12)).text(),
        "TCP  | 443 > 51000 seq 1 ack 2 off 8 res 0 flags SYN|ACK win 65535 chk 1 urg 0"
    );
    assert!(tcp(tcp_h(5, 0)).text().contains(" flags  win "));
    assert!(tcp(tcp_h(5, 0xff)).text().contains(" flags CWR|ECE|URG|PSH|RST|SYN|ACK|FIN win "));
    assert!(tcp(tcp_h(5, 0x01)).text().contains(" flags FIN win "));
    assert!(tcp(tcp_h(5, 0x18)).text().contains(" flags PSH|ACK win "));
    assert!(tcp(tcp_h(5, 0x04)).text().contains(" flags RST win "));
    assert!(tcp(tcp_h(5, 0xc0)).text().contains(" flags CWR|ECE win "));
    assert!(tcp(tcp_h(5, 0x20)).text().contains(" flags URG win "));
}

#[test]
fn udp_checksum_is_shown_plainly_without_expectation() {
    let l = udp(udp_h(4660), None);
    assert_eq!(l.text(), "UDP  | 53 > 5353 len 20 chk 4660");
    let l = udp(udp_h(4660), Some(4660));
    assert_eq!(l.text(), "UDP  | 53 > 5353 len 20 chk 4660");
    assert_eq!(style_of(&l, "4660"), Style::Plain);
}

#[test]
fn udp_checksum_mismatch_shows_stored_and_expected() {
    let l = udp(udp_h(4660), Some(4661));
    assert_eq!(l.text(), "UDP  | 53 > 5353 len 20 chk 4660 != 4661");
    assert_eq!(style_of(&l, "4660"), Style::Red);
    assert_eq!(style_of(&l, "4661"), Style::Plain);
}

#[test]
fn echo_header() {
    assert_eq!(echo(EchoHeader { valid: true, id: 1, seq: 2 }).text(), "Echo | id 1 seq 2");
}

fn icmp_h(typ: u8, code: u8) -> IcmpHeader {
    IcmpHeader { valid: true, typ, code, hdr_checksum: 9 }
}

#[test]
fn icmp_types_and_codes() {
    assert_eq!(icmp(icmp_h(8, 0)).text(), "ICMP | type Echo code 0 chk 9");
    assert_eq!(icmp(icmp_h(0, 0)).text(), "ICMP | type EchoReply code 0 chk 9");
    assert_eq!(
        icmp(icmp_h(3, 1)).text(),
        "ICMP | type DestinationUnreachable code HostUnreachable chk 9"
    );
    assert_eq!(
        icmp(icmp_h(5, 3)).text(),
        "ICMP | type Redirect code RedirectDatagramForToSHost chk 9"
    );
    assert_eq!(
        icmp(icmp_h(11, 0)).text(),
        "ICMP | type TimeExceeded code TTLExpiredInTransit chk 9"
    );
    assert_eq!(icmp(icmp_h(12, 2)).text(), "ICMP | type ParameterProblem code BadLength chk 9");
    assert_eq!(
        icmp(icmp_h(43, 4)).text(),
        "ICMP | type ExtendedEchoReply code MultipleInterfacesSatisfyQuery chk 9"
    );
}

#[test]
fn icmp_code_outside_its_table_shows_the_code() {
    assert_eq!(icmp(icmp_h(3, 99)).text(), "ICMP | type DestinationUnreachable code 99 chk 9");
    assert_eq!(icmp(icmp_h(11, 2)).text(), "ICMP | type TimeExceeded code 2 chk 9");
    assert_eq!(icmp(icmp_h(8, 5)).text(), "ICMP | type Echo code 5 chk 9");
}

#[test]
fn icmp_unassigned_type_shows_the_number() {
    assert_eq!(icmp(icmp_h(41, 0)).text(), "ICMP | type 41 code 0 chk 9");
    assert_eq!(icmp(icmp_h(41, 7)).text(), "ICMP | type 41 code 7 chk 9");
    assert_eq!(icmp(icmp_h(100, 3)).text(), "ICMP | type 100 code 3 chk 9");
    assert_eq!(icmp6(icmp_h(41, 0)).text(), "ICMP6| type 41 code 0 chk 9");
}

#[test]
fn icmp6_types_and_codes() {
    assert_eq!(icmp6(icmp_h(128, 0)).text(), "ICMP6| type EchoRequest code 0 chk 9");
    assert_eq!(
        icmp6(icmp_h(1, 4)).text(),
        "ICMP6| type DestinationUnreachable code PortUnreachable chk 9"
    );
    assert_eq!(
        icmp6(icmp_h(3, 0)).text(),
        "ICMP6| type TimeExceeded code HopLimitExceededInTransit chk 9"
    );
    assert_eq!(
        icmp6(icmp_h(4, 1)).text(),
        "ICMP6| type ParameterProblem code UnrecognizedNextHeaderTypeEncountered chk 9"
    );
    assert_eq!(
        icmp6(icmp_h(138, 255)).text(),
        "ICMP6| type RouterRenumbering code SequenceNumberReset chk 9"
    );
    assert_eq!(
        icmp6(icmp_h(139, 1)).text(),
        "ICMP6| type ICMPNodeInformationQuery code DataFieldNodeName chk 9"
    );
    assert_eq!(
        icmp6(icmp_h(140, 2)).text(),
        "ICMP6| type ICMPNodeInformationResponse code QtypeUnknown chk 9"
    );
    assert_eq!(icmp6(icmp_h(135, 0)).text(), "ICMP6| type NeighborSolicitation code 0 chk 9");
    assert_eq!(icmp6(icmp_h(1, 8)).text(), "ICMP6| type DestinationUnreachable code 8 chk 9");
    assert_eq!(icmp6(icmp_h(5, 1)).text(), "ICMP6| type 5 code 1 chk 9");
}

fn ddm_h(flags: u8, router_kind: u8, hostname_len: u8) -> DdmDiscoveryHeader {
    DdmDiscoveryHeader { valid: true, version: 1, flags, router_kind, hostname_len }
}

#[test]
fn discovery_host_name_is_read_behind_the_fixed_part() {
    let frame = [1u8, 1, 0, 5, b'h', b'e', b'l', b'l', b'o', b'!', b'!'];
    assert_eq!(
        ddm_discovery(ddm_h(1, 0, 5), &frame).text(),
        "DDMd | version 1 flags Solicit kind Server len 5 host hello"
    );
    assert_eq!(
        ddm_discovery(ddm_h(2, 1, 7), &frame).text(),
        "DDMd | version 1 flags Advertise kind Transit len 7 host hello!!"
    );
    assert_eq!(
        ddm_discovery(ddm_h(3, 2, 0), &frame).text(),
        "DDMd | version 1 flags Solicit|Advertise kind 2 len 0 host "
    );
    assert_eq!(
        ddm_discovery(ddm_h(0, 0, 2), &frame).text(),
        "DDMd | version 1 flags  kind Server len 2 host he"
    );
}

#[test]
fn discovery_host_name_tolerates_invalid_encoding() {
    let frame = [1u8, 1, 0, 3, 0xff, b'o', b'k'];
    assert_eq!(
        ddm_discovery(ddm_h(1, 0, 3), &frame).text(),
        "DDMd | version 1 flags Solicit kind Server len 3 host \u{fffd}ok"
    );
}

#[test]
fn discovery_host_name_in_a_short_frame() {
    let frame = [1u8, 1, 0, 10, b'a', b'b', b'c'];
    assert_eq!(
        ddm_discovery(ddm_h(1, 0, 10), &frame).text(),
        "DDMd | version 1 flags Solicit kind Server len 10 host abc"
    );
    assert_eq!(
        ddm_discovery(ddm_h(1, 0, 10), &frame[..2]).text(),
        "DDMd | version 1 flags Solicit kind Server len 10 host "
    );
    assert_eq!(
        ddm_discovery(ddm_h(1, 0, 10), &[]).text(),
        "DDMd | version 1 flags Solicit kind Server len 10 host "
    );
}

#[test]
fn discovery_line_of_a_given_host_name() {
    assert_eq!(
        ddm_discovery_host(ddm_h(2, 1, 4), String::from("sled")).text(),
        "DDMd | version 1 flags Advertise kind Transit len 4 host sled"
    );
}

fn bfd_h(diag: u8, status: u8) -> BfdHeader {
    BfdHeader {
        valid: true,
        version: 1,
        diag,
        status,
        poll: false,
        fin: false,
        control_plane_independent: false,
        authentication_present: false,
        demand: false,
        multipoint: false,
        detect_mult: 3,
        len: 24,
        my_discriminator: 1,
        your_discriminator: 2,
        desired_min_tx_interval: 1000,
        required_min_tx_interval: 2000,
        required_min_echo_rx_interval: 0,
    }
}

#[test]
fn bfd_without_diagnostic_and_flags() {
    assert_eq!(
        bfd(bfd_h(0, 3)).text(),
        "Bfd  | ver 1 status Up dm 3 len 24 m 1 y 2 dtx 1000 rtx 2000 rex 0"
    );
}

#[test]
fn bfd_with_diagnostic_and_flags() {
    let mut h = bfd_h(1, 1);
    h.poll = true;
    h.fin = true;
    assert_eq!(
        bfd(h).text(),
        "Bfd  | ver 1 status Down diag ControlDetectionTimeExpired flags poll|final dm 3 len 24 m 1 y 2 dtx 1000 rtx 2000 rex 0"
    );
    let mut h = bfd_h(0, 2);
    h.poll = true;
    h.fin = true;
    h.control_plane_independent = true;
    h.authentication_present = true;
    h.demand = true;
    h.multipoint = true;
    assert_eq!(
        bfd(h).text(),
        "Bfd  | ver 1 status Init flags poll|final|cpi|auth|demand|mp dm 3 len 24 m 1 y 2 dtx 1000 rtx 2000 rex 0"
    );
    let mut h = bfd_h(8, 0);
    h.demand = true;
    assert_eq!(
        bfd(h).text(),
        "Bfd  | ver 1 status AdministrativelyDown diag ReverseConcatenatedPathDown flags demand dm 3 len 24 m 1 y 2 dtx 1000 rtx 2000 rex 0"
    );
}

#[test]
fn bfd_unknown_codes_are_flagged() {
    let l = bfd(bfd_h(31, 7));
    assert_eq!(
        l.text(),
        "Bfd  | ver 1 status 7 diag 31 dm 3 len 24 m 1 y 2 dtx 1000 rtx 2000 rex 0"
    );
    assert_eq!(style_of(&l, "7"), Style::Red);
    assert_eq!(style_of(&l, "31"), Style::Red);
    let l = bfd(bfd_h(5, 3));
    assert_eq!(style_of(&l, "PathDown"), Style::Plain);
    assert_eq!(style_of(&l, "Up"), Style::Plain);
}

#[test]
fn geneve_header_shows_each_flag() {
    let h = GeneveHeader {
        valid: true,
        version: 0,
        opt_len: 2,
        ctrl: false,
        crit: true,
        protocol: 0x6558,
        vni: 100,
    };
    let l = geneve(h);
    assert_eq!(l.text(), "Gnv  | 100 ver 0 olen 2 ctrl false crit true proto Ethernet");
    assert_eq!(style_of(&l, "100"), Style::Blue);
    let h = GeneveHeader {
        valid: true,
        version: 1,
        opt_len: 0,
        ctrl: true,
        crit: false,
        protocol: 0x0800,
        vni: 16777215,
    };
    assert_eq!(geneve(h).text(), "Gnv  | 16777215 ver 1 olen 0 ctrl true crit false proto IPv4");
}

fn pdu() -> Lldpdu {
    Lldpdu {
        chassis_id: String::from("chassis-1"),
        port_id: String::from("port-7"),
        ttl: 120,
        port_description: None,
        system_name: None,
        system_description: None,
        management_addresses: vec![],
        organizationally_specific: vec![],
    }
}

#[test]
fn lldp_mandatory_fields() {
    let lines = lldp(Ok(pdu()));
    assert_eq!(
        texts(&lines),
        vec!["Lldp | ChassisID chassis-1", "     | PortId port-7", "     | TTL 120"]
    );
    assert_eq!(lines[0].spans[0].style, Style::Green);
    assert_eq!(style_of(&lines[0], "ChassisID"), Style::Dimmed);
}

#[test]
fn lldp_optional_fields_and_lists() {
    let mut p = pdu();
    p.port_description = Some(String::from("uplink"));
    p.system_name = Some(String::from("sw0"));
    p.system_description = Some(String::from("a switch"));
    p.management_addresses = vec![String::from("10.0.0.1"), String::from("fe80::1")];
    p.organizationally_specific = vec![String::from("00-12-0f/1")];
    let lines = lldp(Ok(p));
    assert_eq!(
        texts(&lines),
        vec![
            "Lldp | ChassisID chassis-1",
            "     | PortId port-7",
            "     | TTL 120",
            "     | PortDescription uplink",
            "     | System Name sw0",
            "     | System Description a switch",
            "     | Management addresses:",
            "     |\t10.0.0.1",
            "     |\tfe80::1",
            "     | Organizationally Specific:",
            "     |\t00-12-0f/1",
        ]
    );
    assert_eq!(style_of(&lines[6], "Management addresses:"), Style::Dimmed);
}

#[test]
fn lldp_some_optional_fields() {
    let mut p = pdu();
    p.system_name = Some(String::from("sw0"));
    p.organizationally_specific = vec![String::from("x"), String::from("y")];
    assert_eq!(
        texts(&lldp(Ok(p))),
        vec![
            "Lldp | ChassisID chassis-1",
            "     | PortId port-7",
            "     | TTL 120",
            "     | System Name sw0",
            "     | Organizationally Specific:",
            "     |\tx",
            "     |\ty",
        ]
    );
}

#[test]
fn lldp_parse_failure_is_reported_inline() {
    let lines = lldp(Err(String::from("truncated")));
    assert_eq!(texts(&lines), vec!["<unable to parse lldp packet: truncated>"]);
}

#[test]
fn empty_chain_renders_nothing() {
    let lines = headers(HeaderChain::default(), &[], Payloads::default());
    assert_eq!(lines.len(), 0);
}

#[test]
fn chain_is_rendered_in_wire_order() {
    let mut h = HeaderChain::default();
    h.ethernet = eth(0x8100);
    h.vlan = VlanHeader { valid: true, pcp: 0, dei: false, vid: 5, ether_type: 0x0800 };
    h.ipv4 = ip4(1);
    h.icmp = icmp_h(8, 0);
    h.echo = EchoHeader { valid: true, id: 1, seq: 2 };
    let frame = vec![0u8; 60];
    let lines = headers(h, &frame, Payloads::default());
    assert_eq!(
        texts(&lines),
        vec![
            "Eth  | AA:BB:CC:DD:EE:FF > 11:22:33:44:55:66 et Vlan len 60",
            "Vlan | 5 pcp 0 dei false et IPv4",
            "Ip4  | 10.0.0.1 > 10.0.0.2 ihl 5 ds 0 len 84 id 4660 flags DF fo 0 ttl 64 chk 48879 proto Icmp",
            "ICMP | type Echo code 0 chk 9",
            "Echo | id 1 seq 2",
        ]
    );
}

#[test]
fn icmp_is_read_according_to_the_ip_version() {
    let mut h = HeaderChain::default();
    h.ipv6 = ip6(58);
    h.icmp = icmp_h(128, 0);
    let lines = headers(h, &[], Payloads::default());
    assert_eq!(
        texts(&lines),
        vec![
            "Ip6  | fe80::1 > ff02::1 tc 0 fl 12345 len 64 ttl 255 proto Icmp6",
            "ICMP6| type EchoRequest code 0 chk 9",
        ]
    );
    let mut h = HeaderChain::default();
    h.ipv4 = ip4(1);
    h.icmp = icmp_h(128, 0);
    let lines = headers(h, &[], Payloads::default());
    assert_eq!(lines[1].text(), "ICMP | type 128 code 0 chk 9");
}

#[test]
fn only_ipv4_is_walked_when_both_are_valid() {
    let mut h = HeaderChain::default();
    h.ipv4 = ip4(6);
    h.ipv6 = ip6(6);
    let lines = headers(h, &[], Payloads::default());
    assert_eq!(lines.len(), 1);
    assert!(lines[0].text().starts_with("Ip4  |"));
}

#[test]
fn icmp_and_echo_need_an_ip_header() {
    let mut h = HeaderChain::default();
    h.icmp = icmp_h(8, 0);
    h.echo = EchoHeader { valid: true, id: 1, seq: 2 };
    assert_eq!(headers(h, &[], Payloads::default()).len(), 0);
    let mut h = HeaderChain::default();
    h.ipv4 = ip4(1);
    h.echo = EchoHeader { valid: true, id: 1, seq: 2 };
    assert_eq!(headers(h, &[], Payloads::default()).len(), 1);
}

#[test]
fn malformed_header_is_skipped_and_the_walk_goes_on() {
    let mut h = HeaderChain::default();
    h.ethernet = eth(0x0800);
    h.ethernet.src = vec![1, 2, 3];
    h.ipv4 = ip4(17);
    h.ipv4.dst = vec![];
    h.udp = udp_h(7);
    let lines = headers(h, &[0u8; 42], Payloads::default());
    assert_eq!(texts(&lines), vec!["UDP  | 53 > 5353 len 20 chk 7"]);
}

#[test]
fn tcp_data_offset_moves_the_running_offset() {
    let mut h = HeaderChain::default();
    h.ethernet = eth(0x0800);
    h.ipv4 = ip4(6);
    h.tcp = tcp_h(8, 0x10);
    h.ddm_discovery = ddm_h(1, 0, 4);
    assert_eq!(
        h.offsets(),
        Offsets { lldp: None, udp6: None, ddm_discovery: Some(14 + 20 + 32) }
    );
    let mut frame = vec![0u8; 14 + 20 + 32];
    frame.extend_from_slice(&[1, 1, 0, 4, b's', b'l', b'e', b'd', b'x']);
    let lines = headers(h, &frame, Payloads::default());
    assert_eq!(lines.len(), 4);
    assert_eq!(lines[3].text(), "DDMd | version 1 flags Solicit kind Server len 4 host sled");
}

#[test]
fn tcp_without_options_moves_the_offset_by_twenty() {
    let mut h = HeaderChain::default();
    h.ethernet = eth(0x0800);
    h.ipv4 = ip4(6);
    h.tcp = tcp_h(5, 0x10);
    h.ddm_discovery = ddm_h(1, 0, 4);
    assert_eq!(h.offsets().ddm_discovery, Some(14 + 20 + 20));
    let mut frame = vec![0u8; 14 + 20 + 20];
    frame.extend_from_slice(&[1, 1, 0, 4, b's', b'l', b'e', b'd']);
    let lines = headers(h, &frame, Payloads::default());
    assert_eq!(lines[3].text(), "DDMd | version 1 flags Solicit kind Server len 4 host sled");
}

#[test]
fn ipv4_header_length_moves_the_running_offset() {
    let mut h = HeaderChain::default();
    h.ethernet = eth(0x0800);
    h.ipv4 = ip4(17);
    h.ipv4.ihl = 6;
    h.udp = udp_h(0);
    h.ddm_discovery = ddm_h(2, 1, 2);
    assert_eq!(h.offsets().ddm_discovery, Some(14 + 24 + 8));
    let mut frame = vec![0u8; 14 + 24 + 8];
    frame.extend_from_slice(&[1, 2, 1, 2, b'g', b'z']);
    let lines = headers(h, &frame, Payloads::default());
    assert_eq!(lines[3].text(), "DDMd | version 1 flags Advertise kind Transit len 2 host gz");
}

#[test]
fn offsets_of_the_link_headers() {
    let mut h = HeaderChain::default();
    h.lldp = LldpHeader { valid: true };
    assert_eq!(h.offsets().lldp, Some(0));
    h.ethernet = eth(0x88cc);
    assert_eq!(h.offsets().lldp, Some(14));
    h.vlan = VlanHeader { valid: true, pcp: 0, dei: false, vid: 1, ether_type: 0x88cc };
    assert_eq!(h.offsets().lldp, Some(18));
    h.sidecar = SidecarHeader {
        valid: true,
        sc_code: 0,
        sc_ingress: 0,
        sc_egress: 0,
        sc_ether_type: 0x88cc,
    };
    assert_eq!(h.offsets().lldp, Some(42));
    assert_eq!(h.offsets().udp6, None);
    assert_eq!(h.offsets().ddm_discovery, None);
}

#[test]
fn offset_of_the_udp6_checksum_region() {
    let mut h = HeaderChain::default();
    h.ethernet = eth(0x86dd);
    h.ipv6 = ip6(17);
    assert_eq!(h.offsets().udp6, None);
    h.udp = udp_h(1);
    assert_eq!(h.offsets().udp6, Some(14));
    h.ddm_discovery = ddm_h(1, 0, 0);
    assert_eq!(h.offsets().ddm_discovery, Some(14 + 40 + 8));
    h.icmp = icmp_h(128, 0);
    h.echo = EchoHeader { valid: true, id: 0, seq: 0 };
    assert_eq!(h.offsets().ddm_discovery, Some(14 + 40 + 8 + 8));
    h.ipv4 = ip4(17);
    assert_eq!(h.offsets().udp6, None);
}

#[test]
fn udp_over_ipv6_with_corrupted_checksum_is_flagged() {
    let mut h = HeaderChain::default();
    h.ethernet = eth(0x86dd);
    h.ipv6 = ip6(17);
    h.udp = udp_h(0x1234);
    let payloads = Payloads { lldp: None, udp6_checksum: Some(0x1235) };
    let lines = headers(h, &[0u8; 62], payloads);
    assert_eq!(lines.len(), 3);
    assert_eq!(lines[2].text(), "UDP  | 53 > 5353 len 20 chk 4660 != 4661");
    assert_eq!(style_of(&lines[2], "4660"), Style::Red);
}

#[test]
fn udp_over_ipv6_with_correct_checksum_is_plain() {
    let mut h = HeaderChain::default();
    h.ipv6 = ip6(17);
    h.udp = udp_h(0x1234);
    let payloads = Payloads { lldp: None, udp6_checksum: Some(0x1234) };
    let lines = headers(h, &[], payloads);
    assert_eq!(lines[1].text(), "UDP  | 53 > 5353 len 20 chk 4660");
}

#[test]
fn udp_over_ipv4_is_not_held_against_a_checksum() {
    let mut h = HeaderChain::default();
    h.ipv4 = ip4(17);
    h.udp = udp_h(0x1234);
    let payloads = Payloads { lldp: None, udp6_checksum: Some(1) };
    let lines = headers(h, &[], payloads);
    assert_eq!(lines[1].text(), "UDP  | 53 > 5353 len 20 chk 4660");
}

#[test]
fn lldp_is_rendered_in_the_chain() {
    let mut h = HeaderChain::default();
    h.ethernet = eth(0x88cc);
    h.lldp = LldpHeader { valid: true };
    let payloads = Payloads { lldp: Some(Ok(pdu())), udp6_checksum: None };
    let lines = headers(h, &[0u8; 30], payloads);
    assert_eq!(
        texts(&lines),
        vec![
            "Eth  | AA:BB:CC:DD:EE:FF > 11:22:33:44:55:66 et Lldp len 30",
            "Lldp | ChassisID chassis-1",
            "     | PortId port-7",
            "     | TTL 120",
        ]
    );
    let mut h = HeaderChain::default();
    h.ethernet = eth(0x88cc);
    h.lldp = LldpHeader { valid: true };
    h.arp = arp_h(1);
    let payloads = Payloads { lldp: Some(Err(String::from("bad tlv"))), udp6_checksum: None };
    let lines = headers(h, &[0u8; 30], payloads);
    assert_eq!(lines.len(), 3);
    assert_eq!(lines[1].text(), "<unable to parse lldp packet: bad tlv>");
    assert!(lines[2].text().starts_with("Arp  |"));
    let mut h = HeaderChain::default();
    h.ethernet = eth(0x88cc);
    let payloads = Payloads { lldp: Some(Ok(pdu())), udp6_checksum: None };
    assert_eq!(headers(h, &[0u8; 30], payloads).len(), 1);
}

#[test]
fn lldp_without_a_decoded_unit_is_reported_inline() {
    let mut h = HeaderChain::default();
    h.ethernet = eth(0x88cc);
    h.lldp = LldpHeader { valid: true };
    h.arp = arp_h(1);
    let lines = headers(h, &[0u8; 30], Payloads::default());
    assert_eq!(lines.len(), 3);
    assert_eq!(lines[1].text(), "<unable to parse lldp packet: not decoded>");
    assert!(lines[2].text().starts_with("Arp  |"));
}

#[test]
fn parts_of_the_frame_are_bounded_by_its_length() {
    let mut h = HeaderChain::default();
    h.ethernet = eth(0x88cc);
    h.lldp = LldpHeader { valid: true };
    let frame: Vec<u8> = (0u8..20).collect();
    assert_eq!(h.lldp_bytes(&frame), Some(&frame[14..]));
    assert_eq!(h.lldp_bytes(&frame[..14]), Some(&frame[14..14]));
    assert_eq!(h.lldp_bytes(&frame[..13]), None);
    assert_eq!(h.udp6_bytes(&frame), None);
    assert_eq!(h.ddm_discovery_bytes(&frame), None);
    let mut h = HeaderChain::default();
    h.ethernet = eth(0x86dd);
    h.ipv6 = ip6(17);
    h.udp = udp_h(1);
    h.ddm_discovery = ddm_h(1, 0, 0);
    let frame: Vec<u8> = (0u8..70).collect();
    assert_eq!(h.udp6_bytes(&frame), Some(&frame[14..]));
    assert_eq!(h.udp6_bytes(&frame[..10]), None);
    assert_eq!(h.lldp_bytes(&frame), None);
    assert_eq!(h.ddm_discovery_bytes(&frame), Some(&frame[62..]));
    assert_eq!(h.ddm_discovery_bytes(&frame[..61]), None);
}

#[test]
fn running_offset_through_the_inner_frame() {
    let mut h = HeaderChain::default();
    assert_eq!(h.inner_offset(), 0);
    assert_eq!(h.end_offset(), 0);
    h.ethernet = eth(0x86dd);
    h.ipv6 = ip6(17);
    h.udp = udp_h(1);
    assert_eq!(h.inner_offset(), 14 + 40 + 8);
    h.geneve = GeneveHeader {
        valid: true,
        version: 0,
        opt_len: 0,
        ctrl: false,
        crit: false,
        protocol: 0x6558,
        vni: 1,
    };
    assert_eq!(h.inner_offset(), 14 + 40 + 8 + 8);
    assert_eq!(h.end_offset(), 70);
    h.inner_eth = eth(0x86dd);
    assert_eq!(h.end_offset(), 70 + 14);
    h.inner_ipv6 = ip6(6);
    assert_eq!(h.end_offset(), 70 + 14 + 40);
    h.inner_tcp = tcp_h(8, 0);
    assert_eq!(h.end_offset(), 70 + 14 + 40 + 32);
    h.inner_icmp = icmp_h(128, 0);
    h.inner_echo = EchoHeader { valid: true, id: 0, seq: 0 };
    assert_eq!(h.end_offset(), 70 + 14 + 40 + 8 + 32);
    h.inner_ipv4 = ip4(6);
    h.inner_ipv4.ihl = 7;
    assert_eq!(h.end_offset(), 70 + 14 + 28 + 8 + 32);
    h.inner_arp = arp_h(1);
    h.inner_udp = udp_h(0);
    h.bfd = bfd_h(0, 3);
    h.ddm_discovery = ddm_h(0, 0, 0);
    assert_eq!(h.inner_offset(), 70 + 24 + 4);
    assert_eq!(h.end_offset(), 98 + 14 + 28 + 28 + 8 + 32 + 8);
}

#[test]
fn tunnel_is_followed_by_the_inner_frame() {
    let mut h = HeaderChain::default();
    h.ethernet = eth(0x86dd);
    h.ipv6 = ip6(17);
    h.udp = udp_h(3);
    h.geneve = GeneveHeader {
        valid: true,
        version: 0,
        opt_len: 0,
        ctrl: false,
        crit: false,
        protocol: 0x6558,
        vni: 7,
    };
    h.inner_eth = eth(0x0800);
    h.inner_ipv4 = ip4(6);
    h.inner_tcp = tcp_h(5, 0x02);
    h.inner_udp = udp_h(8);
    let lines = headers(h, &[0u8; 128], Payloads::default());
    assert_eq!(
        texts(&lines),
        vec![
            "Eth  | AA:BB:CC:DD:EE:FF > 11:22:33:44:55:66 et IPv6 len 128",
            "Ip6  | fe80::1 > ff02::1 tc 0 fl 12345 len 64 ttl 255 proto Udp",
            "UDP  | 53 > 5353 len 20 chk 3",
            "Gnv  | 7 ver 0 olen 0 ctrl false crit false proto Ethernet",
            "-----|",
            "Eth  | AA:BB:CC:DD:EE:FF > 11:22:33:44:55:66 et IPv4",
            "Ip4  | 10.0.0.1 > 10.0.0.2 ihl 5 ds 0 len 84 id 4660 flags DF fo 0 ttl 64 chk 48879 proto Tcp",
            "TCP  | 443 > 51000 seq 1 ack 2 off 5 res 0 flags SYN win 65535 chk 1 urg 0",
            "UDP  | 53 > 5353 len 20 chk 8",
        ]
    );
    assert_eq!(lines[4].spans[0].style, Style::Dimmed);
}

#[test]
fn inner_frame_with_arp_and_icmp6() {
    let mut h = HeaderChain::default();
    h.inner_arp = arp_h(2);
    h.inner_ipv6 = ip6(58);
    h.inner_icmp = icmp_h(129, 0);
    h.inner_echo = EchoHeader { valid: true, id: 3, seq: 4 };
    let payloads = Payloads { lldp: None, udp6_checksum: Some(1) };
    let lines = headers(h, &[], payloads);
    assert_eq!(lines.len(), 4);
    assert!(lines[0].text().ends_with("op Reply ht Ethernet pt IPv4 hlen 6 plen 4"));
    assert_eq!(lines[2].text(), "ICMP6| type EchoReply code 0 chk 9");
    assert_eq!(lines[3].text(), "Echo | id 3 seq 4");
}

#[test]
fn bfd_and_sidecar_in_the_chain() {
    let mut h = HeaderChain::default();
    h.ethernet = eth(0x0901);
    h.sidecar = SidecarHeader {
        valid: true,
        sc_code: 2,
        sc_ingress: 1,
        sc_egress: 2,
        sc_ether_type: 0x0800,
    };
    h.ipv4 = ip4(17);
    h.udp = udp_h(0);
    h.bfd = bfd_h(0, 3);
    let lines = headers(h, &[0u8; 90], Payloads::default());
    assert_eq!(lines.len(), 5);
    assert_eq!(lines[1].text(), "Sc   | IcmpNeeded ingress 1 egress 2 et IPv4");
    assert_eq!(
        lines[4].text(),
        "Bfd  | ver 1 status Up dm 3 len 24 m 1 y 2 dtx 1000 rtx 2000 rex 0"
    );
}

#[test]
fn dump_rows_get_their_margins() {
    assert_eq!(texts(&dump("")), vec!["-----| "]);
    assert_eq!(texts(&dump("abc")), vec!["-----| abc"]);
    assert_eq!(texts(&dump("a\nb\nc")), vec!["-----| a", "     | b", "     | c"]);
    assert_eq!(texts(&dump("a\n")), vec!["-----| a", "     | "]);
    assert_eq!(texts(&dump("\n\nx")), vec!["-----| ", "     | ", "     | x"]);
    let lines = dump("row");
    assert_eq!(lines[0].spans.len(), 1);
    assert_eq!(lines[0].spans[0].style, Style::Dimmed);
}

#[test]
fn frame_ends_with_the_separator() {
    let mut h = HeaderChain::default();
    h.udp = udp_h(1);
    let lines = frame(h, &[1, 2, 3], Payloads::default(), false);
    assert_eq!(texts(&lines), vec!["UDP  | 53 > 5353 len 20 chk 1", "=====|"]);
    let lines = frame(HeaderChain::default(), &[], Payloads::default(), false);
    assert_eq!(texts(&lines), vec!["=====|"]);
}

#[test]
fn frame_with_hex_dump() {
    let bytes: Vec<u8> = (0u8..16).collect();
    let lines = frame(HeaderChain::default(), &bytes, Payloads::default(), true);
    assert_eq!(
        texts(&lines),
        vec![
            "-----| 0000:   0001 0203 0405 0607  0809 0a0b 0c0d 0e0f   ................",
            "=====|",
        ]
    );
    let mut bytes: Vec<u8> = (0x41u8..0x51).collect();
    bytes.extend_from_slice(&[0x61, 0x62, 0x63, 0x64, 0x65, 0x66, 0x67, 0x68]);
    bytes.extend_from_slice(&[0x69, 0x6a, 0x6b, 0x6c, 0x6d, 0x6e, 0x6f, 0x70]);
    let mut h = HeaderChain::default();
    h.udp = udp_h(1);
    let lines = frame(h, &bytes, Payloads::default(), true);
    assert_eq!(
        texts(&lines),
        vec![
            "UDP  | 53 > 5353 len 20 chk 1",
            "-----| 0000:   4142 4344 4546 4748  494a 4b4c 4d4e 4f50   ABCDEFGHIJKLMNOP",
            "     | 0010:   6162 6364 6566 6768  696a 6b6c 6d6e 6f70   abcdefghijklmnop",
            "=====|",
        ]
    );
}

#[test]
fn frame_with_hex_dump_of_nothing() {
    let lines = frame(HeaderChain::default(), &[], Payloads::default(), true);
    assert_eq!(texts(&lines), vec!["-----| ", "=====|"]);
}

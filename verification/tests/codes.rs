use overwatch::codes::{
    Alp, ArpHwType, ArpOpcode, BfdDiagnostic, BfdStatus, DdmRouterKind, Ethertype, Icmp6DUCode,
    Icmp6NodeInformationQueryCode, Icmp6NodeInformationResponseCode, Icmp6ParameterProblemCode,
    Icmp6RouterRenumberingCode, Icmp6TimeExceededCode, Icmp6Type, IcmpDUCode,
    IcmpExtendedEchoReplyCode, IcmpParameterProblemCode, IcmpRedirectMessageCode,
    IcmpTimeExceededCode, IcmpType, IpProto, SidecarCode,
};

#[test]
fn ethertype_codes() {
    assert_eq!(Ethertype::from_code(0x0800), Some(Ethertype::IPv4));
    assert_eq!(Ethertype::from_code(0x86dd), Some(Ethertype::IPv6));
    assert_eq!(Ethertype::from_code(0x0806), Some(Ethertype::Arp));
    assert_eq!(Ethertype::from_code(0x0842), Some(Ethertype::Wol));
    assert_eq!(Ethertype::from_code(0x8100), Some(Ethertype::Vlan));
    assert_eq!(Ethertype::from_code(0x88a8), Some(Ethertype::Pbr));
    assert_eq!(Ethertype::from_code(0x88cc), Some(Ethertype::Lldp));
    assert_eq!(Ethertype::from_code(0x9100), Some(Ethertype::QnQ));
    assert_eq!(Ethertype::from_code(0x0901), Some(Ethertype::Sidecar));
    assert_eq!(Ethertype::from_code(0x6558), Some(Ethertype::Ethernet));
    assert_eq!(Ethertype::from_code(0), None);
    assert_eq!(Ethertype::from_code(0x0801), None);
    assert_eq!(Ethertype::IPv4.code(), 0x0800);
    assert_eq!(Ethertype::Sidecar.code(), 0x0901);
    assert_eq!(Ethertype::IPv4.name(), "IPv4");
    assert_eq!(Ethertype::QnQ.name(), "QnQ");
    assert_eq!(format!("{:?}", Ethertype::Lldp), Ethertype::Lldp.name());
}

#[test]
fn every_ethertype_round_trips() {
    let mut known = 0;
    for code in 0..=u16::MAX {
        if let Some(e) = Ethertype::from_code(code) {
            assert_eq!(e.code(), code);
            assert_eq!(format!("{:?}", e), e.name());
            known += 1;
        }
    }
    assert_eq!(known, 10);
}

#[test]
fn every_ip_protocol_round_trips() {
    let mut known = 0;
    for code in 0..=u8::MAX {
        if let Some(p) = IpProto::from_code(code) {
            assert_eq!(p.code(), code);
            assert_eq!(format!("{:?}", p), p.name());
            known += 1;
        }
    }
    assert_eq!(known, 20);
    assert_eq!(IpProto::from_code(6), Some(IpProto::Tcp));
    assert_eq!(IpProto::from_code(17), Some(IpProto::Udp));
    assert_eq!(IpProto::from_code(58), Some(IpProto::Icmp6));
    assert_eq!(IpProto::from_code(3), None);
}

#[test]
fn every_icmp_type_round_trips() {
    let mut known = 0;
    for code in 0..=u8::MAX {
        if let Some(t) = IcmpType::from_code(code) {
            assert_eq!(t.code(), code);
            assert_eq!(format!("{:?}", t), t.name());
            known += 1;
        }
    }
    assert_eq!(known, 46);
    assert_eq!(IcmpType::from_code(41), None);
    assert_eq!(IcmpType::from_code(44), None);
    assert_eq!(IcmpType::from_code(8), Some(IcmpType::Echo));
    assert_eq!(IcmpType::from_code(255), Some(IcmpType::Reserved));
}

#[test]
fn every_icmp6_type_round_trips() {
    let mut known = 0;
    for code in 0..=u8::MAX {
        if let Some(t) = Icmp6Type::from_code(code) {
            assert_eq!(t.code(), code);
            assert_eq!(format!("{:?}", t), t.name());
            known += 1;
        }
    }
    assert_eq!(known, 45);
    assert_eq!(Icmp6Type::from_code(41), None);
    assert_eq!(Icmp6Type::from_code(135), Some(Icmp6Type::NeighborSolicitation));
}

#[test]
fn small_tables_round_trip() {
    let mut counts = [0usize; 18];
    for code in 0..=u8::MAX {
        if let Some(c) = SidecarCode::from_code(code) {
            assert_eq!(c.code(), code);
            assert_eq!(format!("{:?}", c), c.name());
            counts[0] += 1;
        }
        if let Some(c) = DdmRouterKind::from_code(code) {
            assert_eq!(c.code(), code);
            assert_eq!(format!("{:?}", c), c.name());
            counts[1] += 1;
        }
        if let Some(c) = Alp::from_code(code) {
            assert_eq!(c.code(), code);
            assert_eq!(format!("{:?}", c), c.name());
            counts[2] += 1;
        }
        if let Some(c) = IcmpDUCode::from_code(code) {
            assert_eq!(c.code(), code);
            assert_eq!(format!("{:?}", c), c.name());
            counts[3] += 1;
        }
        if let Some(c) = IcmpRedirectMessageCode::from_code(code) {
            assert_eq!(c.code(), code);
            assert_eq!(format!("{:?}", c), c.name());
            counts[4] += 1;
        }
        if let Some(c) = IcmpTimeExceededCode::from_code(code) {
            assert_eq!(c.code(), code);
            assert_eq!(format!("{:?}", c), c.name());
            counts[5] += 1;
        }
        if let Some(c) = IcmpParameterProblemCode::from_code(code) {
            assert_eq!(c.code(), code);
            assert_eq!(format!("{:?}", c), c.name());
            counts[6] += 1;
        }
        if let Some(c) = IcmpExtendedEchoReplyCode::from_code(code) {
            assert_eq!(c.code(), code);
            assert_eq!(format!("{:?}", c), c.name());
            counts[7] += 1;
        }
        if let Some(c) = Icmp6DUCode::from_code(code) {
            assert_eq!(c.code(), code);
            assert_eq!(format!("{:?}", c), c.name());
            counts[8] += 1;
        }
        if let Some(c) = Icmp6TimeExceededCode::from_code(code) {
            assert_eq!(c.code(), code);
            assert_eq!(format!("{:?}", c), c.name());
            counts[9] += 1;
        }
        if let Some(c) = Icmp6ParameterProblemCode::from_code(code) {
            assert_eq!(c.code(), code);
            assert_eq!(format!("{:?}", c), c.name());
            counts[10] += 1;
        }
        if let Some(c) = Icmp6RouterRenumberingCode::from_code(code) {
            assert_eq!(c.code(), code);
            assert_eq!(format!("{:?}", c), c.name());
            counts[11] += 1;
        }
        if let Some(c) = Icmp6NodeInformationQueryCode::from_code(code) {
            assert_eq!(c.code(), code);
            assert_eq!(format!("{:?}", c), c.name());
            counts[12] += 1;
        }
        if let Some(c) = Icmp6NodeInformationResponseCode::from_code(code) {
            assert_eq!(c.code(), code);
            assert_eq!(format!("{:?}", c), c.name());
            counts[13] += 1;
        }
        if let Some(c) = BfdDiagnostic::from_code(code) {
            assert_eq!(c.code(), code);
            assert_eq!(format!("{:?}", c), c.name());
            counts[14] += 1;
        }
        if let Some(c) = BfdStatus::from_code(code) {
            assert_eq!(c.code(), code);
            assert_eq!(format!("{:?}", c), c.name());
            counts[15] += 1;
        }
    }
    for code in 0..=u16::MAX {
        if let Some(c) = ArpOpcode::from_code(code) {
            assert_eq!(c.code(), code);
            assert_eq!(format!("{:?}", c), c.name());
            counts[16] += 1;
        }
        if let Some(c) = ArpHwType::from_code(code) {
            assert_eq!(c.code(), code);
            assert_eq!(format!("{:?}", c), c.name());
            counts[17] += 1;
        }
    }
    assert_eq!(counts, [6, 2, 6, 16, 4, 2, 3, 5, 8, 2, 3, 3, 3, 3, 9, 4, 2, 1]);
}

#[test]
fn chosen_codes_and_names() {
    assert_eq!(SidecarCode::from_code(3), Some(SidecarCode::ArpNeeded));
    assert_eq!(ArpOpcode::from_code(1), Some(ArpOpcode::Request));
    assert_eq!(ArpOpcode::from_code(2), Some(ArpOpcode::Reply));
    assert_eq!(ArpOpcode::from_code(0), None);
    assert_eq!(ArpHwType::from_code(1), Some(ArpHwType::Ethernet));
    assert_eq!(DdmRouterKind::from_code(0), Some(DdmRouterKind::Server));
    assert_eq!(DdmRouterKind::from_code(1), Some(DdmRouterKind::Transit));
    assert_eq!(DdmRouterKind::from_code(2), None);
    assert_eq!(Alp::from_code(0), None);
    assert_eq!(Alp::Geneve.code(), 1);
    assert_eq!(Alp::Bfd.code(), 6);
    assert_eq!(Alp::DdmDiscovery.name(), "DdmDiscovery");
    assert_eq!(Icmp6RouterRenumberingCode::from_code(255).map(|c| c.name()), Some("SequenceNumberReset"));
    assert_eq!(BfdDiagnostic::from_code(0), Some(BfdDiagnostic::NoDiagnostic));
    assert_eq!(BfdDiagnostic::from_code(9), None);
    assert_eq!(BfdStatus::from_code(3), Some(BfdStatus::Up));
    assert_eq!(BfdStatus::from_code(4), None);
}

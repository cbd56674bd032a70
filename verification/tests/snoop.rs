use overwatch::addr::{IpAddr, Ipv4Addr, Ipv6Addr};
use overwatch::cli::Snoop;
use overwatch::codes::{Alp, Ethertype, IpProto};
use overwatch::snoop::{
    app_proto, arp_only, dst_port, ethtype_only, init_pipeline, install_filters, ip_proto, port,
    set_ip4_dst, set_ip4_host, set_ip4_src, set_ip6_dst, set_ip6_host, set_ip6_src, set_ip_dst,
    set_ip_host, set_ip_src, src_port, v4_only, v6_only, vlan_only, vlan_vid, Action, MatchEntry,
    Pipeline, Table, DROP_PRIORITY, KEEP_PRIORITY,
};

fn keep(table: Table, key: Vec<u8>) -> MatchEntry {
    MatchEntry { table, action: Action::Keep, key, params: vec![], priority: 100 }
}

fn fallback(table: Table, key: Vec<u8>) -> MatchEntry {
    MatchEntry { table, action: Action::Drop, key, params: vec![], priority: 0 }
}

fn cfg() -> Snoop {
    Snoop::new(String::from("net0"))
}

fn count(p: &Pipeline, table: Table, action: Action, priority: u32) -> usize {
    p.entries()
        .iter()
        .filter(|e| e.table == table && e.action == action && e.priority == priority)
        .count()
}

#[test]
fn priorities_of_the_two_tiers() {
    assert_eq!(KEEP_PRIORITY, 100);
    assert_eq!(DROP_PRIORITY, 0);
}

#[test]
fn empty_specification_installs_nothing() {
    let p = init_pipeline(&cfg());
    assert_eq!(p.entries().len(), 0);
    let mut c = cfg();
    c.hex = true;
    assert_eq!(init_pipeline(&c).entries().len(), 0);
}

#[test]
fn ip_protocol_filter_has_one_keep_and_one_drop_per_table() {
    let mut c = cfg();
    c.ip_proto = vec![IpProto::Tcp];
    let p = init_pipeline(&c);
    assert_eq!(
        p.entries(),
        &vec![
            keep(Table::Ipv4Proto, vec![1, 6]),
            keep(Table::Ipv6Proto, vec![1, 6]),
            fallback(Table::Ipv4Proto, vec![0, 6]),
            fallback(Table::Ipv6Proto, vec![0, 6]),
        ]
    );
    for t in [Table::Ipv4Proto, Table::Ipv6Proto] {
        assert_eq!(count(&p, t, Action::Keep, 100), 1);
        assert_eq!(count(&p, t, Action::Drop, 0), 1);
    }
}

#[test]
fn single_value_filters_have_one_keep_and_one_drop() {
    let mut p = Pipeline::new();
    src_port(&mut p, 0x1f90, false);
    assert_eq!(
        p.entries(),
        &vec![
            keep(Table::PortsSrc, vec![1, 0x90, 0x1f]),
            fallback(Table::PortsSrc, vec![0, 0x90, 0x1f]),
        ]
    );
    let mut p = Pipeline::new();
    dst_port(&mut p, 443, true);
    assert_eq!(
        p.entries(),
        &vec![
            keep(Table::InnerPortsDst, vec![1, 0xbb, 0x01]),
            fallback(Table::InnerPortsDst, vec![0, 0xbb, 0x01]),
        ]
    );
    let mut p = Pipeline::new();
    app_proto(&mut p, 6, false);
    assert_eq!(
        p.entries(),
        &vec![keep(Table::AppProto, vec![1, 6]), fallback(Table::AppProto, vec![0, 6])]
    );
    let mut p = Pipeline::new();
    app_proto(&mut p, 1, true);
    assert_eq!(
        p.entries(),
        &vec![keep(Table::InnerAppProto, vec![1, 1]), fallback(Table::InnerAppProto, vec![0, 1])]
    );
    let mut p = Pipeline::new();
    vlan_vid(&mut p, 100);
    assert_eq!(
        p.entries(),
        &vec![keep(Table::VlanVid, vec![1, 100, 0]), fallback(Table::VlanVid, vec![0, 100, 0])]
    );
    let mut p = Pipeline::new();
    ethtype_only(&mut p, 0x88cc, false);
    assert_eq!(
        p.entries(),
        &vec![
            keep(Table::EthEthertype, vec![1, 0xcc, 0x88]),
            fallback(Table::EthEthertype, vec![0, 0xcc, 0x88]),
        ]
    );
    assert_eq!(count(&p, Table::EthEthertype, Action::Keep, 100), 1);
    assert_eq!(count(&p, Table::EthEthertype, Action::Drop, 0), 1);
}

#[test]
fn ip_protocol_filter_for_the_inner_frame() {
    let mut p = Pipeline::new();
    ip_proto(&mut p, 17, true);
    assert_eq!(
        p.entries(),
        &vec![
            keep(Table::InnerIpv4Proto, vec![1, 17]),
            keep(Table::InnerIpv6Proto, vec![1, 17]),
            fallback(Table::InnerIpv4Proto, vec![0, 17]),
            fallback(Table::InnerIpv6Proto, vec![0, 17]),
        ]
    );
}

#[test]
fn ethertype_shorthands() {
    let mut p = Pipeline::new();
    vlan_only(&mut p);
    assert_eq!(p.entries()[0], keep(Table::EthEthertype, vec![1, 0x00, 0x81]));
    let mut p = Pipeline::new();
    v4_only(&mut p, false);
    assert_eq!(p.entries()[0], keep(Table::EthEthertype, vec![1, 0x00, 0x08]));
    let mut p = Pipeline::new();
    v6_only(&mut p, true);
    assert_eq!(p.entries()[0], keep(Table::InnerEthEthertype, vec![1, 0xdd, 0x86]));
    assert_eq!(p.entries()[1], fallback(Table::InnerEthEthertype, vec![0, 0xdd, 0x86]));
    let mut p = Pipeline::new();
    arp_only(&mut p, false);
    assert_eq!(p.entries()[0], keep(Table::EthEthertype, vec![1, 0x06, 0x08]));
    assert_eq!(p.entries().len(), 2);
}

#[test]
fn address_keys_are_stored_in_reverse() {
    let a = Ipv4Addr { octets: [10, 0, 0, 5] };
    let mut p = Pipeline::new();
    set_ip4_src(&mut p, a, false);
    assert_eq!(
        p.entries(),
        &vec![
            keep(Table::Ipv4Src, vec![1, 5, 0, 0, 10]),
            fallback(Table::Ipv4Src, vec![0, 5, 0, 0, 10]),
        ]
    );
    let mut p = Pipeline::new();
    set_ip4_dst(&mut p, a, true);
    assert_eq!(
        p.entries(),
        &vec![
            keep(Table::InnerIpv4Dst, vec![1, 5, 0, 0, 10]),
            fallback(Table::InnerIpv4Dst, vec![0, 5, 0, 0, 10]),
        ]
    );
    let mut octets = [0u8; 16];
    for i in 0..16 {
        octets[i] = (i + 1) as u8;
    }
    let b = Ipv6Addr { octets };
    let mut p = Pipeline::new();
    set_ip6_src(&mut p, b, false);
    let mut key = vec![1u8];
    key.extend((1u8..=16).rev());
    let mut free = key.clone();
    free[0] = 0;
    assert_eq!(
        p.entries(),
        &vec![keep(Table::Ipv6Src, key.clone()), fallback(Table::Ipv6Src, free.clone())]
    );
    let mut p = Pipeline::new();
    set_ip6_dst(&mut p, b, true);
    assert_eq!(
        p.entries(),
        &vec![keep(Table::InnerIpv6Dst, key), fallback(Table::InnerIpv6Dst, free)]
    );
}

#[test]
fn address_filters_pick_the_table_of_the_family() {
    let a = IpAddr::V4(Ipv4Addr { octets: [192, 168, 1, 2] });
    let b = IpAddr::V6(Ipv6Addr { octets: [0xfe; 16] });
    let mut p = Pipeline::new();
    set_ip_src(&mut p, a, false);
    set_ip_src(&mut p, b, false);
    set_ip_dst(&mut p, a, false);
    set_ip_dst(&mut p, b, true);
    set_ip_host(&mut p, a, true);
    set_ip_host(&mut p, b, false);
    let tables: Vec<Table> = p.entries().iter().map(|e| e.table).collect();
    assert_eq!(
        tables,
        vec![
            Table::Ipv4Src,
            Table::Ipv4Src,
            Table::Ipv6Src,
            Table::Ipv6Src,
            Table::Ipv4Dst,
            Table::Ipv4Dst,
            Table::InnerIpv6Dst,
            Table::InnerIpv6Dst,
            Table::InnerIpv4Host,
            Table::InnerIpv4Host,
            Table::InnerIpv4Host,
            Table::Ipv6Host,
            Table::Ipv6Host,
            Table::Ipv6Host,
        ]
    );
}

#[test]
fn host_filter_has_two_role_swapped_keeps_and_one_drop() {
    let mut c = cfg();
    c.ip_host = vec![IpAddr::V4(Ipv4Addr { octets: [10, 0, 0, 5] })];
    let p = init_pipeline(&c);
    assert_eq!(
        p.entries(),
        &vec![
            keep(Table::Ipv4Host, vec![1, 5, 0, 0, 10, 0, 5, 0, 0, 10]),
            keep(Table::Ipv4Host, vec![0, 5, 0, 0, 10, 1, 5, 0, 0, 10]),
            fallback(Table::Ipv4Host, vec![0, 5, 0, 0, 10, 0, 5, 0, 0, 10]),
        ]
    );
    assert_eq!(count(&p, Table::Ipv4Host, Action::Keep, 100), 2);
    assert_eq!(count(&p, Table::Ipv4Host, Action::Drop, 0), 1);
}

#[test]
fn host_filter_for_ipv6() {
    let mut octets = [0u8; 16];
    octets[15] = 1;
    let mut p = Pipeline::new();
    set_ip6_host(&mut p, Ipv6Addr { octets }, true);
    let mut r = vec![0u8; 16];
    r[0] = 1;
    let key = |src: u8, dst: u8| {
        let mut k = vec![src];
        k.extend_from_slice(&r);
        k.push(dst);
        k.extend_from_slice(&r);
        k
    };
    assert_eq!(
        p.entries(),
        &vec![
            keep(Table::InnerIpv6Host, key(1, 0)),
            keep(Table::InnerIpv6Host, key(0, 1)),
            fallback(Table::InnerIpv6Host, key(0, 0)),
        ]
    );
    for e in p.entries().iter() {
        assert_eq!(e.key.len(), 34);
    }
    let mut p = Pipeline::new();
    set_ip4_host(&mut p, Ipv4Addr { octets: [1, 2, 3, 4] }, true);
    assert_eq!(p.entries()[0], keep(Table::InnerIpv4Host, vec![1, 4, 3, 2, 1, 0, 4, 3, 2, 1]));
}

#[test]
fn host_keys_hold_the_address_in_both_fields() {
    for octets in [[10u8, 0, 0, 5], [0, 0, 0, 0], [255, 255, 255, 255], [192, 168, 1, 0]] {
        for encap in [false, true] {
            let mut p = Pipeline::new();
            set_ip4_host(&mut p, Ipv4Addr { octets }, encap);
            let r = [octets[3], octets[2], octets[1], octets[0]];
            let tags = [(1u8, 0u8), (0, 1), (0, 0)];
            assert_eq!(p.entries().len(), 3);
            for (e, (src, dst)) in p.entries().iter().zip(tags.iter()) {
                let mut key = vec![*src];
                key.extend_from_slice(&r);
                key.push(*dst);
                key.extend_from_slice(&r);
                assert_eq!(e.key, key);
                assert_eq!(e.table, if encap { Table::InnerIpv4Host } else { Table::Ipv4Host });
            }
        }
    }
}

#[test]
fn port_keys_hold_the_port_in_both_fields() {
    for value in [0u16, 80, 443, 256, 65535] {
        for encap in [false, true] {
            let mut p = Pipeline::new();
            port(&mut p, value, encap);
            let b = value.to_le_bytes();
            let tags = [(1u8, 0u8, Action::Keep), (0, 1, Action::Keep), (0, 0, Action::Drop)];
            assert_eq!(p.entries().len(), 3);
            for (e, (src, dst, action)) in p.entries().iter().zip(tags.iter()) {
                assert_eq!(e.key, vec![*src, b[0], b[1], *dst, b[0], b[1]]);
                assert_eq!(e.action, *action);
                assert_eq!(e.table, if encap { Table::InnerPortsPort } else { Table::PortsPort });
            }
        }
    }
}

#[test]
fn port_filter_in_either_direction() {
    let mut p = Pipeline::new();
    port(&mut p, 179, false);
    assert_eq!(
        p.entries(),
        &vec![
            keep(Table::PortsPort, vec![1, 179, 0, 0, 179, 0]),
            keep(Table::PortsPort, vec![0, 179, 0, 1, 179, 0]),
            fallback(Table::PortsPort, vec![0, 179, 0, 0, 179, 0]),
        ]
    );
    let mut p = Pipeline::new();
    port(&mut p, 443, false);
    assert_eq!(
        p.entries(),
        &vec![
            keep(Table::PortsPort, vec![1, 187, 1, 0, 187, 1]),
            keep(Table::PortsPort, vec![0, 187, 1, 1, 187, 1]),
            fallback(Table::PortsPort, vec![0, 187, 1, 0, 187, 1]),
        ]
    );
    let mut p = Pipeline::new();
    port(&mut p, 0x0102, true);
    assert_eq!(p.entries()[1], keep(Table::InnerPortsPort, vec![0, 2, 1, 1, 2, 1]));
}

#[test]
fn several_values_share_one_fallback() {
    let mut c = cfg();
    c.vid = vec![10, 20, 30];
    let p = init_pipeline(&c);
    assert_eq!(
        p.entries(),
        &vec![
            keep(Table::VlanVid, vec![1, 10, 0]),
            fallback(Table::VlanVid, vec![0, 10, 0]),
            keep(Table::VlanVid, vec![1, 20, 0]),
            keep(Table::VlanVid, vec![1, 30, 0]),
        ]
    );
    assert_eq!(count(&p, Table::VlanVid, Action::Drop, 0), 1);
    assert_eq!(count(&p, Table::VlanVid, Action::Keep, 100), 3);
}

#[test]
fn duplicate_values_are_installed_once() {
    let mut c = cfg();
    c.alp = vec![Alp::Bgp, Alp::Bgp, Alp::Bfd, Alp::Bgp];
    let p = init_pipeline(&c);
    assert_eq!(
        p.entries(),
        &vec![
            keep(Table::AppProto, vec![1, 2]),
            fallback(Table::AppProto, vec![0, 2]),
            keep(Table::AppProto, vec![1, 6]),
        ]
    );
}

#[test]
fn shorthands_share_the_ethertype_table() {
    let mut c = cfg();
    c.eth_type = Some(Ethertype::IPv4);
    c.v4 = true;
    c.arp = true;
    let p = init_pipeline(&c);
    assert_eq!(
        p.entries(),
        &vec![
            keep(Table::EthEthertype, vec![1, 0x00, 0x08]),
            fallback(Table::EthEthertype, vec![0, 0x00, 0x08]),
            keep(Table::EthEthertype, vec![1, 0x06, 0x08]),
        ]
    );
}

#[test]
fn outer_dimensions_leave_the_inner_tables_alone() {
    let mut c = cfg();
    c.port = vec![80];
    let p = init_pipeline(&c);
    assert_eq!(
        p.entries(),
        &vec![
            keep(Table::PortsPort, vec![1, 80, 0, 0, 80, 0]),
            keep(Table::PortsPort, vec![0, 80, 0, 1, 80, 0]),
            fallback(Table::PortsPort, vec![0, 80, 0, 0, 80, 0]),
        ]
    );
    let mut c = cfg();
    c.eth_type = Some(Ethertype::Arp);
    c.src_port = vec![1];
    c.dst_port = vec![2];
    let p = init_pipeline(&c);
    let tables: Vec<Table> = p.entries().iter().map(|e| e.table).collect();
    assert_eq!(
        tables,
        vec![
            Table::EthEthertype,
            Table::EthEthertype,
            Table::PortsSrc,
            Table::PortsSrc,
            Table::PortsDst,
            Table::PortsDst,
        ]
    );
}

#[test]
fn inner_dimensions_fill_the_inner_tables_only() {
    let mut c = cfg();
    c.inner_src_port = vec![53];
    let p = init_pipeline(&c);
    assert_eq!(
        p.entries(),
        &vec![
            keep(Table::InnerPortsSrc, vec![1, 53, 0]),
            fallback(Table::InnerPortsSrc, vec![0, 53, 0]),
        ]
    );
    let mut c = cfg();
    c.inner_eth_type = vec![Ethertype::IPv4, Ethertype::Arp];
    c.inner_dst_port = vec![7];
    c.inner_port = vec![9];
    let p = init_pipeline(&c);
    assert_eq!(
        p.entries(),
        &vec![
            keep(Table::InnerEthEthertype, vec![1, 0x00, 0x08]),
            fallback(Table::InnerEthEthertype, vec![0, 0x00, 0x08]),
            keep(Table::InnerEthEthertype, vec![1, 0x06, 0x08]),
            keep(Table::InnerPortsDst, vec![1, 7, 0]),
            fallback(Table::InnerPortsDst, vec![0, 7, 0]),
            keep(Table::InnerPortsPort, vec![1, 9, 0, 0, 9, 0]),
            keep(Table::InnerPortsPort, vec![0, 9, 0, 1, 9, 0]),
            fallback(Table::InnerPortsPort, vec![0, 9, 0, 0, 9, 0]),
        ]
    );
}

#[test]
fn dimensions_are_compiled_in_order() {
    let mut c = cfg();
    c.ip_src = vec![IpAddr::V4(Ipv4Addr { octets: [10, 0, 0, 1] })];
    c.ip_dst = vec![IpAddr::V4(Ipv4Addr { octets: [10, 0, 0, 2] })];
    c.ip_proto = vec![IpProto::Udp];
    c.src_port = vec![53];
    c.dst_port = vec![54];
    c.port = vec![55];
    c.vlan = true;
    c.v6 = true;
    c.inner_ip_src = vec![IpAddr::V6(Ipv6Addr { octets: [1; 16] })];
    c.inner_ip_dst = vec![IpAddr::V6(Ipv6Addr { octets: [2; 16] })];
    c.inner_ip_host = vec![IpAddr::V6(Ipv6Addr { octets: [3; 16] })];
    c.inner_ip_proto = vec![IpProto::Icmp6];
    c.inner_src_port = vec![63];
    c.inner_dst_port = vec![64];
    c.inner_port = vec![65];
    c.inner_alp = vec![Alp::Http];
    c.inner_v4 = true;
    c.inner_v6 = true;
    c.inner_arp = true;
    let p = init_pipeline(&c);
    let tables: Vec<(Table, Action)> = p.entries().iter().map(|e| (e.table, e.action)).collect();
    assert_eq!(
        tables,
        vec![
            (Table::Ipv4Src, Action::Keep),
            (Table::Ipv4Src, Action::Drop),
            (Table::Ipv4Dst, Action::Keep),
            (Table::Ipv4Dst, Action::Drop),
            (Table::Ipv4Proto, Action::Keep),
            (Table::Ipv6Proto, Action::Keep),
            (Table::Ipv4Proto, Action::Drop),
            (Table::Ipv6Proto, Action::Drop),
            (Table::PortsSrc, Action::Keep),
            (Table::PortsSrc, Action::Drop),
            (Table::PortsDst, Action::Keep),
            (Table::PortsDst, Action::Drop),
            (Table::PortsPort, Action::Keep),
            (Table::PortsPort, Action::Keep),
            (Table::PortsPort, Action::Drop),
            (Table::EthEthertype, Action::Keep),
            (Table::EthEthertype, Action::Drop),
            (Table::EthEthertype, Action::Keep),
            (Table::InnerIpv6Src, Action::Keep),
            (Table::InnerIpv6Src, Action::Drop),
            (Table::InnerIpv6Dst, Action::Keep),
            (Table::InnerIpv6Dst, Action::Drop),
            (Table::InnerIpv6Host, Action::Keep),
            (Table::InnerIpv6Host, Action::Keep),
            (Table::InnerIpv6Host, Action::Drop),
            (Table::InnerIpv4Proto, Action::Keep),
            (Table::InnerIpv6Proto, Action::Keep),
            (Table::InnerIpv4Proto, Action::Drop),
            (Table::InnerIpv6Proto, Action::Drop),
            (Table::InnerPortsSrc, Action::Keep),
            (Table::InnerPortsSrc, Action::Drop),
            (Table::InnerPortsDst, Action::Keep),
            (Table::InnerPortsDst, Action::Drop),
            (Table::InnerPortsPort, Action::Keep),
            (Table::InnerPortsPort, Action::Keep),
            (Table::InnerPortsPort, Action::Drop),
            (Table::InnerAppProto, Action::Keep),
            (Table::InnerAppProto, Action::Drop),
            (Table::InnerEthEthertype, Action::Keep),
            (Table::InnerEthEthertype, Action::Drop),
            (Table::InnerEthEthertype, Action::Keep),
            (Table::InnerEthEthertype, Action::Keep),
        ]
    );
    for e in p.entries().iter() {
        assert_eq!(e.params.len(), 0);
        assert_eq!(e.priority, if e.action == Action::Keep { 100 } else { 0 });
    }
}

#[test]
fn compiling_twice_gives_identical_entries() {
    let mut c = cfg();
    c.ip_host = vec![
        IpAddr::V4(Ipv4Addr { octets: [10, 0, 0, 5] }),
        IpAddr::V6(Ipv6Addr { octets: [9; 16] }),
    ];
    c.ip_proto = vec![IpProto::Tcp, IpProto::Udp];
    c.port = vec![80, 443];
    c.arp = true;
    let first = init_pipeline(&c);
    let second = init_pipeline(&c);
    assert_eq!(first.entries(), second.entries());
    let third = init_pipeline(&c.clone());
    assert_eq!(first.entries(), third.entries());
}

#[test]
fn installing_a_specification_twice_changes_nothing() {
    let mut c = cfg();
    c.ip_src = vec![IpAddr::V4(Ipv4Addr { octets: [10, 0, 0, 5] })];
    c.port = vec![80, 443];
    c.inner_v6 = true;
    let mut p = Pipeline::new();
    install_filters(&mut p, &c);
    let once = p.entries().clone();
    assert_eq!(once.len(), 2 + 5 + 2);
    install_filters(&mut p, &c);
    assert_eq!(p.entries(), &once);
}

#[test]
fn install_refuses_what_is_held_already() {
    let mut p = Pipeline::new();
    p.install(Table::VlanVid, Action::Keep, vec![1, 2, 0], vec![], 100);
    p.install(Table::VlanVid, Action::Keep, vec![1, 2, 0], vec![], 100);
    assert_eq!(p.entries().len(), 1);
    p.install(Table::VlanVid, Action::Keep, vec![1, 2, 0], vec![], 99);
    p.install(Table::VlanVid, Action::Keep, vec![1, 2], vec![], 100);
    p.install(Table::VlanVid, Action::Keep, vec![1, 2, 0], vec![0], 100);
    p.install(Table::AppProto, Action::Keep, vec![1, 2, 0], vec![], 100);
    assert_eq!(p.entries().len(), 5);
    assert!(p.contains(&keep(Table::VlanVid, vec![1, 2, 0])));
    assert!(!p.contains(&keep(Table::VlanVid, vec![1, 3, 0])));
    assert!(keep(Table::VlanVid, vec![1]).same(&keep(Table::VlanVid, vec![1])));
    assert!(!keep(Table::VlanVid, vec![1]).same(&fallback(Table::VlanVid, vec![1])));
}

#[test]
fn a_table_holds_one_fallback() {
    let mut p = Pipeline::new();
    assert!(!p.has_fallback(Table::VlanVid));
    p.install(Table::VlanVid, Action::Drop, vec![0, 2, 0], vec![], 0);
    assert!(p.has_fallback(Table::VlanVid));
    assert!(!p.has_fallback(Table::AppProto));
    p.install(Table::VlanVid, Action::Drop, vec![0, 3, 0], vec![], 0);
    p.install(Table::VlanVid, Action::Drop, vec![0, 2, 0], vec![], 0);
    assert_eq!(p.entries(), &vec![fallback(Table::VlanVid, vec![0, 2, 0])]);
    p.install(Table::AppProto, Action::Drop, vec![0, 3], vec![], 0);
    assert_eq!(p.entries().len(), 2);
    let mut p = Pipeline::new();
    vlan_vid(&mut p, 5);
    vlan_vid(&mut p, 6);
    vlan_vid(&mut p, 5);
    assert_eq!(
        p.entries(),
        &vec![
            keep(Table::VlanVid, vec![1, 5, 0]),
            fallback(Table::VlanVid, vec![0, 5, 0]),
            keep(Table::VlanVid, vec![1, 6, 0]),
        ]
    );
}

#[test]
fn equality_and_either_installers() {
    let mut p = Pipeline::new();
    p.install_equality(Table::AppProto, &vec![7, 8, 9]);
    assert_eq!(
        p.entries(),
        &vec![
            keep(Table::AppProto, vec![1, 7, 8, 9]),
            fallback(Table::AppProto, vec![0, 7, 8, 9]),
        ]
    );
    let mut p = Pipeline::new();
    p.install_either(Table::PortsPort, &vec![7]);
    assert_eq!(
        p.entries(),
        &vec![
            keep(Table::PortsPort, vec![1, 7, 0, 7]),
            keep(Table::PortsPort, vec![0, 7, 1, 7]),
            fallback(Table::PortsPort, vec![0, 7, 0, 7]),
        ]
    );
}

use overwatch::addr::{
    bv_to_ipv4, bv_to_ipv6, bv_to_mac, AddrError, IpAddr, Ipv4Addr, Ipv6Addr, MacAddr,
};

fn v6(segments: [u16; 8]) -> Ipv6Addr {
    let mut octets = [0u8; 16];
    for i in 0..8 {
        octets[2 * i] = (segments[i] >> 8) as u8;
        octets[2 * i + 1] = (segments[i] & 0xff) as u8;
    }
    Ipv6Addr { octets }
}

#[test]
fn mac_is_rebuilt_in_reverse() {
    let m = bv_to_mac(&[0x66, 0x55, 0x44, 0x33, 0x22, 0x11]).unwrap();
    assert_eq!(m, MacAddr { bytes: [0x11, 0x22, 0x33, 0x44, 0x55, 0x66] });
}

#[test]
fn mac_of_wrong_length_is_refused() {
    assert_eq!(bv_to_mac(&[1, 2, 3, 4, 5]), Err(AddrError { expected: 6, found: 5 }));
    assert_eq!(bv_to_mac(&[]), Err(AddrError { expected: 6, found: 0 }));
    assert_eq!(bv_to_mac(&[1, 2, 3, 4, 5, 6, 7]), Err(AddrError { expected: 6, found: 7 }));
}

#[test]
fn ipv4_is_rebuilt_in_reverse() {
    let a = bv_to_ipv4(&[5, 0, 0, 10]).unwrap();
    assert_eq!(a, Ipv4Addr { octets: [10, 0, 0, 5] });
    assert_eq!(bv_to_ipv4(&[1, 2, 3]), Err(AddrError { expected: 4, found: 3 }));
    assert_eq!(bv_to_ipv4(&[1, 2, 3, 4, 5, 6]), Err(AddrError { expected: 4, found: 6 }));
}

#[test]
fn ipv6_is_rebuilt_in_reverse() {
    let mut raw = [0u8; 16];
    for i in 0..16 {
        raw[i] = i as u8;
    }
    let a = bv_to_ipv6(&raw).unwrap();
    assert_eq!(a.octets, [15, 14, 13, 12, 11, 10, 9, 8, 7, 6, 5, 4, 3, 2, 1, 0]);
    assert_eq!(bv_to_ipv6(&raw[..15]), Err(AddrError { expected: 16, found: 15 }));
    assert_eq!(bv_to_ipv6(&[1, 2, 3, 4]), Err(AddrError { expected: 16, found: 4 }));
}

#[test]
fn mac_text_is_upper_case_with_colons() {
    let m = MacAddr { bytes: [0xab, 0x0d, 0xef, 0x12, 0x34, 0x56] };
    assert_eq!(m.to_string(), "AB:0D:EF:12:34:56");
    let m = MacAddr { bytes: [0, 0, 0, 0, 0, 0] };
    assert_eq!(m.to_string(), "00:00:00:00:00:00");
    let m = MacAddr { bytes: [0xff; 6] };
    assert_eq!(m.to_string(), "FF:FF:FF:FF:FF:FF");
}

#[test]
fn ipv4_text_is_dotted_decimal() {
    assert_eq!(Ipv4Addr { octets: [10, 0, 0, 5] }.to_string(), "10.0.0.5");
    assert_eq!(Ipv4Addr { octets: [0, 0, 0, 0] }.to_string(), "0.0.0.0");
    assert_eq!(Ipv4Addr { octets: [255, 255, 255, 255] }.to_string(), "255.255.255.255");
    assert_eq!(Ipv4Addr { octets: [192, 168, 100, 1] }.to_string(), "192.168.100.1");
}

#[test]
fn ipv6_text_compresses_the_longest_zero_run() {
    assert_eq!(v6([0, 0, 0, 0, 0, 0, 0, 0]).to_string(), "::");
    assert_eq!(v6([0, 0, 0, 0, 0, 0, 0, 1]).to_string(), "::1");
    assert_eq!(v6([0xfe80, 0, 0, 0, 0, 0, 0, 1]).to_string(), "fe80::1");
    assert_eq!(v6([0x2001, 0xdb8, 0, 0, 0, 0, 0, 0]).to_string(), "2001:db8::");
    assert_eq!(
        v6([0x2001, 0xdb8, 0x85a3, 0, 0, 0x8a2e, 0x370, 0x7334]).to_string(),
        "2001:db8:85a3::8a2e:370:7334"
    );
    assert_eq!(v6([0xfd00, 0x1122, 0x3344, 0x101, 0, 0, 0, 0x5]).to_string(), "fd00:1122:3344:101::5");
}

#[test]
fn ipv6_text_takes_the_first_of_equal_runs() {
    assert_eq!(v6([1, 0, 0, 2, 0, 0, 3, 4]).to_string(), "1::2:0:0:3:4");
    assert_eq!(v6([1, 0, 0, 2, 0, 0, 0, 4]).to_string(), "1:0:0:2::4");
    assert_eq!(v6([0, 0, 1, 0, 0, 0, 0, 0]).to_string(), "0:0:1::");
    assert_eq!(v6([0, 0, 0, 1, 0, 0, 0, 2]).to_string(), "::1:0:0:0:2");
}

#[test]
fn ipv6_text_leaves_a_single_zero_alone() {
    assert_eq!(v6([1, 0, 2, 0, 3, 0, 4, 0]).to_string(), "1:0:2:0:3:0:4:0");
    assert_eq!(v6([1, 2, 3, 4, 5, 6, 7, 8]).to_string(), "1:2:3:4:5:6:7:8");
    assert_eq!(
        v6([0xffff, 0xffff, 0xffff, 0xffff, 0xffff, 0xffff, 0xffff, 0xffff]).to_string(),
        "ffff:ffff:ffff:ffff:ffff:ffff:ffff:ffff"
    );
    assert_eq!(v6([0, 1, 2, 3, 4, 5, 6, 7]).to_string(), "0:1:2:3:4:5:6:7");
}

#[test]
fn ipv6_text_of_a_mapped_ipv4_address() {
    assert_eq!(v6([0, 0, 0, 0, 0, 0xffff, 0xc000, 0x0280]).to_string(), "::ffff:192.0.2.128");
    assert_eq!(v6([0, 0, 0, 0, 0, 0xffff, 0, 0]).to_string(), "::ffff:0.0.0.0");
    assert_eq!(v6([0, 0, 0, 0, 0, 0, 0xc000, 0x0280]).to_string(), "::c000:280");
    assert_eq!(v6([0, 0, 0, 0, 1, 0xffff, 0xc000, 0x0280]).to_string(), "::1:ffff:c000:280");
}

#[test]
fn ipv6_text_of_more_addresses() {
    assert_eq!(
        v6([0xfe80, 0, 0, 0, 0x0202, 0xb3ff, 0xfe1e, 0x8329]).to_string(),
        "fe80::202:b3ff:fe1e:8329"
    );
    assert_eq!(v6([0x2001, 0xdb8, 0, 0, 1, 0, 0, 1]).to_string(), "2001:db8::1:0:0:1");
    assert_eq!(v6([0x2001, 0, 0, 1, 0, 0, 0, 1]).to_string(), "2001:0:0:1::1");
    assert_eq!(v6([0, 0, 0, 0, 0, 0xffff, 0x0a00, 0x0005]).to_string(), "::ffff:10.0.0.5");
    assert_eq!(v6([1, 0, 0, 0, 0, 0, 0, 0]).to_string(), "1::");
    assert_eq!(v6([0, 1, 0, 0, 0, 0, 0, 0]).to_string(), "0:1::");
    assert_eq!(v6([0, 0, 0, 0, 0, 0, 1, 0]).to_string(), "::1:0");
    assert_eq!(v6([0xff02, 0, 0, 0, 0, 1, 0xff00, 0x42]).to_string(), "ff02::1:ff00:42");
    assert_eq!(v6([0, 0xa, 0, 0xb, 0, 0xc, 0, 0xd]).to_string(), "0:a:0:b:0:c:0:d");
    assert_eq!(
        v6([0x1000, 0x0100, 0x0010, 0x0001, 0, 0, 0xabcd, 0xef01]).to_string(),
        "1000:100:10:1::abcd:ef01"
    );
}

#[test]
fn address_of_either_family_has_its_text() {
    assert_eq!(IpAddr::V4(Ipv4Addr { octets: [127, 0, 0, 1] }).to_string(), "127.0.0.1");
    assert_eq!(IpAddr::V6(v6([0xfe80, 0, 0, 0, 0, 0, 0, 0x10])).to_string(), "fe80::10");
}

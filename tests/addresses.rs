use netsim::address::{AddressError, MacAddress};
use netsim::ip::{IpAddr, Ipv4Addr, Ipv6Addr};

#[test]
fn mac_parse_colon_separated() {
    let m = MacAddress::parse("00:1A:2b:3C:4d:5E").unwrap();
    assert_eq!(m.to_bytes(), [0x00, 0x1A, 0x2B, 0x3C, 0x4D, 0x5E]);
}

#[test]
fn mac_parse_hyphen_separated() {
    let m = MacAddress::parse("ff-ee-dd-cc-bb-aa").unwrap();
    assert_eq!(m.to_bytes(), [0xFF, 0xEE, 0xDD, 0xCC, 0xBB, 0xAA]);
}

#[test]
fn mac_parse_mixed_separators() {
    let m = MacAddress::parse("01:23-45:67-89:AB").unwrap();
    assert_eq!(m.to_bytes(), [0x01, 0x23, 0x45, 0x67, 0x89, 0xAB]);
}

#[test]
fn mac_new_takes_owned_string() {
    let m = MacAddress::new("10:20:30:40:50:60".to_string()).unwrap();
    assert_eq!(m.to_bytes(), [0x10, 0x20, 0x30, 0x40, 0x50, 0x60]);
}

#[test]
fn mac_parse_rejects_malformed() {
    let bad = [
        "",
        "00:11:22:33:44",
        "00:11:22:33:44:55:66",
        "00:11:22:33:44:GG",
        "00.11.22.33.44.55",
        "0:11:22:33:44:555",
        "00:11:22:33:44:5",
        "00::11:22:33:44:5",
        "00:11:22:33:44:55 ",
        "é0:11:22:33:44:55",
    ];
    for s in bad.iter() {
        assert_eq!(MacAddress::parse(s), Err(AddressError::InvalidFormat), "{}", s);
    }
}

#[test]
fn mac_broadcast_and_zero() {
    let b = MacAddress::broadcast();
    assert!(b.is_broadcast());
    assert_eq!(b.to_bytes(), [0xFF; 6]);
    assert_eq!(MacAddress::parse("FF:FF:FF:FF:FF:FF").unwrap(), b);
    assert!(!MacAddress::zero().is_broadcast());
    assert!(!MacAddress::parse("FF:FF:FF:FF:FF:FE").unwrap().is_broadcast());
}

#[test]
fn mac_random_has_vendor_prefix() {
    for _ in 0..8 {
        let m = MacAddress::random();
        let b = m.to_bytes();
        assert_eq!(&b[0..3], &[0x00, 0x11, 0x22]);
    }
}

#[test]
fn mac_equality_is_by_bytes() {
    let a = MacAddress::parse("00:11:22:33:44:55").unwrap();
    let b = MacAddress::parse("00-11-22-33-44-55").unwrap();
    let c = MacAddress::from_bytes([0x00, 0x11, 0x22, 0x33, 0x44, 0x56]);
    assert_eq!(a, b);
    assert_ne!(a, c);
}

#[test]
fn ipv4_parse_valid() {
    let a = Ipv4Addr::new("192.168.1.1").unwrap();
    assert_eq!(a.octets, [192, 168, 1, 1]);
    assert_eq!(a.to_bytes(), [192, 168, 1, 1]);
    let z = Ipv4Addr::new("0.0.0.0").unwrap();
    assert_eq!(z.octets, [0, 0, 0, 0]);
    let m = Ipv4Addr::new("255.255.255.255").unwrap();
    assert_eq!(m.octets, [255, 255, 255, 255]);
    let lead = Ipv4Addr::new("010.001.2.03").unwrap();
    assert_eq!(lead.octets, [10, 1, 2, 3]);
}

#[test]
fn ipv4_parse_rejects_malformed() {
    let bad = [
        "",
        "1.2.3",
        "1.2.3.4.5",
        "256.1.1.1",
        "1.2.3.999",
        "1.2..4",
        "a.b.c.d",
        "1.2.3.4 ",
        "1234.1.1.1",
        ".1.2.3",
        "1.2.3.",
        "1,2,3,4",
        "١.2.3.4",
    ];
    for s in bad.iter() {
        assert_eq!(Ipv4Addr::new(s), Err(AddressError::InvalidFormat), "{}", s);
    }
}

#[test]
fn ipv4_to_string_is_dotted_decimal() {
    assert_eq!(Ipv4Addr::new("192.168.1.10").unwrap().to_string(), "192.168.1.10");
    assert_eq!(Ipv4Addr::new("0.9.10.255").unwrap().to_string(), "0.9.10.255");
    assert_eq!(Ipv4Addr::new("007.08.100.99").unwrap().to_string(), "7.8.100.99");
}

#[test]
fn ipv4_network_address() {
    let a = Ipv4Addr::new("192.168.37.201").unwrap();
    let mask = Ipv4Addr::new("255.255.240.0").unwrap();
    assert_eq!(a.get_network_address(&mask).octets, [192, 168, 32, 0]);
}

#[test]
fn ipv4_as_number() {
    assert_eq!(Ipv4Addr::new("10.0.0.1").unwrap().to_u32(), 0x0A00_0001);
    assert_eq!(Ipv4Addr::new("255.255.255.255").unwrap().to_u32(), u32::MAX);
}

#[test]
fn ipv6_accepts_valid_text() {
    let a = Ipv6Addr::new("2001:0db8:85a3:0000:0000:8a2e:0370:7334").unwrap();
    assert_eq!(a.value, "2001:0db8:85a3:0000:0000:8a2e:0370:7334");
    assert!(Ipv6Addr::new("::1").is_ok());
    assert!(Ipv6Addr::new("fe80::1").is_ok());
}

#[test]
fn ipv6_rejects_invalid_text() {
    assert_eq!(Ipv6Addr::new("hello"), Err(AddressError::InvalidFormat));
    assert_eq!(Ipv6Addr::new("2001:db8::g"), Err(AddressError::InvalidFormat));
    assert_eq!(Ipv6Addr::new("1:2:3:4:5:6:7:8:9"), Err(AddressError::InvalidFormat));
    assert_eq!(Ipv6Addr::new("x1:2:3:4:5:6:7:8"), Err(AddressError::InvalidFormat));
}

#[test]
fn ip_addr_picks_family() {
    match IpAddr::new("10.1.2.3").unwrap() {
        IpAddr::V4(a) => assert_eq!(a.octets, [10, 1, 2, 3]),
        IpAddr::V6(_) => panic!("expected IPv4"),
    }
    match IpAddr::new("::1").unwrap() {
        IpAddr::V6(a) => assert_eq!(a.value, "::1"),
        IpAddr::V4(_) => panic!("expected IPv6"),
    }
    assert_eq!(IpAddr::new("10.1.2"), Err(AddressError::InvalidFormat));
    assert_eq!(IpAddr::new("zz::"), Err(AddressError::InvalidFormat));
}

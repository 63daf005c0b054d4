use netsim::address::MacAddress;
use netsim::arp::{ArpHardwareType, ArpOperation, ArpPacket};
use netsim::crc::crc32;
use netsim::error::NetError;
use netsim::ip::{IpAddr, Ipv4Addr, Ipv6Addr};
use netsim::ip_packet::{IpPacket, IpPayload, Ipv4Packet, Protocols};
use netsim::pdu::{EthernetFrame, EthernetPayload, Ethertype, VlanTag};

fn mac(s: &str) -> MacAddress {
    MacAddress::parse(s).unwrap()
}

fn ip(s: &str) -> Ipv4Addr {
    Ipv4Addr::new(s).unwrap()
}

#[test]
fn crc32_standard_check_value() {
    assert_eq!(crc32(b"123456789"), [0xCB, 0xF4, 0x39, 0x26]);
}

#[test]
fn crc32_of_empty_input() {
    assert_eq!(crc32(b""), [0x00, 0x00, 0x00, 0x00]);
}

#[test]
fn crc32_known_vectors() {
    assert_eq!(crc32(b"a"), [0xE8, 0xB7, 0xBE, 0x43]);
    assert_eq!(crc32(b"The quick brown fox jumps over the lazy dog"), [0x41, 0x4F, 0xA3, 0x39]);
}

#[test]
fn crc32_is_deterministic() {
    let data: Vec<u8> = (0u8..=255).collect();
    assert_eq!(crc32(&data), crc32(&data.clone()));
}

#[test]
fn crc32_single_byte_change_changes_checksum() {
    let data: Vec<u8> = b"123456789".to_vec();
    let base = crc32(&data);
    for i in 0..data.len() {
        for delta in [1u8, 0x80, 0xFF] {
            let mut changed = data.clone();
            changed[i] ^= delta;
            assert_ne!(crc32(&changed), base);
        }
    }
}

#[test]
fn codes_of_enumerations() {
    assert_eq!(ArpOperation::Request.get_value(), [0x00, 0x01]);
    assert_eq!(ArpOperation::Reply.get_value(), [0x00, 0x02]);
    assert_eq!(ArpHardwareType::Ethernet.get_value(), [0x00, 0x01]);
    assert_eq!(Ethertype::IPv4.get_value(), [0x08, 0x00]);
    assert_eq!(Ethertype::IPv6.get_value(), [0x86, 0xDD]);
    assert_eq!(Ethertype::ARP.get_value(), [0x08, 0x06]);
    assert_eq!(Ethertype::Unknown.get_value(), [0x00, 0x00]);
    assert_eq!(Protocols::ICMP.get_value(), 1);
    assert_eq!(Protocols::TCP.get_value(), 6);
    assert_eq!(Protocols::UDP.get_value(), 17);
    assert_eq!(Protocols::OSPF.get_value(), 89);
    assert_eq!(Protocols::MPLS.get_value(), 137);
    assert_eq!(Protocols::Unknown.get_value(), 0);
}

#[test]
fn arp_request_packet_layout() {
    let p = ArpPacket::new(
        ArpOperation::Request,
        mac("00:11:22:33:44:55"),
        ip("192.168.1.1"),
        ip("192.168.1.2"),
    );
    assert_eq!(p.target_mac.to_bytes(), [0; 6]);
    let bytes = p.to_bytes();
    assert_eq!(
        bytes,
        vec![
            0x00, 0x01, 0x08, 0x00, 6, 4, 0x00, 0x01, 0x00, 0x11, 0x22, 0x33, 0x44, 0x55, 192,
            168, 1, 1, 0, 0, 0, 0, 0, 0, 192, 168, 1, 2,
        ]
    );
}

#[test]
fn arp_reply_swaps_roles() {
    let req = ArpPacket::new(
        ArpOperation::Request,
        mac("00:11:22:33:44:55"),
        ip("10.0.0.1"),
        ip("10.0.0.2"),
    );
    let me = mac("00:11:22:AA:BB:CC");
    let rep = req.create_reply(me);
    assert_eq!(rep.operation, ArpOperation::Reply);
    assert_eq!(rep.sender_mac, me);
    assert_eq!(rep.sender_ip, ip("10.0.0.2"));
    assert_eq!(rep.target_mac, mac("00:11:22:33:44:55"));
    assert_eq!(rep.target_ip, ip("10.0.0.1"));
    assert_eq!(rep.to_bytes()[6..8], [0x00, 0x02]);
}

#[test]
fn ipv4_packet_layout() {
    let p = Ipv4Packet::new(ip("10.0.0.1"), ip("10.0.0.2"), IpPayload { data: vec![0xAA, 0xBB] });
    assert_eq!(
        p.to_bytes(),
        vec![
            0x45, 0x00, 0x00, 0x00, 0x00, 0x00, 0x00, 0x00, 255, 6, 0x00, 0x00, 10, 0, 0, 1, 10, 0,
            0, 2, 0xAA, 0xBB,
        ]
    );
}

#[test]
fn ipv4_packet_layout_of_every_field() {
    let mut p = Ipv4Packet::new(ip("1.2.3.4"), ip("5.6.7.8"), IpPayload { data: vec![] });
    p.header.dscp = 0x2E;
    p.header.ecn = 1;
    p.header.total_length = 0x1234;
    p.header.identification = 0xBEEF;
    p.header.flags = 0b010;
    p.header.fragment_offset = 0x1ABC;
    p.header.ttl = 64;
    p.header.protocol = Protocols::UDP;
    p.header.header_checksum = 0xC0DE;
    assert_eq!(
        p.to_bytes(),
        vec![
            0x45, 0xB9, 0x12, 0x34, 0xBE, 0xEF, 0x5A, 0xBC, 64, 17, 0xC0, 0xDE, 1, 2, 3, 4, 5, 6,
            7, 8,
        ]
    );
}

#[test]
fn ip_packet_by_family() {
    let v4 = IpPacket::new(
        IpAddr::V4(ip("10.0.0.1")),
        IpAddr::V4(ip("10.0.0.2")),
        IpPayload { data: vec![1] },
        Protocols::UDP,
    );
    match v4 {
        IpPacket::V4(p) => {
            assert_eq!(p.header.src, ip("10.0.0.1"));
            assert_eq!(p.header.ttl, 255);
        }
        IpPacket::V6(_) => panic!("expected IPv4"),
    }
    let v6 = IpPacket::new(
        IpAddr::V6(Ipv6Addr::new("::1").unwrap()),
        IpAddr::V6(Ipv6Addr::new("::2").unwrap()),
        IpPayload { data: vec![] },
        Protocols::UDP,
    );
    match v6 {
        IpPacket::V6(p) => {
            assert_eq!(p.protocol, Protocols::UDP);
            assert_eq!(p.hop_limit, 0);
        }
        IpPacket::V4(_) => panic!("expected IPv6"),
    }
}

#[test]
fn vlan_tag_layout() {
    let t = VlanTag { tpid: [0x81, 0x00], pcp: 5, dei: 1, vid: [0x0A, 0xBC] };
    assert_eq!(t.to_bytes(), vec![0x81, 0x00, 0xBA, 0xBC]);
}

#[test]
fn arp_request_frame_layout_and_fcs() {
    let src = mac("00:11:22:33:44:55");
    let f = EthernetFrame::arp_request(src, ip("192.168.1.1"), ip("192.168.1.2"));
    assert!(f.dest.is_broadcast());
    assert_eq!(f.src, src);
    assert_eq!(f.ethertype, Ethertype::ARP);
    let bytes = f.to_bytes();
    assert_eq!(bytes.len(), 42);
    assert_eq!(bytes[0..6], [0xFF; 6]);
    assert_eq!(bytes[6..12], [0x00, 0x11, 0x22, 0x33, 0x44, 0x55]);
    assert_eq!(bytes[12..14], [0x08, 0x06]);
    assert_eq!(f.fcs, crc32(&bytes));
    assert_ne!(f.fcs, [0, 0, 0, 0]);
}

#[test]
fn arp_reply_frame_is_unicast_back() {
    let a = mac("00:11:22:00:00:01");
    let b = mac("00:11:22:00:00:02");
    let req = EthernetFrame::arp_request(a, ip("10.0.0.1"), ip("10.0.0.2"));
    let arp = match &req.payload {
        EthernetPayload::ARP(p) => *p,
        _ => panic!("expected ARP"),
    };
    let rep = req.arp_reply(&arp, b);
    assert_eq!(rep.dest, a);
    assert_eq!(rep.src, b);
    match &rep.payload {
        EthernetPayload::ARP(p) => {
            assert_eq!(p.operation, ArpOperation::Reply);
            assert_eq!(p.sender_ip, ip("10.0.0.2"));
            assert_eq!(p.target_ip, ip("10.0.0.1"));
            assert_eq!(p.target_mac, a);
        }
        _ => panic!("expected ARP"),
    }
    assert_eq!(rep.fcs, crc32(&rep.to_bytes()));
}

#[test]
fn frame_with_vlan_tag_layout() {
    let mut f = EthernetFrame::new(mac("00:00:00:00:00:01"), mac("00:00:00:00:00:02"));
    f.vlan = Some(VlanTag { tpid: [0x81, 0x00], pcp: 0, dei: 0, vid: [0x00, 0x64] });
    assert_eq!(
        f.to_bytes(),
        vec![0, 0, 0, 0, 0, 2, 0, 0, 0, 0, 0, 1, 0x81, 0x00, 0x00, 0x64, 0x00, 0x00]
    );
}

#[test]
fn frame_duplicate_keeps_content() {
    let mut f = EthernetFrame::new(mac("00:00:00:00:00:01"), mac("00:00:00:00:00:02"));
    f.payload = EthernetPayload::IPv4(Ipv4Packet::new(
        ip("1.1.1.1"),
        ip("2.2.2.2"),
        IpPayload { data: vec![9, 8, 7] },
    ));
    let g = f.duplicate();
    assert_eq!(g.to_bytes(), f.to_bytes());
    assert_eq!(g.fcs, f.fcs);
}

#[test]
fn frames_without_layout_report_unsupported_payload() {
    let mut f = EthernetFrame::new(mac("00:00:00:00:00:01"), mac("00:00:00:00:00:02"));
    assert_eq!(f.try_to_bytes(), Ok(f.to_bytes()));
    f.payload = EthernetPayload::ICMP;
    assert_eq!(f.try_to_bytes(), Err(NetError::UnsupportedPayload));
    f.payload = EthernetPayload::IPv6(netsim::ip_packet::Ipv6Packet::new(
        Ipv6Addr::new("::1").unwrap(),
        Ipv6Addr::new("::2").unwrap(),
        IpPayload { data: vec![1, 2] },
        0,
        64,
        Protocols::UDP,
    ));
    assert_eq!(f.try_to_bytes(), Err(NetError::UnsupportedPayload));
}

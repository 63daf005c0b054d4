//! IP packets: the IPv4 header and its byte layout, and the IPv6 packet
//! carried as a payload marker.

use crate::ip::{IpAddr, Ipv4Addr, Ipv6Addr};
use crate::wire::{copy_bytes, push_all};
use vstd::prelude::*;

verus! {

/// Transport and routing protocols that an IP header can name.
#[derive(Clone, Copy, Debug, PartialEq, Eq, Structural)]
pub enum Protocols {
    ICMP,
    IGMP,
    TCP,
    UDP,
    GRE,
    ESP,
    AH,
    EIGRP,
    OSPF,
    PIM,
    VRRP,
    L2TP,
    ISIS,
    MPLS,
    Unknown,
}

/// The IANA protocol number; `Unknown` is 0.
pub open spec fn protocol_number(p: Protocols) -> u8 {
    match p {
        Protocols::ICMP => 1,
        Protocols::IGMP => 2,
        Protocols::TCP => 6,
        Protocols::UDP => 17,
        Protocols::GRE => 47,
        Protocols::ESP => 50,
        Protocols::AH => 51,
        Protocols::EIGRP => 88,
        Protocols::OSPF => 89,
        Protocols::PIM => 103,
        Protocols::VRRP => 112,
        Protocols::L2TP => 115,
        Protocols::ISIS => 124,
        Protocols::MPLS => 137,
        Protocols::Unknown => 0,
    }
}

impl Protocols {
    /// The protocol number carried in the header.
    pub fn get_value(&self) -> (r: u8)
        ensures
            r == protocol_number(*self),
    {
        match self {
            Protocols::ICMP => 1,
            Protocols::IGMP => 2,
            Protocols::TCP => 6,
            Protocols::UDP => 17,
            Protocols::GRE => 47,
            Protocols::ESP => 50,
            Protocols::AH => 51,
            Protocols::EIGRP => 88,
            Protocols::OSPF => 89,
            Protocols::PIM => 103,
            Protocols::VRRP => 112,
            Protocols::L2TP => 115,
            Protocols::ISIS => 124,
            Protocols::MPLS => 137,
            Protocols::Unknown => 0,
        }
    }
}

/// The bytes carried after an IP header.
#[derive(Clone, Debug)]
pub struct IpPayload {
    pub data: Vec<u8>,
}

impl IpPayload {
    /// A payload holding the same bytes.
    pub fn duplicate(&self) -> (r: IpPayload)
        ensures
            r.data@ == self.data@,
    {
        IpPayload { data: copy_bytes(&self.data) }
    }
}

/// The fixed part of an IPv4 header.
#[derive(Clone, Copy, Debug)]
pub struct Ipv4Header {
    pub version: u8,
    pub ihl: u8,
    pub dscp: u8,
    pub ecn: u8,
    pub total_length: u16,
    pub identification: u16,
    pub flags: u8,
    pub fragment_offset: u16,
    pub ttl: u8,
    pub protocol: Protocols,
    pub header_checksum: u16,
    pub src: Ipv4Addr,
    pub dest: Ipv4Addr,
}

/// The 20-byte header layout, all fields big-endian.
pub open spec fn ipv4_header_bytes(h: Ipv4Header) -> Seq<u8> {
    seq![
        (h.version << 4u8) | h.ihl,
        (h.dscp << 2u8) | h.ecn,
        (h.total_length >> 8u16) as u8,
        h.total_length as u8,
        (h.identification >> 8u16) as u8,
        h.identification as u8,
        (h.flags << 5u8) | (((h.fragment_offset >> 8u16) as u8) & 0x1Fu8),
        h.fragment_offset as u8,
        h.ttl,
        protocol_number(h.protocol),
        (h.header_checksum >> 8u16) as u8,
        h.header_checksum as u8,
    ] + h.src.octets@ + h.dest.octets@
}

/// An IPv4 packet: header and payload bytes.
#[derive(Clone, Debug)]
pub struct Ipv4Packet {
    pub header: Ipv4Header,
    pub payload: IpPayload,
}

/// The bytes of an IPv4 packet: header, then payload.
pub open spec fn ipv4_packet_bytes(p: Ipv4Packet) -> Seq<u8> {
    ipv4_header_bytes(p.header) + p.payload.data@
}

impl Ipv4Packet {
    /// A TCP packet with version 4, a five-word header and time-to-live 255;
    /// length, identification, fragmentation and checksum are zero.
    pub fn new(src: Ipv4Addr, dest: Ipv4Addr, payload: IpPayload) -> (r: Ipv4Packet)
        ensures
            r.header == (Ipv4Header {
                version: 4,
                ihl: 5,
                dscp: 0,
                ecn: 0,
                total_length: 0,
                identification: 0,
                flags: 0,
                fragment_offset: 0,
                ttl: 255,
                protocol: Protocols::TCP,
                header_checksum: 0,
                src,
                dest,
            }),
            r.payload == payload,
    {
        Ipv4Packet {
            header: Ipv4Header {
                version: 4,
                ihl: 5,
                dscp: 0,
                ecn: 0,
                total_length: 0,
                identification: 0,
                flags: 0,
                fragment_offset: 0,
                ttl: 255,
                protocol: Protocols::TCP,
                header_checksum: 0,
                src,
                dest,
            },
            payload,
        }
    }

    /// The header bytes followed by the payload bytes.
    pub fn to_bytes(&self) -> (r: Vec<u8>)
        ensures
            r@ == ipv4_packet_bytes(*self),
    {
        let h = &self.header;
        let mut bytes: Vec<u8> = Vec::new();
        bytes.push((h.version << 4u8) | h.ihl);
        bytes.push((h.dscp << 2u8) | h.ecn);
        bytes.push((h.total_length >> 8u16) as u8);
        bytes.push(h.total_length as u8);
        bytes.push((h.identification >> 8u16) as u8);
        bytes.push(h.identification as u8);
        bytes.push((h.flags << 5u8) | (((h.fragment_offset >> 8u16) as u8) & 0x1Fu8));
        bytes.push(h.fragment_offset as u8);
        bytes.push(h.ttl);
        bytes.push(h.protocol.get_value());
        bytes.push((h.header_checksum >> 8u16) as u8);
        bytes.push(h.header_checksum as u8);
        let src = h.src.to_bytes();
        let dest = h.dest.to_bytes();
        push_all(&mut bytes, src.as_slice());
        push_all(&mut bytes, dest.as_slice());
        push_all(&mut bytes, self.payload.data.as_slice());
        assert(bytes@ =~= ipv4_packet_bytes(*self));
        bytes
    }

    /// A packet with the same header and payload bytes.
    pub fn duplicate(&self) -> (r: Ipv4Packet)
        ensures
            r.header == self.header,
            r.payload.data@ == self.payload.data@,
    {
        Ipv4Packet { header: self.header, payload: self.payload.duplicate() }
    }
}

/// An IPv6 packet; it has no byte layout here.
#[derive(Clone, Debug)]
pub struct Ipv6Packet {
    pub src: Ipv6Addr,
    pub dest: Ipv6Addr,
    pub traffic_class: u8,
    pub hop_limit: u8,
    pub protocol: Protocols,
    pub payload_length: Option<u16>,
    pub flow_label: Option<u32>,
    pub next_header: Option<u8>,
    pub payload: IpPayload,
}

impl Ipv6Packet {
    /// A packet with the given fields; length, flow label and next header unset.
    pub fn new(
        src: Ipv6Addr,
        dest: Ipv6Addr,
        payload: IpPayload,
        traffic_class: u8,
        hop_limit: u8,
        protocol: Protocols,
    ) -> (r: Ipv6Packet)
        ensures
            r.src == src,
            r.dest == dest,
            r.payload == payload,
            r.traffic_class == traffic_class,
            r.hop_limit == hop_limit,
            r.protocol == protocol,
            r.payload_length is None,
            r.flow_label is None,
            r.next_header is None,
    {
        Ipv6Packet {
            src,
            dest,
            traffic_class,
            hop_limit,
            protocol,
            payload_length: None,
            flow_label: None,
            next_header: None,
            payload,
        }
    }

    /// A packet with the same fields and payload bytes.
    pub fn duplicate(&self) -> (r: Ipv6Packet)
        ensures
            r.src == self.src,
            r.dest == self.dest,
            r.traffic_class == self.traffic_class,
            r.hop_limit == self.hop_limit,
            r.protocol == self.protocol,
            r.payload_length == self.payload_length,
            r.flow_label == self.flow_label,
            r.next_header == self.next_header,
            r.payload.data@ == self.payload.data@,
    {
        Ipv6Packet {
            src: Ipv6Addr { value: self.src.value.clone() },
            dest: Ipv6Addr { value: self.dest.value.clone() },
            traffic_class: self.traffic_class,
            hop_limit: self.hop_limit,
            protocol: self.protocol,
            payload_length: self.payload_length,
            flow_label: self.flow_label,
            next_header: self.next_header,
            payload: self.payload.duplicate(),
        }
    }
}

/// A packet of either family.
#[derive(Clone, Debug)]
pub enum IpPacket {
    V4(Ipv4Packet),
    V6(Ipv6Packet),
}

impl IpPacket {
    /// A packet between two addresses of the same family. An IPv4 packet
    /// takes the defaults of [`Ipv4Packet::new`]; an IPv6 packet carries
    /// `protocol`, with traffic class and hop limit zero.
    pub fn new(src: IpAddr, dest: IpAddr, payload: IpPayload, protocol: Protocols) -> (r: IpPacket)
        requires
            (src is V4 && dest is V4) || (src is V6 && dest is V6),
        ensures
            src is V4 ==> r is V4 && r->V4_0.header.src == src->V4_0 && r->V4_0.header.dest
                == dest->V4_0 && r->V4_0.header.protocol == Protocols::TCP && r->V4_0.payload
                == payload,
            src is V6 ==> r is V6 && r->V6_0.src == src->V6_0 && r->V6_0.dest == dest->V6_0
                && r->V6_0.protocol == protocol && r->V6_0.traffic_class == 0
                && r->V6_0.hop_limit == 0 && r->V6_0.payload == payload,
    {
        match src {
            IpAddr::V4(s) => match dest {
                IpAddr::V4(d) => IpPacket::V4(Ipv4Packet::new(s, d, payload)),
                IpAddr::V6(_) => {
                    proof {
                        assert(false);
                    }
                    IpPacket::V4(Ipv4Packet::new(s, s, payload))
                },
            },
            IpAddr::V6(s) => match dest {
                IpAddr::V6(d) => IpPacket::V6(Ipv6Packet::new(s, d, payload, 0, 0, protocol)),
                IpAddr::V4(d) => {
                    proof {
                        assert(false);
                    }
                    IpPacket::V4(Ipv4Packet::new(d, d, payload))
                },
            },
        }
    }
}

} // verus!

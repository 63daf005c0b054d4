//! Ethernet frames: layout, frame check sequence and the ARP frames that
//! interfaces exchange.

use crate::address::{broadcast_bytes, MacAddress};
use crate::arp::{arp_bytes, ArpOperation, ArpPacket};
use crate::crc::{be32, crc32, crc32_of};
use crate::error::NetError;
use crate::ip::Ipv4Addr;
use crate::ip_packet::{ipv4_packet_bytes, Ipv4Packet, Ipv6Packet};
use crate::queue::{saturate, WireSized};
use crate::wire::push_all;
use vstd::prelude::*;

verus! {

/// What an Ethernet frame carries.
#[derive(Clone, Debug)]
pub enum EthernetPayload {
    IPv4(Ipv4Packet),
    IPv6(Ipv6Packet),
    ICMP,
    ARP(ArpPacket),
    Dummy,
}

/// The size in bytes of an IPv6 header.
pub const IPV6_HEADER_LEN: u64 = 40;

/// The size in bytes of an IPv4 header without options.
pub const IPV4_HEADER_LEN: u64 = 20;

/// The size in bytes of an ARP packet for Ethernet and IPv4.
pub const ARP_PACKET_LEN: u64 = 28;

/// The size in bytes of an untagged frame carrying an ARP packet, check
/// sequence included.
pub const ARP_FRAME_LEN: u64 = 46;

impl EthernetPayload {
    /// Whether the payload has a byte layout (IPv6 and ICMP bodies have none).
    pub open spec fn is_encodable(&self) -> bool {
        !(self is IPv6 || self is ICMP)
    }

    /// The payload's bytes, where it has a layout.
    pub open spec fn bytes(&self) -> Seq<u8> {
        match self {
            EthernetPayload::IPv4(p) => ipv4_packet_bytes(*p),
            EthernetPayload::ARP(a) => arp_bytes(*a),
            _ => Seq::empty(),
        }
    }

    /// The size the payload takes on the wire; an IPv6 packet counts its
    /// fixed header, and the ICMP marker nothing.
    pub open spec fn wire_len(&self) -> nat {
        match self {
            EthernetPayload::IPv4(p) => (IPV4_HEADER_LEN + p.payload.data@.len()) as nat,
            EthernetPayload::IPv6(p) => (IPV6_HEADER_LEN + p.payload.data@.len()) as nat,
            EthernetPayload::ICMP => 0,
            EthernetPayload::ARP(_) => ARP_PACKET_LEN as nat,
            EthernetPayload::Dummy => 0,
        }
    }

    /// Whether `self` holds the same content as `other`.
    pub open spec fn is_copy_of(&self, other: &EthernetPayload) -> bool {
        match (self, other) {
            (EthernetPayload::IPv4(a), EthernetPayload::IPv4(b)) => a.header == b.header
                && a.payload.data@ == b.payload.data@,
            (EthernetPayload::IPv6(a), EthernetPayload::IPv6(b)) => {
                &&& a.src == b.src
                &&& a.dest == b.dest
                &&& a.traffic_class == b.traffic_class
                &&& a.hop_limit == b.hop_limit
                &&& a.protocol == b.protocol
                &&& a.payload_length == b.payload_length
                &&& a.flow_label == b.flow_label
                &&& a.next_header == b.next_header
                &&& a.payload.data@ == b.payload.data@
            },
            (EthernetPayload::ICMP, EthernetPayload::ICMP) => true,
            (EthernetPayload::ARP(a), EthernetPayload::ARP(b)) => a == b,
            (EthernetPayload::Dummy, EthernetPayload::Dummy) => true,
            _ => false,
        }
    }

    /// The payload's bytes; IPv6 and ICMP bodies have no layout and must not
    /// be passed.
    pub fn to_bytes(&self) -> (r: Vec<u8>)
        requires
            self.is_encodable(),
        ensures
            r@ == self.bytes(),
    {
        match self {
            EthernetPayload::IPv4(packet) => packet.to_bytes(),
            EthernetPayload::ARP(arp) => arp.to_bytes(),
            _ => Vec::new(),
        }
    }

    /// A payload with the same content.
    pub fn duplicate(&self) -> (r: EthernetPayload)
        ensures
            r.is_copy_of(self),
    {
        match self {
            EthernetPayload::IPv4(p) => EthernetPayload::IPv4(p.duplicate()),
            EthernetPayload::IPv6(p) => EthernetPayload::IPv6(p.duplicate()),
            EthernetPayload::ICMP => EthernetPayload::ICMP,
            EthernetPayload::ARP(a) => EthernetPayload::ARP(*a),
            EthernetPayload::Dummy => EthernetPayload::Dummy,
        }
    }

    fn wire_len_exec(&self) -> (r: u64)
        ensures
            r as nat == saturate(self.wire_len()),
    {
        match self {
            EthernetPayload::IPv4(p) => (p.payload.data.len() as u64).saturating_add(IPV4_HEADER_LEN),
            EthernetPayload::IPv6(p) => (p.payload.data.len() as u64).saturating_add(IPV6_HEADER_LEN),
            EthernetPayload::ICMP => 0,
            EthernetPayload::ARP(_) => ARP_PACKET_LEN,
            EthernetPayload::Dummy => 0,
        }
    }
}

/// An 802.1Q tag.
#[derive(Clone, Copy, Debug)]
pub struct VlanTag {
    pub tpid: [u8; 2],
    pub pcp: u8,
    pub dei: u8,
    pub vid: [u8; 2],
}

/// The four tag bytes: the tag protocol id, then priority (3 bits), drop
/// eligibility (1 bit) and the 12-bit VLAN id.
pub open spec fn vlan_bytes(v: VlanTag) -> Seq<u8> {
    seq![
        v.tpid[0],
        v.tpid[1],
        ((v.pcp & 0x07u8) << 5u8) | ((v.dei & 0x01u8) << 4u8) | (v.vid[0] & 0x0Fu8),
        v.vid[1],
    ]
}

impl VlanTag {
    /// The four tag bytes.
    pub fn to_bytes(&self) -> (r: Vec<u8>)
        ensures
            r@ == vlan_bytes(*self),
    {
        let mut bytes: Vec<u8> = Vec::new();
        bytes.push(self.tpid[0]);
        bytes.push(self.tpid[1]);
        bytes.push(((self.pcp & 0x07u8) << 5u8) | ((self.dei & 0x01u8) << 4u8) | (self.vid[0] & 0x0Fu8));
        bytes.push(self.vid[1]);
        assert(bytes@ =~= vlan_bytes(*self));
        bytes
    }
}

/// The protocol that a frame's payload belongs to.
#[derive(Clone, Copy, Debug, PartialEq, Eq, Structural)]
pub enum Ethertype {
    IPv4,
    IPv6,
    ARP,
    Unknown,
}

pub open spec fn ethertype_bytes(t: Ethertype) -> Seq<u8> {
    match t {
        Ethertype::IPv4 => seq![0x08u8, 0x00u8],
        Ethertype::IPv6 => seq![0x86u8, 0xDDu8],
        Ethertype::ARP => seq![0x08u8, 0x06u8],
        Ethertype::Unknown => seq![0x00u8, 0x00u8],
    }
}

impl Ethertype {
    /// The two type bytes, big-endian.
    pub fn get_value(&self) -> (r: [u8; 2])
        ensures
            r@ == ethertype_bytes(*self),
    {
        let r = match self {
            Ethertype::IPv4 => [0x08u8, 0x00u8],
            Ethertype::IPv6 => [0x86u8, 0xDDu8],
            Ethertype::ARP => [0x08u8, 0x06u8],
            Ethertype::Unknown => [0x00u8, 0x00u8],
        };
        assert(r@ =~= ethertype_bytes(*self));
        r
    }
}

/// An Ethernet frame with its frame check sequence.
#[derive(Clone, Debug)]
pub struct EthernetFrame {
    pub dest: MacAddress,
    pub src: MacAddress,
    pub vlan: Option<VlanTag>,
    pub ethertype: Ethertype,
    pub payload: EthernetPayload,
    pub fcs: [u8; 4],
}

/// The bytes that the frame check sequence covers: destination, source,
/// the tag if any, the type, then the payload.
pub open spec fn frame_bytes(f: EthernetFrame) -> Seq<u8> {
    f.dest@ + f.src@ + (match f.vlan {
        Some(v) => vlan_bytes(v),
        None => Seq::empty(),
    }) + ethertype_bytes(f.ethertype) + f.payload.bytes()
}

/// Whether `f` is the broadcast frame in which `src` asks, for `sender_ip`,
/// who has `target_ip`: untagged, carrying an Ethernet/IPv4 ARP request with
/// an unknown (all-zero) target hardware address, with a valid check
/// sequence.
pub open spec fn is_arp_request_frame(
    f: EthernetFrame,
    src: MacAddress,
    sender_ip: Ipv4Addr,
    target_ip: Ipv4Addr,
) -> bool {
    &&& f.dest@ == broadcast_bytes()
    &&& f.src == src
    &&& f.vlan is None
    &&& f.ethertype == Ethertype::ARP
    &&& f.payload is ARP
    &&& f.payload->ARP_0.is_ethernet_ipv4()
    &&& f.payload->ARP_0.operation == ArpOperation::Request
    &&& f.payload->ARP_0.sender_mac == src
    &&& f.payload->ARP_0.sender_ip == sender_ip
    &&& f.payload->ARP_0.target_mac@ == Seq::new(6, |i: int| 0u8)
    &&& f.payload->ARP_0.target_ip == target_ip
    &&& f.has_valid_fcs()
}

/// Whether `f` is the frame that answers `arp` from hardware address `mac`:
/// untagged, from `mac` back to the requester, carrying the reply packet,
/// with a valid check sequence.
pub open spec fn is_arp_reply_frame(f: EthernetFrame, arp: ArpPacket, mac: MacAddress) -> bool {
    &&& f.dest == arp.sender_mac
    &&& f.src == mac
    &&& f.vlan is None
    &&& f.ethertype == Ethertype::ARP
    &&& f.payload == EthernetPayload::ARP(arp.reply_to(mac))
    &&& f.has_valid_fcs()
}

impl EthernetFrame {
    /// Whether the frame check sequence is the CRC-32 of the frame's bytes.
    pub open spec fn has_valid_fcs(self) -> bool {
        self.fcs@ == be32(crc32_of(frame_bytes(self)))
    }

    /// Whether `self` holds the same content as `other`.
    pub open spec fn is_copy_of(&self, other: &EthernetFrame) -> bool {
        &&& self.dest == other.dest
        &&& self.src == other.src
        &&& self.vlan == other.vlan
        &&& self.ethertype == other.ethertype
        &&& self.payload.is_copy_of(&other.payload)
        &&& self.fcs == other.fcs
    }

    /// An untagged frame of unknown type with an empty payload and a zero
    /// check sequence.
    pub fn new(src: MacAddress, dest: MacAddress) -> (r: EthernetFrame)
        ensures
            r.src == src,
            r.dest == dest,
            r.vlan is None,
            r.ethertype == Ethertype::Unknown,
            r.payload is Dummy,
            r.fcs@ == seq![0u8, 0u8, 0u8, 0u8],
    {
        let r = EthernetFrame {
            dest,
            src,
            vlan: None,
            ethertype: Ethertype::Unknown,
            payload: EthernetPayload::Dummy,
            fcs: [0u8; 4],
        };
        assert(r.fcs@ =~= seq![0u8, 0u8, 0u8, 0u8]);
        r
    }

    /// A broadcast frame asking who has `target_ip`, sent by `src` for `sender_ip`.
    pub fn arp_request(src: MacAddress, sender_ip: Ipv4Addr, target_ip: Ipv4Addr) -> (r: EthernetFrame)
        ensures
            is_arp_request_frame(r, src, sender_ip, target_ip),
    {
        let mut frame = EthernetFrame::new(src, MacAddress::broadcast());
        frame.ethertype = Ethertype::ARP;
        frame.payload = EthernetPayload::ARP(
            ArpPacket::new(ArpOperation::Request, src, sender_ip, target_ip),
        );
        let bytes = frame.to_bytes();
        frame.fcs = crc32(bytes.as_slice());
        frame
    }

    /// The frame answering the ARP packet `arp`, sent from `sender_mac` back
    /// to the requester.
    pub fn arp_reply(&self, arp: &ArpPacket, sender_mac: MacAddress) -> (r: EthernetFrame)
        ensures
            is_arp_reply_frame(r, *arp, sender_mac),
    {
        let reply = arp.create_reply(sender_mac);
        let mut frame = EthernetFrame::new(reply.sender_mac, reply.target_mac);
        frame.payload = EthernetPayload::ARP(reply);
        frame.ethertype = Ethertype::ARP;
        let bytes = frame.to_bytes();
        frame.fcs = crc32(bytes.as_slice());
        frame
    }

    /// The bytes that the frame check sequence covers (the sequence itself
    /// is not among them). IPv6 and ICMP payloads have no layout and must
    /// not be passed.
    pub fn to_bytes(&self) -> (r: Vec<u8>)
        requires
            self.payload.is_encodable(),
        ensures
            r@ == frame_bytes(*self),
    {
        let mut bytes: Vec<u8> = Vec::new();
        let d = self.dest.to_bytes();
        push_all(&mut bytes, d.as_slice());
        let s = self.src.to_bytes();
        push_all(&mut bytes, s.as_slice());
        match &self.vlan {
            Some(vlan) => {
                let v = vlan.to_bytes();
                push_all(&mut bytes, v.as_slice());
            },
            None => {},
        }
        let t = self.ethertype.get_value();
        push_all(&mut bytes, t.as_slice());
        let p = self.payload.to_bytes();
        push_all(&mut bytes, p.as_slice());
        assert(bytes@ =~= frame_bytes(*self));
        bytes
    }

    /// The bytes that the frame check sequence covers, or `UnsupportedPayload`
    /// where the payload has no byte layout.
    pub fn try_to_bytes(&self) -> (r: Result<Vec<u8>, NetError>)
        ensures
            self.payload.is_encodable() ==> r is Ok && r->Ok_0@ == frame_bytes(*self),
            !self.payload.is_encodable() ==> r == Err::<Vec<u8>, NetError>(
                NetError::UnsupportedPayload,
            ),
    {
        match &self.payload {
            EthernetPayload::IPv6(_) | EthernetPayload::ICMP => Err(NetError::UnsupportedPayload),
            _ => Ok(self.to_bytes()),
        }
    }

    /// A frame with the same content.
    pub fn duplicate(&self) -> (r: EthernetFrame)
        ensures
            r.is_copy_of(self),
    {
        EthernetFrame {
            dest: self.dest,
            src: self.src,
            vlan: self.vlan,
            ethertype: self.ethertype,
            payload: self.payload.duplicate(),
            fcs: self.fcs,
        }
    }
}

/// A copy takes as many bytes as the frame it copies.
pub proof fn lemma_copy_same_size(a: &EthernetFrame, b: &EthernetFrame)
    requires
        a.is_copy_of(b),
    ensures
        a.wire_size() == b.wire_size(),
{
    assert(a.payload.wire_len() == b.payload.wire_len());
}

impl WireSized for EthernetFrame {
    /// Destination, source, tag, type, payload and check sequence.
    open spec fn wire_size(&self) -> nat {
        6 + 6 + (if self.vlan is Some { 4nat } else { 0nat }) + 2 + self.payload.wire_len() + 4
    }

    fn byte_size(&self) -> (r: u64) {
        let tag: u64 = if self.vlan.is_some() { 4 } else { 0 };
        self.payload.wire_len_exec().saturating_add(18 + tag)
    }
}

} // verus!

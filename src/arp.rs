//! ARP packets and the per-interface ARP cache.

use crate::address::MacAddress;
use crate::ip::{octets_key, Ipv4Addr};
use crate::pdu::{ethertype_bytes, Ethertype};
use crate::wire::push_all;
use std::collections::HashMap;
use vstd::prelude::*;

verus! {

broadcast use vstd::std_specs::hash::group_hash_axioms;

/// What an ARP packet asks or answers.
#[derive(Clone, Copy, Debug, PartialEq, Eq, Structural)]
pub enum ArpOperation {
    Request,
    Reply,
}

pub open spec fn operation_bytes(op: ArpOperation) -> Seq<u8> {
    match op {
        ArpOperation::Request => seq![0x00u8, 0x01u8],
        ArpOperation::Reply => seq![0x00u8, 0x02u8],
    }
}

impl ArpOperation {
    /// The operation code, big-endian.
    pub fn get_value(&self) -> (r: [u8; 2])
        ensures
            r@ == operation_bytes(*self),
    {
        let r = match self {
            ArpOperation::Request => [0x00u8, 0x01u8],
            ArpOperation::Reply => [0x00u8, 0x02u8],
        };
        assert(r@ =~= operation_bytes(*self));
        r
    }
}

/// The hardware that an ARP packet resolves addresses for.
#[derive(Clone, Copy, Debug, PartialEq, Eq, Structural)]
pub enum ArpHardwareType {
    Ethernet,
}

pub open spec fn hardware_type_bytes(t: ArpHardwareType) -> Seq<u8> {
    match t {
        ArpHardwareType::Ethernet => seq![0x00u8, 0x01u8],
    }
}

impl ArpHardwareType {
    /// The hardware type code, big-endian.
    pub fn get_value(&self) -> (r: [u8; 2])
        ensures
            r@ == hardware_type_bytes(*self),
    {
        let r = match self {
            ArpHardwareType::Ethernet => [0x00u8, 0x01u8],
        };
        assert(r@ =~= hardware_type_bytes(*self));
        r
    }
}

/// An ARP packet for Ethernet and IPv4.
#[derive(Clone, Copy, Debug)]
pub struct ArpPacket {
    pub hardware_type: ArpHardwareType,
    pub protocol_type: Ethertype,
    pub hardware_size: u8,
    pub protocol_size: u8,
    pub operation: ArpOperation,
    pub sender_mac: MacAddress,
    pub sender_ip: Ipv4Addr,
    pub target_mac: MacAddress,
    pub target_ip: Ipv4Addr,
}

/// The 28 bytes of an ARP packet, fields in header order.
pub open spec fn arp_bytes(p: ArpPacket) -> Seq<u8> {
    hardware_type_bytes(p.hardware_type) + ethertype_bytes(p.protocol_type) + seq![
        p.hardware_size,
        p.protocol_size,
    ] + operation_bytes(p.operation) + p.sender_mac@ + p.sender_ip.octets@ + p.target_mac@
        + p.target_ip.octets@
}

impl ArpPacket {
    /// The packet that answers `self` from hardware address `mac`: the roles
    /// swap, and `mac` answers for the address that was asked about.
    pub open spec fn reply_to(self, mac: MacAddress) -> ArpPacket {
        ArpPacket {
            hardware_type: self.hardware_type,
            protocol_type: self.protocol_type,
            hardware_size: self.hardware_size,
            protocol_size: self.protocol_size,
            operation: ArpOperation::Reply,
            sender_mac: mac,
            sender_ip: self.target_ip,
            target_mac: self.sender_mac,
            target_ip: self.sender_ip,
        }
    }

    /// Whether the fixed fields are those of Ethernet over IPv4.
    pub open spec fn is_ethernet_ipv4(self) -> bool {
        &&& self.hardware_type == ArpHardwareType::Ethernet
        &&& self.protocol_type == Ethertype::IPv4
        &&& self.hardware_size == 6
        &&& self.protocol_size == 4
    }

    /// A packet for Ethernet and IPv4 whose target hardware address is not
    /// yet known (all zeros).
    pub fn new(
        operation: ArpOperation,
        sender_mac: MacAddress,
        sender_ip: Ipv4Addr,
        target_ip: Ipv4Addr,
    ) -> (r: ArpPacket)
        ensures
            r.is_ethernet_ipv4(),
            r.operation == operation,
            r.sender_mac == sender_mac,
            r.sender_ip == sender_ip,
            r.target_mac@ == Seq::new(6, |i: int| 0u8),
            r.target_ip == target_ip,
    {
        ArpPacket {
            hardware_type: ArpHardwareType::Ethernet,
            protocol_type: Ethertype::IPv4,
            hardware_size: 6,
            protocol_size: 4,
            operation,
            sender_mac,
            sender_ip,
            target_mac: MacAddress::zero(),
            target_ip,
        }
    }

    /// The 28 bytes of the packet.
    pub fn to_bytes(&self) -> (r: Vec<u8>)
        ensures
            r@ == arp_bytes(*self),
            r@.len() == 28,
    {
        let mut bytes: Vec<u8> = Vec::new();
        let hw = self.hardware_type.get_value();
        push_all(&mut bytes, hw.as_slice());
        let pt = self.protocol_type.get_value();
        push_all(&mut bytes, pt.as_slice());
        bytes.push(self.hardware_size);
        bytes.push(self.protocol_size);
        let op = self.operation.get_value();
        push_all(&mut bytes, op.as_slice());
        let sm = self.sender_mac.to_bytes();
        push_all(&mut bytes, sm.as_slice());
        let si = self.sender_ip.to_bytes();
        push_all(&mut bytes, si.as_slice());
        let tm = self.target_mac.to_bytes();
        push_all(&mut bytes, tm.as_slice());
        let ti = self.target_ip.to_bytes();
        push_all(&mut bytes, ti.as_slice());
        proof {
            self.sender_mac.lemma_len();
            self.target_mac.lemma_len();
        }
        assert(bytes@ =~= arp_bytes(*self));
        bytes
    }

    /// The reply to this packet, sent from hardware address `sender_mac`.
    pub fn create_reply(&self, sender_mac: MacAddress) -> (r: ArpPacket)
        ensures
            r == self.reply_to(sender_mac),
    {
        ArpPacket {
            hardware_type: self.hardware_type,
            protocol_type: self.protocol_type,
            hardware_size: self.hardware_size,
            protocol_size: self.protocol_size,
            operation: ArpOperation::Reply,
            sender_mac: sender_mac,
            sender_ip: self.target_ip,
            target_mac: self.sender_mac,
            target_ip: self.sender_ip,
        }
    }
}

/// A reply derived from a request answers it: the reply names the asked-for
/// address as its sender, and sends back to the requester's addresses.
pub proof fn lemma_reply_answers_request(req: ArpPacket, mac: MacAddress)
    requires
        req.operation == ArpOperation::Request,
    ensures
        req.reply_to(mac).operation == ArpOperation::Reply,
        req.reply_to(mac).sender_ip == req.target_ip,
        req.reply_to(mac).target_ip == req.sender_ip,
        req.reply_to(mac).target_mac == req.sender_mac,
        req.reply_to(mac).sender_mac == mac,
        req.is_ethernet_ipv4() ==> req.reply_to(mac).is_ethernet_ipv4(),
{
}

/// A cache from IPv4 address to hardware address; a later entry for an
/// address replaces the earlier one, and entries never expire.
#[derive(Debug)]
pub struct ArpTable {
    entries: HashMap<u32, MacAddress>,
}

impl View for ArpTable {
    type V = Map<u32, MacAddress>;

    /// Keyed by the address as a big-endian 32-bit number.
    closed spec fn view(&self) -> Map<u32, MacAddress> {
        self.entries@
    }
}

impl ArpTable {
    /// An empty table.
    pub fn new() -> (r: ArpTable)
        ensures
            r@ == Map::<u32, MacAddress>::empty(),
    {
        ArpTable { entries: HashMap::new() }
    }

    /// Records that `ip` is at `mac`, replacing any earlier entry for `ip`.
    pub fn add_entry(&mut self, ip: Ipv4Addr, mac: MacAddress)
        ensures
            final(self)@ == old(self)@.insert(octets_key(ip.octets@), mac),
    {
        let key = ip.to_u32();
        self.entries.insert(key, mac);
    }

    /// The hardware address recorded for `ip`, if any.
    pub fn get_mac_address(&self, ip: &Ipv4Addr) -> (r: Option<MacAddress>)
        ensures
            r == (if self@.contains_key(octets_key(ip.octets@)) {
                Some(self@[octets_key(ip.octets@)])
            } else {
                None
            }),
    {
        let key = ip.to_u32();
        match self.entries.get(&key) {
            Some(m) => Some(*m),
            None => None,
        }
    }

    /// The number of addresses recorded.
    pub fn len(&self) -> (r: usize)
        ensures
            r == self@.len(),
    {
        proof {
            vstd::std_specs::hash::axiom_hashmap_view_finite_dom(self.entries);
        }
        self.entries.len()
    }
}

} // verus!

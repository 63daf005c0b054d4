//! A discrete-time simulator of a small data-link / network-layer stack:
//! Ethernet framing, CRC-32 frame check sequences, ARP resolution and IPv4
//! headers, moved between simulated interfaces by links and hubs.

pub mod address;
pub mod crc;
pub mod ip;
pub mod wire;
pub mod ip_packet;
pub mod arp;
pub mod pdu;
pub mod error;
pub mod queue;
pub mod interface;
pub mod link;
pub mod hub;
pub mod systems;

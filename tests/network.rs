use netsim::address::MacAddress;
use netsim::arp::{ArpOperation, ArpTable};
use netsim::error::NetError;
use netsim::hub::Hub;
use netsim::interface::{
    Direction, EthernetInterface, FrameOutcome, Interface, InterfaceType, SerialInterface,
    DEFAULT_QUEUE_CAPACITY,
};
use netsim::ip::Ipv4Addr;
use netsim::link::Link;
use netsim::pdu::{EthernetFrame, EthernetPayload};
use netsim::queue::Queue;
use netsim::systems::{process_frames, transmit_frames};

fn mac(s: &str) -> MacAddress {
    MacAddress::parse(s).unwrap()
}

fn ip(s: &str) -> Ipv4Addr {
    Ipv4Addr::new(s).unwrap()
}

fn iface(m: &str, a: &str) -> EthernetInterface {
    let mut e = EthernetInterface::new(InterfaceType::FastEthernet);
    e.mac_address = mac(m);
    e.set_ipv4_address(ip(a));
    e
}

fn eth(ifs: &[Interface], i: usize) -> &EthernetInterface {
    match &ifs[i] {
        Interface::Ethernet(e) => e,
        Interface::Serial(_) => panic!("expected an Ethernet interface"),
    }
}

fn eth_mut(ifs: &mut [Interface], i: usize) -> &mut EthernetInterface {
    match &mut ifs[i] {
        Interface::Ethernet(e) => e,
        Interface::Serial(_) => panic!("expected an Ethernet interface"),
    }
}

#[test]
fn new_interface_defaults() {
    let e = EthernetInterface::new(InterfaceType::GigabitEthernet);
    assert_eq!(e.interface_type, InterfaceType::GigabitEthernet);
    assert_eq!(&e.mac_address.to_bytes()[0..3], &[0x00, 0x11, 0x22]);
    assert!(e.ipv4_address.is_none());
    assert!(e.in_queue.is_empty());
    assert!(e.out_queue.is_empty());
    assert_eq!(e.in_queue.capacity(), DEFAULT_QUEUE_CAPACITY);
    assert_eq!(e.out_queue.capacity(), 0x0200_0000);
    assert_eq!(e.arp_table.len(), 0);
}

#[test]
fn arp_resolution_over_a_link() {
    let m1 = mac("00:11:22:00:00:01");
    let m2 = mac("00:11:22:00:00:02");
    let mut ifs = vec![
        Interface::Ethernet(iface("00:11:22:00:00:01", "10.0.0.1")),
        Interface::Ethernet(iface("00:11:22:00:00:02", "10.0.0.2")),
    ];
    let links = vec![Link::new(0, 1)];
    let hubs: Vec<Hub> = vec![];
    let req = EthernetFrame::arp_request(m1, ip("10.0.0.1"), ip("10.0.0.2"));
    eth_mut(&mut ifs, 0).enqueue_frame(req, Direction::Out).unwrap();

    // first tick: the request crosses the link and B answers it
    let (link_results, _) = transmit_frames(&links, &hubs, &mut ifs);
    assert_eq!(link_results, vec![(Ok(true), Ok(false))]);
    let outcomes = process_frames(&mut ifs);
    assert_eq!(outcomes[1], vec![Ok(FrameOutcome::ReplyQueued)]);
    assert!(outcomes[0].is_empty());
    assert!(eth(&ifs, 1).in_queue.is_empty());
    assert_eq!(eth(&ifs, 1).out_queue.len(), 1);
    let reply = eth(&ifs, 1).out_queue.peek().unwrap();
    assert_eq!(reply.dest, m1);
    assert_eq!(reply.src, m2);
    match &reply.payload {
        EthernetPayload::ARP(p) => assert_eq!(p.operation, ArpOperation::Reply),
        _ => panic!("expected an ARP reply"),
    }
    assert!(eth(&ifs, 0).in_queue.is_empty());
    assert_eq!(eth(&ifs, 0).arp_table.get_mac_address(&ip("10.0.0.2")), None);

    // second tick: the reply reaches A, which records it
    let (link_results, _) = transmit_frames(&links, &hubs, &mut ifs);
    assert_eq!(link_results, vec![(Ok(false), Ok(true))]);
    let outcomes = process_frames(&mut ifs);
    assert_eq!(outcomes[0], vec![Ok(FrameOutcome::TableUpdated)]);
    assert_eq!(eth(&ifs, 0).arp_table.get_mac_address(&ip("10.0.0.2")), Some(m2));
    assert!(eth(&ifs, 0).out_queue.is_empty());
    assert!(eth(&ifs, 1).out_queue.is_empty());
}

#[test]
fn hub_floods_to_every_other_member() {
    let mut ifs = vec![
        Interface::Ethernet(iface("00:11:22:00:00:0A", "10.0.0.10")),
        Interface::Ethernet(iface("00:11:22:00:00:0B", "10.0.0.11")),
        Interface::Ethernet(iface("00:11:22:00:00:0C", "10.0.0.12")),
    ];
    let hub = Hub::new(vec![0, 1, 2]);
    let a = mac("00:11:22:00:00:0A");
    let frame = EthernetFrame::arp_request(a, ip("10.0.0.10"), ip("10.0.0.12"));
    let fcs = frame.fcs;
    eth_mut(&mut ifs, 0).enqueue_frame(frame, Direction::Out).unwrap();
    let reports = hub.transmit_frame(&mut ifs);
    assert_eq!(reports.len(), 3);
    assert_eq!(reports[0], Ok(vec![Ok(false), Ok(true), Ok(true)]));
    assert_eq!(reports[1], Ok(vec![]));
    assert_eq!(reports[2], Ok(vec![]));
    assert!(eth(&ifs, 0).in_queue.is_empty());
    assert!(eth(&ifs, 0).out_queue.is_empty());
    for i in [1usize, 2] {
        let e = eth(&ifs, i);
        assert_eq!(e.in_queue.len(), 1);
        let copy = e.in_queue.peek().unwrap();
        assert!(copy.dest.is_broadcast());
        assert_eq!(copy.src, a);
        assert_eq!(copy.fcs, fcs);
    }
}

#[test]
fn frame_for_another_interface_is_dropped() {
    let mut e = iface("00:11:22:00:00:01", "10.0.0.1");
    let other = mac("00:11:22:00:00:99");
    let mut f = EthernetFrame::arp_request(mac("00:11:22:00:00:02"), ip("10.0.0.2"), ip("10.0.0.1"));
    f.dest = other;
    e.enqueue_frame(f, Direction::In).unwrap();
    assert_eq!(e.in_queue.len(), 1);
    let outcomes = e.process_inbound();
    assert_eq!(outcomes, vec![Ok(FrameOutcome::Dropped)]);
    assert_eq!(e.in_queue.len(), 0);
    assert_eq!(e.out_queue.len(), 0);
    assert_eq!(e.arp_table.len(), 0);
}

#[test]
fn unicast_and_dummy_frames_are_accepted() {
    let me = mac("00:11:22:00:00:01");
    let mut e = iface("00:11:22:00:00:01", "10.0.0.1");
    let f = EthernetFrame::new(mac("00:11:22:00:00:02"), me);
    assert_eq!(e.receive(f), Ok(FrameOutcome::Accepted));
    let mut g = EthernetFrame::new(mac("00:11:22:00:00:02"), MacAddress::broadcast());
    g.payload = EthernetPayload::ICMP;
    assert_eq!(e.receive(g), Ok(FrameOutcome::Accepted));
    assert_eq!(e.out_queue.len(), 0);
    assert_eq!(e.arp_table.len(), 0);
}

#[test]
fn arp_reply_overwrites_earlier_entry() {
    let mut t = ArpTable::new();
    t.add_entry(ip("10.0.0.5"), mac("00:00:00:00:00:01"));
    t.add_entry(ip("10.0.0.5"), mac("00:00:00:00:00:02"));
    t.add_entry(ip("10.0.0.6"), mac("00:00:00:00:00:03"));
    assert_eq!(t.len(), 2);
    assert_eq!(t.get_mac_address(&ip("10.0.0.5")), Some(mac("00:00:00:00:00:02")));
    assert_eq!(t.get_mac_address(&ip("10.0.0.6")), Some(mac("00:00:00:00:00:03")));
    assert_eq!(t.get_mac_address(&ip("10.0.0.7")), None);
}

#[test]
fn queue_overflow_keeps_earlier_frames_in_order() {
    // each ARP frame takes 46 bytes on the wire
    let mut q: Queue<EthernetFrame> = Queue::new(100);
    let f1 = EthernetFrame::arp_request(mac("00:00:00:00:00:01"), ip("1.1.1.1"), ip("1.1.1.9"));
    let f2 = EthernetFrame::arp_request(mac("00:00:00:00:00:02"), ip("2.2.2.2"), ip("2.2.2.9"));
    let f3 = EthernetFrame::arp_request(mac("00:00:00:00:00:03"), ip("3.3.3.3"), ip("3.3.3.9"));
    assert_eq!(q.enqueue(f1), Ok(()));
    assert_eq!(q.used(), 46);
    assert_eq!(q.enqueue(f2), Ok(()));
    assert_eq!(q.used(), 92);
    assert_eq!(q.enqueue(f3), Err(NetError::QueueFull));
    assert_eq!(q.len(), 2);
    assert_eq!(q.used(), 92);
    assert_eq!(q.dequeue().unwrap().src, mac("00:00:00:00:00:01"));
    assert_eq!(q.dequeue().unwrap().src, mac("00:00:00:00:00:02"));
    assert!(q.dequeue().is_none());
    assert_eq!(q.used(), 0);
}

#[test]
fn queue_full_on_interface_enqueue() {
    let mut e = iface("00:11:22:00:00:01", "10.0.0.1");
    e.out_queue = Queue::new(50);
    let f = EthernetFrame::arp_request(e.mac_address, ip("10.0.0.1"), ip("10.0.0.2"));
    assert_eq!(e.enqueue_frame(f.clone(), Direction::Out), Ok(()));
    assert_eq!(e.enqueue_frame(f, Direction::Out), Err(NetError::QueueFull));
    assert_eq!(e.out_queue.len(), 1);
}

#[test]
fn arp_request_with_full_outbound_queue_reports_queue_full() {
    let mut e = iface("00:11:22:00:00:01", "10.0.0.1");
    e.out_queue = Queue::new(45);
    let req = EthernetFrame::arp_request(mac("00:11:22:00:00:02"), ip("10.0.0.2"), ip("10.0.0.1"));
    assert_eq!(e.receive(req), Err(NetError::QueueFull));
    assert!(e.out_queue.is_empty());
}

#[test]
fn link_reports_missing_endpoint() {
    let mut ifs = vec![Interface::Ethernet(iface("00:11:22:00:00:01", "10.0.0.1"))];
    let f = EthernetFrame::arp_request(mac("00:11:22:00:00:01"), ip("10.0.0.1"), ip("10.0.0.2"));
    eth_mut(&mut ifs, 0).enqueue_frame(f, Direction::Out).unwrap();
    assert_eq!(Link::transmit_frame(0, 5, &mut ifs), Err(NetError::MissingEndpoint));
    assert_eq!(eth(&ifs, 0).out_queue.len(), 1);
    assert_eq!(Link::new(7, 0).transmit(&mut ifs), (Err(NetError::MissingEndpoint), Err(NetError::MissingEndpoint)));
}

#[test]
fn link_drops_frame_when_destination_is_full() {
    let mut b = iface("00:11:22:00:00:02", "10.0.0.2");
    b.in_queue = Queue::new(10);
    let mut ifs = vec![Interface::Ethernet(iface("00:11:22:00:00:01", "10.0.0.1")), Interface::Ethernet(b)];
    let f = EthernetFrame::arp_request(mac("00:11:22:00:00:01"), ip("10.0.0.1"), ip("10.0.0.2"));
    eth_mut(&mut ifs, 0).enqueue_frame(f, Direction::Out).unwrap();
    assert_eq!(Link::transmit_frame(0, 1, &mut ifs), Err(NetError::QueueFull));
    assert!(eth(&ifs, 0).out_queue.is_empty());
    assert!(eth(&ifs, 1).in_queue.is_empty());
}

#[test]
fn link_ignores_serial_interfaces() {
    let mut ifs = vec![
        Interface::Ethernet(iface("00:11:22:00:00:01", "10.0.0.1")),
        Interface::Serial(SerialInterface::new(vec![])),
    ];
    let f = EthernetFrame::arp_request(mac("00:11:22:00:00:01"), ip("10.0.0.1"), ip("10.0.0.2"));
    eth_mut(&mut ifs, 0).enqueue_frame(f, Direction::Out).unwrap();
    assert_eq!(Link::transmit_frame(0, 1, &mut ifs), Ok(false));
    assert_eq!(eth(&ifs, 0).out_queue.len(), 1);
}

#[test]
fn hub_reports_missing_members_and_goes_on() {
    let mut ifs = vec![
        Interface::Ethernet(iface("00:11:22:00:00:01", "10.0.0.1")),
        Interface::Ethernet(iface("00:11:22:00:00:02", "10.0.0.2")),
    ];
    let hub = Hub::new(vec![0, 9, 1]);
    let f = EthernetFrame::arp_request(mac("00:11:22:00:00:01"), ip("10.0.0.1"), ip("10.0.0.2"));
    eth_mut(&mut ifs, 0).enqueue_frame(f, Direction::Out).unwrap();
    let reports = hub.transmit_frame(&mut ifs);
    assert_eq!(reports[0], Ok(vec![Ok(false), Err(NetError::MissingEndpoint), Ok(true)]));
    assert_eq!(reports[1], Err(NetError::MissingEndpoint));
    assert_eq!(reports[2], Ok(vec![]));
    assert_eq!(eth(&ifs, 1).in_queue.len(), 1);
}

#[test]
fn short_circuit_moves_head_inbound_to_outbound() {
    let mut e = iface("00:11:22:00:00:01", "10.0.0.1");
    assert_eq!(e.short_circuit_queues(), Ok(()));
    let f = EthernetFrame::arp_request(mac("00:11:22:00:00:02"), ip("10.0.0.2"), ip("10.0.0.1"));
    e.enqueue_frame(f, Direction::In).unwrap();
    assert_eq!(e.short_circuit_queues(), Ok(()));
    assert!(e.in_queue.is_empty());
    assert_eq!(e.out_queue.len(), 1);
    assert_eq!(e.dequeue_frame(Direction::Out).unwrap().src, mac("00:11:22:00:00:02"));
}

#[test]
fn peek_leaves_frame_in_place() {
    let mut e = iface("00:11:22:00:00:01", "10.0.0.1");
    assert!(e.peek_frame(Direction::In).is_none());
    let f = EthernetFrame::arp_request(mac("00:11:22:00:00:02"), ip("10.0.0.2"), ip("10.0.0.1"));
    e.enqueue_frame(f, Direction::In).unwrap();
    assert_eq!(e.peek_frame(Direction::In).unwrap().src, mac("00:11:22:00:00:02"));
    assert_eq!(e.in_queue.len(), 1);
    assert!(e.peek_frame(Direction::Out).is_none());
}

#[test]
fn attach_and_addresses() {
    let mut i = Interface::Ethernet(EthernetInterface::new(InterfaceType::TenGigabitEthernet));
    i.attach_to_device(3);
    match &mut i {
        Interface::Ethernet(e) => {
            assert_eq!(e.device, Some(3));
            e.add_ipv6_address(netsim::ip::Ipv6Addr::new("::1").unwrap());
            assert_eq!(e.ipv6_addresses.len(), 1);
        }
        Interface::Serial(_) => panic!("expected Ethernet"),
    }
}

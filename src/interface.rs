//! Network interfaces: identity, bounded inbound and outbound queues, an
//! ARP cache, and what happens to a frame that arrives.

use crate::address::{broadcast_bytes, vendor_prefix, MacAddress};
use crate::arp::{ArpOperation, ArpTable};
use crate::error::NetError;
use crate::ip::{octets_key, IpAddr, Ipv4Addr, Ipv6Addr};
use crate::pdu::{is_arp_reply_frame, EthernetFrame, EthernetPayload, ARP_FRAME_LEN};
use crate::queue::{Queue, WireSized};
use vstd::prelude::*;

verus! {

/// The capacity in bytes of each queue of a new interface (32 MiB).
pub const DEFAULT_QUEUE_CAPACITY: u32 = 0x0200_0000;

/// The speed class of an Ethernet interface; descriptive only.
#[derive(Clone, Copy, Debug, PartialEq, Eq, Structural)]
pub enum InterfaceType {
    FastEthernet,
    GigabitEthernet,
    TenGigabitEthernet,
}

/// Which of an interface's two queues.
#[derive(Clone, Copy, Debug, PartialEq, Eq, Structural)]
pub enum Direction {
    In,
    Out,
}

/// What became of a frame that an interface took off its inbound queue.
#[derive(Clone, Copy, Debug, PartialEq, Eq, Structural)]
pub enum FrameOutcome {
    /// An ARP request was answered; the reply waits on the outbound queue.
    ReplyQueued,
    /// An ARP reply was recorded in the ARP table.
    TableUpdated,
    /// The frame was for this interface and needs nothing further.
    Accepted,
    /// The frame was addressed to another interface and was discarded.
    Dropped,
}

/// An Ethernet interface.
pub struct EthernetInterface {
    pub interface_type: InterfaceType,
    /// The device that the interface is attached to, if any.
    pub device: Option<usize>,
    pub mac_address: MacAddress,
    pub ipv4_address: Option<Ipv4Addr>,
    pub ipv6_addresses: Vec<Ipv6Addr>,
    pub arp_table: ArpTable,
    pub in_queue: Queue<EthernetFrame>,
    pub out_queue: Queue<EthernetFrame>,
}

/// A serial interface; it takes no part in forwarding.
pub struct SerialInterface {
    pub ip_addresses: Vec<IpAddr>,
}

impl SerialInterface {
    pub fn new(ip_addresses: Vec<IpAddr>) -> (r: SerialInterface)
        ensures
            r.ip_addresses == ip_addresses,
    {
        SerialInterface { ip_addresses }
    }
}

/// An interface of either kind.
pub enum Interface {
    Ethernet(EthernetInterface),
    Serial(SerialInterface),
}

/// Every interface of an arena is consistent.
pub open spec fn all_wf(ifs: Seq<Interface>) -> bool {
    forall|i: int| 0 <= i < ifs.len() ==> (#[trigger] ifs[i]).wf()
}

/// The Ethernet interface at handle `i` of an arena.
pub open spec fn eth(ifs: Seq<Interface>, i: int) -> EthernetInterface {
    ifs[i]->Ethernet_0
}

/// Whether handle `i` names an Ethernet interface of the arena.
pub open spec fn is_eth(ifs: Seq<Interface>, i: int) -> bool {
    0 <= i < ifs.len() && ifs[i] is Ethernet
}

impl Interface {
    /// Whether this is an Ethernet interface.
    pub fn is_ethernet(&self) -> (r: bool)
        ensures
            r == (*self is Ethernet),
    {
        match self {
            Interface::Ethernet(_) => true,
            Interface::Serial(_) => false,
        }
    }

    /// Whether an Ethernet interface's queues are consistent; a serial
    /// interface always is.
    pub open spec fn wf(&self) -> bool {
        match self {
            Interface::Ethernet(e) => e.wf(),
            Interface::Serial(_) => true,
        }
    }

    /// Records the device that an Ethernet interface belongs to; a serial
    /// interface is left as it is.
    pub fn attach_to_device(&mut self, device: usize)
        ensures
            match (*old(self), *final(self)) {
                (Interface::Ethernet(a), Interface::Ethernet(b)) => b.device == Some(device)
                    && a.interface_type == b.interface_type && a.mac_address == b.mac_address
                    && a.ipv4_address == b.ipv4_address && a.ipv6_addresses == b.ipv6_addresses
                    && a.arp_table == b.arp_table && a.in_queue == b.in_queue && a.out_queue
                    == b.out_queue,
                (Interface::Serial(a), Interface::Serial(b)) => a == b,
                _ => false,
            },
    {
        match self {
            Interface::Ethernet(interface) => {
                interface.device = Some(device);
            },
            Interface::Serial(_) => {},
        }
    }
}

impl EthernetInterface {
    /// Both queues are consistent.
    pub open spec fn wf(&self) -> bool {
        self.in_queue.wf() && self.out_queue.wf()
    }

    /// Whether the interface takes in `frame`: it is addressed to this
    /// interface or to everyone.
    pub open spec fn accepts(&self, frame: EthernetFrame) -> bool {
        frame.dest@ == self.mac_address@ || frame.dest@ == broadcast_bytes()
    }

    /// The two interfaces have the same identity and attachments.
    pub open spec fn same_identity(&self, other: &EthernetInterface) -> bool {
        &&& self.interface_type == other.interface_type
        &&& self.device == other.device
        &&& self.mac_address == other.mac_address
        &&& self.ipv4_address == other.ipv4_address
        &&& self.ipv6_addresses == other.ipv6_addresses
    }

    /// What acting on `frame` does to the outbound queue and the ARP table,
    /// with `r` the outcome: an ARP request gets a reply queued (or
    /// `QueueFull` where it does not fit), an ARP reply is recorded, and
    /// anything else is accepted with no further effect.
    pub open spec fn process_post(
        pre: EthernetInterface,
        post: EthernetInterface,
        frame: EthernetFrame,
        r: Result<FrameOutcome, NetError>,
    ) -> bool {
        match frame.payload {
            EthernetPayload::ARP(a) => if a.operation == ArpOperation::Request {
                &&& post.arp_table@ == pre.arp_table@
                &&& if pre.out_queue.used_bytes() + ARP_FRAME_LEN <= pre.out_queue.max_bytes() {
                    &&& r == Ok::<FrameOutcome, NetError>(FrameOutcome::ReplyQueued)
                    &&& post.out_queue@.len() == pre.out_queue@.len() + 1
                    &&& post.out_queue@.drop_last() == pre.out_queue@
                    &&& is_arp_reply_frame(post.out_queue@.last(), a, pre.mac_address)
                } else {
                    &&& r == Err::<FrameOutcome, NetError>(NetError::QueueFull)
                    &&& post.out_queue@ == pre.out_queue@
                }
            } else {
                &&& r == Ok::<FrameOutcome, NetError>(FrameOutcome::TableUpdated)
                &&& post.arp_table@ == pre.arp_table@.insert(
                    octets_key(a.sender_ip.octets@),
                    a.sender_mac,
                )
                &&& post.out_queue@ == pre.out_queue@
            },
            _ => {
                &&& r == Ok::<FrameOutcome, NetError>(FrameOutcome::Accepted)
                &&& post.arp_table@ == pre.arp_table@
                &&& post.out_queue@ == pre.out_queue@
            },
        }
    }

    /// What receiving `frame` does to everything but the inbound queue: a
    /// frame for another interface is dropped with no effect, any other is
    /// acted on as [`EthernetInterface::process_post`] says.
    pub open spec fn receive_post(
        pre: EthernetInterface,
        post: EthernetInterface,
        frame: EthernetFrame,
        r: Result<FrameOutcome, NetError>,
    ) -> bool {
        &&& pre.same_identity(&post)
        &&& post.out_queue.max_bytes() == pre.out_queue.max_bytes()
        &&& if pre.accepts(frame) {
            EthernetInterface::process_post(pre, post, frame, r)
        } else {
            &&& r == Ok::<FrameOutcome, NetError>(FrameOutcome::Dropped)
            &&& post.arp_table@ == pre.arp_table@
            &&& post.out_queue@ == pre.out_queue@
        }
    }

    /// What draining the inbound queue did, with `outs` the outcome of each
    /// frame: the queue is left empty, and the interface passed through one
    /// state per frame, each step as [`EthernetInterface::receive_post`] says.
    pub open spec fn drained(
        pre: EthernetInterface,
        post: EthernetInterface,
        outs: Seq<Result<FrameOutcome, NetError>>,
    ) -> bool {
        &&& post.in_queue@.len() == 0
        &&& post.in_queue.max_bytes() == pre.in_queue.max_bytes()
        &&& outs.len() == pre.in_queue@.len()
        &&& exists|trace: Seq<EthernetInterface>|
            {
                &&& trace.len() == outs.len() + 1
                &&& trace[0] == pre
                &&& trace.last() == post
                &&& forall|k: int|
                    0 <= k < outs.len() ==> EthernetInterface::receive_post(
                        #[trigger] trace[k],
                        trace[k + 1],
                        pre.in_queue@[k],
                        outs[k],
                    )
            }
    }

    /// Draining an empty inbound queue changes nothing.
    pub proof fn lemma_drained_none(
        pre: EthernetInterface,
        post: EthernetInterface,
        outs: Seq<Result<FrameOutcome, NetError>>,
    )
        requires
            EthernetInterface::drained(pre, post, outs),
            pre.in_queue@.len() == 0,
        ensures
            post == pre,
            outs.len() == 0,
    {
        let trace = choose|trace: Seq<EthernetInterface>|
            {
                &&& trace.len() == outs.len() + 1
                &&& trace[0] == pre
                &&& trace.last() == post
                &&& forall|k: int|
                    0 <= k < outs.len() ==> EthernetInterface::receive_post(
                        #[trigger] trace[k],
                        trace[k + 1],
                        pre.in_queue@[k],
                        outs[k],
                    )
            };
        assert(trace.len() == 1);
    }

    /// Draining an inbound queue of one frame receives that frame.
    pub proof fn lemma_drained_one(
        pre: EthernetInterface,
        post: EthernetInterface,
        outs: Seq<Result<FrameOutcome, NetError>>,
    )
        requires
            EthernetInterface::drained(pre, post, outs),
            pre.in_queue@.len() == 1,
        ensures
            EthernetInterface::receive_post(pre, post, pre.in_queue@[0], outs[0]),
            post.in_queue@.len() == 0,
            outs.len() == 1,
    {
        let trace = choose|trace: Seq<EthernetInterface>|
            {
                &&& trace.len() == outs.len() + 1
                &&& trace[0] == pre
                &&& trace.last() == post
                &&& forall|k: int|
                    0 <= k < outs.len() ==> EthernetInterface::receive_post(
                        #[trigger] trace[k],
                        trace[k + 1],
                        pre.in_queue@[k],
                        outs[k],
                    )
            };
        assert(EthernetInterface::receive_post(trace[0], trace[1], pre.in_queue@[0], outs[0]));
    }

    /// A new interface of the given type: a random address under the fixed
    /// vendor prefix, no IP address, an empty ARP table, and two empty queues
    /// of the default capacity.
    pub fn new(interface_type: InterfaceType) -> (r: EthernetInterface)
        ensures
            r.wf(),
            r.interface_type == interface_type,
            r.device is None,
            r.mac_address@.subrange(0, 3) == vendor_prefix(),
            r.ipv4_address is None,
            r.ipv6_addresses@.len() == 0,
            r.arp_table@ == Map::<u32, MacAddress>::empty(),
            r.in_queue@.len() == 0,
            r.out_queue@.len() == 0,
            r.in_queue.max_bytes() == DEFAULT_QUEUE_CAPACITY,
            r.out_queue.max_bytes() == DEFAULT_QUEUE_CAPACITY,
    {
        EthernetInterface {
            interface_type: interface_type,
            device: None,
            mac_address: MacAddress::random(),
            ipv4_address: None,
            ipv6_addresses: Vec::new(),
            arp_table: ArpTable::new(),
            in_queue: Queue::new(DEFAULT_QUEUE_CAPACITY),
            out_queue: Queue::new(DEFAULT_QUEUE_CAPACITY),
        }
    }

    /// Sets the IPv4 address.
    pub fn set_ipv4_address(&mut self, ipv4_address: Ipv4Addr)
        ensures
            final(self).ipv4_address == Some(ipv4_address),
            final(self).interface_type == old(self).interface_type,
            final(self).device == old(self).device,
            final(self).mac_address == old(self).mac_address,
            final(self).ipv6_addresses == old(self).ipv6_addresses,
            final(self).arp_table == old(self).arp_table,
            final(self).in_queue == old(self).in_queue,
            final(self).out_queue == old(self).out_queue,
    {
        self.ipv4_address = Some(ipv4_address);
    }

    /// Adds an IPv6 address after those already held.
    pub fn add_ipv6_address(&mut self, ipv6_address: Ipv6Addr)
        ensures
            final(self).ipv6_addresses@ == old(self).ipv6_addresses@.push(ipv6_address),
            final(self).interface_type == old(self).interface_type,
            final(self).device == old(self).device,
            final(self).mac_address == old(self).mac_address,
            final(self).ipv4_address == old(self).ipv4_address,
            final(self).arp_table == old(self).arp_table,
            final(self).in_queue == old(self).in_queue,
            final(self).out_queue == old(self).out_queue,
    {
        self.ipv6_addresses.push(ipv6_address);
    }

    /// Adds `frame` at the tail of the chosen queue; fails with `QueueFull`,
    /// changing nothing, where its size does not fit in the room left.
    pub fn enqueue_frame(&mut self, frame: EthernetFrame, direction: Direction) -> (r: Result<
        (),
        NetError,
    >)
        requires
            old(self).wf(),
        ensures
            final(self).wf(),
            old(self).same_identity(&*final(self)),
            final(self).arp_table == old(self).arp_table,
            direction == Direction::In ==> {
                &&& final(self).out_queue == old(self).out_queue
                &&& final(self).in_queue.max_bytes() == old(self).in_queue.max_bytes()
                &&& if old(self).in_queue.used_bytes() + frame.wire_size() <= old(
                    self,
                ).in_queue.max_bytes() {
                    r is Ok && final(self).in_queue@ == old(self).in_queue@.push(frame)
                } else {
                    r == Err::<(), NetError>(NetError::QueueFull) && final(self).in_queue@ == old(
                        self,
                    ).in_queue@
                }
            },
            direction == Direction::Out ==> {
                &&& final(self).in_queue == old(self).in_queue
                &&& final(self).out_queue.max_bytes() == old(self).out_queue.max_bytes()
                &&& if old(self).out_queue.used_bytes() + frame.wire_size() <= old(
                    self,
                ).out_queue.max_bytes() {
                    r is Ok && final(self).out_queue@ == old(self).out_queue@.push(frame)
                } else {
                    r == Err::<(), NetError>(NetError::QueueFull) && final(self).out_queue@ == old(
                        self,
                    ).out_queue@
                }
            },
    {
        match direction {
            Direction::In => self.in_queue.enqueue(frame),
            Direction::Out => self.out_queue.enqueue(frame),
        }
    }

    /// Removes and returns the head of the chosen queue, if any.
    pub fn dequeue_frame(&mut self, direction: Direction) -> (r: Option<EthernetFrame>)
        requires
            old(self).wf(),
        ensures
            final(self).wf(),
            old(self).same_identity(&*final(self)),
            final(self).arp_table == old(self).arp_table,
            direction == Direction::In ==> {
                &&& final(self).out_queue == old(self).out_queue
                &&& final(self).in_queue.max_bytes() == old(self).in_queue.max_bytes()
                &&& if old(self).in_queue@.len() > 0 {
                    r == Some(old(self).in_queue@[0]) && final(self).in_queue@ == old(
                        self,
                    ).in_queue@.drop_first()
                } else {
                    r is None && final(self).in_queue@ == old(self).in_queue@
                }
            },
            direction == Direction::Out ==> {
                &&& final(self).in_queue == old(self).in_queue
                &&& final(self).out_queue.max_bytes() == old(self).out_queue.max_bytes()
                &&& if old(self).out_queue@.len() > 0 {
                    r == Some(old(self).out_queue@[0]) && final(self).out_queue@ == old(
                        self,
                    ).out_queue@.drop_first()
                } else {
                    r is None && final(self).out_queue@ == old(self).out_queue@
                }
            },
    {
        match direction {
            Direction::In => self.in_queue.dequeue(),
            Direction::Out => self.out_queue.dequeue(),
        }
    }

    /// The head of the chosen queue, left in place.
    pub fn peek_frame(&self, direction: Direction) -> (r: Option<&EthernetFrame>)
        ensures
            direction == Direction::In ==> if self.in_queue@.len() > 0 {
                r is Some && *r->0 == self.in_queue@[0]
            } else {
                r is None
            },
            direction == Direction::Out ==> if self.out_queue@.len() > 0 {
                r is Some && *r->0 == self.out_queue@[0]
            } else {
                r is None
            },
    {
        match direction {
            Direction::In => self.in_queue.peek(),
            Direction::Out => self.out_queue.peek(),
        }
    }

    /// Acts on a frame addressed to this interface: answers an ARP request
    /// by queueing the reply for sending, records the sender of an ARP
    /// reply, and accepts anything else with no further effect.
    pub fn process_frame(&mut self, frame: &EthernetFrame) -> (r: Result<FrameOutcome, NetError>)
        requires
            old(self).wf(),
        ensures
            final(self).wf(),
            old(self).same_identity(&*final(self)),
            final(self).in_queue == old(self).in_queue,
            final(self).out_queue.max_bytes() == old(self).out_queue.max_bytes(),
            EthernetInterface::process_post(*old(self), *final(self), *frame, r),
    {
        match &frame.payload {
            EthernetPayload::ARP(arp) => match arp.operation {
                ArpOperation::Request => {
                    let reply_frame = frame.arp_reply(arp, self.mac_address);
                    let ghost pre = self.out_queue@;
                    match self.enqueue_frame(reply_frame, Direction::Out) {
                        Ok(()) => {
                            assert(self.out_queue@.drop_last() =~= pre);
                            Ok(FrameOutcome::ReplyQueued)
                        },
                        Err(e) => Err(e),
                    }
                },
                ArpOperation::Reply => {
                    self.arp_table.add_entry(arp.sender_ip, arp.sender_mac);
                    Ok(FrameOutcome::TableUpdated)
                },
            },
            _ => Ok(FrameOutcome::Accepted),
        }
    }

    /// Takes in a frame that came off the inbound queue: one addressed to
    /// this interface or to everyone is acted on, any other is dropped.
    pub fn receive(&mut self, frame: EthernetFrame) -> (r: Result<FrameOutcome, NetError>)
        requires
            old(self).wf(),
        ensures
            final(self).wf(),
            final(self).in_queue == old(self).in_queue,
            EthernetInterface::receive_post(*old(self), *final(self), frame, r),
    {
        if frame.dest == self.mac_address || frame.dest.is_broadcast() {
            self.process_frame(&frame)
        } else {
            Ok(FrameOutcome::Dropped)
        }
    }

    /// Takes every frame off the inbound queue, head first, and receives it;
    /// returns the outcome of each in turn. The interface passes through one
    /// state per frame, each step as [`EthernetInterface::receive_post`] says.
    pub fn process_inbound(&mut self) -> (r: Vec<Result<FrameOutcome, NetError>>)
        requires
            old(self).wf(),
        ensures
            final(self).wf(),
            EthernetInterface::drained(*old(self), *final(self), r@),
    {
        let ghost frames = self.in_queue@;
        let ghost n: int = frames.len() as int;
        let ghost mut trace: Seq<EthernetInterface> = seq![*self];
        let mut outcomes: Vec<Result<FrameOutcome, NetError>> = Vec::new();
        while !self.in_queue.is_empty()
            invariant
                self.wf(),
                self.in_queue.max_bytes() == old(self).in_queue.max_bytes(),
                frames == old(self).in_queue@,
                n == frames.len(),
                outcomes@.len() <= n,
                self.in_queue@ == frames.subrange(outcomes@.len() as int, n),
                trace.len() == outcomes@.len() + 1,
                trace[0] == *old(self),
                trace.last() == *self,
                forall|k: int|
                    0 <= k < outcomes@.len() ==> EthernetInterface::receive_post(
                        #[trigger] trace[k],
                        trace[k + 1],
                        frames[k],
                        outcomes@[k],
                    ),
            decreases self.in_queue@.len(),
        {
            let ghost before = *self;
            let ghost i: int = outcomes@.len() as int;
            let frame = self.dequeue_frame(Direction::In).unwrap();
            assert(frame == frames[i]);
            let ghost mid = *self;
            let outcome = self.receive(frame);
            proof {
                assert(EthernetInterface::receive_post(before, *self, frames[i], outcome))
                    by {
                    assert(before.same_identity(&mid));
                    assert(mid.out_queue == before.out_queue);
                    assert(mid.arp_table == before.arp_table);
                }
                trace = trace.push(*self);
                assert(self.in_queue@ =~= frames.subrange(i + 1, n));
            }
            outcomes.push(outcome);
        }
        assert(outcomes@.len() == n);
        assert(EthernetInterface::drained(*old(self), *self, outcomes@));
        outcomes
    }

    /// Moves the head of the inbound queue, if any, to the tail of the
    /// outbound queue; where it does not fit there it is lost and the call
    /// fails with `QueueFull`.
    pub fn short_circuit_queues(&mut self) -> (r: Result<(), NetError>)
        requires
            old(self).wf(),
        ensures
            final(self).wf(),
            old(self).same_identity(&*final(self)),
            final(self).arp_table == old(self).arp_table,
            final(self).in_queue.max_bytes() == old(self).in_queue.max_bytes(),
            final(self).out_queue.max_bytes() == old(self).out_queue.max_bytes(),
            old(self).in_queue@.len() == 0 ==> r is Ok && final(self).in_queue@ == old(
                self,
            ).in_queue@ && final(self).out_queue@ == old(self).out_queue@,
            old(self).in_queue@.len() > 0 ==> {
                let f = old(self).in_queue@[0];
                &&& final(self).in_queue@ == old(self).in_queue@.drop_first()
                &&& if old(self).out_queue.used_bytes() + f.wire_size() <= old(
                    self,
                ).out_queue.max_bytes() {
                    r is Ok && final(self).out_queue@ == old(self).out_queue@.push(f)
                } else {
                    r == Err::<(), NetError>(NetError::QueueFull) && final(self).out_queue@ == old(
                        self,
                    ).out_queue@
                }
            },
    {
        match self.in_queue.dequeue() {
            Some(item) => self.out_queue.enqueue(item),
            None => Ok(()),
        }
    }
}

} // verus!

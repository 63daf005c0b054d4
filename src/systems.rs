//! The phases of a simulation tick over an arena of interfaces: links and
//! hubs move frames that are already queued, then every interface drains
//! its inbound queue.

use crate::error::NetError;
use crate::hub::{hub_transmitted, Hub};
use crate::arp::ArpOperation;
use crate::interface::{all_wf, eth, is_eth, EthernetInterface, FrameOutcome, Interface};
use crate::ip::{octets_key, Ipv4Addr};
use crate::link::{transmit_post, Link};
use crate::pdu::{is_arp_request_frame, EthernetFrame, EthernetPayload, ARP_FRAME_LEN};
use crate::queue::total_size;
use vstd::prelude::*;

verus! {

/// The forwarding phase: every link transmits each way, in link order, then
/// every hub transmits, in hub order. Returns each link's two outcomes and
/// each hub's member reports.
pub fn transmit_frames(links: &Vec<Link>, hubs: &Vec<Hub>, interfaces: &mut Vec<Interface>) -> (r: (
    Vec<(Result<bool, NetError>, Result<bool, NetError>)>,
    Vec<Vec<Result<Vec<Result<bool, NetError>>, NetError>>>,
))
    requires
        all_wf(old(interfaces)@),
    ensures
        all_wf(final(interfaces)@),
        r.0@.len() == links@.len(),
        r.1@.len() == hubs@.len(),
        exists|trace: Seq<Seq<Interface>>|
            {
                &&& trace.len() == links@.len() + hubs@.len() + 1
                &&& trace[0] == old(interfaces)@
                &&& trace.last() == final(interfaces)@
                &&& forall|i: int|
                    0 <= i < links@.len() ==> links@[i].transmitted(
                        #[trigger] trace[i],
                        trace[i + 1],
                        r.0@[i],
                    )
                &&& forall|h: int|
                    0 <= h < hubs@.len() ==> hub_transmitted(
                        #[trigger] trace[links@.len() + h],
                        trace[links@.len() + h + 1],
                        hubs@[h].interfaces@,
                        r.1@[h]@,
                    )
            },
{
    let ghost mut trace: Seq<Seq<Interface>> = seq![interfaces@];
    let mut link_results: Vec<(Result<bool, NetError>, Result<bool, NetError>)> = Vec::new();
    let mut i: usize = 0;
    while i < links.len()
        invariant
            0 <= i <= links@.len(),
            all_wf(interfaces@),
            link_results@.len() == i,
            trace.len() == i + 1,
            trace[0] == old(interfaces)@,
            trace.last() == interfaces@,
            forall|k: int|
                0 <= k < i ==> links@[k].transmitted(#[trigger] trace[k], trace[k + 1], link_results@[k]),
        decreases links@.len() - i,
    {
        let res = links[i].transmit(interfaces);
        proof {
            trace = trace.push(interfaces@);
        }
        link_results.push(res);
        i = i + 1;
    }
    let mut hub_reports: Vec<Vec<Result<Vec<Result<bool, NetError>>, NetError>>> = Vec::new();
    let mut h: usize = 0;
    while h < hubs.len()
        invariant
            0 <= h <= hubs@.len(),
            all_wf(interfaces@),
            link_results@.len() == links@.len(),
            hub_reports@.len() == h,
            trace.len() == links@.len() + h + 1,
            trace[0] == old(interfaces)@,
            trace.last() == interfaces@,
            forall|k: int|
                0 <= k < links@.len() ==> links@[k].transmitted(#[trigger] trace[k], trace[k + 1], link_results@[k]),
            forall|k: int|
                0 <= k < h ==> hub_transmitted(
                    #[trigger] trace[links@.len() + k],
                    trace[links@.len() + k + 1],
                    hubs@[k].interfaces@,
                    hub_reports@[k]@,
                ),
        decreases hubs@.len() - h,
    {
        let ghost before = trace;
        let rep = hubs[h].transmit_frame(interfaces);
        proof {
            trace = trace.push(interfaces@);
            assert forall|k: int| 0 <= k < links@.len() implies links@[k].transmitted(
                #[trigger] trace[k],
                trace[k + 1],
                link_results@[k],
            ) by {
                assert(trace[k] == before[k] && trace[k + 1] == before[k + 1]);
            }
            assert forall|k: int| 0 <= k < h + 1 implies hub_transmitted(
                #[trigger] trace[links@.len() + k],
                trace[links@.len() + k + 1],
                hubs@[k].interfaces@,
                hub_reports@.push(rep)[k]@,
            ) by {
                if k < h {
                    assert(trace[links@.len() + k] == before[links@.len() + k]);
                    assert(trace[links@.len() + k + 1] == before[links@.len() + k + 1]);
                }
            }
        }
        hub_reports.push(rep);
        h = h + 1;
    }
    (link_results, hub_reports)
}

/// What the processing phase did, with `outs` the outcomes of each
/// interface: every Ethernet interface drained its inbound queue, as
/// [`EthernetInterface::drained`] says; serial interfaces are unchanged.
pub open spec fn frames_processed(
    pre: Seq<Interface>,
    post: Seq<Interface>,
    outs: Seq<Vec<Result<FrameOutcome, NetError>>>,
) -> bool {
    &&& post.len() == pre.len()
    &&& outs.len() == pre.len()
    &&& forall|i: int|
        0 <= i < pre.len() ==> if pre[i] is Ethernet {
            &&& #[trigger] post[i] is Ethernet
            &&& EthernetInterface::drained(eth(pre, i), eth(post, i), outs[i]@)
        } else {
            post[i] == pre[i] && outs[i]@.len() == 0
        }
}

/// The processing phase: every Ethernet interface drains its inbound queue,
/// as [`EthernetInterface::drained`] says; serial interfaces are left as
/// they are. Returns the outcomes of each interface, in arena order.
pub fn process_frames(interfaces: &mut Vec<Interface>) -> (r: Vec<
    Vec<Result<FrameOutcome, NetError>>,
>)
    requires
        all_wf(old(interfaces)@),
    ensures
        all_wf(final(interfaces)@),
        frames_processed(old(interfaces)@, final(interfaces)@, r@),
{
    let mut all: Vec<Vec<Result<FrameOutcome, NetError>>> = Vec::new();
    let mut i: usize = 0;
    while i < interfaces.len()
        invariant
            0 <= i <= interfaces@.len(),
            interfaces@.len() == old(interfaces)@.len(),
            all_wf(interfaces@),
            all@.len() == i,
            forall|k: int| i <= k < interfaces@.len() ==> interfaces@[k] == old(interfaces)@[k],
            forall|k: int|
                0 <= k < i ==> if old(interfaces)@[k] is Ethernet {
                    &&& #[trigger] interfaces@[k] is Ethernet
                    &&& EthernetInterface::drained(
                        eth(old(interfaces)@, k),
                        eth(interfaces@, k),
                        all@[k]@,
                    )
                } else {
                    interfaces@[k] == old(interfaces)@[k] && all@[k]@.len() == 0
                },
        decreases old(interfaces)@.len() - i,
    {
        let outs = if interfaces[i].is_ethernet() {
            match &mut interfaces[i] {
                Interface::Ethernet(e) => e.process_inbound(),
                Interface::Serial(_) => Vec::new(),
            }
        } else {
            Vec::new()
        };
        all.push(outs);
        i = i + 1;
    }
    all
}

/// ARP resolution over a link takes two ticks. Interfaces `a` and `b` are
/// joined by `link`; `a`'s only outbound frame is its broadcast request
/// asking who has `target_ip`, every other queue is empty, and the queues
/// involved have room for an ARP frame. After the first tick (`link`
/// transmits, then every interface processes its inbound queue) `b` has
/// taken in the request and holds exactly one frame to send: its reply,
/// from `b` to `a`. After the second tick `a` maps `target_ip` to `b`'s
/// hardware address.
pub proof fn lemma_arp_resolution_over_link(
    link: Link,
    req: EthernetFrame,
    sender_ip: Ipv4Addr,
    target_ip: Ipv4Addr,
    s0: Seq<Interface>,
    s1: Seq<Interface>,
    s2: Seq<Interface>,
    s3: Seq<Interface>,
    s4: Seq<Interface>,
    r1: (Result<bool, NetError>, Result<bool, NetError>),
    o1: Seq<Vec<Result<FrameOutcome, NetError>>>,
    r2: (Result<bool, NetError>, Result<bool, NetError>),
    o2: Seq<Vec<Result<FrameOutcome, NetError>>>,
)
    requires
        link.0 != link.1,
        is_eth(s0, link.0 as int),
        is_eth(s0, link.1 as int),
        is_arp_request_frame(req, eth(s0, link.0 as int).mac_address, sender_ip, target_ip),
        eth(s0, link.0 as int).out_queue@ == seq![req],
        eth(s0, link.0 as int).in_queue@.len() == 0,
        eth(s0, link.1 as int).out_queue@.len() == 0,
        eth(s0, link.1 as int).in_queue@.len() == 0,
        ARP_FRAME_LEN <= eth(s0, link.0 as int).in_queue.max_bytes(),
        ARP_FRAME_LEN <= eth(s0, link.1 as int).in_queue.max_bytes(),
        ARP_FRAME_LEN <= eth(s0, link.1 as int).out_queue.max_bytes(),
        link.transmitted(s0, s1, r1),
        frames_processed(s1, s2, o1),
        link.transmitted(s2, s3, r2),
        frames_processed(s3, s4, o2),
    ensures
        is_eth(s2, link.1 as int),
        eth(s2, link.1 as int).in_queue@.len() == 0,
        eth(s2, link.1 as int).out_queue@.len() == 1,
        eth(s2, link.1 as int).out_queue@[0].dest == eth(s0, link.0 as int).mac_address,
        eth(s2, link.1 as int).out_queue@[0].src == eth(s0, link.1 as int).mac_address,
        eth(s2, link.1 as int).out_queue@[0].payload is ARP,
        eth(s2, link.1 as int).out_queue@[0].payload->ARP_0.operation == ArpOperation::Reply,
        is_eth(s4, link.0 as int),
        eth(s4, link.0 as int).arp_table@ == eth(s0, link.0 as int).arp_table@.insert(
            octets_key(target_ip.octets@),
            eth(s0, link.1 as int).mac_address,
        ),
{
    let a = link.0 as int;
    let b = link.1 as int;
    let arp = req.payload->ARP_0;
    assert(total_size(Seq::<EthernetFrame>::empty()) == 0);
    // first tick: the request crosses the link; nothing comes back
    let m1 = choose|m: Seq<Interface>| transmit_post(s0, m, a, b, r1.0) && transmit_post(m, s1, b, a, r1.1);
    assert(eth(s0, b).in_queue@ =~= Seq::<EthernetFrame>::empty());
    assert(eth(m1, b).in_queue@ =~= seq![req]);
    assert(eth(m1, a).out_queue@.len() == 0);
    assert(s1 == m1);
    // b answers the request; a has nothing to take in
    assert(s1[a] is Ethernet && s1[b] is Ethernet);
    EthernetInterface::lemma_drained_none(eth(s1, a), eth(s2, a), o1[a]@);
    EthernetInterface::lemma_drained_one(eth(s1, b), eth(s2, b), o1[b]@);
    assert(eth(s1, b).out_queue@ =~= Seq::<EthernetFrame>::empty());
    let reply = eth(s2, b).out_queue@[0];
    assert(eth(s2, b).out_queue@.drop_last() == eth(s1, b).out_queue@);
    assert(reply == eth(s2, b).out_queue@.last());
    // second tick: the reply crosses the link back
    let m2 = choose|m: Seq<Interface>| transmit_post(s2, m, a, b, r2.0) && transmit_post(m, s3, b, a, r2.1);
    assert(m2 == s2);
    assert(eth(s2, a).in_queue@ =~= Seq::<EthernetFrame>::empty());
    assert(eth(s3, a).in_queue@ =~= seq![reply]);
    // a records the reply
    assert(s3[a] is Ethernet);
    EthernetInterface::lemma_drained_one(eth(s3, a), eth(s4, a), o2[a]@);
    assert(reply.payload == EthernetPayload::ARP(arp.reply_to(eth(s1, b).mac_address)));
}

} // verus!

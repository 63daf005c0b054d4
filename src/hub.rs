//! Hubs: every frame that a member sends is copied to every other member.

use crate::error::NetError;
use crate::interface::{all_wf, eth, is_eth, Direction, Interface};
use crate::pdu::{lemma_copy_same_size, EthernetFrame};
use crate::queue::WireSized;
use vstd::prelude::*;

verus! {

/// A hub joining the interfaces at the given handles of an arena. It learns
/// nothing: each frame goes to every member but its sender.
#[derive(Clone, Debug)]
pub struct Hub {
    pub interfaces: Vec<usize>,
}

/// What handing a copy of `frame`, sent by handle `src`, to handle `dst`
/// did, with `r` the outcome. The sender itself gets no copy, nor does a
/// serial interface (`Ok(false)`); a handle that names no interface is
/// reported as `MissingEndpoint`; otherwise the copy joins `dst`'s inbound
/// queue (`Ok(true)`) or, where it does not fit, is lost (`QueueFull`).
pub open spec fn delivered(
    pre: Seq<Interface>,
    post: Seq<Interface>,
    frame: EthernetFrame,
    src: int,
    dst: int,
    r: Result<bool, NetError>,
) -> bool {
    if dst == src {
        r == Ok::<bool, NetError>(false) && post == pre
    } else if !(0 <= dst < pre.len()) {
        r == Err::<bool, NetError>(NetError::MissingEndpoint) && post == pre
    } else if !(pre[dst] is Ethernet) {
        r == Ok::<bool, NetError>(false) && post == pre
    } else {
        let a = eth(pre, dst);
        let b = eth(post, dst);
        &&& post.len() == pre.len()
        &&& forall|k: int| 0 <= k < pre.len() && k != dst ==> post[k] == pre[k]
        &&& is_eth(post, dst)
        &&& a.same_identity(&b)
        &&& b.arp_table == a.arp_table
        &&& b.out_queue == a.out_queue
        &&& b.in_queue.max_bytes() == a.in_queue.max_bytes()
        &&& if a.in_queue.used_bytes() + frame.wire_size() <= a.in_queue.max_bytes() {
            &&& r == Ok::<bool, NetError>(true)
            &&& b.in_queue@.len() == a.in_queue@.len() + 1
            &&& b.in_queue@.drop_last() == a.in_queue@
            &&& b.in_queue@.last().is_copy_of(&frame)
        } else {
            r == Err::<bool, NetError>(NetError::QueueFull) && b.in_queue@ == a.in_queue@
        }
    }
}

/// Handing copies of `frame` from `src` to each of `members` in turn, with
/// `outs` the outcome at each.
pub open spec fn fanned_out(
    pre: Seq<Interface>,
    post: Seq<Interface>,
    frame: EthernetFrame,
    src: int,
    members: Seq<usize>,
    outs: Seq<Result<bool, NetError>>,
) -> bool {
    &&& outs.len() == members.len()
    &&& exists|trace: Seq<Seq<Interface>>|
        {
            &&& trace.len() == members.len() + 1
            &&& trace[0] == pre
            &&& trace.last() == post
            &&& forall|j: int|
                0 <= j < members.len() ==> delivered(
                    #[trigger] trace[j],
                    trace[j + 1],
                    frame,
                    src,
                    members[j] as int,
                    outs[j],
                )
        }
}

/// What the turn of the member at handle `src` did, with `r` its report: a
/// handle that names no interface is reported as `MissingEndpoint`; a
/// serial member, or one with nothing to send, changes nothing; otherwise
/// the head of its outbound queue is taken off and copies fanned out to
/// `members`.
pub open spec fn member_sent(
    pre: Seq<Interface>,
    post: Seq<Interface>,
    members: Seq<usize>,
    src: int,
    r: Result<Vec<Result<bool, NetError>>, NetError>,
) -> bool {
    if !(0 <= src < pre.len()) {
        r == Err::<Vec<Result<bool, NetError>>, NetError>(NetError::MissingEndpoint) && post == pre
    } else if !(is_eth(pre, src) && eth(pre, src).out_queue@.len() > 0) {
        r is Ok && r->Ok_0@.len() == 0 && post == pre
    } else {
        &&& r is Ok
        &&& exists|mid: Seq<Interface>|
            {
                &&& mid.len() == pre.len()
                &&& forall|k: int| 0 <= k < pre.len() && k != src ==> mid[k] == pre[k]
                &&& is_eth(mid, src)
                &&& eth(pre, src).same_identity(&eth(mid, src))
                &&& eth(mid, src).arp_table == eth(pre, src).arp_table
                &&& eth(mid, src).in_queue == eth(pre, src).in_queue
                &&& eth(mid, src).out_queue.max_bytes() == eth(pre, src).out_queue.max_bytes()
                &&& eth(mid, src).out_queue@ == eth(pre, src).out_queue@.drop_first()
                &&& fanned_out(mid, post, eth(pre, src).out_queue@[0], src, members, r->Ok_0@)
            }
    }
}

/// What one hub transmission did, with `reports` the report of each member:
/// the members took their turns in order, each as [`member_sent`] says.
pub open spec fn hub_transmitted(
    pre: Seq<Interface>,
    post: Seq<Interface>,
    members: Seq<usize>,
    reports: Seq<Result<Vec<Result<bool, NetError>>, NetError>>,
) -> bool {
    &&& reports.len() == members.len()
    &&& exists|trace: Seq<Seq<Interface>>|
        {
            &&& trace.len() == members.len() + 1
            &&& trace[0] == pre
            &&& trace.last() == post
            &&& forall|i: int|
                0 <= i < members.len() ==> member_sent(
                    #[trigger] trace[i],
                    trace[i + 1],
                    members,
                    members[i] as int,
                    reports[i],
                )
        }
}

/// A hub joining three distinct Ethernet interfaces `a`, `b` and `c`, where
/// only `a` has a frame to send, all inbound queues are empty, and `b` and
/// `c` have room for the frame: after one transmission `b` and `c` each hold
/// exactly one copy of it, and `a` receives nothing back.
pub proof fn lemma_hub_floods_to_others(
    pre: Seq<Interface>,
    post: Seq<Interface>,
    a: usize,
    b: usize,
    c: usize,
    reports: Seq<Result<Vec<Result<bool, NetError>>, NetError>>,
)
    requires
        is_eth(pre, a as int),
        is_eth(pre, b as int),
        is_eth(pre, c as int),
        a != b && b != c && a != c,
        eth(pre, a as int).out_queue@.len() == 1,
        eth(pre, b as int).out_queue@.len() == 0,
        eth(pre, c as int).out_queue@.len() == 0,
        eth(pre, a as int).in_queue@.len() == 0,
        eth(pre, b as int).in_queue@.len() == 0,
        eth(pre, c as int).in_queue@.len() == 0,
        eth(pre, a as int).out_queue@[0].wire_size() <= eth(pre, b as int).in_queue.max_bytes(),
        eth(pre, a as int).out_queue@[0].wire_size() <= eth(pre, c as int).in_queue.max_bytes(),
        hub_transmitted(pre, post, seq![a, b, c], reports),
    ensures
        is_eth(post, a as int) && is_eth(post, b as int) && is_eth(post, c as int),
        eth(post, a as int).in_queue@.len() == 0,
        eth(post, a as int).out_queue@.len() == 0,
        eth(post, b as int).in_queue@.len() == 1,
        eth(post, b as int).in_queue@[0].is_copy_of(&eth(pre, a as int).out_queue@[0]),
        eth(post, c as int).in_queue@.len() == 1,
        eth(post, c as int).in_queue@[0].is_copy_of(&eth(pre, a as int).out_queue@[0]),
{
    let members = seq![a, b, c];
    let (ai, bi, ci) = (a as int, b as int, c as int);
    let f = eth(pre, ai).out_queue@[0];
    let t = choose|t: Seq<Seq<Interface>>|
        {
            &&& t.len() == members.len() + 1
            &&& t[0] == pre
            &&& t.last() == post
            &&& forall|i: int|
                0 <= i < members.len() ==> member_sent(
                    #[trigger] t[i],
                    t[i + 1],
                    members,
                    members[i] as int,
                    reports[i],
                )
        };
    assert(member_sent(t[0], t[1], members, ai, reports[0]));
    assert(member_sent(t[1], t[2], members, bi, reports[1]));
    assert(member_sent(t[2], t[3], members, ci, reports[2]));
    // the turn of `a`: its frame is taken off and fanned out
    let mid = choose|mid: Seq<Interface>|
        {
            &&& mid.len() == pre.len()
            &&& forall|k: int| 0 <= k < pre.len() && k != ai ==> mid[k] == pre[k]
            &&& is_eth(mid, ai)
            &&& eth(pre, ai).same_identity(&eth(mid, ai))
            &&& eth(mid, ai).arp_table == eth(pre, ai).arp_table
            &&& eth(mid, ai).in_queue == eth(pre, ai).in_queue
            &&& eth(mid, ai).out_queue.max_bytes() == eth(pre, ai).out_queue.max_bytes()
            &&& eth(mid, ai).out_queue@ == eth(pre, ai).out_queue@.drop_first()
            &&& fanned_out(mid, t[1], f, ai, members, reports[0]->Ok_0@)
        };
    let outs = reports[0]->Ok_0@;
    let u = choose|u: Seq<Seq<Interface>>|
        {
            &&& u.len() == members.len() + 1
            &&& u[0] == mid
            &&& u.last() == t[1]
            &&& forall|j: int|
                0 <= j < members.len() ==> delivered(
                    #[trigger] u[j],
                    u[j + 1],
                    f,
                    ai,
                    members[j] as int,
                    outs[j],
                )
        };
    assert(delivered(u[0], u[1], f, ai, ai, outs[0]));
    assert(delivered(u[1], u[2], f, ai, bi, outs[1]));
    assert(delivered(u[2], u[3], f, ai, ci, outs[2]));
    assert(mid[bi] == pre[bi] && mid[ci] == pre[ci]);
    assert(u[2][ci] == u[1][ci]);
    assert(u[3][bi] == u[2][bi]);
    assert(u[3][ai] == mid[ai]);
    assert(eth(t[1], bi).in_queue@ =~= seq![eth(t[1], bi).in_queue@.last()]);
    assert(eth(t[1], ci).in_queue@ =~= seq![eth(t[1], ci).in_queue@.last()]);
    // `b` and `c` have nothing to send
    assert(t[2] == t[1]);
    assert(t[3] == t[2]);
}

impl Hub {
    pub fn new(interfaces: Vec<usize>) -> (r: Hub)
        ensures
            r.interfaces@ == interfaces@,
    {
        Hub { interfaces }
    }

    /// Hands a copy of `frame`, sent by `src`, to each member in turn.
    pub fn fan_out(&self, frame: &EthernetFrame, src: usize, interfaces: &mut Vec<Interface>) -> (r:
        Vec<Result<bool, NetError>>)
        requires
            all_wf(old(interfaces)@),
        ensures
            all_wf(final(interfaces)@),
            fanned_out(
                old(interfaces)@,
                final(interfaces)@,
                *frame,
                src as int,
                self.interfaces@,
                r@,
            ),
    {
        let ghost members = self.interfaces@;
        let ghost mut trace: Seq<Seq<Interface>> = seq![interfaces@];
        let mut outs: Vec<Result<bool, NetError>> = Vec::new();
        let mut j: usize = 0;
        while j < self.interfaces.len()
            invariant
                0 <= j <= members.len(),
                members == self.interfaces@,
                all_wf(interfaces@),
                outs@.len() == j,
                trace.len() == j + 1,
                trace[0] == old(interfaces)@,
                trace.last() == interfaces@,
                forall|i: int|
                    0 <= i < j ==> delivered(
                        #[trigger] trace[i],
                        trace[i + 1],
                        *frame,
                        src as int,
                        members[i] as int,
                        outs@[i],
                    ),
            decreases members.len() - j,
        {
            let dst = self.interfaces[j];
            let ghost pre = interfaces@;
            let out: Result<bool, NetError> = if dst == src {
                Ok(false)
            } else if dst >= interfaces.len() {
                Err(NetError::MissingEndpoint)
            } else if !interfaces[dst].is_ethernet() {
                Ok(false)
            } else {
                let copy = frame.duplicate();
                proof {
                    lemma_copy_same_size(&copy, frame);
                }
                match &mut interfaces[dst] {
                    Interface::Ethernet(e) => match e.enqueue_frame(copy, Direction::In) {
                        Ok(()) => Ok(true),
                        Err(err) => Err(err),
                    },
                    Interface::Serial(_) => Ok(false),
                }
            };
            proof {
                if dst != src && dst < pre.len() && pre[dst as int] is Ethernet {
                    let a = eth(pre, dst as int);
                    let b = eth(interfaces@, dst as int);
                    if out is Ok {
                        assert(b.in_queue@.drop_last() =~= a.in_queue@);
                    }
                }
                assert(delivered(pre, interfaces@, *frame, src as int, dst as int, out));
                trace = trace.push(interfaces@);
            }
            outs.push(out);
            j = j + 1;
        }
        outs
    }

    /// The turn of the member at handle `src`: takes the head of its
    /// outbound queue, if any, and fans copies out to the hub's members.
    pub fn transmit_member(&self, src: usize, interfaces: &mut Vec<Interface>) -> (r: Result<
        Vec<Result<bool, NetError>>,
        NetError,
    >)
        requires
            all_wf(old(interfaces)@),
        ensures
            all_wf(final(interfaces)@),
            member_sent(old(interfaces)@, final(interfaces)@, self.interfaces@, src as int, r),
    {
        if src >= interfaces.len() {
            return Err(NetError::MissingEndpoint);
        }
        let has_frame = match &interfaces[src] {
            Interface::Ethernet(e) => !e.out_queue.is_empty(),
            Interface::Serial(_) => false,
        };
        if !has_frame {
            return Ok(Vec::new());
        }
        let ghost pre = interfaces@;
        let frame = match &mut interfaces[src] {
            Interface::Ethernet(e) => e.dequeue_frame(Direction::Out),
            Interface::Serial(_) => None,
        };
        let ghost mid = interfaces@;
        match frame {
            Some(f) => {
                let outs = self.fan_out(&f, src, interfaces);
                let r: Result<Vec<Result<bool, NetError>>, NetError> = Ok(outs);
                assert(fanned_out(mid, interfaces@, f, src as int, self.interfaces@, r->Ok_0@));
                r
            },
            None => {
                proof {
                    assert(false);
                }
                Ok(Vec::new())
            },
        }
    }

    /// One hub transmission: each member in turn sends at most one frame,
    /// which every other member receives a copy of. Returns each member's
    /// report, in member order.
    pub fn transmit_frame(&self, interfaces: &mut Vec<Interface>) -> (r: Vec<
        Result<Vec<Result<bool, NetError>>, NetError>,
    >)
        requires
            all_wf(old(interfaces)@),
        ensures
            all_wf(final(interfaces)@),
            hub_transmitted(old(interfaces)@, final(interfaces)@, self.interfaces@, r@),
    {
        let ghost members = self.interfaces@;
        let ghost mut trace: Seq<Seq<Interface>> = seq![interfaces@];
        let mut reports: Vec<Result<Vec<Result<bool, NetError>>, NetError>> = Vec::new();
        let mut i: usize = 0;
        while i < self.interfaces.len()
            invariant
                0 <= i <= members.len(),
                members == self.interfaces@,
                all_wf(interfaces@),
                reports@.len() == i,
                trace.len() == i + 1,
                trace[0] == old(interfaces)@,
                trace.last() == interfaces@,
                forall|k: int|
                    0 <= k < i ==> member_sent(
                        #[trigger] trace[k],
                        trace[k + 1],
                        members,
                        members[k] as int,
                        reports@[k],
                    ),
            decreases members.len() - i,
        {
            let src = self.interfaces[i];
            let report = self.transmit_member(src, interfaces);
            proof {
                trace = trace.push(interfaces@);
            }
            reports.push(report);
            i = i + 1;
        }
        assert(hub_transmitted(old(interfaces)@, interfaces@, members, reports@));
        reports
    }
}

} // verus!

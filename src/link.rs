//! Point-to-point links between two interfaces of an arena.

use crate::error::NetError;
use crate::interface::{all_wf, eth, is_eth, Direction, Interface};
use crate::queue::WireSized;
use vstd::prelude::*;

verus! {

/// A link between the interfaces at two handles of an arena.
#[derive(Clone, Copy, Debug, PartialEq, Eq, Structural)]
pub struct Link(pub usize, pub usize);

/// What moving the head of `s`'s outbound queue to `d`'s inbound queue did,
/// with `r` the outcome: `s` loses its head, `d` gains it where it fits
/// (otherwise the frame is lost and `QueueFull` reported); nothing else
/// changes.
pub open spec fn moved_one(
    pre: Seq<Interface>,
    post: Seq<Interface>,
    s: int,
    d: int,
    r: Result<bool, NetError>,
) -> bool {
    let f = eth(pre, s).out_queue@[0];
    &&& post.len() == pre.len()
    &&& forall|k: int| 0 <= k < pre.len() && k != s && k != d ==> post[k] == pre[k]
    &&& is_eth(post, s) && is_eth(post, d)
    &&& eth(pre, s).same_identity(&eth(post, s)) && eth(pre, d).same_identity(&eth(post, d))
    &&& eth(post, s).arp_table == eth(pre, s).arp_table
    &&& eth(post, d).arp_table == eth(pre, d).arp_table
    &&& eth(post, s).out_queue.max_bytes() == eth(pre, s).out_queue.max_bytes()
    &&& eth(post, d).in_queue.max_bytes() == eth(pre, d).in_queue.max_bytes()
    &&& eth(post, s).out_queue@ == eth(pre, s).out_queue@.drop_first()
    &&& s != d ==> eth(post, s).in_queue == eth(pre, s).in_queue && eth(post, d).out_queue == eth(
        pre,
        d,
    ).out_queue
    &&& if eth(pre, d).in_queue.used_bytes() + f.wire_size() <= eth(pre, d).in_queue.max_bytes() {
        r == Ok::<bool, NetError>(true) && eth(post, d).in_queue@ == eth(pre, d).in_queue@.push(f)
    } else {
        r == Err::<bool, NetError>(NetError::QueueFull) && eth(post, d).in_queue@ == eth(
            pre,
            d,
        ).in_queue@
    }
}

/// What one transmission from handle `s` to handle `d` does: a missing end
/// is reported and nothing changes; where both ends are Ethernet and `s`
/// has a frame to send, the head moves as [`moved_one`] says; otherwise
/// nothing changes.
pub open spec fn transmit_post(
    pre: Seq<Interface>,
    post: Seq<Interface>,
    s: int,
    d: int,
    r: Result<bool, NetError>,
) -> bool {
    if !(0 <= s < pre.len() && 0 <= d < pre.len()) {
        r == Err::<bool, NetError>(NetError::MissingEndpoint) && post == pre
    } else if is_eth(pre, s) && is_eth(pre, d) && eth(pre, s).out_queue@.len() > 0 {
        moved_one(pre, post, s, d, r)
    } else {
        r == Ok::<bool, NetError>(false) && post == pre
    }
}

impl Link {
    /// What a transmission each way did, first from the first end to the
    /// second, then back, with `r` the two outcomes.
    pub open spec fn transmitted(
        self,
        pre: Seq<Interface>,
        post: Seq<Interface>,
        r: (Result<bool, NetError>, Result<bool, NetError>),
    ) -> bool {
        exists|mid: Seq<Interface>|
            transmit_post(pre, mid, self.0 as int, self.1 as int, r.0) && transmit_post(
                mid,
                post,
                self.1 as int,
                self.0 as int,
                r.1,
            )
    }

    pub fn new(source: usize, destination: usize) -> (r: Link)
        ensures
            r.0 == source,
            r.1 == destination,
    {
        Link(source, destination)
    }

    /// Moves at most one frame from `source`'s outbound queue to
    /// `destination`'s inbound queue. A handle that names no interface is
    /// reported as `MissingEndpoint` and nothing moves; nothing moves either
    /// where an end is not Ethernet or the source has nothing to send.
    /// Returns whether a frame was delivered.
    pub fn transmit_frame(source: usize, destination: usize, interfaces: &mut Vec<Interface>) -> (r:
        Result<bool, NetError>)
        requires
            all_wf(old(interfaces)@),
        ensures
            all_wf(final(interfaces)@),
            transmit_post(old(interfaces)@, final(interfaces)@, source as int, destination as int, r),
    {
        if source >= interfaces.len() || destination >= interfaces.len() {
            return Err(NetError::MissingEndpoint);
        }
        if !interfaces[source].is_ethernet() || !interfaces[destination].is_ethernet() {
            return Ok(false);
        }
        let empty = match &interfaces[source] {
            Interface::Ethernet(e) => e.out_queue.is_empty(),
            Interface::Serial(_) => true,
        };
        if empty {
            return Ok(false);
        }
        let frame = match &mut interfaces[source] {
            Interface::Ethernet(e) => e.dequeue_frame(Direction::Out),
            Interface::Serial(_) => None,
        };
        match frame {
            None => Ok(false),
            Some(f) => match &mut interfaces[destination] {
                Interface::Ethernet(e) => match e.enqueue_frame(f, Direction::In) {
                    Ok(()) => Ok(true),
                    Err(err) => Err(err),
                },
                Interface::Serial(_) => Ok(false),
            },
        }
    }

    /// Moves at most one frame each way: first from the link's first end to
    /// its second, then back. Returns the outcome of each direction.
    pub fn transmit(&self, interfaces: &mut Vec<Interface>) -> (r: (
        Result<bool, NetError>,
        Result<bool, NetError>,
    ))
        requires
            all_wf(old(interfaces)@),
        ensures
            all_wf(final(interfaces)@),
            self.transmitted(old(interfaces)@, final(interfaces)@, r),
    {
        let ghost pre = interfaces@;
        let forward = Link::transmit_frame(self.0, self.1, interfaces);
        let ghost mid = interfaces@;
        let backward = Link::transmit_frame(self.1, self.0, interfaces);
        let r = (forward, backward);
        assert(transmit_post(pre, mid, self.0 as int, self.1 as int, r.0) && transmit_post(
            mid,
            interfaces@,
            self.1 as int,
            self.0 as int,
            r.1,
        ));
        r
    }
}

} // verus!

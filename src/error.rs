//! Errors of forwarding and queueing.

use vstd::prelude::*;

verus! {

/// Why a frame could not be moved.
#[derive(Clone, Copy, Debug, PartialEq, Eq, Structural)]
pub enum NetError {
    /// A link or hub names an interface that does not exist.
    MissingEndpoint,
    /// The queue has no room left for the frame's bytes.
    QueueFull,
    /// The payload has no byte layout (IPv6 and ICMP bodies).
    UnsupportedPayload,
}

} // verus!

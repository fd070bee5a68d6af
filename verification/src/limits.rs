//! The sizes and delays that the UDP link layer works with.

use vstd::prelude::*;

verus! {

/// The largest payload of a UDP datagram over IPv4, and the size of every
/// receive buffer.
pub const UDP_MAX_MTU: u16 = 65_507;

/// The MTU that a UDP link advertises.
pub const UDP_DEFAULT_MTU: u16 = 65_507;

/// How long the accept loop waits after a failed receive, in microseconds.
pub const UDP_ACCEPT_THROTTLE_TIME: u64 = 10_000;

/// How many receive buffers a listener has in flight.
pub const UDP_BUFFERS_IN_FLIGHT: usize = 1;

} // verus!

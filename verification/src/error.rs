//! The failures that the link layer reports.

use vstd::prelude::*;

verus! {

/// Why a link-layer operation failed.
#[derive(Clone, Copy, Debug, PartialEq, Eq, Structural)]
pub enum LinkError {
    /// The locator is malformed or does not resolve to a socket address.
    AddrResolve,
    /// The operating system refused to bind the socket.
    Bind,
    /// The operating system refused to connect the socket.
    Connect,
    /// Sending or receiving on an established link failed.
    Io,
    /// The listener whose socket an accepted link borrows is gone.
    ListenerGone,
    /// No listener is registered under the address.
    NotFound,
    /// The scheme names no transport that this build serves.
    Unsupported,
}

} // verus!

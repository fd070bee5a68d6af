//! Locators and endpoints of the UDP transport, with their addresses resolved.

use crate::addr::SocketAddress;
use std::str::FromStr;
use vstd::prelude::*;

verus! {

/// The transports that a locator can name.
#[derive(Clone, Copy, Debug, PartialEq, Eq, Structural)]
pub enum Scheme {
    Tcp,
    Udp,
    Tls,
    Quic,
    UnixSockStream,
}

/// A scheme, a resolved socket address, and the metadata that came with them.
#[derive(Clone, Debug, PartialEq, Eq)]
pub struct Locator {
    pub scheme: Scheme,
    pub address: SocketAddress,
    pub metadata: Option<String>,
}

/// A locator with the configuration to open it with.
#[derive(Clone, Debug, PartialEq, Eq)]
pub struct EndPoint {
    pub locator: Locator,
    pub config: Option<String>,
}

/// Where `c` first stands in `text`; the length of `text` where it does not.
pub open spec fn first_index(text: Seq<char>, c: char) -> int
    decreases text.len(),
{
    if text.len() == 0 {
        0
    } else if text[0] == c {
        0
    } else {
        1 + first_index(text.drop_first(), c)
    }
}

/// The protocol of a locator written as `<protocol>/<address>[?<metadata>]`:
/// what stands before the first `/`. A text without a `/` before its metadata
/// is no locator.
pub open spec fn protocol_part(locator: Seq<char>) -> Option<Seq<char>> {
    let head = locator.take(first_index(locator, '?'));
    let slash = first_index(head, '/');
    if slash < head.len() {
        Some(head.take(slash))
    } else {
        None
    }
}

/// The protocol that `zenoh_protocol_core` reads in a locator: `Locator::from_str`
/// on the text, then `Locator::protocol` on what it gave. The contract claims
/// that the text parses exactly when a `/` stands before the first `?`, and
/// that the protocol is then what stands before the first `/`.
#[verifier::external_body]
pub(crate) fn locator_protocol(locator: &str) -> (protocol: Option<String>)
    ensures
        match protocol {
            Some(p) => protocol_part(locator@) == Some(p@),
            None => protocol_part(locator@) is None,
        },
{
    match zenoh_protocol_core::Locator::from_str(locator) {
        Ok(parsed) => Some(parsed.protocol().to_string()),
        Err(_) => None,
    }
}

/// A copy of an optional text.
pub fn copy_text(text: &Option<String>) -> (copy: Option<String>)
    ensures
        copy == *text,
{
    match text {
        Some(s) => Some(s.clone()),
        None => None,
    }
}

impl Locator {
    /// The UDP locator of `address`.
    pub open spec fn spec_udp(address: SocketAddress, metadata: Option<String>) -> Locator {
        Locator { scheme: Scheme::Udp, address, metadata }
    }

    pub fn udp(address: SocketAddress, metadata: Option<String>) -> (locator: Locator)
        ensures
            locator == Self::spec_udp(address, metadata),
    {
        Locator { scheme: Scheme::Udp, address, metadata }
    }

    /// A copy of this locator.
    pub fn duplicate(&self) -> (copy: Locator)
        ensures
            copy == *self,
    {
        Locator {
            scheme: self.scheme,
            address: self.address,
            metadata: copy_text(&self.metadata),
        }
    }
}

impl EndPoint {
    /// This endpoint at another address; scheme, metadata and configuration
    /// stay.
    pub open spec fn spec_at(self, address: SocketAddress) -> EndPoint {
        EndPoint {
            locator: Locator {
                scheme: self.locator.scheme,
                address,
                metadata: self.locator.metadata,
            },
            config: self.config,
        }
    }

    /// Writes `address` in place of the endpoint's own, as after a bind to a
    /// wildcard or to port 0.
    pub fn set_addr(&mut self, address: SocketAddress)
        ensures
            *final(self) == old(self).spec_at(address),
    {
        self.locator.address = address;
    }

    /// A copy of this endpoint.
    pub fn duplicate(&self) -> (copy: EndPoint)
        ensures
            copy == *self,
    {
        EndPoint { locator: self.locator.duplicate(), config: copy_text(&self.config) }
    }
}

} // verus!

//! The front of the link layer: from a locator's scheme to the transport that
//! serves it.

use crate::addr::SocketAddress;
use crate::error::LinkError;
use crate::locator::{locator_protocol, protocol_part, Scheme};
use crate::manager::{LinkManagerUnicastUdp, Listener};
use vstd::prelude::*;

verus! {

pub const TCP_LOCATOR_PREFIX: &'static str = "tcp";

pub const UDP_LOCATOR_PREFIX: &'static str = "udp";

pub const TLS_LOCATOR_PREFIX: &'static str = "tls";

pub const QUIC_LOCATOR_PREFIX: &'static str = "quic";

pub const UNIXSOCKSTREAM_LOCATOR_PREFIX: &'static str = "unixsock-stream";

/// The size of a write buffer of the layer above.
pub const WBUF_SIZE: usize = 64;

/// The transports that a build serves.
#[derive(Clone, Copy, Debug, PartialEq, Eq, Structural)]
pub struct Transports {
    pub tcp: bool,
    pub udp: bool,
    pub tls: bool,
    pub quic: bool,
    pub unixsock_stream: bool,
}

/// The scheme that a protocol name stands for.
pub open spec fn scheme_of(protocol: Seq<char>) -> Option<Scheme> {
    if protocol == TCP_LOCATOR_PREFIX@ {
        Some(Scheme::Tcp)
    } else if protocol == UDP_LOCATOR_PREFIX@ {
        Some(Scheme::Udp)
    } else if protocol == TLS_LOCATOR_PREFIX@ {
        Some(Scheme::Tls)
    } else if protocol == QUIC_LOCATOR_PREFIX@ {
        Some(Scheme::Quic)
    } else if protocol == UNIXSOCKSTREAM_LOCATOR_PREFIX@ {
        Some(Scheme::UnixSockStream)
    } else {
        None
    }
}

impl Transports {
    /// Whether the build serves `scheme`.
    pub open spec fn spec_serves(self, scheme: Scheme) -> bool {
        match scheme {
            Scheme::Tcp => self.tcp,
            Scheme::Udp => self.udp,
            Scheme::Tls => self.tls,
            Scheme::Quic => self.quic,
            Scheme::UnixSockStream => self.unixsock_stream,
        }
    }

    /// The transport that `protocol` names, if the build serves it.
    pub open spec fn spec_select(self, protocol: Seq<char>) -> Option<Scheme> {
        match scheme_of(protocol) {
            Some(scheme) => if self.spec_serves(scheme) {
                Some(scheme)
            } else {
                None
            },
            None => None,
        }
    }

    /// A build that serves every transport.
    pub fn all() -> (transports: Transports)
        ensures
            transports == (Transports {
                tcp: true,
                udp: true,
                tls: true,
                quic: true,
                unixsock_stream: true,
            }),
    {
        Transports { tcp: true, udp: true, tls: true, quic: true, unixsock_stream: true }
    }

    pub fn serves(&self, scheme: Scheme) -> (served: bool)
        ensures
            served == self.spec_serves(scheme),
    {
        match scheme {
            Scheme::Tcp => self.tcp,
            Scheme::Udp => self.udp,
            Scheme::Tls => self.tls,
            Scheme::Quic => self.quic,
            Scheme::UnixSockStream => self.unixsock_stream,
        }
    }

    /// Finds the transport that `protocol` names among those served.
    pub fn select(&self, protocol: &str) -> (scheme: Option<Scheme>)
        ensures
            scheme == self.spec_select(protocol@),
    {
        match parse_scheme(protocol) {
            Some(scheme) => if self.serves(scheme) {
                Some(scheme)
            } else {
                None
            },
            None => None,
        }
    }
}

/// Whether two texts are the same.
fn same_text(a: &str, b: &str) -> (same: bool)
    ensures
        same == (a@ == b@),
{
    let x: String = a.to_owned();
    let y: String = b.to_owned();
    x == y
}

/// Reads a protocol name.
pub fn parse_scheme(protocol: &str) -> (scheme: Option<Scheme>)
    ensures
        scheme == scheme_of(protocol@),
{
    if same_text(protocol, TCP_LOCATOR_PREFIX) {
        Some(Scheme::Tcp)
    } else if same_text(protocol, UDP_LOCATOR_PREFIX) {
        Some(Scheme::Udp)
    } else if same_text(protocol, TLS_LOCATOR_PREFIX) {
        Some(Scheme::Tls)
    } else if same_text(protocol, QUIC_LOCATOR_PREFIX) {
        Some(Scheme::Quic)
    } else if same_text(protocol, UNIXSOCKSTREAM_LOCATOR_PREFIX) {
        Some(Scheme::UnixSockStream)
    } else {
        None
    }
}

/// Tells whether a locator names a multicast group.
#[derive(Clone, Copy, Debug, PartialEq, Eq, Structural)]
pub struct LocatorInspector {
    pub transports: Transports,
}

impl LocatorInspector {
    /// What `is_multicast` answers.
    pub open spec fn spec_is_multicast(
        self,
        protocol: Seq<char>,
        resolved: Option<SocketAddress>,
    ) -> Result<bool, LinkError> {
        match self.transports.spec_select(protocol) {
            None => Err(LinkError::Unsupported),
            Some(Scheme::Tcp) | Some(Scheme::Udp) => match resolved {
                Some(addr) => Ok(addr.ip.spec_is_multicast()),
                None => Err(LinkError::AddrResolve),
            },
            Some(_) => Ok(false),
        }
    }

    /// Whether `locator` names a multicast group. `resolved` is the socket
    /// address that the locator's address part resolved to, if it did. A text
    /// that is no locator does not resolve; for the rest see
    /// `is_multicast_for`.
    pub fn is_multicast(&self, locator: &str, resolved: Option<SocketAddress>) -> (answer: Result<
        bool,
        LinkError,
    >)
        ensures
            answer == (match protocol_part(locator@) {
                Some(protocol) => self.spec_is_multicast(protocol, resolved),
                None => Err(LinkError::AddrResolve),
            }),
    {
        match locator_protocol(locator) {
            Some(protocol) => self.is_multicast_for(protocol.as_str(), resolved),
            None => Err(LinkError::AddrResolve),
        }
    }

    /// Whether a locator with scheme `protocol` names a multicast group. TCP
    /// and UDP go by the resolved address; the other transports know no
    /// multicast; a scheme that the build does not serve is an error.
    pub fn is_multicast_for(&self, protocol: &str, resolved: Option<SocketAddress>) -> (answer:
        Result<bool, LinkError>)
        ensures
            answer == self.spec_is_multicast(protocol@, resolved),
    {
        match self.transports.select(protocol) {
            None => Err(LinkError::Unsupported),
            Some(Scheme::Tcp) | Some(Scheme::Udp) => match resolved {
                Some(addr) => Ok(addr.ip.is_multicast()),
                None => Err(LinkError::AddrResolve),
            },
            Some(_) => Ok(false),
        }
    }
}

/// What became of one transport's configuration.
pub struct Inspected {
    /// The transport's protocol name.
    pub protocol: String,
    /// The configuration found, or why none could be.
    pub outcome: Result<String, String>,
}

/// The configurations by protocol, and the failures by protocol.
pub struct Configurations {
    pub configs: Vec<(String, String)>,
    pub errors: Vec<(String, String)>,
}

/// The configurations among `inspected`, in their order.
pub open spec fn configs_of(inspected: Seq<Inspected>) -> Seq<(String, String)>
    decreases inspected.len(),
{
    if inspected.len() == 0 {
        Seq::empty()
    } else {
        let rest = configs_of(inspected.drop_last());
        match inspected.last().outcome {
            Ok(found) => rest.push((inspected.last().protocol, found)),
            Err(_) => rest,
        }
    }
}

/// The failures among `inspected`, in their order.
pub open spec fn errors_of(inspected: Seq<Inspected>) -> Seq<(String, String)>
    decreases inspected.len(),
{
    if inspected.len() == 0 {
        Seq::empty()
    } else {
        let rest = errors_of(inspected.drop_last());
        match inspected.last().outcome {
            Ok(_) => rest,
            Err(why) => rest.push((inspected.last().protocol, why)),
        }
    }
}

/// Collects the configurations of the transports that have one.
pub struct LinkConfigurator {}

impl LinkConfigurator {
    /// Sorts what the transports found in a configuration into what was found
    /// and what failed, each with its protocol. UDP has no configuration and
    /// adds nothing.
    pub fn configurations(&self, inspected: Vec<Inspected>) -> (sorted: Configurations)
        ensures
            sorted.configs@ == configs_of(inspected@),
            sorted.errors@ == errors_of(inspected@),
    {
        let mut configs: Vec<(String, String)> = Vec::new();
        let mut errors: Vec<(String, String)> = Vec::new();
        let mut i: usize = 0;
        while i < inspected.len()
            invariant
                i <= inspected@.len(),
                configs@ == configs_of(inspected@.take(i as int)),
                errors@ == errors_of(inspected@.take(i as int)),
            decreases inspected@.len() - i,
        {
            proof {
                assert(inspected@.take(i + 1).drop_last() =~= inspected@.take(i as int));
                assert(inspected@.take(i + 1).last() == inspected@[i as int]);
            }
            let item = &inspected[i];
            match &item.outcome {
                Ok(found) => {
                    configs.push((item.protocol.clone(), found.clone()));
                },
                Err(why) => {
                    errors.push((item.protocol.clone(), why.clone()));
                },
            }
            i += 1;
        }
        proof {
            assert(inspected@.take(inspected@.len() as int) =~= inspected@);
        }
        Configurations { configs, errors }
    }
}

/// A manager of unicast links, by transport.
pub enum LinkManagerUnicast<S> {
    /// The UDP manager.
    Udp(LinkManagerUnicastUdp<S>),
    /// A transport whose manager lives elsewhere, and the channel to make it
    /// with.
    Other(Scheme, S),
}

/// Makes the manager of unicast links for a protocol.
pub struct LinkManagerBuilderUnicast {}

impl LinkManagerBuilderUnicast {
    /// The manager for `protocol`, fresh, without listeners and holding
    /// `manager` as the channel for its new links; or `Unsupported` where the
    /// build does not serve the protocol.
    pub fn make<S>(manager: S, transports: &Transports, protocol: &str) -> (made: Result<
        LinkManagerUnicast<S>,
        LinkError,
    >)
        ensures
            match transports.spec_select(protocol@) {
                None => made is Err && made->Err_0 == LinkError::Unsupported,
                Some(Scheme::Udp) => {
                    &&& made is Ok
                    &&& made->Ok_0 is Udp
                    &&& made->Ok_0->Udp_0.wf()
                    &&& made->Ok_0->Udp_0@ == Seq::<Listener>::empty()
                    &&& made->Ok_0->Udp_0.sink() == manager
                },
                Some(scheme) => made is Ok && made->Ok_0 == LinkManagerUnicast::Other(
                    scheme,
                    manager,
                ),
            },
    {
        match transports.select(protocol) {
            None => Err(LinkError::Unsupported),
            Some(Scheme::Udp) => Ok(LinkManagerUnicast::Udp(LinkManagerUnicastUdp::new(manager))),
            Some(scheme) => Ok(LinkManagerUnicast::Other(scheme, manager)),
        }
    }
}

/// Makes the manager of multicast links for a protocol.
pub struct LinkManagerBuilderMulticast {}

impl LinkManagerBuilderMulticast {
    /// Only UDP knows multicast: the answer is `Scheme::Udp` for it where the
    /// build serves it, and `Unsupported` for anything else.
    pub fn make(transports: &Transports, protocol: &str) -> (manager: Result<Scheme, LinkError>)
        ensures
            manager == (if transports.spec_select(protocol@) == Some(Scheme::Udp) {
                Ok::<Scheme, LinkError>(Scheme::Udp)
            } else {
                Err(LinkError::Unsupported)
            }),
    {
        match transports.select(protocol) {
            Some(Scheme::Udp) => Ok(Scheme::Udp),
            _ => Err(LinkError::Unsupported),
        }
    }
}

} // verus!

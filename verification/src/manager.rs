//! The manager of the UDP transport: the listeners it has open, and the links
//! it dials.

use crate::addr::{IpAddress, SocketAddress};
use crate::error::LinkError;
use crate::link::{LinkUnicastUdp, LinkVariant};
use crate::locator::{copy_text, EndPoint, Locator};
use vstd::prelude::*;

verus! {

/// A listener as the manager keeps it: the endpoint it is bound to, with the
/// address that the bind gave, and the handle of its accept task.
pub struct Listener {
    pub endpoint: EndPoint,
    pub task: u64,
}

/// How the socket of a new listener came about.
#[derive(Clone, Copy, Debug, PartialEq, Eq, Structural)]
pub enum BindOutcome {
    /// The endpoint's address did not resolve.
    Unresolved,
    /// The system refused the bind, or would not tell the bound address.
    Refused,
    /// The socket is bound to this address.
    Bound(SocketAddress),
}

/// How the socket of a new outgoing link came about.
#[derive(Clone, Copy, Debug, PartialEq, Eq, Structural)]
pub enum SocketSetup {
    /// The endpoint's address did not resolve.
    Unresolved,
    /// The system refused the bind.
    BindRefused,
    /// The system refused the connect, or would not tell the socket's
    /// addresses afterwards.
    ConnectRefused,
    /// The socket is bound to `local` and connected to `peer`.
    Ready { local: SocketAddress, peer: SocketAddress },
}

/// The address that a listener is registered under.
pub open spec fn bound_at(listener: Listener) -> SocketAddress {
    listener.endpoint.locator.address
}

/// No two listeners share an address.
pub open spec fn distinct(listeners: Seq<Listener>) -> bool {
    forall|i: int, j: int|
        0 <= i < j < listeners.len() ==> bound_at(#[trigger] listeners[i]) != bound_at(
            #[trigger] listeners[j],
        )
}

/// Whether a listener is registered under `addr`.
pub open spec fn registered(listeners: Seq<Listener>, addr: SocketAddress) -> bool {
    exists|i: int| 0 <= i < listeners.len() && bound_at(#[trigger] listeners[i]) == addr
}

/// The listeners but those registered under `addr`, in their order.
pub open spec fn without(listeners: Seq<Listener>, addr: SocketAddress) -> Seq<Listener>
    decreases listeners.len(),
{
    if listeners.len() == 0 {
        listeners
    } else if bound_at(listeners.last()) == addr {
        without(listeners.drop_last(), addr)
    } else {
        without(listeners.drop_last(), addr).push(listeners.last())
    }
}

/// Whether a peer can dial `ip`: it is neither loopback nor multicast.
pub open spec fn dialable(ip: IpAddress) -> bool {
    !ip.spec_is_loopback() && !ip.spec_is_multicast()
}

/// The locators under which a listener on a wildcard address can be reached:
/// one for each dialable local address of the family, with the listener's
/// port and metadata, in the order of `local`.
pub open spec fn candidates(
    local: Seq<IpAddress>,
    v4: bool,
    port: u16,
    metadata: Option<String>,
) -> Seq<Locator>
    decreases local.len(),
{
    if local.len() == 0 {
        Seq::empty()
    } else {
        let rest = candidates(local.drop_last(), v4, port, metadata);
        let ip = local.last();
        if dialable(ip) && ip.spec_is_ipv4() == v4 {
            rest.push(Locator::spec_udp(SocketAddress { ip, port }, metadata))
        } else {
            rest
        }
    }
}

/// The locators of one listener: its own, unless it is bound to a wildcard.
pub open spec fn expand(listener: Listener, local: Seq<IpAddress>) -> Seq<Locator> {
    let addr = bound_at(listener);
    if addr.ip == IpAddress::V4(0) {
        candidates(local, true, addr.port, listener.endpoint.locator.metadata)
    } else if addr.ip == IpAddress::V6(0) {
        candidates(local, false, addr.port, listener.endpoint.locator.metadata)
    } else {
        seq![listener.endpoint.locator]
    }
}

/// The locators of all listeners, listener after listener.
pub open spec fn all_locators(listeners: Seq<Listener>, local: Seq<IpAddress>) -> Seq<Locator>
    decreases listeners.len(),
{
    if listeners.len() == 0 {
        Seq::empty()
    } else {
        all_locators(listeners.drop_last(), local) + expand(listeners.last(), local)
    }
}

/// The local addresses that an enumeration gave; none where it failed.
pub open spec fn known_addresses(local: Option<Vec<IpAddress>>) -> Seq<IpAddress> {
    match local {
        Some(v) => v@,
        None => Seq::empty(),
    }
}

/// The manager of the UDP transport. `S` is the channel on which the links
/// that its listeners accept are handed upward; the manager keeps it for the
/// accept tasks and never sends on it itself.
pub struct LinkManagerUnicastUdp<S> {
    manager: S,
    listeners: Vec<Listener>,
}

impl<S> View for LinkManagerUnicastUdp<S> {
    type V = Seq<Listener>;

    closed spec fn view(&self) -> Seq<Listener> {
        self.listeners@
    }
}

impl<S> LinkManagerUnicastUdp<S> {
    /// At most one listener is registered under each address.
    pub open spec fn wf(&self) -> bool {
        distinct(self@)
    }

    /// The channel that the manager was made with.
    pub closed spec fn sink(&self) -> S {
        self.manager
    }

    /// A manager without listeners, which hands new links to `manager`.
    pub fn new(manager: S) -> (made: LinkManagerUnicastUdp<S>)
        ensures
            made.wf(),
            made@ == Seq::<Listener>::empty(),
            made.sink() == manager,
    {
        LinkManagerUnicastUdp { manager, listeners: Vec::new() }
    }

    /// The channel on which accepted links go upward.
    pub fn new_link_sink(&self) -> (sink: &S)
        ensures
            *sink == self.sink(),
    {
        &self.manager
    }

    /// The row of the listener registered under `addr`.
    fn position(&self, addr: SocketAddress) -> (at: Option<usize>)
        ensures
            match at {
                Some(i) => i < self@.len() && bound_at(self@[i as int]) == addr,
                None => !registered(self@, addr),
            },
    {
        let mut i: usize = 0;
        while i < self.listeners.len()
            invariant
                i <= self.listeners@.len(),
                forall|k: int| 0 <= k < i ==> bound_at(#[trigger] self.listeners@[k]) != addr,
            decreases self.listeners@.len() - i,
        {
            if self.listeners[i].endpoint.locator.address == addr {
                return Some(i);
            }
            i += 1;
        }
        None
    }

    /// Takes the listener under `addr` out of the rows, if there is one.
    fn take_out(&mut self, addr: SocketAddress) -> (gone: Option<Listener>)
        requires
            old(self).wf(),
        ensures
            final(self).wf(),
            final(self).sink() == old(self).sink(),
            final(self)@ == without(old(self)@, addr),
            !registered(final(self)@, addr),
            match gone {
                Some(listener) => old(self)@.contains(listener) && bound_at(listener) == addr,
                None => !registered(old(self)@, addr) && final(self)@ == old(self)@,
            },
    {
        match self.position(addr) {
            Some(i) => {
                proof {
                    lemma_without_present(self@, addr, i as int);
                }
                let gone = self.listeners.remove(i);
                Some(gone)
            },
            None => {
                proof {
                    lemma_without_absent(self@, addr);
                }
                None
            },
        }
    }

    /// Dials a link. The caller resolves the endpoint, binds a socket to
    /// `SocketAddress::ephemeral_for` the peer, connects it, and reports how
    /// that went. The link's addresses are those that the socket gave after
    /// the connect.
    pub fn new_link(&self, endpoint: &EndPoint, setup: SocketSetup) -> (link: Result<
        LinkUnicastUdp,
        LinkError,
    >)
        ensures
            match setup {
                SocketSetup::Unresolved => link == Err::<LinkUnicastUdp, LinkError>(
                    LinkError::AddrResolve,
                ),
                SocketSetup::BindRefused => link == Err::<LinkUnicastUdp, LinkError>(
                    LinkError::Bind,
                ),
                SocketSetup::ConnectRefused => link == Err::<LinkUnicastUdp, LinkError>(
                    LinkError::Connect,
                ),
                SocketSetup::Ready { local, peer } => link is Ok && ({
                    let l = link->Ok_0;
                    &&& l.wf()
                    &&& l.src() == local
                    &&& l.dst() == peer
                    &&& l.variant() == LinkVariant::Connected
                    &&& l.metadata() == endpoint.locator.metadata
                }),
            },
    {
        match setup {
            SocketSetup::Unresolved => Err(LinkError::AddrResolve),
            SocketSetup::BindRefused => Err(LinkError::Bind),
            SocketSetup::ConnectRefused => Err(LinkError::Connect),
            SocketSetup::Ready { local, peer } => Ok(
                LinkUnicastUdp::new(
                    local,
                    peer,
                    LinkVariant::Connected,
                    copy_text(&endpoint.locator.metadata),
                ),
            ),
        }
    }

    /// Registers a listener. The caller resolves the endpoint, binds the
    /// socket, and reports how that went; `task` is the handle of the accept
    /// task that will serve the socket. The endpoint is registered with the
    /// address that the bind gave, so that a wildcard or a port 0 shows as
    /// what it became, and its locator is returned. A listener already
    /// registered under that address gives way.
    pub fn new_listener(&mut self, endpoint: EndPoint, outcome: BindOutcome, task: u64) -> (locator:
        Result<Locator, LinkError>)
        requires
            old(self).wf(),
        ensures
            final(self).wf(),
            final(self).sink() == old(self).sink(),
            match outcome {
                BindOutcome::Unresolved => locator == Err::<Locator, LinkError>(
                    LinkError::AddrResolve,
                ) && final(self)@ == old(self)@,
                BindOutcome::Refused => locator == Err::<Locator, LinkError>(LinkError::Bind)
                    && final(self)@ == old(self)@,
                BindOutcome::Bound(local) => locator == Ok::<Locator, LinkError>(
                    endpoint.spec_at(local).locator,
                ) && final(self)@ == without(old(self)@, local).push(
                    Listener { endpoint: endpoint.spec_at(local), task },
                ),
            },
    {
        match outcome {
            BindOutcome::Unresolved => Err(LinkError::AddrResolve),
            BindOutcome::Refused => Err(LinkError::Bind),
            BindOutcome::Bound(local) => {
                let mut endpoint = endpoint;
                endpoint.set_addr(local);
                let locator = endpoint.locator.duplicate();
                self.take_out(local);
                self.listeners.push(Listener { endpoint, task });
                Ok(locator)
            },
        }
    }

    /// Unregisters the listener under the address that the endpoint resolved
    /// to, and hands it back: the caller clears its flag, trips its stop
    /// signal and awaits its task.
    pub fn del_listener(&mut self, resolved: Option<SocketAddress>) -> (listener: Result<
        Listener,
        LinkError,
    >)
        requires
            old(self).wf(),
        ensures
            final(self).wf(),
            final(self).sink() == old(self).sink(),
            match resolved {
                None => {
                    &&& listener == Err::<Listener, LinkError>(LinkError::AddrResolve)
                    &&& final(self)@ == old(self)@
                },
                Some(addr) => if registered(old(self)@, addr) {
                    &&& listener is Ok
                    &&& old(self)@.contains(listener->Ok_0)
                    &&& bound_at(listener->Ok_0) == addr
                    &&& final(self)@ == without(old(self)@, addr)
                    &&& !registered(final(self)@, addr)
                } else {
                    &&& listener == Err::<Listener, LinkError>(LinkError::NotFound)
                    &&& final(self)@ == old(self)@
                },
            },
    {
        match resolved {
            None => Err(LinkError::AddrResolve),
            Some(addr) => match self.take_out(addr) {
                Some(listener) => Ok(listener),
                None => Err(LinkError::NotFound),
            },
        }
    }

    /// Unregisters the listener under `addr`, whose accept task has ended.
    pub fn listener_ended(&mut self, addr: SocketAddress)
        requires
            old(self).wf(),
        ensures
            final(self).wf(),
            final(self).sink() == old(self).sink(),
            final(self)@ == without(old(self)@, addr),
            !registered(final(self)@, addr),
    {
        self.take_out(addr);
    }

    /// The endpoints of the listeners, in the order of their registration.
    pub fn get_listeners(&self) -> (endpoints: Vec<EndPoint>)
        ensures
            endpoints@.len() == self@.len(),
            forall|i: int| 0 <= i < self@.len() ==> endpoints@[i] == self@[i].endpoint,
    {
        let mut endpoints: Vec<EndPoint> = Vec::new();
        let mut i: usize = 0;
        while i < self.listeners.len()
            invariant
                i <= self.listeners@.len(),
                endpoints@.len() == i,
                forall|k: int| 0 <= k < i ==> endpoints@[k] == self.listeners@[k].endpoint,
            decreases self.listeners@.len() - i,
        {
            endpoints.push(self.listeners[i].endpoint.duplicate());
            i += 1;
        }
        endpoints
    }

    /// The locators under which peers reach the listeners. A listener bound to
    /// a concrete address shows that address. One bound to the IPv4 or IPv6
    /// wildcard shows one locator for each local address of that family that
    /// is neither loopback nor multicast, with its own port and metadata.
    /// `local` is the host's list of local addresses, or `None` where the host
    /// would not give it: wildcard listeners then show nothing.
    pub fn get_locators(&self, local: &Option<Vec<IpAddress>>) -> (locators: Vec<Locator>)
        ensures
            locators@ == all_locators(self@, known_addresses(*local)),
    {
        let ghost known = known_addresses(*local);
        let mut locators: Vec<Locator> = Vec::new();
        let mut i: usize = 0;
        while i < self.listeners.len()
            invariant
                i <= self.listeners@.len(),
                known == known_addresses(*local),
                locators@ == all_locators(self.listeners@.take(i as int), known),
            decreases self.listeners@.len() - i,
        {
            let listener = &self.listeners[i];
            let addr = listener.endpoint.locator.address;
            proof {
                assert(self.listeners@.take(i + 1).drop_last() =~= self.listeners@.take(i as int));
                assert(self.listeners@.take(i + 1).last() == *listener);
            }
            let v4 = addr.ip == IpAddress::V4(0);
            if v4 || addr.ip == IpAddress::V6(0) {
                match local {
                    Some(ips) => {
                        let ghost before = locators@;
                        let mut j: usize = 0;
                        while j < ips.len()
                            invariant
                                j <= ips@.len(),
                                ips@ == known,
                                addr == bound_at(*listener),
                                locators@ == before + candidates(
                                    known.take(j as int),
                                    v4,
                                    addr.port,
                                    listener.endpoint.locator.metadata,
                                ),
                            decreases ips@.len() - j,
                        {
                            let ip = ips[j];
                            proof {
                                assert(known.take(j + 1).drop_last() =~= known.take(j as int));
                                assert(known.take(j + 1).last() == ip);
                            }
                            if !ip.is_loopback() && !ip.is_multicast() && ip.is_ipv4() == v4 {
                                locators.push(
                                    Locator::udp(
                                        SocketAddress::new(ip, addr.port),
                                        copy_text(&listener.endpoint.locator.metadata),
                                    ),
                                );
                            }
                            j += 1;
                            proof {
                                assert(locators@ =~= before + candidates(
                                    known.take(j as int),
                                    v4,
                                    addr.port,
                                    listener.endpoint.locator.metadata,
                                ));
                            }
                        }
                        proof {
                            assert(known.take(ips@.len() as int) =~= known);
                        }
                    },
                    None => {
                        proof {
                            assert(locators@ =~= locators@ + Seq::<Locator>::empty());
                        }
                    },
                }
            } else {
                locators.push(listener.endpoint.locator.duplicate());
                proof {
                    assert(locators@ =~= all_locators(self.listeners@.take(i as int), known)
                        + seq![listener.endpoint.locator]);
                }
            }
            i += 1;
        }
        proof {
            assert(self.listeners@.take(self.listeners@.len() as int) =~= self.listeners@);
        }
        locators
    }
}

/// Taking out an address that no listener has changes nothing.
pub proof fn lemma_without_absent(listeners: Seq<Listener>, addr: SocketAddress)
    requires
        !registered(listeners, addr),
    ensures
        without(listeners, addr) == listeners,
    decreases listeners.len(),
{
    if listeners.len() > 0 {
        let before = listeners.drop_last();
        assert(bound_at(listeners[listeners.len() - 1]) != addr);
        assert(!registered(before, addr)) by {
            if registered(before, addr) {
                let i = choose|i: int| 0 <= i < before.len() && bound_at(#[trigger] before[i]) == addr;
                assert(bound_at(listeners[i]) == addr);
            }
        }
        lemma_without_absent(before, addr);
        assert(before.push(listeners.last()) =~= listeners);
    }
}

/// Taking out the address of a listener removes that listener and no other,
/// and leaves nobody under the address.
pub proof fn lemma_without_present(listeners: Seq<Listener>, addr: SocketAddress, at: int)
    requires
        distinct(listeners),
        0 <= at < listeners.len(),
        bound_at(listeners[at]) == addr,
    ensures
        without(listeners, addr) == listeners.remove(at),
        distinct(listeners.remove(at)),
        !registered(listeners.remove(at), addr),
        listeners.contains(listeners[at]),
    decreases listeners.len(),
{
    let before = listeners.drop_last();
    let after = listeners.remove(at);
    assert forall|i: int, j: int| 0 <= i < j < after.len() implies bound_at(
        #[trigger] after[i],
    ) != bound_at(#[trigger] after[j]) by {
        let i0 = if i < at { i } else { i + 1 };
        let j0 = if j < at { j } else { j + 1 };
        assert(after[i] == listeners[i0]);
        assert(after[j] == listeners[j0]);
    }
    assert(!registered(after, addr)) by {
        if registered(after, addr) {
            let i = choose|i: int| 0 <= i < after.len() && bound_at(#[trigger] after[i]) == addr;
            let i0 = if i < at { i } else { i + 1 };
            assert(after[i] == listeners[i0]);
            if i0 < at {
                assert(bound_at(listeners[i0]) != bound_at(listeners[at]));
            } else {
                assert(bound_at(listeners[at]) != bound_at(listeners[i0]));
            }
        }
    }
    if at == listeners.len() - 1 {
        assert(!registered(before, addr)) by {
            if registered(before, addr) {
                let i = choose|i: int| 0 <= i < before.len() && bound_at(#[trigger] before[i]) == addr;
                assert(bound_at(listeners[i]) != bound_at(listeners[at]));
            }
        }
        lemma_without_absent(before, addr);
        assert(after =~= before);
    } else {
        assert(bound_at(listeners[at]) != bound_at(listeners[listeners.len() - 1]));
        assert(distinct(before)) by {
            assert forall|i: int, j: int| 0 <= i < j < before.len() implies bound_at(
                #[trigger] before[i],
            ) != bound_at(#[trigger] before[j]) by {
                assert(before[i] == listeners[i]);
                assert(before[j] == listeners[j]);
            }
        }
        lemma_without_present(before, addr, at);
        assert(before.remove(at).push(listeners.last()) =~= after);
    }
}

/// Whether `ip` is the wildcard address of its family.
pub open spec fn wildcard(ip: IpAddress) -> bool {
    ip == IpAddress::V4(0) || ip == IpAddress::V6(0)
}

/// Every local address that a peer can dial, and that is of the family asked
/// for, is among the candidates, with the port and the metadata given.
pub proof fn lemma_candidates_complete(
    local: Seq<IpAddress>,
    v4: bool,
    port: u16,
    metadata: Option<String>,
    k: int,
)
    requires
        0 <= k < local.len(),
        dialable(local[k]),
        local[k].spec_is_ipv4() == v4,
    ensures
        candidates(local, v4, port, metadata).contains(
            Locator::spec_udp(SocketAddress { ip: local[k], port }, metadata),
        ),
    decreases local.len(),
{
    let all = candidates(local, v4, port, metadata);
    let rest = candidates(local.drop_last(), v4, port, metadata);
    let wanted = Locator::spec_udp(SocketAddress { ip: local[k], port }, metadata);
    if k == local.len() - 1 {
        assert(all[all.len() - 1] == wanted);
    } else {
        lemma_candidates_complete(local.drop_last(), v4, port, metadata, k);
        let i = choose|i: int| 0 <= i < rest.len() && rest[i] == wanted;
        assert(all[i] == wanted);
    }
}

/// Every candidate is a UDP locator of a local address that a peer can dial,
/// of the family asked for, with the port and the metadata given: loopback and
/// multicast addresses are left out.
pub proof fn lemma_candidates_sound(
    local: Seq<IpAddress>,
    v4: bool,
    port: u16,
    metadata: Option<String>,
    i: int,
)
    requires
        0 <= i < candidates(local, v4, port, metadata).len(),
    ensures
        ({
            let found = candidates(local, v4, port, metadata)[i];
            &&& found == Locator::spec_udp(SocketAddress { ip: found.address.ip, port }, metadata)
            &&& local.contains(found.address.ip)
            &&& !found.address.ip.spec_is_loopback()
            &&& !found.address.ip.spec_is_multicast()
            &&& found.address.ip.spec_is_ipv4() == v4
        }),
    decreases local.len(),
{
    let rest = candidates(local.drop_last(), v4, port, metadata);
    if i < rest.len() {
        lemma_candidates_sound(local.drop_last(), v4, port, metadata, i);
        let ip = rest[i].address.ip;
        let k = choose|k: int| 0 <= k < local.drop_last().len() && local.drop_last()[k] == ip;
        assert(local[k] == ip);
    } else {
        assert(local[local.len() - 1] == local.last());
    }
}

/// What one listener shows is part of what the manager shows.
pub proof fn lemma_locators_include(
    listeners: Seq<Listener>,
    local: Seq<IpAddress>,
    at: int,
    locator: Locator,
)
    requires
        0 <= at < listeners.len(),
        expand(listeners[at], local).contains(locator),
    ensures
        all_locators(listeners, local).contains(locator),
    decreases listeners.len(),
{
    let all = all_locators(listeners, local);
    let rest = all_locators(listeners.drop_last(), local);
    let own = expand(listeners.last(), local);
    if at == listeners.len() - 1 {
        let i = choose|i: int| 0 <= i < own.len() && own[i] == locator;
        assert(all[rest.len() + i] == locator);
    } else {
        lemma_locators_include(listeners.drop_last(), local, at, locator);
        let i = choose|i: int| 0 <= i < rest.len() && rest[i] == locator;
        assert(all[i] == locator);
    }
}

/// A listener bound to the wildcard of a family, on port `P`, shows `A:P` for
/// every local address `A` of that family that is neither loopback nor
/// multicast, with its own metadata.
pub proof fn lemma_wildcard_shows_local(
    listeners: Seq<Listener>,
    local: Seq<IpAddress>,
    at: int,
    k: int,
)
    requires
        0 <= at < listeners.len(),
        wildcard(bound_at(listeners[at]).ip),
        0 <= k < local.len(),
        dialable(local[k]),
        local[k].spec_is_ipv4() == bound_at(listeners[at]).ip.spec_is_ipv4(),
    ensures
        all_locators(listeners, local).contains(
            Locator::spec_udp(
                SocketAddress { ip: local[k], port: bound_at(listeners[at]).port },
                listeners[at].endpoint.locator.metadata,
            ),
        ),
{
    let listener = listeners[at];
    let addr = bound_at(listener);
    let metadata = listener.endpoint.locator.metadata;
    lemma_candidates_complete(local, addr.ip.spec_is_ipv4(), addr.port, metadata, k);
    lemma_locators_include(
        listeners,
        local,
        at,
        Locator::spec_udp(SocketAddress { ip: local[k], port: addr.port }, metadata),
    );
}

/// A listener bound to a wildcard shows no loopback and no multicast address,
/// and none of the other family; each locator it shows has its port.
pub proof fn lemma_wildcard_hides_undialable(listener: Listener, local: Seq<IpAddress>, i: int)
    requires
        wildcard(bound_at(listener).ip),
        0 <= i < expand(listener, local).len(),
    ensures
        ({
            let shown = expand(listener, local)[i];
            &&& !shown.address.ip.spec_is_loopback()
            &&& !shown.address.ip.spec_is_multicast()
            &&& shown.address.ip.spec_is_ipv4() == bound_at(listener).ip.spec_is_ipv4()
            &&& shown.address.port == bound_at(listener).port
            &&& local.contains(shown.address.ip)
        }),
{
    let addr = bound_at(listener);
    lemma_candidates_sound(
        local,
        addr.ip.spec_is_ipv4(),
        addr.port,
        listener.endpoint.locator.metadata,
        i,
    );
}

} // verus!

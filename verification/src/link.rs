//! A unicast UDP link: one peer, seen either through a socket of its own or
//! through the socket of the listener that accepted it.

use crate::addr::SocketAddress;
use crate::demux::Demux;
use crate::error::LinkError;
use crate::leftover::{read_from, rest_after, take_len, Leftover, ReadStep};
use crate::limits::UDP_DEFAULT_MTU;
use crate::locator::Locator;
use crate::table::LinkId;
use vstd::prelude::*;

verus! {

/// How a link reaches its peer.
#[derive(Clone, Copy, Debug, PartialEq, Eq, Structural)]
pub enum LinkVariant {
    /// Through a socket that the link owns, connected to the peer.
    Connected,
    /// Through the listener's socket. `leftover` is what earlier reads left of
    /// the datagram that the link holds, if it holds one.
    Unconnected { leftover: Option<Leftover> },
}

/// Where a read takes its bytes from.
#[derive(Clone, Copy, Debug, PartialEq, Eq, Structural)]
pub enum ReadPlan {
    /// Receive on the link's own socket.
    Socket,
    /// Go on with the datagram that the link holds.
    Held(Leftover),
    /// Wait for the listener to hand over the next datagram.
    Await,
}

/// Where a write sends its bytes.
#[derive(Clone, Copy, Debug, PartialEq, Eq, Structural)]
pub enum WriteTarget {
    /// Send on the link's own socket.
    Connected,
    /// Send on the listener's socket, to this address.
    To(SocketAddress),
}

/// A unicast UDP link.
pub struct LinkUnicastUdp {
    src_addr: SocketAddress,
    src_locator: Locator,
    dst_addr: SocketAddress,
    dst_locator: Locator,
    variant: LinkVariant,
}

impl LinkUnicastUdp {
    /// The address used on the local host.
    pub closed spec fn src(&self) -> SocketAddress {
        self.src_addr
    }

    /// The address used on the remote host.
    pub closed spec fn dst(&self) -> SocketAddress {
        self.dst_addr
    }

    /// The metadata of the endpoint that the link came from.
    pub closed spec fn metadata(&self) -> Option<String> {
        self.dst_locator.metadata
    }

    pub closed spec fn variant(&self) -> LinkVariant {
        self.variant
    }

    /// The cached locators are those of the two addresses.
    pub closed spec fn wf(&self) -> bool {
        &&& self.src_locator == Locator::spec_udp(self.src_addr, None)
        &&& self.dst_locator == Locator::spec_udp(self.dst_addr, self.dst_locator.metadata)
    }

    /// The identity of the link on its listener.
    pub open spec fn id(&self) -> LinkId {
        LinkId { src: self.src(), dst: self.dst() }
    }

    /// The source of the next read.
    pub open spec fn spec_read_plan(&self) -> ReadPlan {
        match self.variant() {
            LinkVariant::Connected => ReadPlan::Socket,
            LinkVariant::Unconnected { leftover: Some(cursor) } => ReadPlan::Held(cursor),
            LinkVariant::Unconnected { leftover: None } => ReadPlan::Await,
        }
    }

    /// The cursor that a read through the listener starts from, when the
    /// listener's last datagram for this link had `received` bytes.
    pub open spec fn cursor(&self, received: usize) -> Leftover {
        match self.variant() {
            LinkVariant::Unconnected { leftover: Some(cursor) } => cursor,
            _ => Leftover { start: 0, len: received },
        }
    }

    /// The link between `src_addr` and `dst_addr`. `metadata` is that of the
    /// endpoint that the link was opened or accepted on.
    pub fn new(
        src_addr: SocketAddress,
        dst_addr: SocketAddress,
        variant: LinkVariant,
        metadata: Option<String>,
    ) -> (link: LinkUnicastUdp)
        ensures
            link.wf(),
            link.src() == src_addr,
            link.dst() == dst_addr,
            link.variant() == variant,
            link.metadata() == metadata,
    {
        LinkUnicastUdp {
            src_locator: Locator::udp(src_addr, None),
            dst_locator: Locator::udp(dst_addr, metadata),
            src_addr,
            dst_addr,
            variant,
        }
    }

    pub fn get_src(&self) -> (locator: &Locator)
        requires
            self.wf(),
        ensures
            *locator == Locator::spec_udp(self.src(), None),
    {
        &self.src_locator
    }

    pub fn get_dst(&self) -> (locator: &Locator)
        requires
            self.wf(),
        ensures
            *locator == Locator::spec_udp(self.dst(), self.metadata()),
    {
        &self.dst_locator
    }

    pub fn src_addr(&self) -> (addr: SocketAddress)
        ensures
            addr == self.src(),
    {
        self.src_addr
    }

    pub fn dst_addr(&self) -> (addr: SocketAddress)
        ensures
            addr == self.dst(),
    {
        self.dst_addr
    }

    pub fn get_mtu(&self) -> (mtu: u16)
        ensures
            mtu == UDP_DEFAULT_MTU,
    {
        UDP_DEFAULT_MTU
    }

    /// A UDP link promises neither delivery nor order.
    pub fn is_reliable(&self) -> (reliable: bool)
        ensures
            !reliable,
    {
        false
    }

    /// A UDP link carries datagrams, not a stream.
    pub fn is_streamed(&self) -> (streamed: bool)
        ensures
            !streamed,
    {
        false
    }

    /// Says where the next read takes its bytes from.
    pub fn read_plan(&self) -> (plan: ReadPlan)
        ensures
            plan == self.spec_read_plan(),
    {
        match self.variant {
            LinkVariant::Connected => ReadPlan::Socket,
            LinkVariant::Unconnected { leftover: Some(cursor) } => ReadPlan::Held(cursor),
            LinkVariant::Unconnected { leftover: None } => ReadPlan::Await,
        }
    }

    /// Serves a read on an accepted link. `datagram` is the buffer that the
    /// link holds, or, where it holds none, the one that the listener just
    /// handed over with `received` bytes in it. The bytes go to the front of
    /// `buffer`; what the read leaves is kept for the next one. Where nothing
    /// is left, the caller sends the datagram's buffer back to the pool.
    ///
    /// A connected link reads from its socket: it answers `None`, and nothing
    /// changes.
    pub fn read(&mut self, datagram: &[u8], received: usize, buffer: &mut [u8]) -> (step: Option<
        ReadStep,
    >)
        requires
            old(self).variant() is Unconnected ==> old(self).cursor(received).fits(
                datagram@.len() as int,
            ),
        ensures
            final(self).src() == old(self).src(),
            final(self).dst() == old(self).dst(),
            final(self).metadata() == old(self).metadata(),
            old(self).wf() ==> final(self).wf(),
            final(buffer)@.len() == old(buffer)@.len(),
            old(self).variant() is Connected ==> step is None && final(self).variant() == old(
                self,
            ).variant() && final(buffer)@ == old(buffer)@,
            old(self).variant() is Unconnected ==> ({
                let cursor = old(self).cursor(received);
                let room = old(buffer)@.len() as int;
                let copied = take_len(cursor.start as int, cursor.len as int, room);
                &&& step == Some(
                    ReadStep { copied: copied as usize, rest: rest_after(cursor, room) },
                )
                &&& final(self).variant() == LinkVariant::Unconnected {
                    leftover: rest_after(cursor, room),
                }
                &&& final(buffer)@.subrange(0, copied) == datagram@.subrange(
                    cursor.start as int,
                    cursor.start + copied,
                )
                &&& final(buffer)@.subrange(copied, room) == old(buffer)@.subrange(copied, room)
            }),
    {
        match self.variant {
            LinkVariant::Connected => None,
            LinkVariant::Unconnected { leftover } => {
                let cursor = match leftover {
                    Some(cursor) => cursor,
                    None => Leftover::whole(received),
                };
                let step = read_from(datagram, cursor, buffer);
                self.variant = LinkVariant::Unconnected { leftover: step.rest };
                Some(step)
            },
        }
    }

    /// Says where a write goes. An accepted link borrows the listener's
    /// socket: `listener_alive` says whether that socket is still there.
    pub fn write_target(&self, listener_alive: bool) -> (target: Result<WriteTarget, LinkError>)
        ensures
            target == (match self.variant() {
                LinkVariant::Connected => Ok::<WriteTarget, LinkError>(WriteTarget::Connected),
                LinkVariant::Unconnected { .. } => if listener_alive {
                    Ok(WriteTarget::To(self.dst()))
                } else {
                    Err(LinkError::ListenerGone)
                },
            }),
    {
        match self.variant {
            LinkVariant::Connected => Ok(WriteTarget::Connected),
            LinkVariant::Unconnected { .. } => {
                if listener_alive {
                    Ok(WriteTarget::To(self.dst_addr))
                } else {
                    Err(LinkError::ListenerGone)
                }
            },
        }
    }

    /// What a send or a receive on the socket amounts to: the count that the
    /// socket gave, or an I/O error where it gave none.
    pub fn transferred(outcome: Option<usize>) -> (result: Result<usize, LinkError>)
        ensures
            result == (match outcome {
                Some(n) => Ok::<usize, LinkError>(n),
                None => Err(LinkError::Io),
            }),
    {
        match outcome {
            Some(n) => Ok(n),
            None => Err(LinkError::Io),
        }
    }

    /// Closes the link. An accepted link leaves its listener's table, and the
    /// listener's socket stays open; a connected link has nothing to leave.
    pub fn close(&self, listener: &mut Demux) -> (result: Result<(), LinkError>)
        requires
            old(listener).wf(),
        ensures
            result is Ok,
            final(listener).wf(),
            final(listener)@ == (match self.variant() {
                LinkVariant::Connected => old(listener)@,
                LinkVariant::Unconnected { .. } => old(listener)@.on_close(self.id()),
            }),
    {
        match self.variant {
            LinkVariant::Connected => {},
            LinkVariant::Unconnected { .. } => {
                listener.on_close(LinkId { src: self.src_addr, dst: self.dst_addr });
            },
        }
        Ok(())
    }
}

/// How far a `write_all` or a `read_exact` has got through its buffer.
#[derive(Clone, Copy, Debug, PartialEq, Eq, Structural)]
pub struct Transfer {
    pub done: usize,
    pub total: usize,
}

impl Transfer {
    pub open spec fn wf(self) -> bool {
        self.done <= self.total
    }

    /// A transfer of `total` bytes, none of them moved yet.
    pub fn begin(total: usize) -> (transfer: Transfer)
        ensures
            transfer == (Transfer { done: 0, total }),
    {
        Transfer { done: 0, total }
    }

    /// Whether the loop is over: every byte was moved.
    pub fn is_complete(&self) -> (complete: bool)
        ensures
            complete == (self.done >= self.total),
    {
        self.done >= self.total
    }

    /// Counts the `moved` bytes of one `write` or `read`.
    pub fn advance(&mut self, moved: usize)
        requires
            old(self).wf(),
            moved <= old(self).total - old(self).done,
        ensures
            final(self).wf(),
            final(self).total == old(self).total,
            final(self).done == old(self).done + moved,
    {
        self.done = self.done + moved;
    }
}

} // verus!

//! The accept loop of a listener, as a machine.
//!
//! One task owns the listener's socket. It takes a buffer, waits for a
//! datagram or for the stop signal, and routes what arrived to the link of the
//! peer that sent it, creating the link on first sight. The task itself only
//! performs; what to perform next is decided here.

use crate::addr::SocketAddress;
use crate::limits::UDP_ACCEPT_THROTTLE_TIME;
use crate::table::{LinkId, LinkTable};
use vstd::prelude::*;

verus! {

/// How the wait for a datagram ended.
#[derive(Clone, Copy, Debug, PartialEq, Eq, Structural)]
pub enum Received {
    /// The stop signal came first.
    Stopped,
    /// The socket reported an error.
    Failed,
    /// `len` bytes arrived from `peer`.
    Datagram { len: usize, peer: SocketAddress },
}

/// What the task does next.
#[derive(Clone, Copy, Debug, PartialEq, Eq, Structural)]
pub enum Action {
    /// Leave the loop.
    Exit,
    /// Take a buffer from the pool and wait for a datagram or the stop signal.
    Receive,
    /// Sleep for `micros` microseconds, then start the next turn.
    Throttle { micros: u64 },
    /// A new peer: build the link `id`, hand it upward, then probe it. The
    /// datagram of `len` bytes is still to be delivered.
    Publish { id: LinkId, token: u64, len: usize },
    /// A known peer: see whether the link `id` is still held by anyone.
    Probe { id: LinkId, token: u64, len: usize },
    /// Put the datagram of `len` bytes into the link's receive slot.
    Deliver { id: LinkId, token: u64, len: usize },
    /// The link is gone: drop the datagram.
    Discard { id: LinkId },
}

/// What a listener's accept loop knows.
pub struct DemuxState {
    /// The address that the listener's socket is bound to.
    pub src: SocketAddress,
    /// The links handed out and not yet found gone, each with its token.
    pub links: Map<LinkId, u64>,
    /// How many links were ever created; the next link's token.
    pub issued: nat,
}

impl DemuxState {
    /// Every link starts at the listener's address, and no two links share a
    /// token, now or later.
    pub open spec fn wf(self) -> bool {
        &&& forall|id: LinkId| #[trigger]
            self.links.contains_key(id) ==> id.src == self.src && self.links[id] < self.issued
        &&& forall|a: LinkId, b: LinkId|
            #![trigger self.links.contains_key(a), self.links.contains_key(b)]
            self.links.contains_key(a) && self.links.contains_key(b) && a != b
                ==> self.links[a] != self.links[b]
    }

    /// The identity of the link to `peer`.
    pub open spec fn id_of(self, peer: SocketAddress) -> LinkId {
        LinkId { src: self.src, dst: peer }
    }

    /// The state once a link to `peer` is created, and the order to publish it.
    pub open spec fn enroll(self, peer: SocketAddress, len: usize) -> (DemuxState, Action) {
        let id = self.id_of(peer);
        (
            DemuxState {
                src: self.src,
                links: self.links.insert(id, self.issued as u64),
                issued: self.issued + 1,
            },
            Action::Publish { id, token: self.issued as u64, len },
        )
    }

    /// The first step of a turn: the loop runs while the listener is active.
    pub open spec fn begin(active: bool) -> Action {
        if active {
            Action::Receive
        } else {
            Action::Exit
        }
    }

    /// The step after the wait for a datagram.
    pub open spec fn on_outcome(self, outcome: Received) -> (DemuxState, Action) {
        match outcome {
            Received::Stopped => (self, Action::Exit),
            Received::Failed => (self, Action::Throttle { micros: UDP_ACCEPT_THROTTLE_TIME }),
            Received::Datagram { len, peer } => {
                let id = self.id_of(peer);
                if self.links.contains_key(id) {
                    (self, Action::Probe { id, token: self.links[id], len })
                } else {
                    self.enroll(peer, len)
                }
            },
        }
    }

    /// The step after the link to `peer` was probed: `live` says whether
    /// anyone still holds it.
    pub open spec fn on_probe(self, peer: SocketAddress, len: usize, live: bool) -> (
        DemuxState,
        Action,
    ) {
        let id = self.id_of(peer);
        if !self.links.contains_key(id) {
            self.enroll(peer, len)
        } else if live {
            (self, Action::Deliver { id, token: self.links[id], len })
        } else {
            (
                DemuxState { src: self.src, links: self.links.remove(id), issued: self.issued },
                Action::Discard { id },
            )
        }
    }

    /// The state once the link `id` was closed by its holder.
    pub open spec fn on_close(self, id: LinkId) -> DemuxState {
        DemuxState { src: self.src, links: self.links.remove(id), issued: self.issued }
    }
}

/// The accept loop's state, as the task holds it.
pub struct Demux {
    src: SocketAddress,
    table: LinkTable,
    issued: u64,
}

impl View for Demux {
    type V = DemuxState;

    closed spec fn view(&self) -> DemuxState {
        DemuxState { src: self.src, links: self.table@, issued: self.issued as nat }
    }
}

impl Demux {
    pub closed spec fn wf(&self) -> bool {
        self.table.wf() && self@.wf()
    }

    /// A well-formed machine shows a well-formed state.
    pub proof fn lemma_view_wf(&self)
        requires
            self.wf(),
        ensures
            self@.wf(),
            self@.issued <= u64::MAX,
    {
    }

    /// The machine of a listener bound to `src`, with no link yet.
    pub fn new(src: SocketAddress) -> (demux: Demux)
        ensures
            demux.wf(),
            demux@ == (DemuxState { src, links: Map::empty(), issued: 0 }),
    {
        Demux { src, table: LinkTable::new(), issued: 0 }
    }

    /// The address that the listener is bound to.
    pub fn src(&self) -> (src: SocketAddress)
        ensures
            src == self@.src,
    {
        self.src
    }

    /// How many links the listener has created so far.
    pub fn issued(&self) -> (n: u64)
        ensures
            n == self@.issued,
    {
        self.issued
    }

    /// The token of the link to `peer`, if the table holds one.
    pub fn token_of(&self, peer: SocketAddress) -> (token: Option<u64>)
        requires
            self.wf(),
        ensures
            token == LinkTable::lookup(self@.links, self@.id_of(peer)),
    {
        self.table.get(&LinkId { src: self.src, dst: peer })
    }

    /// Starts a turn of the loop: go on while the listener is active.
    pub fn begin(active: bool) -> (action: Action)
        ensures
            action == DemuxState::begin(active),
    {
        if active {
            Action::Receive
        } else {
            Action::Exit
        }
    }

    fn enroll(&mut self, peer: SocketAddress, len: usize) -> (action: Action)
        requires
            old(self).wf(),
            old(self)@.issued < u64::MAX,
            !old(self)@.links.contains_key(old(self)@.id_of(peer)),
        ensures
            final(self).wf(),
            (final(self)@, action) == old(self)@.enroll(peer, len),
    {
        let id = LinkId { src: self.src, dst: peer };
        let token: u64 = self.issued;
        self.table.insert(id, token);
        self.issued = token + 1;
        proof {
            lemma_enroll_keeps_wf(old(self)@, peer, len);
        }
        Action::Publish { id, token, len }
    }

    /// Decides what follows the wait for a datagram.
    pub fn on_outcome(&mut self, outcome: Received) -> (action: Action)
        requires
            old(self).wf(),
            old(self)@.issued < u64::MAX,
        ensures
            final(self).wf(),
            (final(self)@, action) == old(self)@.on_outcome(outcome),
    {
        match outcome {
            Received::Stopped => Action::Exit,
            Received::Failed => Action::Throttle { micros: UDP_ACCEPT_THROTTLE_TIME },
            Received::Datagram { len, peer } => {
                let id = LinkId { src: self.src, dst: peer };
                match self.table.get(&id) {
                    Some(token) => Action::Probe { id, token, len },
                    None => self.enroll(peer, len),
                }
            },
        }
    }

    /// Decides what follows a probe of the link to `peer`: deliver if it is
    /// alive, forget it if not, and create it if the table has lost it since.
    pub fn on_probe(&mut self, peer: SocketAddress, len: usize, live: bool) -> (action: Action)
        requires
            old(self).wf(),
            old(self)@.issued < u64::MAX,
        ensures
            final(self).wf(),
            (final(self)@, action) == old(self)@.on_probe(peer, len, live),
    {
        let id = LinkId { src: self.src, dst: peer };
        match self.table.get(&id) {
            None => self.enroll(peer, len),
            Some(token) => {
                if live {
                    Action::Deliver { id, token, len }
                } else {
                    self.table.remove(&id);
                    proof {
                        lemma_close_keeps_wf(old(self)@, id);
                    }
                    Action::Discard { id }
                }
            },
        }
    }

    /// Forgets the link `id`, which its holder has closed. The socket and the
    /// other links stay as they are.
    pub fn on_close(&mut self, id: LinkId)
        requires
            old(self).wf(),
        ensures
            final(self).wf(),
            final(self)@ == old(self)@.on_close(id),
    {
        self.table.remove(&id);
        proof {
            lemma_close_keeps_wf(old(self)@, id);
        }
    }
}

/// Creating a link keeps the state well formed.
pub proof fn lemma_enroll_keeps_wf(s: DemuxState, peer: SocketAddress, len: usize)
    requires
        s.wf(),
        s.issued < u64::MAX,
    ensures
        s.enroll(peer, len).0.wf(),
{
    let t = s.enroll(peer, len).0;
    assert forall|id: LinkId| #[trigger] t.links.contains_key(id) implies id.src == t.src
        && t.links[id] < t.issued by {
        if id != s.id_of(peer) {
            assert(s.links.contains_key(id));
        }
    }
    assert forall|a: LinkId, b: LinkId|
        #![trigger t.links.contains_key(a), t.links.contains_key(b)]
        t.links.contains_key(a) && t.links.contains_key(b) && a != b implies t.links[a]
        != t.links[b] by {
        if a != s.id_of(peer) {
            assert(s.links.contains_key(a));
        }
        if b != s.id_of(peer) {
            assert(s.links.contains_key(b));
        }
    }
}

/// Closing a link keeps the state well formed.
pub proof fn lemma_close_keeps_wf(s: DemuxState, id: LinkId)
    requires
        s.wf(),
    ensures
        s.on_close(id).wf(),
{
    let t = s.on_close(id);
    assert forall|id: LinkId| #[trigger] t.links.contains_key(id) implies id.src == t.src
        && t.links[id] < t.issued by {
        assert(s.links.contains_key(id));
    }
    assert forall|a: LinkId, b: LinkId|
        #![trigger t.links.contains_key(a), t.links.contains_key(b)]
        t.links.contains_key(a) && t.links.contains_key(b) && a != b implies t.links[a]
        != t.links[b] by {
        assert(s.links.contains_key(a));
        assert(s.links.contains_key(b));
    }
}

/// Whatever the loop decides, the state stays well formed: each identity has
/// at most one link, and no token is used twice.
pub proof fn lemma_steps_keep_wf(s: DemuxState, peer: SocketAddress, len: usize)
    requires
        s.wf(),
        s.issued < u64::MAX,
    ensures
        s.on_outcome(Received::Stopped).0.wf(),
        s.on_outcome(Received::Failed).0.wf(),
        s.on_outcome(Received::Datagram { len, peer }).0.wf(),
        s.on_probe(peer, len, true).0.wf(),
        s.on_probe(peer, len, false).0.wf(),
{
    lemma_enroll_keeps_wf(s, peer, len);
    lemma_close_keeps_wf(s, s.id_of(peer));
    assert(s.on_probe(peer, len, false).0 == if s.links.contains_key(s.id_of(peer)) {
        s.on_close(s.id_of(peer))
    } else {
        s.enroll(peer, len).0
    });
}

/// Two datagrams from two peers go to two links: each is delivered once, to
/// the link whose identity is the listener's address and the sender's, and
/// the two links differ in identity and in token.
pub proof fn lemma_distinct_peers_distinct_links(
    s: DemuxState,
    first: SocketAddress,
    first_len: usize,
    second: SocketAddress,
    second_len: usize,
)
    requires
        s.wf(),
        s.issued + 1 < u64::MAX,
        first != second,
    ensures
        ({
            let s1 = s.on_outcome(Received::Datagram { len: first_len, peer: first }).0;
            let (s2, d1) = s1.on_probe(first, first_len, true);
            let s3 = s2.on_outcome(Received::Datagram { len: second_len, peer: second }).0;
            let (s4, d2) = s3.on_probe(second, second_len, true);
            &&& d1 == Action::Deliver {
                id: LinkId { src: s.src, dst: first },
                token: s4.links[s.id_of(first)],
                len: first_len,
            }
            &&& d2 == Action::Deliver {
                id: LinkId { src: s.src, dst: second },
                token: s4.links[s.id_of(second)],
                len: second_len,
            }
            &&& s4.links.contains_key(s.id_of(first))
            &&& s4.links.contains_key(s.id_of(second))
            &&& s4.links[s.id_of(first)] != s4.links[s.id_of(second)]
            &&& s4.wf()
        }),
{
    let s1 = s.on_outcome(Received::Datagram { len: first_len, peer: first }).0;
    lemma_steps_keep_wf(s, first, first_len);
    assert(s1.links.contains_key(s.id_of(first)));
    let s2 = s1.on_probe(first, first_len, true).0;
    assert(s2 == s1);
    let s3 = s2.on_outcome(Received::Datagram { len: second_len, peer: second }).0;
    lemma_steps_keep_wf(s2, second, second_len);
    assert(s3.links.contains_key(s.id_of(second)));
    assert(s3.links.contains_key(s.id_of(first)));
    let s4 = s3.on_probe(second, second_len, true).0;
    assert(s4 == s3);
    assert(s.id_of(first) != s.id_of(second));
}

/// The first datagram of a new peer is not lost: the loop creates the link and
/// orders it published, and once published and alive the link is handed that
/// very datagram, all of it.
pub proof fn lemma_first_datagram_is_delivered(s: DemuxState, peer: SocketAddress, len: usize)
    requires
        s.wf(),
        s.issued < u64::MAX,
        !s.links.contains_key(s.id_of(peer)),
    ensures
        ({
            let (s1, published) = s.on_outcome(Received::Datagram { len, peer });
            let (s2, delivered) = s1.on_probe(peer, len, true);
            &&& published == Action::Publish { id: s.id_of(peer), token: s.issued as u64, len }
            &&& delivered == Action::Deliver { id: s.id_of(peer), token: s.issued as u64, len }
            &&& s2 == s1
            &&& s1.links == s.links.insert(s.id_of(peer), s.issued as u64)
        }),
{
    let s1 = s.on_outcome(Received::Datagram { len, peer }).0;
    assert(s1.links.contains_key(s.id_of(peer)));
}

/// A stopped listener publishes nothing: with the flag cleared, or the
/// stop signal received, the loop leaves and the table stays as it was.
pub proof fn lemma_stopped_listener_is_silent(s: DemuxState)
    ensures
        DemuxState::begin(false) == Action::Exit,
        s.on_outcome(Received::Stopped) == (s, Action::Exit),
{
}

/// The loop leaves for no other reason: a turn begins unless the flag is
/// cleared, and neither a datagram, nor a failed receive, nor a probe ends it.
pub proof fn lemma_loop_leaves_only_when_stopped(
    s: DemuxState,
    active: bool,
    outcome: Received,
    peer: SocketAddress,
    len: usize,
    live: bool,
)
    ensures
        DemuxState::begin(active) == Action::Exit <==> !active,
        s.on_outcome(outcome).1 == Action::Exit <==> outcome == Received::Stopped,
        s.on_probe(peer, len, live).1 != Action::Exit,
{
}

/// A link that nobody holds any more is forgotten at the next datagram of its
/// peer, which is dropped; the datagram after that gets a fresh link, under a
/// token that the old one never had.
pub proof fn lemma_stale_link_is_replaced(
    s: DemuxState,
    peer: SocketAddress,
    len: usize,
    next_len: usize,
)
    requires
        s.wf(),
        s.issued < u64::MAX,
        s.links.contains_key(s.id_of(peer)),
    ensures
        ({
            let (s1, probe) = s.on_outcome(Received::Datagram { len, peer });
            let (s2, dropped) = s1.on_probe(peer, len, false);
            let (s3, published) = s2.on_outcome(Received::Datagram { len: next_len, peer });
            &&& probe == Action::Probe { id: s.id_of(peer), token: s.links[s.id_of(peer)], len }
            &&& dropped == Action::Discard { id: s.id_of(peer) }
            &&& !s2.links.contains_key(s.id_of(peer))
            &&& published == Action::Publish {
                id: s.id_of(peer),
                token: s.issued as u64,
                len: next_len,
            }
            &&& s.issued as u64 != s.links[s.id_of(peer)]
        }),
{
}

} // verus!

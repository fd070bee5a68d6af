//! The links that a listener has handed out, by the pair of addresses that
//! identifies each.

use crate::addr::SocketAddress;
use vstd::prelude::*;

verus! {

/// What identifies a link on a listener: the listener's own address and the
/// peer's.
#[derive(Clone, Copy, Debug, PartialEq, Eq, Structural)]
pub struct LinkId {
    pub src: SocketAddress,
    pub dst: SocketAddress,
}

/// One row of the table. The token tells a link from a later link to the same
/// peer; it stands for the listener's non-owning reference to the link.
#[derive(Clone, Copy, Debug, PartialEq, Eq, Structural)]
pub struct LinkEntry {
    pub id: LinkId,
    pub token: u64,
}

/// A listener's link table: at most one token for each link identity.
pub struct LinkTable {
    entries: Vec<LinkEntry>,
    model: Ghost<Map<LinkId, u64>>,
}

impl View for LinkTable {
    type V = Map<LinkId, u64>;

    closed spec fn view(&self) -> Map<LinkId, u64> {
        self.model@
    }
}

impl LinkTable {
    /// The rows and the map say the same, and no identity has two rows.
    pub closed spec fn wf(&self) -> bool {
        &&& forall|i: int|
            0 <= i < self.entries@.len() ==> self.model@.contains_key(
                #[trigger] self.entries@[i].id,
            ) && self.model@[self.entries@[i].id] == self.entries@[i].token
        &&& forall|id: LinkId|
            self.model@.contains_key(id) ==> exists|i: int|
                0 <= i < self.entries@.len() && (#[trigger] self.entries@[i]).id == id
        &&& forall|i: int, j: int|
            0 <= i < j < self.entries@.len() ==> (#[trigger] self.entries@[i]).id != (
            #[trigger] self.entries@[j]).id
    }

    /// What `get` answers for `id` on a table that holds `links`.
    pub open spec fn lookup(links: Map<LinkId, u64>, id: LinkId) -> Option<u64> {
        if links.contains_key(id) {
            Some(links[id])
        } else {
            None
        }
    }

    pub fn new() -> (table: LinkTable)
        ensures
            table.wf(),
            table@ == Map::<LinkId, u64>::empty(),
    {
        LinkTable { entries: Vec::new(), model: Ghost(Map::empty()) }
    }

    /// The row that holds `id`, if there is one.
    fn position(&self, id: &LinkId) -> (at: Option<usize>)
        requires
            self.wf(),
        ensures
            match at {
                Some(i) => i < self.entries@.len() && self.entries@[i as int].id == *id
                    && self@.contains_key(*id) && self@[*id] == self.entries@[i as int].token,
                None => !self@.contains_key(*id),
            },
    {
        let mut i: usize = 0;
        while i < self.entries.len()
            invariant
                self.wf(),
                i <= self.entries@.len(),
                forall|k: int| 0 <= k < i ==> (#[trigger] self.entries@[k]).id != *id,
            decreases self.entries@.len() - i,
        {
            if self.entries[i].id == *id {
                return Some(i);
            }
            i += 1;
        }
        None
    }

    /// The token of the link `id`, if the table holds one.
    pub fn get(&self, id: &LinkId) -> (token: Option<u64>)
        requires
            self.wf(),
        ensures
            token == Self::lookup(self@, *id),
    {
        match self.position(id) {
            Some(i) => Some(self.entries[i].token),
            None => None,
        }
    }

    /// Sets the token of the link `id`, in place of the one it had, if any.
    pub fn insert(&mut self, id: LinkId, token: u64)
        requires
            old(self).wf(),
        ensures
            final(self).wf(),
            final(self)@ == old(self)@.insert(id, token),
    {
        match self.position(&id) {
            Some(i) => {
                self.entries[i] = LinkEntry { id, token };
            },
            None => {
                self.entries.push(LinkEntry { id, token });
            },
        }
        self.model = Ghost(self.model@.insert(id, token));
        proof {
            assert forall|k: LinkId| self.model@.contains_key(k) implies exists|i: int|
                0 <= i < self.entries@.len() && (#[trigger] self.entries@[i]).id == k by {
                if k == id {
                    if old(self)@.contains_key(id) {
                        let i = choose|i: int|
                            0 <= i < old(self).entries@.len() && (#[trigger] old(
                                self,
                            ).entries@[i]).id == id;
                        assert(self.entries@[i].id == k);
                    } else {
                        assert(self.entries@[self.entries@.len() - 1].id == k);
                    }
                } else {
                    let i = choose|i: int|
                        0 <= i < old(self).entries@.len() && (#[trigger] old(
                            self,
                        ).entries@[i]).id == k;
                    assert(self.entries@[i].id == k);
                }
            }
        }
    }

    /// Takes the link `id` out of the table, and says which token it had.
    pub fn remove(&mut self, id: &LinkId) -> (token: Option<u64>)
        requires
            old(self).wf(),
        ensures
            final(self).wf(),
            final(self)@ == old(self)@.remove(*id),
            token == Self::lookup(old(self)@, *id),
    {
        match self.position(id) {
            Some(i) => {
                let gone = self.entries.remove(i);
                self.model = Ghost(self.model@.remove(*id));
                proof {
                    let before = old(self).entries@;
                    assert forall|k: LinkId| self.model@.contains_key(k) implies exists|j: int|
                        0 <= j < self.entries@.len() && (#[trigger] self.entries@[j]).id == k by {
                        let j = choose|j: int|
                            0 <= j < before.len() && (#[trigger] before[j]).id == k;
                        if j < i {
                            assert(self.entries@[j].id == k);
                        } else {
                            assert(self.entries@[j - 1].id == k);
                        }
                    }
                    assert forall|j: int| 0 <= j < self.entries@.len() implies self.model@.contains_key(
                        #[trigger] self.entries@[j].id,
                    ) && self.model@[self.entries@[j].id] == self.entries@[j].token by {
                        if j < i {
                            assert(self.entries@[j] == before[j]);
                        } else {
                            assert(self.entries@[j] == before[j + 1]);
                        }
                    }
                    assert forall|a: int, b: int| 0 <= a < b < self.entries@.len() implies (
                    #[trigger] self.entries@[a]).id != (#[trigger] self.entries@[b]).id by {
                        let a0 = if a < i { a } else { a + 1 };
                        let b0 = if b < i { b } else { b + 1 };
                        assert(self.entries@[a] == before[a0]);
                        assert(self.entries@[b] == before[b0]);
                    }
                }
                Some(gone.token)
            },
            None => {
                proof {
                    assert(self.model@.remove(*id) =~= self.model@);
                }
                None
            },
        }
    }
}

} // verus!

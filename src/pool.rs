use vstd::prelude::*;

use crate::types::{ConnectionId, PeerAddress};

verus! {

/// The registry of outbound connections: at most one live entry per peer.
pub struct ConnectionsPool {
    entries: Vec<(PeerAddress, ConnectionId)>,
    model: Ghost<Map<PeerAddress, ConnectionId>>,
}

impl View for ConnectionsPool {
    type V = Map<PeerAddress, ConnectionId>;

    closed spec fn view(&self) -> Map<PeerAddress, ConnectionId> {
        self.model@
    }
}

impl ConnectionsPool {
    /// The entries hold each peer once, and they are exactly the map.
    pub closed spec fn wf(&self) -> bool {
        &&& forall|i: int, j: int|
            0 <= i < j < self.entries@.len() ==> self.entries@[i].0 != self.entries@[j].0
        &&& forall|i: int|
            0 <= i < self.entries@.len() ==> #[trigger] self.model@.contains_key(
                self.entries@[i].0,
            ) && self.model@[self.entries@[i].0] == self.entries@[i].1
        &&& forall|k: PeerAddress|
            #[trigger] self.model@.contains_key(k) ==> exists|i: int|
                0 <= i < self.entries@.len() && self.entries@[i].0 == k
        &&& self.model@.dom().finite()
        &&& self.model@.dom().len() == self.entries@.len()
    }

    pub fn new() -> (r: ConnectionsPool)
        ensures
            r.wf(),
            r@ == Map::<PeerAddress, ConnectionId>::empty(),
    {
        ConnectionsPool { entries: Vec::new(), model: Ghost(Map::empty()) }
    }

    fn find(&self, peer: &PeerAddress) -> (r: Option<usize>)
        requires
            self.wf(),
        ensures
            match r {
                Some(i) => i < self.entries@.len() && self.entries@[i as int].0 == *peer,
                None => !self@.contains_key(*peer),
            },
    {
        let mut i: usize = 0;
        while i < self.entries.len()
            invariant
                self.wf(),
                i <= self.entries@.len(),
                forall|j: int| 0 <= j < i ==> self.entries@[j].0 != *peer,
            decreases self.entries@.len() - i,
        {
            if self.entries[i].0 == *peer {
                return Some(i);
            }
            i = i + 1;
        }
        None
    }

    /// Registers `connection` for `peer`, replacing any earlier entry.
    pub fn insert(&mut self, peer: PeerAddress, connection: ConnectionId)
        requires
            old(self).wf(),
        ensures
            final(self).wf(),
            final(self)@ == old(self)@.insert(peer, connection),
    {
        match self.find(&peer) {
            Some(i) => {
                self.entries.set(i, (peer, connection));
                self.model = Ghost(self.model@.insert(peer, connection));
                assert(self.model@.dom() =~= old(self).model@.dom());
                assert forall|a: int| 0 <= a < self.entries@.len() implies self.entries@[a].0
                    == old(self).entries@[a].0 by {}
                assert forall|a: int|
                    0 <= a < self.entries@.len() implies #[trigger] self.model@.contains_key(
                    self.entries@[a].0,
                ) && self.model@[self.entries@[a].0] == self.entries@[a].1 by {
                    if a != i {
                        assert(old(self).model@.contains_key(old(self).entries@[a].0));
                    }
                }
                assert forall|k: PeerAddress| #[trigger] self.model@.contains_key(k) implies exists|
                    j: int,
                | 0 <= j < self.entries@.len() && self.entries@[j].0 == k by {
                    assert(old(self).model@.contains_key(k));
                    let j = choose|j: int|
                        0 <= j < old(self).entries@.len() && old(self).entries@[j].0 == k;
                    assert(self.entries@[j].0 == k);
                }
            },
            None => {
                assert forall|a: int| 0 <= a < old(self).entries@.len() implies old(
                    self,
                ).entries@[a].0 != peer by {
                    assert(old(self).model@.contains_key(old(self).entries@[a].0));
                }
                self.entries.push((peer, connection));
                self.model = Ghost(self.model@.insert(peer, connection));
                assert forall|k: PeerAddress| #[trigger] self.model@.contains_key(k) implies exists|
                    j: int,
                | 0 <= j < self.entries@.len() && self.entries@[j].0 == k by {
                    if k == peer {
                        assert(self.entries@[self.entries@.len() - 1].0 == k);
                    } else {
                        assert(old(self).model@.contains_key(k));
                        let j = choose|j: int|
                            0 <= j < old(self).entries@.len() && old(self).entries@[j].0 == k;
                        assert(self.entries@[j].0 == k);
                    }
                }
                assert forall|i: int|
                    0 <= i < self.entries@.len() implies #[trigger] self.model@.contains_key(
                    self.entries@[i].0,
                ) && self.model@[self.entries@[i].0] == self.entries@[i].1 by {
                    if i < old(self).entries@.len() {
                        assert(old(self).model@.contains_key(old(self).entries@[i].0));
                    }
                }
            },
        }
    }

    /// A well-formed registry holds finitely many entries.
    pub proof fn lemma_finite(&self)
        requires
            self.wf(),
        ensures
            self@.dom().finite(),
    {
    }

    /// Drops the entry of `peer`, if there is one.
    pub fn remove(&mut self, peer: &PeerAddress)
        requires
            old(self).wf(),
        ensures
            final(self).wf(),
            final(self)@ == old(self)@.remove(*peer),
    {
        match self.find(peer) {
            Some(i) => {
                let ghost before = self.entries@;
                self.entries.remove(i);
                self.model = Ghost(self.model@.remove(*peer));
                assert(old(self).model@.contains_key(*peer));
                assert forall|k: PeerAddress| #[trigger] self.model@.contains_key(k) implies exists|
                    j: int,
                | 0 <= j < self.entries@.len() && self.entries@[j].0 == k by {
                    assert(old(self).model@.contains_key(k));
                    let j = choose|j: int| 0 <= j < before.len() && before[j].0 == k;
                    if j < i {
                        assert(self.entries@[j].0 == k);
                    } else {
                        assert(j != i);
                        assert(self.entries@[j - 1].0 == k);
                    }
                }
                assert forall|a: int|
                    0 <= a < self.entries@.len() implies #[trigger] self.model@.contains_key(
                    self.entries@[a].0,
                ) && self.model@[self.entries@[a].0] == self.entries@[a].1 by {
                    if a < i {
                        assert(old(self).model@.contains_key(before[a].0));
                        assert(before[a].0 != before[i as int].0);
                    } else {
                        assert(old(self).model@.contains_key(before[a + 1].0));
                        assert(before[a + 1].0 != before[i as int].0);
                    }
                }
                assert forall|a: int, b: int|
                    0 <= a < b < self.entries@.len() implies self.entries@[a].0
                    != self.entries@[b].0 by {
                    if a < i && b >= i {
                        assert(self.entries@[b] == before[b + 1]);
                    }
                }
            },
            None => {
                assert(self.model@.remove(*peer) =~= self.model@);
            },
        }
    }

    /// The connection registered for `peer`, if any.
    pub fn get(&self, peer: &PeerAddress) -> (r: Option<ConnectionId>)
        requires
            self.wf(),
        ensures
            r == (if self@.contains_key(*peer) {
                Some(self@[*peer])
            } else {
                None
            }),
    {
        match self.find(peer) {
            Some(i) => {
                proof {
                    assert(self.model@.contains_key(self.entries@[i as int].0));
                }
                Some(self.entries[i].1)
            },
            None => None,
        }
    }

    /// The number of live entries.
    pub fn len(&self) -> (r: usize)
        requires
            self.wf(),
        ensures
            r == self@.len(),
    {
        self.entries.len()
    }
}

} // verus!

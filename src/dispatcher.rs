use vstd::prelude::*;

use crate::config::NetworkConfiguration;
use crate::pool::ConnectionsPool;
use crate::types::{ConnectionId, NetworkEvent, NetworkRequest, PeerAddress};

verus! {

/// What the caller must do after a request has been dispatched.
#[derive(Clone, Debug, PartialEq, Eq)]
pub enum NetworkAction {
    /// Push the message onto the channel of this live outbound connection.
    Enqueue(ConnectionId, Vec<u8>),
    /// Open a channel for this new connection, start dialing the peer, and
    /// push the message onto the channel.
    Dial(PeerAddress, ConnectionId, Vec<u8>),
    /// Report this event to the application.
    Emit(NetworkEvent),
    /// Stop the network loop.
    Stop,
}

/// The identifier handed out after `id`.
pub open spec fn following(id: u64) -> u64 {
    if id == u64::MAX {
        0
    } else {
        (id + 1) as u64
    }
}

/// How one request changes the registry and the identifier counter, and
/// which action it asks for.
pub open spec fn dispatch(
    registry: Map<PeerAddress, ConnectionId>,
    next: u64,
    limit: usize,
    request: NetworkRequest,
) -> (Map<PeerAddress, ConnectionId>, u64, NetworkAction) {
    match request {
        NetworkRequest::SendMessage(peer, msg) => {
            if registry.contains_key(peer) {
                (registry, next, NetworkAction::Enqueue(registry[peer], msg))
            } else if registry.len() >= limit {
                (registry, next, NetworkAction::Emit(NetworkEvent::PeerDisconnected(peer)))
            } else {
                (registry.insert(peer, next), following(next), NetworkAction::Dial(peer, next, msg))
            }
        },
        NetworkRequest::DisconnectWithPeer(peer) => {
            (registry.remove(peer), next, NetworkAction::Emit(NetworkEvent::PeerDisconnected(peer)))
        },
        NetworkRequest::Shutdown => (registry, next, NetworkAction::Stop),
    }
}

/// Inbound admission: whether a new connection is kept, and the census after it.
pub open spec fn admission(census: nat, limit: usize) -> (nat, bool) {
    if census + 1 > limit {
        (census, false)
    } else {
        (census + 1, true)
    }
}

/// Messages to one peer share one channel: once a message to `peer` has been
/// accepted (the peer was registered, or the outbound limit left room), the
/// next message to `peer` is pushed onto the very same connection, so the two
/// leave in the order they were sent.
pub proof fn lemma_same_peer_same_channel(
    registry: Map<PeerAddress, ConnectionId>,
    next: u64,
    limit: usize,
    peer: PeerAddress,
    first: Vec<u8>,
    second: Vec<u8>,
)
    requires
        registry.contains_key(peer) || registry.len() < limit,
    ensures
        ({
            let (reg1, next1, act1) = dispatch(
                registry,
                next,
                limit,
                NetworkRequest::SendMessage(peer, first),
            );
            &&& reg1.contains_key(peer)
            &&& act1 == NetworkAction::Enqueue(reg1[peer], first) || act1 == NetworkAction::Dial(
                peer,
                reg1[peer],
                first,
            )
            &&& dispatch(reg1, next1, limit, NetworkRequest::SendMessage(peer, second)) == (
                reg1,
                next1,
                NetworkAction::Enqueue(reg1[peer], second),
            )
        }),
{
}

/// The registry never holds more entries than the outbound limit, and a
/// message that would break the limit is answered with `PeerDisconnected`
/// and leaves the registry as it was.
pub proof fn lemma_registry_bounded(
    registry: Map<PeerAddress, ConnectionId>,
    next: u64,
    limit: usize,
    request: NetworkRequest,
)
    requires
        registry.dom().finite(),
        registry.len() <= limit,
    ensures
        dispatch(registry, next, limit, request).0.dom().finite(),
        dispatch(registry, next, limit, request).0.len() <= limit,
        forall|peer: PeerAddress, msg: Vec<u8>|
            request == NetworkRequest::SendMessage(peer, msg) && !registry.contains_key(peer)
                && registry.len() >= limit ==> dispatch(registry, next, limit, request) == (
                registry,
                next,
                NetworkAction::Emit(NetworkEvent::PeerDisconnected(peer)),
            ),
{
}

/// The inbound census stays within the inbound limit: a connection that
/// would exceed it is refused and leaves the census as it was.
pub proof fn lemma_census_bounded(census: nat, limit: usize)
    requires
        census <= limit,
    ensures
        admission(census, limit).0 <= limit,
        census == limit ==> admission(census, limit) == (census, false),
        census < limit ==> admission(census, limit) == (census + 1, true),
{
}

/// Disconnecting from a peer that has no connection changes nothing and
/// reports `PeerDisconnected` for it once.
pub proof fn lemma_disconnect_absent_peer(
    registry: Map<PeerAddress, ConnectionId>,
    next: u64,
    limit: usize,
    peer: PeerAddress,
)
    requires
        !registry.contains_key(peer),
    ensures
        dispatch(registry, next, limit, NetworkRequest::DisconnectWithPeer(peer)) == (
            registry,
            next,
            NetworkAction::Emit(NetworkEvent::PeerDisconnected(peer)),
        ),
{
    assert(registry.remove(peer) =~= registry);
}

/// Shutdown stops the loop at once, whatever connections are live, and
/// touches none of them.
pub proof fn lemma_shutdown_stops(
    registry: Map<PeerAddress, ConnectionId>,
    next: u64,
    limit: usize,
)
    ensures
        dispatch(registry, next, limit, NetworkRequest::Shutdown) == (
            registry,
            next,
            NetworkAction::Stop,
        ),
{
}

/// The shared state of the network layer: the outbound registry, the census
/// of live inbound connections, and the configuration they are held to.
pub struct NetworkState {
    config: NetworkConfiguration,
    outgoing: ConnectionsPool,
    incoming: usize,
    next_connection: u64,
}

impl NetworkState {
    pub closed spec fn registry(&self) -> Map<PeerAddress, ConnectionId> {
        self.outgoing@
    }

    pub closed spec fn census(&self) -> nat {
        self.incoming as nat
    }

    pub closed spec fn limits(&self) -> NetworkConfiguration {
        self.config
    }

    pub closed spec fn next_id(&self) -> u64 {
        self.next_connection
    }

    pub closed spec fn pool_wf(&self) -> bool {
        self.outgoing.wf()
    }

    /// Both admission limits hold.
    pub open spec fn wf(&self) -> bool {
        &&& self.pool_wf()
        &&& self.registry().dom().finite()
        &&& self.registry().len() <= self.limits().max_outgoing_connections
        &&& self.census() <= self.limits().max_incoming_connections
    }

    pub fn new(config: NetworkConfiguration) -> (r: NetworkState)
        ensures
            r.wf(),
            r.limits() == config,
            r.registry() == Map::<PeerAddress, ConnectionId>::empty(),
            r.census() == 0,
            r.next_id() == 0,
    {
        NetworkState { config, outgoing: ConnectionsPool::new(), incoming: 0, next_connection: 0 }
    }

    /// Routes one request of the application: a message goes to the live
    /// connection of its peer, or opens a new one while the outbound limit
    /// allows, and is refused with `PeerDisconnected` otherwise.
    pub fn handle_request(&mut self, request: NetworkRequest) -> (r: NetworkAction)
        requires
            old(self).wf(),
        ensures
            final(self).wf(),
            (final(self).registry(), final(self).next_id(), r) == dispatch(
                old(self).registry(),
                old(self).next_id(),
                old(self).limits().max_outgoing_connections,
                request,
            ),
            final(self).limits() == old(self).limits(),
            final(self).census() == old(self).census(),
    {
        proof {
            self.outgoing.lemma_finite();
        }
        match request {
            NetworkRequest::SendMessage(peer, msg) => {
                match self.outgoing.get(&peer) {
                    Some(id) => NetworkAction::Enqueue(id, msg),
                    None => {
                        if self.outgoing.len() >= self.config.max_outgoing_connections {
                            NetworkAction::Emit(NetworkEvent::PeerDisconnected(peer))
                        } else {
                            let id = self.next_connection;
                            self.next_connection = if id == u64::MAX {
                                0
                            } else {
                                id + 1
                            };
                            self.outgoing.insert(peer, id);
                            proof {
                                self.outgoing.lemma_finite();
                            }
                            NetworkAction::Dial(peer, id, msg)
                        }
                    },
                }
            },
            NetworkRequest::DisconnectWithPeer(peer) => {
                self.outgoing.remove(&peer);
                proof {
                    self.outgoing.lemma_finite();
                }
                NetworkAction::Emit(NetworkEvent::PeerDisconnected(peer))
            },
            NetworkRequest::Shutdown => NetworkAction::Stop,
        }
    }

    /// Takes a newly accepted inbound connection into the census, unless
    /// that would exceed the inbound limit; returns whether it was kept.
    pub fn accept_incoming(&mut self) -> (r: bool)
        requires
            old(self).wf(),
        ensures
            final(self).wf(),
            (final(self).census(), r) == admission(
                old(self).census(),
                old(self).limits().max_incoming_connections,
            ),
            final(self).registry() == old(self).registry(),
            final(self).next_id() == old(self).next_id(),
            final(self).limits() == old(self).limits(),
    {
        if self.incoming >= self.config.max_incoming_connections {
            false
        } else {
            self.incoming = self.incoming + 1;
            true
        }
    }

    /// Releases the census slot of an inbound connection that has ended.
    pub fn incoming_closed(&mut self)
        requires
            old(self).wf(),
            old(self).census() > 0,
        ensures
            final(self).wf(),
            final(self).census() == old(self).census() - 1,
            final(self).registry() == old(self).registry(),
            final(self).next_id() == old(self).next_id(),
            final(self).limits() == old(self).limits(),
    {
        self.incoming = self.incoming - 1;
    }

    /// Tears down the registry entry of an outbound connection that has
    /// ended, and gives the event that reports it.
    pub fn outgoing_closed(&mut self, peer: PeerAddress) -> (r: NetworkEvent)
        requires
            old(self).wf(),
        ensures
            final(self).wf(),
            final(self).registry() == old(self).registry().remove(peer),
            r == NetworkEvent::PeerDisconnected(peer),
            final(self).census() == old(self).census(),
            final(self).next_id() == old(self).next_id(),
            final(self).limits() == old(self).limits(),
    {
        proof {
            self.outgoing.lemma_finite();
        }
        self.outgoing.remove(&peer);
        proof {
            self.outgoing.lemma_finite();
        }
        NetworkEvent::PeerDisconnected(peer)
    }

    /// The connection registered for `peer`, if any.
    pub fn connection_of(&self, peer: &PeerAddress) -> (r: Option<ConnectionId>)
        requires
            self.wf(),
        ensures
            r == (if self.registry().contains_key(*peer) {
                Some(self.registry()[*peer])
            } else {
                None
            }),
    {
        self.outgoing.get(peer)
    }

    /// The number of live outbound connections.
    pub fn outgoing_count(&self) -> (r: usize)
        requires
            self.wf(),
        ensures
            r == self.registry().len(),
    {
        self.outgoing.len()
    }

    /// The number of live inbound connections.
    pub fn incoming_count(&self) -> (r: usize)
        ensures
            r == self.census(),
    {
        self.incoming
    }

    pub fn configuration(&self) -> (r: NetworkConfiguration)
        ensures
            r == self.limits(),
    {
        self.config
    }
}

} // verus!

use vstd::prelude::*;

verus! {

/// A remote endpoint: an IPv4 or IPv6 address together with a port.
#[derive(Clone, Copy, Debug, PartialEq, Eq, Hash, Structural)]
pub enum PeerAddress {
    V4(u32, u16),
    V6(u128, u16),
}

/// Identifies one outbound connection attempt; a fresh one is handed out
/// for every new dial.
pub type ConnectionId = u64;

/// What the network layer reports to the application.
#[derive(Clone, Debug, PartialEq, Eq)]
pub enum NetworkEvent {
    MessageReceived(PeerAddress, Vec<u8>),
    PeerConnected(PeerAddress, Vec<u8>),
    PeerDisconnected(PeerAddress),
}

/// What the application asks of the network layer.
#[derive(Clone, Debug, PartialEq, Eq)]
pub enum NetworkRequest {
    SendMessage(PeerAddress, Vec<u8>),
    DisconnectWithPeer(PeerAddress),
    Shutdown,
}

} // verus!

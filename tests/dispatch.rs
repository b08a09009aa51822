use peer_network::config::NetworkConfiguration;
use peer_network::dispatcher::{NetworkAction, NetworkState};
use peer_network::pool::ConnectionsPool;
use peer_network::types::{NetworkEvent, NetworkRequest, PeerAddress};

fn peer(n: u32) -> PeerAddress {
    PeerAddress::V4(0x7f00_0001, 2000 + n as u16)
}

fn config(max_in: usize, max_out: usize) -> NetworkConfiguration {
    NetworkConfiguration {
        max_incoming_connections: max_in,
        max_outgoing_connections: max_out,
        ..NetworkConfiguration::default()
    }
}

#[test]
fn default_configuration() {
    let c = NetworkConfiguration::default();
    assert_eq!(c.max_incoming_connections, 128);
    assert_eq!(c.max_outgoing_connections, 128);
    assert!(!c.tcp_nodelay);
    assert_eq!(c.tcp_keep_alive, None);
    assert_eq!(c.tcp_connect_retry_timeout, 15_000);
    assert_eq!(c.tcp_connect_max_retries, 10);
}

#[test]
fn pool_insert_get_remove() {
    let mut pool = ConnectionsPool::new();
    assert_eq!(pool.len(), 0);
    assert_eq!(pool.get(&peer(1)), None);
    pool.insert(peer(1), 7);
    pool.insert(peer(2), 8);
    assert_eq!(pool.len(), 2);
    assert_eq!(pool.get(&peer(1)), Some(7));
    assert_eq!(pool.get(&peer(2)), Some(8));
    pool.insert(peer(1), 9);
    assert_eq!(pool.len(), 2);
    assert_eq!(pool.get(&peer(1)), Some(9));
    pool.remove(&peer(1));
    assert_eq!(pool.len(), 1);
    assert_eq!(pool.get(&peer(1)), None);
    assert_eq!(pool.get(&peer(2)), Some(8));
    pool.remove(&peer(1));
    assert_eq!(pool.len(), 1);
}

#[test]
fn pool_tells_v4_from_v6() {
    let mut pool = ConnectionsPool::new();
    pool.insert(PeerAddress::V4(1, 80), 1);
    pool.insert(PeerAddress::V6(1, 80), 2);
    assert_eq!(pool.len(), 2);
    assert_eq!(pool.get(&PeerAddress::V4(1, 80)), Some(1));
    assert_eq!(pool.get(&PeerAddress::V6(1, 80)), Some(2));
    assert_eq!(pool.get(&PeerAddress::V4(1, 81)), None);
}

#[test]
fn second_peer_rejected_at_limit_of_one() {
    let mut state = NetworkState::new(config(128, 1));
    let a = state.handle_request(NetworkRequest::SendMessage(peer(1), b"x".to_vec()));
    assert_eq!(a, NetworkAction::Dial(peer(1), 0, b"x".to_vec()));
    let b = state.handle_request(NetworkRequest::SendMessage(peer(2), b"y".to_vec()));
    assert_eq!(b, NetworkAction::Emit(NetworkEvent::PeerDisconnected(peer(2))));
    assert_eq!(state.connection_of(&peer(2)), None);
    assert_eq!(state.connection_of(&peer(1)), Some(0));
    assert_eq!(state.outgoing_count(), 1);
    let c = state.handle_request(NetworkRequest::SendMessage(peer(1), b"z".to_vec()));
    assert_eq!(c, NetworkAction::Enqueue(0, b"z".to_vec()));
}

#[test]
fn messages_to_one_peer_share_a_connection() {
    let mut state = NetworkState::new(config(128, 128));
    let first = state.handle_request(NetworkRequest::SendMessage(peer(3), vec![1]));
    assert_eq!(first, NetworkAction::Dial(peer(3), 0, vec![1]));
    let other = state.handle_request(NetworkRequest::SendMessage(peer(4), vec![9]));
    assert_eq!(other, NetworkAction::Dial(peer(4), 1, vec![9]));
    for i in 2u8..6 {
        let r = state.handle_request(NetworkRequest::SendMessage(peer(3), vec![i]));
        assert_eq!(r, NetworkAction::Enqueue(0, vec![i]));
    }
    assert_eq!(state.outgoing_count(), 2);
}

#[test]
fn registry_never_exceeds_outgoing_limit() {
    let mut state = NetworkState::new(config(128, 3));
    for n in 0..10u32 {
        let r = state.handle_request(NetworkRequest::SendMessage(peer(n), vec![]));
        if n < 3 {
            assert_eq!(r, NetworkAction::Dial(peer(n), n as u64, vec![]));
        } else {
            assert_eq!(r, NetworkAction::Emit(NetworkEvent::PeerDisconnected(peer(n))));
        }
        assert!(state.outgoing_count() <= 3);
    }
    assert_eq!(state.outgoing_count(), 3);
}

#[test]
fn zero_outgoing_limit_rejects_every_peer() {
    let mut state = NetworkState::new(config(128, 0));
    let r = state.handle_request(NetworkRequest::SendMessage(peer(1), vec![5]));
    assert_eq!(r, NetworkAction::Emit(NetworkEvent::PeerDisconnected(peer(1))));
    assert_eq!(state.outgoing_count(), 0);
}

#[test]
fn disconnect_without_connection_only_reports() {
    let mut state = NetworkState::new(config(128, 128));
    state.handle_request(NetworkRequest::SendMessage(peer(1), vec![]));
    let r = state.handle_request(NetworkRequest::DisconnectWithPeer(peer(2)));
    assert_eq!(r, NetworkAction::Emit(NetworkEvent::PeerDisconnected(peer(2))));
    assert_eq!(state.outgoing_count(), 1);
    assert_eq!(state.connection_of(&peer(1)), Some(0));
}

#[test]
fn disconnect_removes_connection_and_frees_a_slot() {
    let mut state = NetworkState::new(config(128, 1));
    state.handle_request(NetworkRequest::SendMessage(peer(1), vec![]));
    let r = state.handle_request(NetworkRequest::DisconnectWithPeer(peer(1)));
    assert_eq!(r, NetworkAction::Emit(NetworkEvent::PeerDisconnected(peer(1))));
    assert_eq!(state.outgoing_count(), 0);
    let again = state.handle_request(NetworkRequest::SendMessage(peer(2), vec![4]));
    assert_eq!(again, NetworkAction::Dial(peer(2), 1, vec![4]));
}

#[test]
fn shutdown_stops_with_connections_live() {
    let mut state = NetworkState::new(config(128, 128));
    for n in 0..3u32 {
        state.handle_request(NetworkRequest::SendMessage(peer(n), vec![]));
    }
    let r = state.handle_request(NetworkRequest::Shutdown);
    assert_eq!(r, NetworkAction::Stop);
    assert_eq!(state.outgoing_count(), 3);
}

#[test]
fn inbound_census_bounded() {
    let mut state = NetworkState::new(config(2, 128));
    assert!(state.accept_incoming());
    assert!(state.accept_incoming());
    assert!(!state.accept_incoming());
    assert_eq!(state.incoming_count(), 2);
    assert!(!state.accept_incoming());
    assert_eq!(state.incoming_count(), 2);
    state.incoming_closed();
    assert_eq!(state.incoming_count(), 1);
    assert!(state.accept_incoming());
    assert_eq!(state.incoming_count(), 2);
}

#[test]
fn zero_incoming_limit_refuses_all() {
    let mut state = NetworkState::new(config(0, 128));
    assert!(!state.accept_incoming());
    assert_eq!(state.incoming_count(), 0);
}

#[test]
fn outgoing_teardown_reports_and_removes() {
    let mut state = NetworkState::new(config(128, 128));
    state.handle_request(NetworkRequest::SendMessage(peer(1), vec![]));
    let e = state.outgoing_closed(peer(1));
    assert_eq!(e, NetworkEvent::PeerDisconnected(peer(1)));
    assert_eq!(state.connection_of(&peer(1)), None);
    assert_eq!(state.outgoing_count(), 0);
}

#[test]
fn configuration_is_kept() {
    let c = config(5, 6);
    let state = NetworkState::new(c);
    assert_eq!(state.configuration(), c);
}

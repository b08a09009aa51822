use vstd::prelude::*;

verus! {

/// Limits and socket options of the network layer, fixed at start-up.
#[derive(Clone, Copy, Debug, PartialEq, Eq)]
pub struct NetworkConfiguration {
    pub max_incoming_connections: usize,
    pub max_outgoing_connections: usize,
    pub tcp_nodelay: bool,
    /// Keep-alive interval in milliseconds, or `None` to leave it off.
    pub tcp_keep_alive: Option<u64>,
    /// Base interval between two dial attempts, in milliseconds.
    pub tcp_connect_retry_timeout: u64,
    pub tcp_connect_max_retries: u64,
}

impl Default for NetworkConfiguration {
    fn default() -> (r: NetworkConfiguration)
        ensures
            r.max_incoming_connections == 128,
            r.max_outgoing_connections == 128,
            r.tcp_keep_alive.is_none(),
            !r.tcp_nodelay,
            r.tcp_connect_retry_timeout == 15_000,
            r.tcp_connect_max_retries == 10,
    {
        NetworkConfiguration {
            max_incoming_connections: 128,
            max_outgoing_connections: 128,
            tcp_keep_alive: None,
            tcp_nodelay: false,
            tcp_connect_retry_timeout: 15_000,
            tcp_connect_max_retries: 10,
        }
    }
}

} // verus!

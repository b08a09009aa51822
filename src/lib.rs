//! Decision core of a peer-to-peer transport: admission control, the
//! outbound connection registry, request dispatch and the per-connection
//! state machines. Sockets, channels and timers are driven by the caller,
//! which feeds events in and performs the actions handed back.

pub mod config;
pub mod types;
pub mod pool;
pub mod dispatcher;
pub mod outbound;
pub mod inbound;

use vstd::prelude::*;

use crate::config::NetworkConfiguration;
use crate::types::{ConnectionId, PeerAddress};

verus! {

/// Intervals up to this many milliseconds pass through the jitter's floating
/// point arithmetic without rounding up.
pub const EXACT_MILLIS: u64 = 9_007_199_254_740_992;

/// Relies on tokio_retry::strategy::jitter: it scales the interval by a
/// random factor in `[0, 1]` and truncates to whole milliseconds, so below
/// `EXACT_MILLIS` the delay never exceeds the interval.
#[verifier::external_body]
fn jittered(base_ms: u64) -> (r: u64)
    ensures
        base_ms <= EXACT_MILLIS ==> r <= base_ms,
{
    tokio_retry::strategy::jitter(std::time::Duration::from_millis(base_ms)).as_millis() as u64
}

/// Where an outbound connection stands.
#[derive(Clone, Copy, Debug, PartialEq, Eq, Structural)]
pub enum OutboundPhase {
    /// A dial is in flight.
    Connecting,
    /// The last dial failed; the retry timer runs.
    Waiting,
    /// The socket is up and both halves are pumping.
    Established,
    /// The connection is over and has been torn down.
    Closed,
}

/// What the caller observed on an outbound connection.
#[derive(Clone, Copy, Debug, PartialEq, Eq, Structural)]
pub enum OutboundEvent {
    DialFailed,
    RetryTimerFired,
    DialSucceeded,
    /// Setting a socket option, or the retry timer, failed.
    Failed,
    ReaderFinished,
    WriterFinished,
}

/// What the caller must do next on an outbound connection.
#[derive(Clone, Copy, Debug, PartialEq, Eq, Structural)]
pub enum OutboundAction {
    /// Start the retry timer with this delay in milliseconds.
    Wait(u64),
    /// Dial the peer again.
    Dial,
    /// Apply `TCP_NODELAY` and the keep-alive interval, then pump.
    Configure(bool, Option<u64>),
    /// Remove the peer from the registry and report `PeerDisconnected`.
    Teardown,
    Nothing,
}

/// One outbound connection, from its first dial to its teardown.
#[derive(Clone, Copy, Debug, PartialEq, Eq)]
pub struct OutboundConnection {
    pub peer: PeerAddress,
    pub connection: ConnectionId,
    pub phase: OutboundPhase,
    /// Dial failures that may still be retried.
    pub retries_left: u64,
    pub retry_interval: u64,
    pub nodelay: bool,
    pub keep_alive: Option<u64>,
}

/// One transition of an outbound connection; `delay` is the jittered wait
/// used when a failed dial is retried.
pub open spec fn outbound_step(s: OutboundConnection, event: OutboundEvent, delay: u64) -> (
    OutboundConnection,
    OutboundAction,
) {
    match (s.phase, event) {
        (OutboundPhase::Closed, _) => (s, OutboundAction::Nothing),
        (_, OutboundEvent::Failed) => (
            OutboundConnection { phase: OutboundPhase::Closed, ..s },
            OutboundAction::Teardown,
        ),
        (OutboundPhase::Connecting, OutboundEvent::DialFailed) => {
            if s.retries_left > 0 {
                (
                    OutboundConnection {
                        phase: OutboundPhase::Waiting,
                        retries_left: (s.retries_left - 1) as u64,
                        ..s
                    },
                    OutboundAction::Wait(delay),
                )
            } else {
                (OutboundConnection { phase: OutboundPhase::Closed, ..s }, OutboundAction::Teardown)
            }
        },
        (OutboundPhase::Connecting, OutboundEvent::DialSucceeded) => (
            OutboundConnection { phase: OutboundPhase::Established, ..s },
            OutboundAction::Configure(s.nodelay, s.keep_alive),
        ),
        (OutboundPhase::Waiting, OutboundEvent::RetryTimerFired) => (
            OutboundConnection { phase: OutboundPhase::Connecting, ..s },
            OutboundAction::Dial,
        ),
        (OutboundPhase::Established, OutboundEvent::ReaderFinished) => (
            OutboundConnection { phase: OutboundPhase::Closed, ..s },
            OutboundAction::Teardown,
        ),
        (OutboundPhase::Established, OutboundEvent::WriterFinished) => (
            OutboundConnection { phase: OutboundPhase::Closed, ..s },
            OutboundAction::Teardown,
        ),
        _ => (s, OutboundAction::Nothing),
    }
}

/// The state reached and the actions asked for along a run of events, each
/// with the delay that a retried dial would use.
pub open spec fn outbound_run(s: OutboundConnection, events: Seq<(OutboundEvent, u64)>) -> (
    OutboundConnection,
    Seq<OutboundAction>,
)
    decreases events.len(),
{
    if events.len() == 0 {
        (s, Seq::empty())
    } else {
        let (next, action) = outbound_step(s, events[0].0, events[0].1);
        let (end, actions) = outbound_run(next, events.drop_first());
        (end, seq![action] + actions)
    }
}

/// One failed dial per delay, each followed by its retry timer.
pub open spec fn failed_dials(delays: Seq<u64>) -> Seq<(OutboundEvent, u64)>
    decreases delays.len(),
{
    if delays.len() == 0 {
        Seq::empty()
    } else {
        seq![(OutboundEvent::DialFailed, delays[0]), (OutboundEvent::RetryTimerFired, 0u64)]
            + failed_dials(delays.drop_first())
    }
}

/// A wait for each delay, each followed by a new dial.
pub open spec fn backoff_actions(delays: Seq<u64>) -> Seq<OutboundAction>
    decreases delays.len(),
{
    if delays.len() == 0 {
        Seq::empty()
    } else {
        seq![OutboundAction::Wait(delays[0]), OutboundAction::Dial] + backoff_actions(
            delays.drop_first(),
        )
    }
}

proof fn lemma_failed_dials_prefix(
    s: OutboundConnection,
    delays: Seq<u64>,
    rest: Seq<(OutboundEvent, u64)>,
)
    requires
        s.phase == OutboundPhase::Connecting,
        delays.len() <= s.retries_left,
    ensures
        ({
            let after = OutboundConnection {
                retries_left: (s.retries_left - delays.len()) as u64,
                ..s
            };
            outbound_run(s, failed_dials(delays) + rest) == (
                outbound_run(after, rest).0,
                backoff_actions(delays) + outbound_run(after, rest).1,
            )
        }),
    decreases delays.len(),
{
    if delays.len() == 0 {
        assert(failed_dials(delays) + rest =~= rest);
        assert(backoff_actions(delays) + outbound_run(s, rest).1 =~= outbound_run(s, rest).1);
        assert(OutboundConnection { retries_left: (s.retries_left - delays.len()) as u64, ..s }
            == s);
    } else {
        let tail = delays.drop_first();
        let evs = failed_dials(delays) + rest;
        let s1 = OutboundConnection {
            phase: OutboundPhase::Waiting,
            retries_left: (s.retries_left - 1) as u64,
            ..s
        };
        let s2 = OutboundConnection { phase: OutboundPhase::Connecting, ..s1 };
        assert(evs[0] == (OutboundEvent::DialFailed, delays[0]));
        assert(evs.drop_first()[0] == (OutboundEvent::RetryTimerFired, 0u64));
        assert(evs.drop_first().drop_first() =~= failed_dials(tail) + rest);
        assert(outbound_step(s, OutboundEvent::DialFailed, delays[0]) == (
            s1,
            OutboundAction::Wait(delays[0]),
        ));
        assert(outbound_step(s1, OutboundEvent::RetryTimerFired, 0u64) == (
            s2,
            OutboundAction::Dial,
        ));
        lemma_failed_dials_prefix(s2, tail, rest);
        let after = OutboundConnection {
            retries_left: (s.retries_left - delays.len()) as u64,
            ..s
        };
        assert(OutboundConnection { retries_left: (s2.retries_left - tail.len()) as u64, ..s2 }
            == after);
        let inner = outbound_run(s2, failed_dials(tail) + rest);
        assert(outbound_run(s1, evs.drop_first()) == (inner.0, seq![OutboundAction::Dial]
            + inner.1));
        assert(outbound_run(s, evs) == (inner.0, seq![OutboundAction::Wait(delays[0])] + (seq![
            OutboundAction::Dial,
        ] + inner.1)));
        assert(backoff_actions(delays) == seq![OutboundAction::Wait(delays[0]), OutboundAction::Dial]
            + backoff_actions(tail));
        assert(seq![OutboundAction::Wait(delays[0])] + (seq![OutboundAction::Dial] + (
        backoff_actions(tail) + outbound_run(after, rest).1)) =~= backoff_actions(delays)
            + outbound_run(after, rest).1);
    }
}

/// A dial that fails `delays.len()` times, within the retry budget, and then
/// succeeds ends established: the caller has waited exactly those delays,
/// redialled after each, and is asked to configure the socket.
pub proof fn lemma_retries_then_success(s: OutboundConnection, delays: Seq<u64>)
    requires
        s.phase == OutboundPhase::Connecting,
        delays.len() <= s.retries_left,
    ensures
        outbound_run(s, failed_dials(delays).push((OutboundEvent::DialSucceeded, 0u64))) == (
            OutboundConnection {
                phase: OutboundPhase::Established,
                retries_left: (s.retries_left - delays.len()) as u64,
                ..s
            },
            backoff_actions(delays).push(OutboundAction::Configure(s.nodelay, s.keep_alive)),
        ),
{
    let rest = seq![(OutboundEvent::DialSucceeded, 0u64)];
    assert(failed_dials(delays).push((OutboundEvent::DialSucceeded, 0u64)) =~= failed_dials(
        delays,
    ) + rest);
    lemma_failed_dials_prefix(s, delays, rest);
    let after = OutboundConnection { retries_left: (s.retries_left - delays.len()) as u64, ..s };
    assert(rest.len() == 1 && rest[0] == (OutboundEvent::DialSucceeded, 0u64));
    assert(rest.drop_first() =~= Seq::<(OutboundEvent, u64)>::empty());
    let est = OutboundConnection { phase: OutboundPhase::Established, ..after };
    assert(outbound_run(est, rest.drop_first()) == (est, Seq::<OutboundAction>::empty()));
    assert(outbound_step(after, OutboundEvent::DialSucceeded, 0u64) == (
        OutboundConnection { phase: OutboundPhase::Established, ..after },
        OutboundAction::Configure(s.nodelay, s.keep_alive),
    ));
    assert(outbound_run(after, rest) == (
        OutboundConnection { phase: OutboundPhase::Established, ..after },
        seq![OutboundAction::Configure(s.nodelay, s.keep_alive)] + Seq::<OutboundAction>::empty(),
    ));
    assert(backoff_actions(delays) + seq![OutboundAction::Configure(s.nodelay, s.keep_alive)]
        =~= backoff_actions(delays).push(OutboundAction::Configure(s.nodelay, s.keep_alive)));
    assert(seq![OutboundAction::Configure(s.nodelay, s.keep_alive)] + Seq::<
        OutboundAction,
    >::empty() =~= seq![OutboundAction::Configure(s.nodelay, s.keep_alive)]);
}

/// A closed connection stays closed and asks for nothing more.
pub proof fn lemma_closed_is_final(s: OutboundConnection, events: Seq<(OutboundEvent, u64)>)
    requires
        s.phase == OutboundPhase::Closed,
    ensures
        outbound_run(s, events).0 == s,
        outbound_run(s, events).1.len() == events.len(),
        forall|i: int|
            0 <= i < events.len() ==> #[trigger] outbound_run(s, events).1[i]
                == OutboundAction::Nothing,
    decreases events.len(),
{
    if events.len() > 0 {
        lemma_closed_is_final(s, events.drop_first());
        let acts = outbound_run(s, events).1;
        assert forall|i: int| 0 <= i < events.len() implies #[trigger] acts[i]
            == OutboundAction::Nothing by {
            if i > 0 {
                assert(acts[i] == outbound_run(s, events.drop_first()).1[i - 1]);
            }
        }
    }
}

/// When one half of an established connection finishes, the connection is
/// torn down exactly once, whatever the other half does afterwards.
pub proof fn lemma_half_close_tears_down_once(
    s: OutboundConnection,
    half: OutboundEvent,
    events: Seq<(OutboundEvent, u64)>,
)
    requires
        s.phase == OutboundPhase::Established,
        half == OutboundEvent::WriterFinished || half == OutboundEvent::ReaderFinished,
    ensures
        ({
            let (end, actions) = outbound_run(s, seq![(half, 0u64)] + events);
            &&& end.phase == OutboundPhase::Closed
            &&& actions.len() == events.len() + 1
            &&& actions[0] == OutboundAction::Teardown
            &&& forall|i: int| 1 <= i < actions.len() ==> #[trigger] actions[i]
                == OutboundAction::Nothing
        }),
{
    let evs = seq![(half, 0u64)] + events;
    let closed = OutboundConnection { phase: OutboundPhase::Closed, ..s };
    assert(evs.drop_first() =~= events);
    lemma_closed_is_final(closed, events);
    let actions = outbound_run(s, evs).1;
    assert forall|i: int| 1 <= i < actions.len() implies #[trigger] actions[i]
        == OutboundAction::Nothing by {
        assert(actions[i] == outbound_run(closed, events).1[i - 1]);
    }
}

impl OutboundConnection {
    /// A connection whose first dial is about to start, with the retry
    /// budget and socket options of `config`.
    pub fn new(peer: PeerAddress, connection: ConnectionId, config: &NetworkConfiguration) -> (r:
        OutboundConnection)
        ensures
            r.peer == peer,
            r.connection == connection,
            r.phase == OutboundPhase::Connecting,
            r.retries_left == config.tcp_connect_max_retries,
            r.retry_interval == config.tcp_connect_retry_timeout,
            r.nodelay == config.tcp_nodelay,
            r.keep_alive == config.tcp_keep_alive,
    {
        OutboundConnection {
            peer,
            connection,
            phase: OutboundPhase::Connecting,
            retries_left: config.tcp_connect_max_retries,
            retry_interval: config.tcp_connect_retry_timeout,
            nodelay: config.tcp_nodelay,
            keep_alive: config.tcp_keep_alive,
        }
    }

    /// Applies `event`, using `delay` as the wait before a retried dial.
    pub fn handle_with_delay(&mut self, event: OutboundEvent, delay: u64) -> (r: OutboundAction)
        ensures
            (*final(self), r) == outbound_step(*old(self), event, delay),
    {
        match (self.phase, event) {
            (OutboundPhase::Closed, _) => OutboundAction::Nothing,
            (_, OutboundEvent::Failed) => {
                self.phase = OutboundPhase::Closed;
                OutboundAction::Teardown
            },
            (OutboundPhase::Connecting, OutboundEvent::DialFailed) => {
                if self.retries_left > 0 {
                    self.phase = OutboundPhase::Waiting;
                    self.retries_left = self.retries_left - 1;
                    OutboundAction::Wait(delay)
                } else {
                    self.phase = OutboundPhase::Closed;
                    OutboundAction::Teardown
                }
            },
            (OutboundPhase::Connecting, OutboundEvent::DialSucceeded) => {
                self.phase = OutboundPhase::Established;
                OutboundAction::Configure(self.nodelay, self.keep_alive)
            },
            (OutboundPhase::Waiting, OutboundEvent::RetryTimerFired) => {
                self.phase = OutboundPhase::Connecting;
                OutboundAction::Dial
            },
            (OutboundPhase::Established, OutboundEvent::ReaderFinished) => {
                self.phase = OutboundPhase::Closed;
                OutboundAction::Teardown
            },
            (OutboundPhase::Established, OutboundEvent::WriterFinished) => {
                self.phase = OutboundPhase::Closed;
                OutboundAction::Teardown
            },
            _ => OutboundAction::Nothing,
        }
    }

    /// Applies `event`; a failed dial that may be retried waits a jittered
    /// delay of at most the retry interval.
    pub fn handle(&mut self, event: OutboundEvent) -> (r: OutboundAction)
        ensures
            exists|delay: u64|
                (old(self).retry_interval <= EXACT_MILLIS ==> delay <= old(self).retry_interval)
                    && (*final(self), r) == outbound_step(*old(self), event, delay),
    {
        let delay: u64 = match event {
            OutboundEvent::DialFailed => jittered(self.retry_interval),
            _ => 0,
        };
        self.handle_with_delay(event, delay)
    }

    pub fn is_closed(&self) -> (r: bool)
        ensures
            r == (self.phase == OutboundPhase::Closed),
    {
        self.phase == OutboundPhase::Closed
    }
}

} // verus!

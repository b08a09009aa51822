use vstd::prelude::*;

use crate::types::{NetworkEvent, PeerAddress};

verus! {

/// Where an accepted inbound connection stands.
#[derive(Clone, Copy, Debug, PartialEq, Eq, Structural)]
pub enum InboundPhase {
    /// Nothing has been read yet; the first frame must be a handshake.
    AwaitingHandshake,
    /// The handshake was announced; frames are relayed.
    Relaying,
    /// The connection is over; the socket is dropped.
    Closed,
}

/// What the caller read from an inbound socket.
#[derive(Clone, Debug, PartialEq, Eq)]
pub enum InboundFrame {
    /// A frame that decodes to the handshake message.
    Handshake(Vec<u8>),
    /// Any other frame.
    Message(Vec<u8>),
    /// A frame that could not be decoded, or a read error.
    Malformed,
    /// The stream ended.
    End,
}

/// One accepted inbound connection.
#[derive(Clone, Copy, Debug, PartialEq, Eq)]
pub struct InboundConnection {
    pub peer: PeerAddress,
    pub phase: InboundPhase,
}

/// One transition of an inbound connection, with the event it reports.
pub open spec fn inbound_step(s: InboundConnection, frame: InboundFrame) -> (
    InboundConnection,
    Option<NetworkEvent>,
) {
    match s.phase {
        InboundPhase::AwaitingHandshake => match frame {
            InboundFrame::Handshake(payload) => (
                InboundConnection { phase: InboundPhase::Relaying, ..s },
                Some(NetworkEvent::PeerConnected(s.peer, payload)),
            ),
            _ => (InboundConnection { phase: InboundPhase::Closed, ..s }, None),
        },
        InboundPhase::Relaying => match frame {
            InboundFrame::Handshake(payload) => (
                s,
                Some(NetworkEvent::MessageReceived(s.peer, payload)),
            ),
            InboundFrame::Message(payload) => (
                s,
                Some(NetworkEvent::MessageReceived(s.peer, payload)),
            ),
            _ => (InboundConnection { phase: InboundPhase::Closed, ..s }, None),
        },
        InboundPhase::Closed => (s, None),
    }
}

/// The state reached and the events reported along a run of frames.
pub open spec fn inbound_run(s: InboundConnection, frames: Seq<InboundFrame>) -> (
    InboundConnection,
    Seq<Option<NetworkEvent>>,
)
    decreases frames.len(),
{
    if frames.len() == 0 {
        (s, Seq::empty())
    } else {
        let (next, event) = inbound_step(s, frames[0]);
        let (end, events) = inbound_run(next, frames.drop_first());
        (end, seq![event] + events)
    }
}

/// A closed inbound connection reports nothing more.
pub proof fn lemma_inbound_closed_is_silent(s: InboundConnection, frames: Seq<InboundFrame>)
    requires
        s.phase == InboundPhase::Closed,
    ensures
        inbound_run(s, frames).0 == s,
        inbound_run(s, frames).1.len() == frames.len(),
        forall|i: int| 0 <= i < frames.len() ==> #[trigger] inbound_run(s, frames).1[i].is_none(),
    decreases frames.len(),
{
    if frames.len() > 0 {
        lemma_inbound_closed_is_silent(s, frames.drop_first());
        let events = inbound_run(s, frames).1;
        assert forall|i: int| 0 <= i < frames.len() implies #[trigger] events[i].is_none() by {
            if i > 0 {
                assert(events[i] == inbound_run(s, frames.drop_first()).1[i - 1]);
            }
        }
    }
}

/// A connection whose first frame is not a handshake is closed at once and
/// never reports an event, whatever arrives after it.
pub proof fn lemma_bad_handshake_is_silent(
    s: InboundConnection,
    first: InboundFrame,
    rest: Seq<InboundFrame>,
)
    requires
        s.phase == InboundPhase::AwaitingHandshake,
        !(first is Handshake),
    ensures
        ({
            let (end, events) = inbound_run(s, seq![first] + rest);
            &&& end.phase == InboundPhase::Closed
            &&& events.len() == rest.len() + 1
            &&& forall|i: int| 0 <= i < events.len() ==> #[trigger] events[i].is_none()
        }),
{
    let frames = seq![first] + rest;
    let closed = InboundConnection { phase: InboundPhase::Closed, ..s };
    assert(frames[0] == first);
    assert(frames.drop_first() =~= rest);
    lemma_inbound_closed_is_silent(closed, rest);
    let events = inbound_run(s, frames).1;
    assert forall|i: int| 0 <= i < events.len() implies #[trigger] events[i].is_none() by {
        if i > 0 {
            assert(events[i] == inbound_run(closed, rest).1[i - 1]);
        }
    }
}

impl InboundConnection {
    /// A connection just accepted from `peer`, awaiting its handshake.
    pub fn new(peer: PeerAddress) -> (r: InboundConnection)
        ensures
            r.peer == peer,
            r.phase == InboundPhase::AwaitingHandshake,
    {
        InboundConnection { peer, phase: InboundPhase::AwaitingHandshake }
    }

    /// Takes the next frame read from the socket and gives the event to
    /// report, if any: the handshake is announced as `PeerConnected`, later
    /// frames as `MessageReceived`, and anything else closes the connection.
    pub fn on_frame(&mut self, frame: InboundFrame) -> (r: Option<NetworkEvent>)
        ensures
            (*final(self), r) == inbound_step(*old(self), frame),
    {
        match self.phase {
            InboundPhase::AwaitingHandshake => match frame {
                InboundFrame::Handshake(payload) => {
                    self.phase = InboundPhase::Relaying;
                    Some(NetworkEvent::PeerConnected(self.peer, payload))
                },
                _ => {
                    self.phase = InboundPhase::Closed;
                    None
                },
            },
            InboundPhase::Relaying => match frame {
                InboundFrame::Handshake(payload) => Some(
                    NetworkEvent::MessageReceived(self.peer, payload),
                ),
                InboundFrame::Message(payload) => Some(
                    NetworkEvent::MessageReceived(self.peer, payload),
                ),
                _ => {
                    self.phase = InboundPhase::Closed;
                    None
                },
            },
            InboundPhase::Closed => None,
        }
    }

    pub fn is_closed(&self) -> (r: bool)
        ensures
            r == (self.phase == InboundPhase::Closed),
    {
        self.phase == InboundPhase::Closed
    }
}

} // verus!

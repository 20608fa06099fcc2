//! The rules of one exchange, stated over plain values.
//!
//! An exchange passes through five phases. In each but the last it waits for
//! the host to carry out one action and to report what came of it:
//!
//! | phase        | the host is asked to                   |
//! |--------------|----------------------------------------|
//! | `Opening`    | open and configure the endpoint        |
//! | `Configured` | write the command in one piece         |
//! | `Sent`       | read, the reply has not begun          |
//! | `Draining`   | read, part of the reply has arrived    |
//! | `Closed`     | close the connection; nothing follows  |
//!
//! The reply has no terminator and no length: it is complete the first time
//! a read, which waits no longer than the read timeout, comes back empty.

use vstd::prelude::*;
use vstd::utf8::*;
use crate::error::TransportError;
use crate::reply::{lemma_empty_reply_is_empty_text, reply_text};
use crate::settings::{required_settings, PortSettings};
use crate::trace::{decoded_text, opening_text, received_text, sent_text};

verus! {

/// The most bytes that one read may bring.
pub const READ_CHUNK: usize = 32;

/// Where an exchange stands.
#[derive(Clone, Copy, Debug, PartialEq, Eq, Structural)]
pub enum Phase {
    /// The endpoint is being opened and configured.
    Opening,
    /// The connection is ready and the command is being written.
    Configured,
    /// The command is out and nothing of the reply has arrived yet.
    Sent,
    /// Part of the reply has arrived and more may follow.
    Draining,
    /// The exchange is over, well or badly.
    Closed,
}

/// What the host reports, as plain values.
pub enum EventView {
    EndpointMissing,
    OpenRejected,
    ConfigurationRejected,
    Opened,
    Written(usize),
    WriteRejected,
    Received(Seq<u8>),
}

/// What the host is asked to do, as plain values.
pub enum ActionView {
    Open { endpoint: Seq<char>, settings: PortSettings },
    Write { bytes: Seq<u8> },
    Read { limit: usize },
    Close,
}

/// The result of an exchange, as plain values.
pub struct CommandResultView {
    pub raw_bytes: Seq<u8>,
    pub decoded_text: Option<Seq<char>>,
    pub success: bool,
}

/// Everything a finished exchange hands to the caller, as plain values.
pub struct OutcomeView {
    pub result: CommandResultView,
    pub error: Option<TransportError>,
    pub log: Seq<Seq<char>>,
}

/// The state of an exchange, as plain values.
pub struct SessionView {
    pub phase: Phase,
    /// The endpoint the exchange is with.
    pub endpoint: Seq<char>,
    /// The bytes of the command.
    pub wire: Seq<u8>,
    /// The bytes of the reply that have arrived so far.
    pub received: Seq<u8>,
    /// Why the exchange failed, once it has.
    pub error: Option<TransportError>,
}

impl SessionView {
    /// A fresh exchange: the endpoint is about to be opened.
    pub open spec fn begun(endpoint: Seq<char>, wire: Seq<u8>) -> SessionView {
        SessionView { phase: Phase::Opening, endpoint, wire, received: Seq::empty(), error: None }
    }

    /// The exchange cut short by `error`.
    pub open spec fn failed(self, error: TransportError) -> SessionView {
        SessionView { phase: Phase::Closed, error: Some(error), ..self }
    }

    /// The exchange after the read that came back empty: the reply is
    /// complete, and the exchange has succeeded if the reply is text.
    pub open spec fn drained(self) -> SessionView {
        SessionView {
            phase: Phase::Closed,
            error: if valid_utf8(self.received) {
                None
            } else {
                Some(TransportError::DecodeFailed)
            },
            ..self
        }
    }

    /// The exchange after the host has reported `event`. A report that does
    /// not answer what the phase asks for changes nothing.
    pub open spec fn next(self, event: EventView) -> SessionView {
        match (self.phase, event) {
            (Phase::Opening, EventView::EndpointMissing) => self.failed(
                TransportError::PortNotFound,
            ),
            (Phase::Opening, EventView::OpenRejected) => self.failed(TransportError::OpenFailed),
            (Phase::Opening, EventView::ConfigurationRejected) => self.failed(
                TransportError::ConfigurationFailed,
            ),
            (Phase::Opening, EventView::Opened) => SessionView { phase: Phase::Configured, ..self },
            (Phase::Configured, EventView::Written(n)) => if n == self.wire.len() {
                SessionView { phase: Phase::Sent, ..self }
            } else {
                self.failed(TransportError::WriteFailed)
            },
            (Phase::Configured, EventView::WriteRejected) => self.failed(
                TransportError::WriteFailed,
            ),
            (Phase::Sent, EventView::Received(chunk)) | (
                Phase::Draining,
                EventView::Received(chunk),
            ) => if chunk.len() == 0 {
                self.drained()
            } else {
                SessionView { phase: Phase::Draining, received: self.received + chunk, ..self }
            },
            _ => self,
        }
    }

    /// What the host has to do now.
    pub open spec fn pending(self) -> ActionView {
        match self.phase {
            Phase::Opening => ActionView::Open {
                endpoint: self.endpoint,
                settings: required_settings(),
            },
            Phase::Configured => ActionView::Write { bytes: self.wire },
            Phase::Sent | Phase::Draining => ActionView::Read { limit: READ_CHUNK },
            Phase::Closed => ActionView::Close,
        }
    }

    /// The trace of the exchange so far. The line for the command is written
    /// before the command, the lines for the reply once it is complete.
    pub open spec fn trace(self) -> Seq<Seq<char>> {
        let opening = opening_text(self.endpoint);
        let sent = sent_text(self.wire);
        match self.phase {
            Phase::Opening => seq![opening],
            Phase::Configured | Phase::Sent | Phase::Draining => seq![opening, sent],
            Phase::Closed => match self.error {
                Some(TransportError::PortNotFound)
                | Some(TransportError::OpenFailed)
                | Some(TransportError::ConfigurationFailed) => seq![opening],
                Some(TransportError::WriteFailed) => seq![opening, sent],
                Some(TransportError::DecodeFailed) => seq![
                    opening,
                    sent,
                    received_text(self.received),
                ],
                None => seq![
                    opening,
                    sent,
                    received_text(self.received),
                    decoded_text(decode_utf8(self.received)),
                ],
            },
        }
    }

    /// What holds of every exchange at every moment: nothing has been
    /// received before the command is out, an exchange that is under way has
    /// not failed, and a finished one has failed to decode exactly if its
    /// reply is not text.
    pub open spec fn valid(self) -> bool {
        match self.phase {
            Phase::Opening | Phase::Configured | Phase::Sent => self.received.len() == 0
                && self.error is None,
            Phase::Draining => self.received.len() > 0 && self.error is None,
            Phase::Closed => match self.error {
                None => valid_utf8(self.received),
                Some(TransportError::DecodeFailed) => !valid_utf8(self.received),
                Some(_) => self.received.len() == 0,
            },
        }
    }

    /// What a finished exchange hands to the caller.
    pub open spec fn outcome(self) -> OutcomeView {
        OutcomeView {
            result: CommandResultView {
                raw_bytes: self.received,
                decoded_text: reply_text(self.received),
                success: self.error is None,
            },
            error: self.error,
            log: self.trace(),
        }
    }

    /// Whether the connection of this exchange may serve another exchange
    /// with the same endpoint: only once the exchange is over, and only if
    /// nothing in it has failed. By default every exchange opens its own
    /// connection and closes it at the end; this is for a host that chooses
    /// to keep connections by endpoint, and tells it when to drop one.
    pub open spec fn connection_reusable(self) -> bool {
        self.phase is Closed && self.error is None
    }

    /// The exchange after the host has reported `events` one after another.
    pub open spec fn run(self, events: Seq<EventView>) -> SessionView
        decreases events.len(),
    {
        if events.len() == 0 {
            self
        } else {
            self.run(events.drop_last()).next(events.last())
        }
    }
}

/// The reads that bring `chunks`, one chunk each.
pub open spec fn reads(chunks: Seq<Seq<u8>>) -> Seq<EventView> {
    Seq::new(chunks.len(), |i: int| EventView::Received(chunks[i]))
}

/// The chunks put one after another.
pub open spec fn joined(chunks: Seq<Seq<u8>>) -> Seq<u8>
    decreases chunks.len(),
{
    if chunks.len() == 0 {
        Seq::empty()
    } else {
        joined(chunks.drop_last()) + chunks.last()
    }
}

/// A fresh exchange is valid, asks for the endpoint to be opened with the
/// required settings, and has traced the attempt and nothing else.
pub proof fn lemma_begun(endpoint: Seq<char>, wire: Seq<u8>)
    ensures
        SessionView::begun(endpoint, wire).valid(),
        SessionView::begun(endpoint, wire).pending() == (ActionView::Open {
            endpoint,
            settings: required_settings(),
        }),
        SessionView::begun(endpoint, wire).trace() == seq![opening_text(endpoint)],
{
}

/// Whatever the host reports, a valid exchange stays valid.
pub proof fn lemma_next_keeps_valid(s: SessionView, event: EventView)
    requires
        s.valid(),
    ensures
        s.next(event).valid(),
{
}

/// The trace only grows: what was traced before a report is still there
/// after it, in the same place.
pub proof fn lemma_trace_only_grows(s: SessionView, event: EventView)
    requires
        s.valid(),
    ensures
        s.trace().is_prefix_of(s.next(event).trace()),
{
}

/// Nothing changes a closed exchange, and it asks for nothing but to close
/// the connection.
pub proof fn lemma_closed_is_final(s: SessionView, event: EventView)
    requires
        s.phase is Closed,
    ensures
        s.next(event) == s,
        s.pending() is Close,
{
}

/// An exchange opens its endpoint once: after it has left the first phase it
/// never asks for the endpoint to be opened again.
pub proof fn lemma_one_connection(s: SessionView, event: EventView)
    requires
        !(s.phase is Opening),
    ensures
        !(s.next(event).phase is Opening),
        !(s.next(event).pending() is Open),
{
}

/// No command goes out before the endpoint is open and configured: the only
/// report that makes an exchange ask for the write is that of a successful
/// configuration, and it asks for the bytes of its command.
pub proof fn lemma_write_follows_configuration(s: SessionView, event: EventView)
    requires
        !(s.phase is Configured),
        s.next(event).pending() is Write,
    ensures
        s.phase is Opening,
        event is Opened,
        s.next(event).pending() == (ActionView::Write { bytes: s.wire }),
{
}

/// An endpoint that is missing ends the exchange at once: the error is
/// `PortNotFound`, the host is asked to write nothing, and the trace holds
/// the attempt to open and nothing else.
pub proof fn lemma_missing_endpoint(endpoint: Seq<char>, wire: Seq<u8>)
    ensures
        ({
            let end = SessionView::begun(endpoint, wire).next(EventView::EndpointMissing);
            &&& end.phase is Closed
            &&& end.error == Some(TransportError::PortNotFound)
            &&& end.pending() is Close
            &&& end.trace() == seq![opening_text(endpoint)]
            &&& end.outcome().result.raw_bytes == Seq::<u8>::empty()
            &&& end.outcome().result.decoded_text == Some(Seq::<char>::empty())
            &&& !end.outcome().result.success
        }),
{
    lemma_empty_reply_is_empty_text();
}

/// While chunks arrive the exchange keeps them in order and keeps reading;
/// the first empty read ends it with all of them as the reply, and no further
/// read is asked for.
pub proof fn lemma_drain_accumulates(s: SessionView, chunks: Seq<Seq<u8>>)
    requires
        s.phase is Sent,
        s.valid(),
        forall|i: int| 0 <= i < chunks.len() ==> (#[trigger] chunks[i]).len() > 0,
    ensures
        ({
            let mid = s.run(reads(chunks));
            let end = mid.next(EventView::Received(Seq::empty()));
            &&& mid.endpoint == s.endpoint
            &&& mid.wire == s.wire
            &&& mid.received == joined(chunks)
            &&& mid.pending() == (ActionView::Read { limit: READ_CHUNK })
            &&& mid.phase == if chunks.len() == 0 {
                Phase::Sent
            } else {
                Phase::Draining
            }
            &&& end.phase is Closed
            &&& end.pending() is Close
            &&& end.received == joined(chunks)
            &&& end.error == if valid_utf8(joined(chunks)) {
                None
            } else {
                Some(TransportError::DecodeFailed)
            }
        }),
    decreases chunks.len(),
{
    if chunks.len() == 0 {
    } else {
        let front = chunks.drop_last();
        lemma_drain_accumulates(s, front);
        assert(reads(chunks).drop_last() =~= reads(front));
    }
}

/// An exchange in which the endpoint opens and the command is written whole
/// ends with everything that arrived before the first empty read as its
/// reply. It succeeds exactly if that reply is text; the trace then holds
/// the attempt to open, the command, the reply and its text, in this order,
/// and without the last of them if the reply is not text.
pub proof fn lemma_complete_exchange(endpoint: Seq<char>, wire: Seq<u8>, chunks: Seq<Seq<u8>>)
    requires
        wire.len() <= usize::MAX,
        forall|i: int| 0 <= i < chunks.len() ==> (#[trigger] chunks[i]).len() > 0,
    ensures
        ({
            let sent = SessionView::begun(endpoint, wire).next(EventView::Opened).next(
                EventView::Written(wire.len() as usize),
            );
            let end = sent.run(reads(chunks)).next(EventView::Received(Seq::empty()));
            let reply = joined(chunks);
            &&& sent.phase is Sent
            &&& end.phase is Closed
            &&& end.valid()
            &&& end.outcome().result.raw_bytes == reply
            &&& end.outcome().result.decoded_text == reply_text(reply)
            &&& end.outcome().result.success == valid_utf8(reply)
            &&& end.outcome().error == if valid_utf8(reply) {
                None
            } else {
                Some(TransportError::DecodeFailed)
            }
            &&& end.outcome().log == if valid_utf8(reply) {
                seq![
                    opening_text(endpoint),
                    sent_text(wire),
                    received_text(reply),
                    decoded_text(decode_utf8(reply)),
                ]
            } else {
                seq![opening_text(endpoint), sent_text(wire), received_text(reply)]
            }
        }),
{
    let sent = SessionView::begun(endpoint, wire).next(EventView::Opened).next(
        EventView::Written(wire.len() as usize),
    );
    lemma_drain_accumulates(sent, chunks);
}

/// A reply that is not text fails the exchange with `DecodeFailed`, and the
/// trace still ends with the bytes of the reply as they arrived.
pub proof fn lemma_undecodable_reply_is_traced(s: SessionView)
    requires
        s.phase is Sent || s.phase is Draining,
        !valid_utf8(s.received),
    ensures
        ({
            let end = s.next(EventView::Received(Seq::empty()));
            &&& end.error == Some(TransportError::DecodeFailed)
            &&& end.trace().len() == 3
            &&& end.trace().last() == received_text(s.received)
            &&& end.outcome().result.raw_bytes == s.received
            &&& end.outcome().result.decoded_text is None
            &&& !end.outcome().result.success
        }),
{
}

/// A finished exchange has succeeded exactly if it has no error, and then
/// its reply is text and the trace ends with that text.
pub proof fn lemma_outcome_of_success(s: SessionView)
    requires
        s.valid(),
        s.phase is Closed,
    ensures
        s.outcome().result.success <==> s.outcome().error is None,
        s.outcome().result.success ==> {
            &&& s.outcome().result.decoded_text == Some(decode_utf8(s.received))
            &&& s.outcome().log.len() == 4
            &&& s.outcome().log.last() == decoded_text(decode_utf8(s.received))
        },
        s.outcome().result.decoded_text is None <==> s.outcome().error == Some(
            TransportError::DecodeFailed,
        ),
{
    if s.received.len() == 0 {
        lemma_empty_reply_is_empty_text();
    }
}

} // verus!

//! One exchange with the supply, driven by the host.
//!
//! The host begins a [`Session`], then repeats: ask it for the pending
//! [`Action`], carry that out on the serial connection, and hand the result
//! back as an [`Event`]. When the action is [`Action::Close`] the exchange is
//! over and [`Session::finish`] yields its [`Outcome`]. The session never
//! touches the connection; what it decides is laid down in
//! [`crate::protocol`].
//!
//! A session is one request to one endpoint, and it blocks nothing and
//! shares nothing. The endpoint itself is shared: a host that can issue
//! requests side by side has to see to it that at most one session per
//! endpoint is under way at any time. There is no deadline for the whole
//! exchange either; a device that never falls silent is read for ever.

use vstd::prelude::*;
use vstd::string::*;
use vstd::utf8::*;
use crate::command::CommandRequest;
use crate::error::TransportError;
use crate::protocol::{
    ActionView, CommandResultView, EventView, OutcomeView, Phase, SessionView, READ_CHUNK,
};
use crate::reply::{decode, lemma_empty_reply_is_empty_text, reply_text};
use crate::settings::PortSettings;
use crate::trace::{
    decoded_line, opening_line, opening_text, received_line, sent_line, TraceLog,
};

verus! {

/// What the host reports after it has carried out an action.
#[derive(Debug, PartialEq, Eq)]
pub enum Event {
    /// The endpoint's path does not exist. The host checks this where
    /// endpoints are paths, before it touches the device.
    EndpointMissing,
    /// The open call was rejected.
    OpenRejected,
    /// The endpoint was opened, but one of the required settings could not
    /// be applied; the host has discarded the connection.
    ConfigurationRejected,
    /// The endpoint is open and set to all the required settings.
    Opened,
    /// The write returned after taking this many bytes.
    Written(usize),
    /// The write failed.
    WriteRejected,
    /// What one read brought. An empty chunk says that nothing arrived
    /// before the read gave up.
    Received(Vec<u8>),
}

impl View for Event {
    type V = EventView;

    open spec fn view(&self) -> EventView {
        match self {
            Event::EndpointMissing => EventView::EndpointMissing,
            Event::OpenRejected => EventView::OpenRejected,
            Event::ConfigurationRejected => EventView::ConfigurationRejected,
            Event::Opened => EventView::Opened,
            Event::Written(n) => EventView::Written(*n),
            Event::WriteRejected => EventView::WriteRejected,
            Event::Received(chunk) => EventView::Received(chunk@),
        }
    }
}

/// What the host has to do next.
#[derive(Debug, PartialEq, Eq)]
pub enum Action {
    /// Open the endpoint and apply the settings, all of them or none.
    Open { endpoint: String, settings: PortSettings },
    /// Write these bytes with a single write.
    Write { bytes: Vec<u8> },
    /// Read once, into a buffer of `limit` bytes.
    Read { limit: usize },
    /// Close the connection if there is one; the exchange is over.
    Close,
}

impl View for Action {
    type V = ActionView;

    open spec fn view(&self) -> ActionView {
        match self {
            Action::Open { endpoint, settings } => ActionView::Open {
                endpoint: endpoint@,
                settings: *settings,
            },
            Action::Write { bytes } => ActionView::Write { bytes: bytes@ },
            Action::Read { limit } => ActionView::Read { limit: *limit },
            Action::Close => ActionView::Close,
        }
    }
}

/// The result of an exchange.
#[derive(Debug, PartialEq, Eq)]
pub struct CommandResult {
    /// The reply as it arrived.
    pub raw_bytes: Vec<u8>,
    /// The reply as text; `None` marks a reply that is not text.
    pub decoded_text: Option<String>,
    /// Whether the exchange ran to its end and the reply is text.
    pub success: bool,
}

impl View for CommandResult {
    type V = CommandResultView;

    open spec fn view(&self) -> CommandResultView {
        CommandResultView {
            raw_bytes: self.raw_bytes@,
            decoded_text: match self.decoded_text {
                Some(text) => Some(text@),
                None => None,
            },
            success: self.success,
        }
    }
}

/// Everything a finished exchange hands to the caller.
#[derive(Debug, PartialEq, Eq)]
pub struct Outcome {
    pub result: CommandResult,
    /// Why the exchange failed, if it did.
    pub error: Option<TransportError>,
    /// The trace of the exchange, up to where it ended.
    pub log: TraceLog,
}

impl View for Outcome {
    type V = OutcomeView;

    open spec fn view(&self) -> OutcomeView {
        OutcomeView { result: self.result@, error: self.error, log: self.log@ }
    }
}

/// One exchange with the supply: one endpoint, one command, one reply.
#[derive(Debug)]
pub struct Session {
    phase: Phase,
    endpoint: String,
    wire: Vec<u8>,
    received: Vec<u8>,
    error: Option<TransportError>,
    text: Option<String>,
    log: TraceLog,
}

impl View for Session {
    type V = SessionView;

    closed spec fn view(&self) -> SessionView {
        SessionView {
            phase: self.phase,
            endpoint: self.endpoint@,
            wire: self.wire@,
            received: self.received@,
            error: self.error,
        }
    }
}

impl Session {
    #[verifier::type_invariant]
    spec fn inv(self) -> bool {
        &&& self@.valid()
        &&& self.log@ == self@.trace()
        &&& self.phase is Closed ==> reply_text(self.received@) == match self.text {
            Some(text) => Some(text@),
            None => None,
        }
    }

    /// Begins the exchange of `request` with the supply at `endpoint`. The
    /// attempt to open the endpoint is traced at once, before the host is
    /// asked to make it.
    pub fn begin(endpoint: &str, request: &CommandRequest) -> (session: Session)
        ensures
            session@ == SessionView::begun(endpoint@, encode_utf8(request@.wire_text())),
    {
        let wire = request.encode();
        let mut log = TraceLog::new();
        log.push(opening_line(endpoint));
        Session {
            phase: Phase::Opening,
            endpoint: String::from_str(endpoint),
            wire: wire.as_str().as_bytes_vec(),
            received: Vec::new(),
            error: None,
            text: None,
            log,
        }
    }

    /// Where the exchange stands. Wherever that is, the session is valid.
    pub fn phase(&self) -> (phase: Phase)
        ensures
            phase == self@.phase,
            self@.valid(),
    {
        proof {
            use_type_invariant(self);
        }
        self.phase
    }

    /// Whether the exchange is over.
    pub fn is_closed(&self) -> (closed: bool)
        ensures
            closed == (self@.phase is Closed),
    {
        match self.phase {
            Phase::Closed => true,
            _ => false,
        }
    }

    /// Whether a host that keeps connections by endpoint may keep the one
    /// of this exchange for the next: never after an error, and not before
    /// the exchange is over. A host that keeps none closes it either way.
    pub fn connection_reusable(&self) -> (reusable: bool)
        ensures
            reusable == self@.connection_reusable(),
    {
        self.is_closed() && self.error.is_none()
    }

    /// The trace of the exchange so far.
    pub fn log(&self) -> (log: &TraceLog)
        ensures
            log@ == self@.trace(),
    {
        proof {
            use_type_invariant(self);
        }
        &self.log
    }

    /// The bytes of the reply that have arrived so far.
    pub fn received(&self) -> (bytes: &[u8])
        ensures
            bytes@ == self@.received,
    {
        self.received.as_slice()
    }

    /// What the host has to do now.
    pub fn action(&self) -> (action: Action)
        ensures
            action@ == self@.pending(),
    {
        match self.phase {
            Phase::Opening => Action::Open {
                endpoint: self.endpoint.clone(),
                settings: PortSettings::required(),
            },
            Phase::Configured => Action::Write { bytes: self.wire.clone() },
            Phase::Sent | Phase::Draining => Action::Read { limit: READ_CHUNK },
            Phase::Closed => Action::Close,
        }
    }

    /// Takes the host's report of what came of the pending action and moves
    /// the exchange on. A report that does not answer the pending action is
    /// ignored.
    pub fn step(self, event: Event) -> (next: Session)
        ensures
            next@ == self@.next(event@),
    {
        proof {
            use_type_invariant(&self);
        }
        match self.phase {
            Phase::Opening => match event {
                Event::EndpointMissing => self.fail(TransportError::PortNotFound),
                Event::OpenRejected => self.fail(TransportError::OpenFailed),
                Event::ConfigurationRejected => self.fail(TransportError::ConfigurationFailed),
                Event::Opened => self.announce_command(),
                _ => self,
            },
            Phase::Configured => match event {
                Event::Written(n) => {
                    if n == self.wire.len() {
                        self.await_reply()
                    } else {
                        self.fail(TransportError::WriteFailed)
                    }
                },
                Event::WriteRejected => self.fail(TransportError::WriteFailed),
                _ => self,
            },
            Phase::Sent | Phase::Draining => match event {
                Event::Received(chunk) => {
                    if chunk.len() == 0 {
                        self.complete()
                    } else {
                        self.accumulate(chunk)
                    }
                },
                _ => self,
            },
            Phase::Closed => self,
        }
    }

    /// Ends the exchange and hands out its result and trace. An exchange
    /// that is not over yet has no outcome.
    pub fn finish(self) -> (res: Option<Outcome>)
        ensures
            res is Some <==> self@.phase is Closed,
            res matches Some(outcome) ==> outcome@ == self@.outcome(),
    {
        proof {
            use_type_invariant(&self);
        }
        match self.phase {
            Phase::Closed => {
                let success = self.error.is_none();
                Some(
                    Outcome {
                        result: CommandResult {
                            raw_bytes: self.received,
                            decoded_text: self.text,
                            success,
                        },
                        error: self.error,
                        log: self.log,
                    },
                )
            },
            _ => None,
        }
    }

    fn fail(self, error: TransportError) -> (next: Session)
        requires
            self.phase is Opening || self.phase is Configured,
            !(error is DecodeFailed),
            self.phase is Opening ==> !(error is WriteFailed),
            self.phase is Configured ==> error is WriteFailed,
        ensures
            next@ == self@.failed(error),
    {
        proof {
            use_type_invariant(&self);
            lemma_empty_reply_is_empty_text();
        }
        Session {
            phase: Phase::Closed,
            endpoint: self.endpoint,
            wire: self.wire,
            received: self.received,
            error: Some(error),
            text: Some(String::new()),
            log: self.log,
        }
    }

    fn announce_command(self) -> (next: Session)
        requires
            self.phase is Opening,
        ensures
            next@ == (SessionView { phase: Phase::Configured, ..self@ }),
    {
        proof {
            use_type_invariant(&self);
        }
        let mut log = self.log;
        log.push(sent_line(self.wire.as_slice()));
        assert(log@ =~= (SessionView { phase: Phase::Configured, ..self@ }).trace());
        Session {
            phase: Phase::Configured,
            endpoint: self.endpoint,
            wire: self.wire,
            received: self.received,
            error: self.error,
            text: self.text,
            log,
        }
    }

    fn await_reply(self) -> (next: Session)
        requires
            self.phase is Configured,
        ensures
            next@ == (SessionView { phase: Phase::Sent, ..self@ }),
    {
        proof {
            use_type_invariant(&self);
        }
        Session {
            phase: Phase::Sent,
            endpoint: self.endpoint,
            wire: self.wire,
            received: self.received,
            error: self.error,
            text: self.text,
            log: self.log,
        }
    }

    fn accumulate(self, chunk: Vec<u8>) -> (next: Session)
        requires
            self.phase is Sent || self.phase is Draining,
            chunk@.len() > 0,
        ensures
            next@ == (SessionView {
                phase: Phase::Draining,
                received: self@.received + chunk@,
                ..self@
            }),
    {
        proof {
            use_type_invariant(&self);
        }
        let mut received = self.received;
        let mut chunk = chunk;
        received.append(&mut chunk);
        Session {
            phase: Phase::Draining,
            endpoint: self.endpoint,
            wire: self.wire,
            received,
            error: self.error,
            text: self.text,
            log: self.log,
        }
    }

    fn complete(self) -> (next: Session)
        requires
            self.phase is Sent || self.phase is Draining,
        ensures
            next@ == self@.drained(),
    {
        proof {
            use_type_invariant(&self);
        }
        let mut log = self.log;
        log.push(received_line(self.received.as_slice()));
        match decode(self.received.as_slice()) {
            Ok(text) => {
                log.push(decoded_line(text.as_str()));
                assert(log@ =~= self@.drained().trace());
                Session {
                    phase: Phase::Closed,
                    endpoint: self.endpoint,
                    wire: self.wire,
                    received: self.received,
                    error: None,
                    text: Some(text),
                    log,
                }
            },
            Err(error) => {
                assert(log@ =~= self@.drained().trace());
                Session {
                    phase: Phase::Closed,
                    endpoint: self.endpoint,
                    wire: self.wire,
                    received: self.received,
                    error: Some(error),
                    text: None,
                    log,
                }
            },
        }
    }
}

} // verus!

//! One open connection: what is read from the socket and handed to the
//! application, what the application sends, and how both are wound up.
//!
//! A [`Session`] decides; it does not wait. Whoever drives it performs the
//! action that a step returns and reports what came of it as the next event.
//! The reader and the writer run side by side, and each has its own events, so
//! one of them waiting never keeps the other from going on.

use std::time::Duration;
use tokio_tungstenite::tungstenite::protocol::CloseFrame;
use tokio_tungstenite::tungstenite::Error;
use vstd::prelude::*;

use crate::client::Message;

verus! {

/// A message that arrived on the socket.
#[derive(Debug)]
pub enum Incoming {
    Text(String),
    Binary(Vec<u8>),
    Ping,
    Pong,
    Frame,
    Close(Option<CloseFrame<'static>>),
}

impl Incoming {
    /// The message for the application that this is, if it is one.
    pub open spec fn message(self) -> Option<Message> {
        match self {
            Incoming::Text(text) => Some(Message::Text(text)),
            Incoming::Binary(bytes) => Some(Message::Binary(bytes)),
            _ => None,
        }
    }

    /// The close frame that this carries, if it carries one.
    pub open spec fn close_frame(self) -> Option<CloseFrame<'static>> {
        match self {
            Incoming::Close(frame) => frame,
            _ => None,
        }
    }
}

/// A message to write to the socket.
#[derive(Debug)]
pub enum Outgoing {
    Text(String),
    Binary(Vec<u8>),
    Close(Option<CloseFrame<'static>>),
}

impl Outgoing {
    /// What the other end of the connection sees arrive.
    pub open spec fn arrives_as(self) -> Incoming {
        match self {
            Outgoing::Text(text) => Incoming::Text(text),
            Outgoing::Binary(bytes) => Incoming::Binary(bytes),
            Outgoing::Close(frame) => Incoming::Close(frame),
        }
    }

    /// What is written for a message of the application.
    pub open spec fn carrying(message: Message) -> Outgoing {
        match message {
            Message::Text(text) => Outgoing::Text(text),
            Message::Binary(bytes) => Outgoing::Binary(bytes),
        }
    }

    /// The same text or bytes as `message`, to be written to the socket.
    pub fn from_message(message: Message) -> (outgoing: Outgoing)
        ensures
            outgoing == Outgoing::carrying(message),
            message matches Message::Text(text) ==> outgoing == Outgoing::Text(text),
            message matches Message::Binary(bytes) ==> outgoing == Outgoing::Binary(bytes),
    {
        match message {
            Message::Text(text) => Outgoing::Text(text),
            Message::Binary(bytes) => Outgoing::Binary(bytes),
        }
    }
}

/// An error of the socket. The first two only say that the connection is
/// closed, or about to be.
#[derive(Debug)]
pub enum SocketError {
    ConnectionClosed,
    AlreadyClosed,
    Other(Error),
}

impl SocketError {
    /// The error to tell the application of; none if the connection was merely
    /// closed.
    pub open spec fn fault(self) -> Option<Error> {
        match self {
            SocketError::Other(error) => Some(error),
            _ => None,
        }
    }
}

/// Where the reader stands.
#[derive(Debug, Clone, Copy, PartialEq, Eq, Structural)]
pub enum ReaderPhase {
    /// Waiting for the next item of the socket.
    Reading,
    /// Waiting for the application to accept a message.
    Forwarding,
    /// Done.
    Finished,
}

/// What came of the reader's last action.
#[derive(Debug)]
pub enum ReaderEvent {
    /// The next item of the socket, or its end.
    Received(Option<Result<Incoming, SocketError>>),
    /// Whether the application accepted the message.
    Forwarded(bool),
    /// The session was cancelled while the reader was waiting.
    Cancelled,
}

/// What the reader does next.
#[derive(Debug)]
pub enum ReaderAction {
    /// Read the next item of the socket.
    Read,
    /// Hand a message to the application.
    Forward(Message),
    /// Stop, and with `cancel` also cancel the session.
    Finish { cancel: bool },
}

/// Where the writer stands.
#[derive(Debug, Clone, Copy, PartialEq, Eq, Structural)]
pub enum WriterPhase {
    /// Waiting for a message of the application.
    Receiving,
    /// Waiting for the socket to take a message.
    Sending,
    /// Discarding what the application has sent in vain.
    Draining,
    /// Done.
    Finished,
}

/// What came of the writer's last action.
#[derive(Debug)]
pub enum WriterEvent {
    /// The application's next message, or `None` once it will send no more.
    Received(Option<Message>),
    /// Whether the socket took the message.
    Sent(Result<(), SocketError>),
    /// The session was cancelled while the writer was waiting.
    Cancelled,
    /// Whether there was another message to discard.
    Discarded(bool),
}

/// What the writer does next.
#[derive(Debug)]
pub enum WriterAction {
    /// Wait for the application's next message.
    Receive,
    /// Write to the socket.
    Send(Outgoing),
    /// Accept no more from the application and discard its next message; with
    /// `cancel`, first cancel the session.
    CloseAndDrain { cancel: bool },
    /// Discard the application's next message.
    Discard,
    /// Stop.
    Finish,
}

/// How far the socket is closed.
#[derive(Debug, Clone, Copy, PartialEq, Eq, Structural)]
pub enum ClosePhase {
    /// Reader or writer are still at work, or have only just stopped.
    Pending,
    /// The close message is on its way (`sent` once it is out), and what still
    /// arrives is discarded (`drained` once the socket has ended).
    Closing { sent: bool, drained: bool },
    /// Closed, and the application told.
    Reported,
}

/// What came of closing the socket so far.
#[derive(Debug)]
pub enum CloseEvent {
    /// Both reader and writer have returned their half of the socket.
    Joined,
    /// The close message was written, or failed to be.
    Sent(Result<(), SocketError>),
    /// Whether there was another item to discard.
    Discarded(bool),
    /// The time for closing is up.
    TimedOut,
}

/// What is done next to close the socket.
#[derive(Debug)]
pub enum CloseAction {
    /// Write `message` and at the same time discard the socket's next item,
    /// and spend no more than `timeout` on closing.
    Start { message: Outgoing, timeout: Duration },
    /// Discard the socket's next item.
    Discard,
    /// Wait for what is still going on.
    Await,
    /// Give up what is still going on, and tell the application how the
    /// connection ended.
    Report { close_frame: Option<CloseFrame<'static>>, error: Option<Error> },
}

/// An event of any part of a session.
#[derive(Debug)]
pub enum SessionEvent {
    Reader(ReaderEvent),
    Writer(WriterEvent),
    Close(CloseEvent),
}

/// An action of any part of a session.
#[derive(Debug)]
pub enum SessionAction {
    Reader(ReaderAction),
    Writer(WriterAction),
    Close(CloseAction),
}

/// What a one-place slot holds after `value` was offered: the first value
/// stays, and what is offered after it is dropped.
pub open spec fn offered<T>(slot: Option<T>, value: Option<T>) -> Option<T> {
    if slot is Some {
        slot
    } else {
        value
    }
}

/// The state of a [`Session`].
pub struct SessionState {
    pub close_timeout: Duration,
    pub reader: ReaderPhase,
    pub writer: WriterPhase,
    pub closing: ClosePhase,
    /// The first close frame that was seen.
    pub close_frame: Option<CloseFrame<'static>>,
    /// The first error that was seen.
    pub error: Option<Error>,
}

impl SessionState {
    /// A connection that was just opened.
    pub open spec fn opened(close_timeout: Duration) -> SessionState {
        SessionState {
            close_timeout,
            reader: ReaderPhase::Reading,
            writer: WriterPhase::Receiving,
            closing: ClosePhase::Pending,
            close_frame: None,
            error: None,
        }
    }

    /// What reader and writer of a connection that was just opened do first:
    /// one reads from the socket, the other waits for the application.
    pub open spec fn first_actions() -> (ReaderAction, WriterAction) {
        (ReaderAction::Read, WriterAction::Receive)
    }

    /// Whether the writer still takes messages from the application.
    pub open spec fn writing(self) -> bool {
        self.writer is Receiving || self.writer is Sending
    }

    /// Whether the session was cancelled: the reader or the writer has left
    /// its loop.
    pub open spec fn cancelled(self) -> bool {
        self.reader is Finished || !self.writing()
    }

    /// What holds of every session: the socket is closed only once reader and
    /// writer are done with it, closing ends as soon as both its parts have,
    /// and the report takes what was seen with it.
    pub open spec fn wf(self) -> bool {
        &&& self.closing is Pending || self.reader is Finished && self.writer is Finished
        &&& self.closing matches ClosePhase::Closing { sent, drained } ==> !(sent && drained)
        &&& self.closing is Reported ==> self.close_frame is None && self.error is None
    }

    /// The reader at `phase`, with `error` offered to the slot for errors.
    pub open spec fn reader_at(self, phase: ReaderPhase, error: Option<Error>) -> SessionState {
        SessionState { reader: phase, error: offered(self.error, error), ..self }
    }

    /// The writer at `phase`, with `error` offered to the slot for errors.
    pub open spec fn writer_at(self, phase: WriterPhase, error: Option<Error>) -> SessionState {
        SessionState { writer: phase, error: offered(self.error, error), ..self }
    }

    /// What the reader makes of the socket's next item.
    pub open spec fn reads(self, item: Option<Result<Incoming, SocketError>>) -> (
        SessionState,
        ReaderAction,
    ) {
        match item {
            None => (
                self.reader_at(ReaderPhase::Finished, None),
                ReaderAction::Finish { cancel: true },
            ),
            Some(Ok(incoming)) => {
                let seen = SessionState {
                    close_frame: offered(self.close_frame, incoming.close_frame()),
                    ..self
                };
                match incoming.message() {
                    Some(message) => (
                        seen.reader_at(ReaderPhase::Forwarding, None),
                        ReaderAction::Forward(message),
                    ),
                    None => (seen, ReaderAction::Read),
                }
            },
            Some(Err(error)) => if error.fault() is Some {
                (
                    self.reader_at(ReaderPhase::Finished, error.fault()),
                    ReaderAction::Finish { cancel: true },
                )
            } else {
                (self, ReaderAction::Read)
            },
        }
    }

    /// What the reader makes of `event`; `None` where it does not wait for
    /// such an event.
    pub open spec fn reader_step(self, event: ReaderEvent) -> Option<(SessionState, ReaderAction)> {
        match event {
            ReaderEvent::Received(item) if self.reader is Reading => Some(self.reads(item)),
            ReaderEvent::Forwarded(true) if self.reader is Forwarding => Some(
                (self.reader_at(ReaderPhase::Reading, None), ReaderAction::Read),
            ),
            ReaderEvent::Forwarded(false) if self.reader is Forwarding => Some(
                (
                    self.reader_at(ReaderPhase::Finished, None),
                    ReaderAction::Finish { cancel: true },
                ),
            ),
            ReaderEvent::Cancelled if self.reader !is Finished && self.cancelled() => Some(
                (
                    self.reader_at(ReaderPhase::Finished, None),
                    ReaderAction::Finish { cancel: false },
                ),
            ),
            _ => None,
        }
    }

    /// What the writer makes of `event`; `None` where it does not wait for
    /// such an event.
    pub open spec fn writer_step(self, event: WriterEvent) -> Option<(SessionState, WriterAction)> {
        match event {
            WriterEvent::Received(Some(message)) if self.writer is Receiving => Some(
                (
                    self.writer_at(WriterPhase::Sending, None),
                    WriterAction::Send(Outgoing::carrying(message)),
                ),
            ),
            WriterEvent::Received(None) if self.writer is Receiving => Some(
                (
                    self.writer_at(WriterPhase::Draining, None),
                    WriterAction::CloseAndDrain { cancel: true },
                ),
            ),
            WriterEvent::Sent(Err(error)) if self.writer is Sending && error.fault() is Some =>
                Some(
                (
                    self.writer_at(WriterPhase::Draining, error.fault()),
                    WriterAction::CloseAndDrain { cancel: true },
                ),
            ),
            WriterEvent::Sent(_) if self.writer is Sending => Some(
                (self.writer_at(WriterPhase::Receiving, None), WriterAction::Receive),
            ),
            WriterEvent::Cancelled if self.writing() && self.cancelled() => Some(
                (
                    self.writer_at(WriterPhase::Draining, None),
                    WriterAction::CloseAndDrain { cancel: false },
                ),
            ),
            WriterEvent::Discarded(true) if self.writer is Draining => Some(
                (self, WriterAction::Discard),
            ),
            WriterEvent::Discarded(false) if self.writer is Draining => Some(
                (self.writer_at(WriterPhase::Finished, None), WriterAction::Finish),
            ),
            _ => None,
        }
    }

    /// The application told of what was seen.
    pub open spec fn reported(self) -> (SessionState, CloseAction) {
        (
            SessionState {
                closing: ClosePhase::Reported,
                close_frame: None,
                error: None,
                ..self
            },
            CloseAction::Report { close_frame: self.close_frame, error: self.error },
        )
    }

    /// Closing as far as `sent` and `drained` say: over once both hold.
    pub open spec fn closes(self, sent: bool, drained: bool, otherwise: CloseAction) -> (
        SessionState,
        CloseAction,
    ) {
        if sent && drained {
            self.reported()
        } else {
            (SessionState { closing: ClosePhase::Closing { sent, drained }, ..self }, otherwise)
        }
    }

    /// What closing the socket makes of `event`; `None` where it does not wait
    /// for such an event.
    pub open spec fn close_step(self, event: CloseEvent) -> Option<(SessionState, CloseAction)> {
        match (self.closing, event) {
            (ClosePhase::Pending, CloseEvent::Joined) => if self.reader is Finished
                && self.writer is Finished {
                Some(
                    self.closes(
                        false,
                        false,
                        CloseAction::Start {
                            message: Outgoing::Close(None),
                            timeout: self.close_timeout,
                        },
                    ),
                )
            } else {
                None
            },
            (ClosePhase::Closing { sent: false, drained }, CloseEvent::Sent(_)) => Some(
                self.closes(true, drained, CloseAction::Await),
            ),
            (ClosePhase::Closing { sent, drained: false }, CloseEvent::Discarded(true)) => Some(
                self.closes(sent, false, CloseAction::Discard),
            ),
            (ClosePhase::Closing { sent, drained: false }, CloseEvent::Discarded(false)) => Some(
                self.closes(sent, true, CloseAction::Await),
            ),
            (ClosePhase::Closing { .. }, CloseEvent::TimedOut) => Some(self.reported()),
            _ => None,
        }
    }

    /// What the session makes of `event`; `None` where it does not wait for
    /// such an event.
    pub open spec fn step(self, event: SessionEvent) -> Option<(SessionState, SessionAction)> {
        match event {
            SessionEvent::Reader(event) => match self.reader_step(event) {
                Some((next, action)) => Some((next, SessionAction::Reader(action))),
                None => None,
            },
            SessionEvent::Writer(event) => match self.writer_step(event) {
                Some((next, action)) => Some((next, SessionAction::Writer(action))),
                None => None,
            },
            SessionEvent::Close(event) => match self.close_step(event) {
                Some((next, action)) => Some((next, SessionAction::Close(action))),
                None => None,
            },
        }
    }
}

/// The session of one open connection.
///
/// It starts with the reader reading and the writer receiving. As soon as one
/// of them leaves its loop the session is cancelled, which stops the other;
/// once both have stopped the socket is closed, and the application is told
/// which close frame and which error were seen first.
#[derive(Debug)]
pub struct Session {
    close_timeout: Duration,
    reader: ReaderPhase,
    writer: WriterPhase,
    closing: ClosePhase,
    close_frame: Option<CloseFrame<'static>>,
    error: Option<Error>,
}

impl View for Session {
    type V = SessionState;

    closed spec fn view(&self) -> SessionState {
        SessionState {
            close_timeout: self.close_timeout,
            reader: self.reader,
            writer: self.writer,
            closing: self.closing,
            close_frame: self.close_frame,
            error: self.error,
        }
    }
}

impl Session {
    /// The session of a connection that was just opened. Closing it will take
    /// `close_timeout` at most.
    pub fn new(close_timeout: Duration) -> (session: Self)
        ensures
            session@ == SessionState::opened(close_timeout),
            session@.wf(),
            session@.close_timeout == close_timeout,
    {
        Session {
            close_timeout,
            reader: ReaderPhase::Reading,
            writer: WriterPhase::Receiving,
            closing: ClosePhase::Pending,
            close_frame: None,
            error: None,
        }
    }

    /// What reader and writer of a session that was just opened do first.
    pub fn first_actions() -> (actions: (ReaderAction, WriterAction))
        ensures
            actions == SessionState::first_actions(),
            actions.0 is Read,
            actions.1 is Receive,
    {
        (ReaderAction::Read, WriterAction::Receive)
    }

    /// Whether the writer still takes messages from the application.
    fn writing(&self) -> (writing: bool)
        ensures
            writing == self@.writing(),
    {
        match self.writer {
            WriterPhase::Receiving | WriterPhase::Sending => true,
            WriterPhase::Draining | WriterPhase::Finished => false,
        }
    }

    /// Whether the session was cancelled: the reader or the writer has left
    /// its loop.
    pub fn is_cancelled(&self) -> (cancelled: bool)
        ensures
            cancelled == self@.cancelled(),
    {
        self.reader == ReaderPhase::Finished || !self.writing()
    }

    /// Keeps `error` for the report, unless an error is kept already.
    fn keep_error(&mut self, error: Error)
        ensures
            final(self)@ == (SessionState {
                error: offered(old(self)@.error, Some(error)),
                ..old(self)@
            }),
    {
        if self.error.is_none() {
            self.error = Some(error);
        }
    }

    /// Keeps `frame` for the report, unless a close frame is kept already.
    fn keep_close_frame(&mut self, frame: CloseFrame<'static>)
        ensures
            final(self)@ == (SessionState {
                close_frame: offered(old(self)@.close_frame, Some(frame)),
                ..old(self)@
            }),
    {
        if self.close_frame.is_none() {
            self.close_frame = Some(frame);
        }
    }

    /// Messages are read from the socket and forwarded to the application.
    ///
    /// Text and binary messages are handed on as they are. Of a close message
    /// the frame is kept, and anything else is skipped. Reading ends with the
    /// socket, when the application accepts no more, or on an error; the error
    /// is kept, unless it merely says that the connection is closed: then the
    /// socket will end shortly.
    ///
    /// `None` is returned, and nothing changes, where the reader does not wait
    /// for such an event.
    pub fn read_from_socket(&mut self, event: ReaderEvent) -> (action: Option<ReaderAction>)
        ensures
            match old(self)@.reader_step(event) {
                Some((next, expected)) => final(self)@ == next && action == Some(expected),
                None => final(self)@ == old(self)@ && action is None,
            },
            old(self)@.wf() ==> final(self)@.wf(),
    {
        match (self.reader, event) {
            (ReaderPhase::Reading, ReaderEvent::Received(item)) => match item {
                None => {
                    self.reader = ReaderPhase::Finished;
                    Some(ReaderAction::Finish { cancel: true })
                },
                Some(Ok(incoming)) => {
                    let message = match incoming {
                        Incoming::Text(text) => Message::Text(text),
                        Incoming::Binary(bytes) => Message::Binary(bytes),
                        Incoming::Ping | Incoming::Pong | Incoming::Frame => {
                            return Some(ReaderAction::Read);
                        },
                        Incoming::Close(frame) => {
                            if let Some(frame) = frame {
                                self.keep_close_frame(frame);
                            }
                            return Some(ReaderAction::Read);
                        },
                    };
                    self.reader = ReaderPhase::Forwarding;
                    Some(ReaderAction::Forward(message))
                },
                Some(Err(error)) => match error {
                    SocketError::ConnectionClosed | SocketError::AlreadyClosed => {
                        Some(ReaderAction::Read)
                    },
                    SocketError::Other(error) => {
                        self.keep_error(error);
                        self.reader = ReaderPhase::Finished;
                        Some(ReaderAction::Finish { cancel: true })
                    },
                },
            },
            (ReaderPhase::Forwarding, ReaderEvent::Forwarded(accepted)) => if accepted {
                self.reader = ReaderPhase::Reading;
                Some(ReaderAction::Read)
            } else {
                self.reader = ReaderPhase::Finished;
                Some(ReaderAction::Finish { cancel: true })
            },
            (
                ReaderPhase::Reading | ReaderPhase::Forwarding,
                ReaderEvent::Cancelled,
            ) => if self.is_cancelled() {
                self.reader = ReaderPhase::Finished;
                Some(ReaderAction::Finish { cancel: false })
            } else {
                None
            },
            _ => None,
        }
    }

    /// Messages are taken from the application and written to the socket.
    ///
    /// Each is written as it is. Writing ends when the application will send
    /// no more, or on an error; the error is kept, unless it merely says that
    /// the connection is closed. Afterwards nothing more is accepted from the
    /// application, and what it has sent already is discarded.
    ///
    /// `None` is returned, and nothing changes, where the writer does not wait
    /// for such an event.
    pub fn write_to_socket(&mut self, event: WriterEvent) -> (action: Option<WriterAction>)
        ensures
            match old(self)@.writer_step(event) {
                Some((next, expected)) => final(self)@ == next && action == Some(expected),
                None => final(self)@ == old(self)@ && action is None,
            },
            old(self)@.wf() ==> final(self)@.wf(),
    {
        match (self.writer, event) {
            (WriterPhase::Receiving, WriterEvent::Received(message)) => match message {
                None => {
                    self.writer = WriterPhase::Draining;
                    Some(WriterAction::CloseAndDrain { cancel: true })
                },
                Some(message) => {
                    self.writer = WriterPhase::Sending;
                    Some(WriterAction::Send(Outgoing::from_message(message)))
                },
            },
            (WriterPhase::Sending, WriterEvent::Sent(result)) => match result {
                Err(SocketError::Other(error)) => {
                    self.keep_error(error);
                    self.writer = WriterPhase::Draining;
                    Some(WriterAction::CloseAndDrain { cancel: true })
                },
                Ok(()) | Err(SocketError::ConnectionClosed | SocketError::AlreadyClosed) => {
                    self.writer = WriterPhase::Receiving;
                    Some(WriterAction::Receive)
                },
            },
            (
                WriterPhase::Receiving | WriterPhase::Sending,
                WriterEvent::Cancelled,
            ) => if self.is_cancelled() {
                self.writer = WriterPhase::Draining;
                Some(WriterAction::CloseAndDrain { cancel: false })
            } else {
                None
            },
            (WriterPhase::Draining, WriterEvent::Discarded(more)) => if more {
                Some(WriterAction::Discard)
            } else {
                self.writer = WriterPhase::Finished;
                Some(WriterAction::Finish)
            },
            _ => None,
        }
    }

    /// The socket is closed once reader and writer are done with it.
    ///
    /// A close message without a frame is written while what still arrives is
    /// discarded; whether writing it succeeds makes no difference. When both
    /// are over, or the time for closing is up, the application is told which
    /// close frame and which error were seen first.
    ///
    /// `None` is returned, and nothing changes, where closing does not wait
    /// for such an event.
    pub fn close_websocket(&mut self, event: CloseEvent) -> (action: Option<CloseAction>)
        ensures
            match old(self)@.close_step(event) {
                Some((next, expected)) => final(self)@ == next && action == Some(expected),
                None => final(self)@ == old(self)@ && action is None,
            },
            old(self)@.wf() ==> final(self)@.wf(),
    {
        match (self.closing, event) {
            (ClosePhase::Pending, CloseEvent::Joined) => if self.reader == ReaderPhase::Finished
                && self.writer == WriterPhase::Finished {
                self.closing = ClosePhase::Closing { sent: false, drained: false };
                Some(
                    CloseAction::Start {
                        message: Outgoing::Close(None),
                        timeout: self.close_timeout,
                    },
                )
            } else {
                None
            },
            (ClosePhase::Closing { sent: false, drained }, CloseEvent::Sent(_)) => {
                Some(self.close_as_far_as(true, drained))
            },
            (ClosePhase::Closing { drained: false, .. }, CloseEvent::Discarded(true)) => {
                Some(CloseAction::Discard)
            },
            (ClosePhase::Closing { sent, drained: false }, CloseEvent::Discarded(false)) => {
                Some(self.close_as_far_as(sent, true))
            },
            (ClosePhase::Closing { .. }, CloseEvent::TimedOut) => Some(self.report()),
            _ => None,
        }
    }

    /// Goes on waiting, or reports if there is nothing left to wait for.
    fn close_as_far_as(&mut self, sent: bool, drained: bool) -> (action: CloseAction)
        ensures
            (final(self)@, action) == old(self)@.closes(sent, drained, CloseAction::Await),
    {
        if sent && drained {
            self.report()
        } else {
            self.closing = ClosePhase::Closing { sent, drained };
            CloseAction::Await
        }
    }

    /// Hands out what was seen.
    fn report(&mut self) -> (action: CloseAction)
        ensures
            (final(self)@, action) == old(self)@.reported(),
    {
        self.closing = ClosePhase::Reported;
        CloseAction::Report { close_frame: self.close_frame.take(), error: self.error.take() }
    }

    /// Takes an event of any part of the session.
    pub fn step(&mut self, event: SessionEvent) -> (action: Option<SessionAction>)
        ensures
            match old(self)@.step(event) {
                Some((next, expected)) => final(self)@ == next && action == Some(expected),
                None => final(self)@ == old(self)@ && action is None,
            },
            old(self)@.wf() ==> final(self)@.wf(),
    {
        match event {
            SessionEvent::Reader(event) => match self.read_from_socket(event) {
                Some(action) => Some(SessionAction::Reader(action)),
                None => None,
            },
            SessionEvent::Writer(event) => match self.write_to_socket(event) {
                Some(action) => Some(SessionAction::Writer(action)),
                None => None,
            },
            SessionEvent::Close(event) => match self.close_websocket(event) {
                Some(action) => Some(SessionAction::Close(action)),
                None => None,
            },
        }
    }
}

} // verus!

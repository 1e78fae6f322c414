//! What holds of a session whatever happens to it.

use std::time::Duration;
use tokio_tungstenite::tungstenite::protocol::CloseFrame;
use tokio_tungstenite::tungstenite::Error;
use vstd::prelude::*;

use crate::client::Message;
use crate::session::{
    CloseAction, CloseEvent, ClosePhase, Incoming, Outgoing, ReaderAction, ReaderEvent,
    ReaderPhase, SessionAction, SessionEvent, SessionState, SocketError, WriterAction,
    WriterEvent, WriterPhase,
};

verus! {

/// What became of a session: the events it took, and the actions they led to.
pub struct SessionHistory {
    pub state: SessionState,
    pub events: Seq<SessionEvent>,
    pub actions: Seq<SessionAction>,
}

/// The history of a session with `close_timeout` to which `trace` happened.
/// Events that it did not wait for leave no mark.
pub open spec fn session_history(close_timeout: Duration, trace: Seq<SessionEvent>) -> SessionHistory
    decreases trace.len(),
{
    if trace.len() == 0 {
        SessionHistory {
            state: SessionState::opened(close_timeout),
            events: Seq::empty(),
            actions: Seq::empty(),
        }
    } else {
        let before = session_history(close_timeout, trace.drop_last());
        match before.state.step(trace.last()) {
            Some((state, action)) => SessionHistory {
                state,
                events: before.events.push(trace.last()),
                actions: before.actions.push(action),
            },
            None => before,
        }
    }
}

/// The text or binary message that an event brings from the socket.
pub open spec fn message_read(event: SessionEvent) -> Option<Message> {
    match event {
        SessionEvent::Reader(ReaderEvent::Received(Some(Ok(Incoming::Text(text))))) => Some(
            Message::Text(text),
        ),
        SessionEvent::Reader(ReaderEvent::Received(Some(Ok(Incoming::Binary(bytes))))) => Some(
            Message::Binary(bytes),
        ),
        _ => None,
    }
}

/// The close frame that an event brings from the socket.
pub open spec fn close_frame_read(event: SessionEvent) -> Option<CloseFrame<'static>> {
    match event {
        SessionEvent::Reader(ReaderEvent::Received(Some(Ok(Incoming::Close(frame))))) => frame,
        _ => None,
    }
}

/// The error that an event brings from reading or writing, unless it merely
/// says that the connection is closed.
pub open spec fn fault_met(event: SessionEvent) -> Option<Error> {
    match event {
        SessionEvent::Reader(ReaderEvent::Received(Some(Err(SocketError::Other(error))))) => Some(
            error,
        ),
        SessionEvent::Writer(WriterEvent::Sent(Err(SocketError::Other(error)))) => Some(error),
        _ => None,
    }
}

/// The message that an event brings from the application.
pub open spec fn message_taken(event: SessionEvent) -> Option<Message> {
    match event {
        SessionEvent::Writer(WriterEvent::Received(message)) => message,
        _ => None,
    }
}

/// The message that an action hands to the application.
pub open spec fn message_forwarded(action: SessionAction) -> Option<Message> {
    match action {
        SessionAction::Reader(ReaderAction::Forward(message)) => Some(message),
        _ => None,
    }
}

/// What an action writes to the socket for the application.
pub open spec fn message_written(action: SessionAction) -> Option<Outgoing> {
    match action {
        SessionAction::Writer(WriterAction::Send(outgoing)) => Some(outgoing),
        _ => None,
    }
}

/// What an action tells the application about the end of the connection.
pub open spec fn report_made(action: SessionAction) -> Option<
    (Option<CloseFrame<'static>>, Option<Error>),
> {
    match action {
        SessionAction::Close(CloseAction::Report { close_frame, error }) => Some(
            (close_frame, error),
        ),
        _ => None,
    }
}

/// Marks where the application's channel is closed.
pub open spec fn channel_closed(action: SessionAction) -> Option<()> {
    match action {
        SessionAction::Writer(WriterAction::CloseAndDrain { .. }) => Some(()),
        _ => None,
    }
}

/// Marks where the writer discards a message from a closed channel, or
/// finishes.
pub open spec fn discards_or_finishes(action: SessionAction) -> Option<()> {
    match action {
        SessionAction::Writer(WriterAction::Discard) => Some(()),
        SessionAction::Writer(WriterAction::Finish) => Some(()),
        _ => None,
    }
}

/// Whether an action cancels the session.
pub open spec fn cancels(action: SessionAction) -> bool {
    match action {
        SessionAction::Reader(ReaderAction::Finish { cancel }) => cancel,
        SessionAction::Writer(WriterAction::CloseAndDrain { cancel }) => cancel,
        _ => false,
    }
}

/// The action of the reader that an action is, if it is one.
pub open spec fn reader_action(action: SessionAction) -> Option<ReaderAction> {
    match action {
        SessionAction::Reader(action) => Some(action),
        _ => None,
    }
}

/// The action of the writer that an action is, if it is one.
pub open spec fn writer_action(action: SessionAction) -> Option<WriterAction> {
    match action {
        SessionAction::Writer(action) => Some(action),
        _ => None,
    }
}

impl SessionHistory {
    /// What the reader was last told to do.
    pub open spec fn last_read(self) -> ReaderAction {
        let actions = crate::history::picked(self.actions, |action| reader_action(action));
        if actions.len() == 0 {
            SessionState::first_actions().0
        } else {
            actions.last()
        }
    }

    /// What the writer was last told to do.
    pub open spec fn last_write(self) -> WriterAction {
        let actions = crate::history::picked(self.actions, |action| writer_action(action));
        if actions.len() == 0 {
            SessionState::first_actions().1
        } else {
            actions.last()
        }
    }

    /// Whether closing the socket has begun.
    pub open spec fn close_begun(self) -> bool {
        self.events.contains(SessionEvent::Close(CloseEvent::Joined))
    }

    /// Whether the close message was written, or failed to be.
    pub open spec fn close_sent(self) -> bool {
        exists|result: Result<(), SocketError>|
            self.events.contains(SessionEvent::Close(CloseEvent::Sent(result)))
    }

    /// Whether the socket has ended while it was closed.
    pub open spec fn close_drained(self) -> bool {
        self.events.contains(SessionEvent::Close(CloseEvent::Discarded(false)))
    }

    /// Whether the application was told of the end.
    pub open spec fn close_reported(self) -> bool {
        crate::history::picked(self.actions, |action| report_made(action)).len() > 0
    }
}

/// Whether `event` is something that can come of the reader's `action`.
pub open spec fn comes_of_reading(event: ReaderEvent, action: ReaderAction) -> bool {
    match action {
        ReaderAction::Read => event is Received,
        ReaderAction::Forward(_) => event is Forwarded,
        ReaderAction::Finish { .. } => false,
    }
}

/// Whether `event` is something that can come of the writer's `action`.
pub open spec fn comes_of_writing(event: WriterEvent, action: WriterAction) -> bool {
    match action {
        WriterAction::Receive => event is Received,
        WriterAction::Send(_) => event is Sent,
        WriterAction::CloseAndDrain { .. } | WriterAction::Discard => event is Discarded,
        WriterAction::Finish => false,
    }
}

/// Every session is well-formed, whatever happens to it.
pub proof fn law_sessions_stay_well_formed(close_timeout: Duration, trace: Seq<SessionEvent>)
    ensures
        session_history(close_timeout, trace).state.wf(),
        session_history(close_timeout, trace).state.close_timeout == close_timeout,
    decreases trace.len(),
{
    if trace.len() > 0 {
        law_sessions_stay_well_formed(close_timeout, trace.drop_last());
    }
}

/// A connection that was just opened reads from the socket and waits for the
/// application, and takes what comes of either, whatever that is.
pub proof fn law_first_actions_are_awaited(
    close_timeout: Duration,
    item: Option<Result<Incoming, SocketError>>,
    message: Option<Message>,
)
    ensures
        SessionState::first_actions() == (ReaderAction::Read, WriterAction::Receive),
        SessionState::opened(close_timeout).reader_step(ReaderEvent::Received(item)) is Some,
        SessionState::opened(close_timeout).writer_step(WriterEvent::Received(message)) is Some,
{
}

/// Whatever comes of the reader's last action is taken, and so is that it was
/// cancelled, as soon as the session is and as long as the reader has not
/// finished; nothing else is.
pub proof fn law_exactly_the_outcome_of_reading_is_taken(
    close_timeout: Duration,
    trace: Seq<SessionEvent>,
    event: ReaderEvent,
)
    ensures
        ({
            let history = session_history(close_timeout, trace);
            let last = history.last_read();
            history.state.reader_step(event) is Some <==> if event is Cancelled {
                last !is Finish && history.state.cancelled()
            } else {
                comes_of_reading(event, last)
            }
        }),
{
    lemma_last_actions(close_timeout, trace);
}

/// Whatever comes of the writer's last action is taken, and so is that it was
/// cancelled, as soon as the session is and as long as the writer takes
/// messages; nothing else is.
pub proof fn law_exactly_the_outcome_of_writing_is_taken(
    close_timeout: Duration,
    trace: Seq<SessionEvent>,
    event: WriterEvent,
)
    ensures
        ({
            let history = session_history(close_timeout, trace);
            let last = history.last_write();
            history.state.writer_step(event) is Some <==> if event is Cancelled {
                (last is Receive || last is Send) && history.state.cancelled()
            } else {
                comes_of_writing(event, last)
            }
        }),
{
    lemma_last_actions(close_timeout, trace);
}

/// Closing begins once, when reader and writer have finished. From then until
/// the end is reported, the time may run out at any moment, and what comes of
/// writing the close message and of discarding is taken as long as either goes
/// on; nothing else is.
pub proof fn law_exactly_the_outcome_of_closing_is_taken(
    close_timeout: Duration,
    trace: Seq<SessionEvent>,
    event: CloseEvent,
)
    ensures
        ({
            let history = session_history(close_timeout, trace);
            let closing = history.close_begun() && !history.close_reported();
            history.state.close_step(event) is Some <==> match event {
                CloseEvent::Joined => !history.close_begun() && history.last_read() is Finish
                    && history.last_write() is Finish,
                CloseEvent::Sent(_) => closing && !history.close_sent(),
                CloseEvent::Discarded(_) => closing && !history.close_drained(),
                CloseEvent::TimedOut => closing,
            }
        }),
{
    lemma_last_actions(close_timeout, trace);
    lemma_closing_so_far(close_timeout, trace);
}

/// Where reader and writer stand follows from what they were last told.
proof fn lemma_last_actions(close_timeout: Duration, trace: Seq<SessionEvent>)
    ensures
        ({
            let history = session_history(close_timeout, trace);
            &&& history.state.reader == match history.last_read() {
                ReaderAction::Read => ReaderPhase::Reading,
                ReaderAction::Forward(_) => ReaderPhase::Forwarding,
                ReaderAction::Finish { .. } => ReaderPhase::Finished,
            }
            &&& history.state.writer == match history.last_write() {
                WriterAction::Receive => WriterPhase::Receiving,
                WriterAction::Send(_) => WriterPhase::Sending,
                WriterAction::CloseAndDrain { .. } | WriterAction::Discard =>
                    WriterPhase::Draining,
                WriterAction::Finish => WriterPhase::Finished,
            }
        }),
    decreases trace.len(),
{
    if trace.len() > 0 {
        lemma_last_actions(close_timeout, trace.drop_last());
        let before = session_history(close_timeout, trace.drop_last());
        if let Some((_, action)) = before.state.step(trace.last()) {
            crate::history::lemma_picked_push(
                before.actions,
                action,
                |action| reader_action(action),
            );
            crate::history::lemma_picked_push(
                before.actions,
                action,
                |action| writer_action(action),
            );
        }
    }
}

/// How far the socket is closed follows from what has happened.
proof fn lemma_closing_so_far(close_timeout: Duration, trace: Seq<SessionEvent>)
    ensures
        ({
            let history = session_history(close_timeout, trace);
            &&& history.close_begun() <==> history.state.closing !is Pending
            &&& history.close_reported() <==> history.state.closing is Reported
            &&& history.state.closing is Pending ==> !history.close_sent()
                && !history.close_drained()
            &&& history.state.closing matches ClosePhase::Closing { sent, drained } ==> {
                &&& sent == history.close_sent()
                &&& drained == history.close_drained()
            }
        }),
    decreases trace.len(),
{
    law_the_end_is_reported_once(close_timeout, trace);
    if trace.len() > 0 {
        lemma_closing_so_far(close_timeout, trace.drop_last());
        let before = session_history(close_timeout, trace.drop_last());
        let after = session_history(close_timeout, trace);
        let event = trace.last();
        if let Some((_, action)) = before.state.step(event) {
            assert forall|other: SessionEvent|
                after.events.contains(other) <==> before.events.contains(other) || other
                    == event by {
                if before.events.contains(other) {
                    let i = choose|i: int| 0 <= i < before.events.len() && before.events[i] == other;
                    assert(after.events[i] == other);
                }
                assert(after.events[before.events.len() as int] == event);
            }
            if let SessionEvent::Close(CloseEvent::Sent(result)) = event {
                assert(after.events.contains(SessionEvent::Close(CloseEvent::Sent(result))));
            }
            if before.close_sent() {
                let result = choose|result: Result<(), SocketError>|
                    before.events.contains(SessionEvent::Close(CloseEvent::Sent(result)));
                assert(after.events.contains(SessionEvent::Close(CloseEvent::Sent(result))));
            }
        }
    }
}

/// The application is handed exactly the text and binary messages that were
/// read from the socket, unchanged and in order.
pub proof fn law_what_is_read_is_forwarded(close_timeout: Duration, trace: Seq<SessionEvent>)
    ensures
        ({
            let history = session_history(close_timeout, trace);
            crate::history::picked(history.actions, |action| message_forwarded(action))
                == crate::history::picked(history.events, |event| message_read(event))
        }),
    decreases trace.len(),
{
    if trace.len() > 0 {
        law_what_is_read_is_forwarded(close_timeout, trace.drop_last());
        let before = session_history(close_timeout, trace.drop_last());
        if let Some((_, action)) = before.state.step(trace.last()) {
            crate::history::lemma_picked_push(
                before.actions,
                action,
                |action| message_forwarded(action),
            );
            crate::history::lemma_picked_push(
                before.events,
                trace.last(),
                |event| message_read(event),
            );
        }
    }
}

/// The socket is written exactly the messages that the application sent and
/// the writer took, unchanged and in order.
pub proof fn law_what_is_taken_is_written(close_timeout: Duration, trace: Seq<SessionEvent>)
    ensures
        ({
            let history = session_history(close_timeout, trace);
            crate::history::picked(history.actions, |action| message_written(action))
                == crate::history::picked(history.events, |event| message_taken(event)).map_values(
                |message| Outgoing::carrying(message),
            )
        }),
    decreases trace.len(),
{
    let carrying = |message| Outgoing::carrying(message);
    let history = session_history(close_timeout, trace);
    if trace.len() > 0 {
        law_what_is_taken_is_written(close_timeout, trace.drop_last());
        let before = session_history(close_timeout, trace.drop_last());
        if let Some((_, action)) = before.state.step(trace.last()) {
            crate::history::lemma_picked_push(
                before.actions,
                action,
                |action| message_written(action),
            );
            crate::history::lemma_picked_push(
                before.events,
                trace.last(),
                |event| message_taken(event),
            );
            assert(crate::history::picked(history.actions, |action| message_written(action))
                =~= crate::history::picked(
                history.events,
                |event| message_taken(event),
            ).map_values(carrying));
        }
    } else {
        assert(crate::history::picked(history.events, |event| message_taken(event)).map_values(
            carrying,
        ) =~= Seq::empty());
    }
}

/// What is written for a message holds the same text or the same bytes.
pub proof fn law_what_is_written_holds_the_message(text: String, bytes: Vec<u8>)
    ensures
        Outgoing::carrying(Message::Text(text)) == Outgoing::Text(text),
        Outgoing::carrying(Message::Binary(bytes)) == Outgoing::Binary(bytes),
{
}

/// What is written for a message arrives at another client as that message.
pub proof fn law_messages_survive_the_wire(message: Message)
    ensures
        Outgoing::carrying(message).arrives_as().message() == Some(message),
{
}

/// Until the end of the connection is reported, the session holds the first
/// close frame and the first error that were seen.
pub proof fn law_first_of_each_is_kept(close_timeout: Duration, trace: Seq<SessionEvent>)
    ensures
        ({
            let history = session_history(close_timeout, trace);
            history.state.closing !is Reported ==> {
                &&& history.state.close_frame == crate::history::first(
                    crate::history::picked(history.events, |event| close_frame_read(event)),
                )
                &&& history.state.error == crate::history::first(
                    crate::history::picked(history.events, |event| fault_met(event)),
                )
            }
        }),
    decreases trace.len(),
{
    if trace.len() > 0 {
        law_first_of_each_is_kept(close_timeout, trace.drop_last());
        let before = session_history(close_timeout, trace.drop_last());
        if let Some((_, action)) = before.state.step(trace.last()) {
            law_sessions_stay_well_formed(close_timeout, trace.drop_last());
            crate::history::lemma_picked_push(
                before.events,
                trace.last(),
                |event| close_frame_read(event),
            );
            crate::history::lemma_picked_push(
                before.events,
                trace.last(),
                |event| fault_met(event),
            );
        }
    }
}

/// The application is told of the end of a connection exactly once, when the
/// session is over, and it is told the first close frame and the first error
/// that were seen.
pub proof fn law_the_end_is_reported_once(close_timeout: Duration, trace: Seq<SessionEvent>)
    ensures
        ({
            let history = session_history(close_timeout, trace);
            let reports = crate::history::picked(history.actions, |action| report_made(action));
            reports == if history.state.closing is Reported {
                seq![
                    (
                        crate::history::first(
                            crate::history::picked(history.events, |event| close_frame_read(event)),
                        ),
                        crate::history::first(
                            crate::history::picked(history.events, |event| fault_met(event)),
                        ),
                    ),
                ]
            } else {
                Seq::empty()
            }
        }),
    decreases trace.len(),
{
    if trace.len() > 0 {
        law_the_end_is_reported_once(close_timeout, trace.drop_last());
        law_first_of_each_is_kept(close_timeout, trace.drop_last());
        law_sessions_stay_well_formed(close_timeout, trace.drop_last());
        let before = session_history(close_timeout, trace.drop_last());
        if let Some((_, action)) = before.state.step(trace.last()) {
            crate::history::lemma_picked_push(
                before.actions,
                action,
                |action| report_made(action),
            );
            crate::history::lemma_picked_push(
                before.events,
                trace.last(),
                |event| close_frame_read(event),
            );
            crate::history::lemma_picked_push(
                before.events,
                trace.last(),
                |event| fault_met(event),
            );
        }
    }
}

/// Once the end of the connection is reported, the session waits for nothing;
/// and it is reported only when reader and writer are done, and the socket was
/// being closed.
pub proof fn law_the_report_comes_last(
    close_timeout: Duration,
    trace: Seq<SessionEvent>,
    event: SessionEvent,
)
    ensures
        ({
            let state = session_history(close_timeout, trace).state;
            &&& state.closing is Reported ==> state.step(event) is None
            &&& state.step(event) matches Some((_, action)) ==> report_made(action) is Some ==> {
                &&& state.reader is Finished
                &&& state.writer is Finished
                &&& state.closing is Closing
            }
        }),
{
    law_sessions_stay_well_formed(close_timeout, trace);
}

/// Whatever has happened, the socket is closed with a close message without a
/// frame, and within the time that the session was given when it was opened.
pub proof fn law_closing_keeps_to_the_timeout(close_timeout: Duration, trace: Seq<SessionEvent>)
    ensures
        ({
            let history = session_history(close_timeout, trace);
            forall|i: int|
                0 <= i < history.actions.len() ==> (#[trigger] history.actions[i] matches
                    SessionAction::Close(CloseAction::Start { message, timeout }) ==> {
                    &&& message == Outgoing::Close(None)
                    &&& timeout == close_timeout
                })
        }),
    decreases trace.len(),
{
    if trace.len() > 0 {
        law_closing_keeps_to_the_timeout(close_timeout, trace.drop_last());
        law_sessions_stay_well_formed(close_timeout, trace.drop_last());
    }
}

/// The application's channel is closed exactly once, when the writer leaves
/// off taking messages; until then nothing is discarded, and the writer has not
/// finished.
pub proof fn law_the_channel_is_closed_once(close_timeout: Duration, trace: Seq<SessionEvent>)
    ensures
        ({
            let history = session_history(close_timeout, trace);
            let closed = crate::history::picked(history.actions, |action| channel_closed(action));
            let discarded = crate::history::picked(
                history.actions,
                |action| discards_or_finishes(action),
            );
            if history.state.writer == WriterPhase::Receiving || history.state.writer
                == WriterPhase::Sending {
                closed.len() == 0 && discarded.len() == 0
            } else {
                closed.len() == 1
            }
        }),
    decreases trace.len(),
{
    if trace.len() > 0 {
        law_the_channel_is_closed_once(close_timeout, trace.drop_last());
        let before = session_history(close_timeout, trace.drop_last());
        if let Some((_, action)) = before.state.step(trace.last()) {
            crate::history::lemma_picked_push(
                before.actions,
                action,
                |action| channel_closed(action),
            );
            crate::history::lemma_picked_push(
                before.actions,
                action,
                |action| discards_or_finishes(action),
            );
        }
    }
}

/// A session becomes cancelled with the first action that cancels it, and
/// stays so.
pub proof fn law_cancelling_is_for_good(state: SessionState, event: SessionEvent)
    ensures
        state.step(event) matches Some((next, action)) ==> {
            next.cancelled() <==> state.cancelled() || cancels(action)
        },
{
}

/// Once the reader or the writer has stopped, cancelling the other and letting
/// the time for closing run out brings the session to its report, with what
/// was seen so far. Nothing more is needed from either side of the connection.
pub proof fn law_a_cancelled_session_can_end(state: SessionState)
    requires
        state.wf(),
        state.cancelled(),
        state.closing !is Reported,
    ensures
        ({
            let unread = match state.step(SessionEvent::Reader(ReaderEvent::Cancelled)) {
                Some((next, _)) => next,
                None => state,
            };
            let unwritten = match unread.step(SessionEvent::Writer(WriterEvent::Cancelled)) {
                Some((next, _)) => next,
                None => unread,
            };
            let drained = match unwritten.step(
                SessionEvent::Writer(WriterEvent::Discarded(false)),
            ) {
                Some((next, _)) => next,
                None => unwritten,
            };
            let closing = match drained.step(SessionEvent::Close(CloseEvent::Joined)) {
                Some((next, _)) => next,
                None => drained,
            };
            let end = closing.step(SessionEvent::Close(CloseEvent::TimedOut));
            &&& end matches Some((next, action))
            &&& next.closing is Reported
            &&& report_made(action) == Some((state.close_frame, state.error))
        }),
{
}

/// What the writer does with an event does not depend on what the reader is
/// waiting for, nor the other way round, so that neither can keep the other
/// waiting; and neither touches where the other stands.
pub proof fn law_reader_and_writer_do_not_wait_for_each_other(
    state: SessionState,
    reader: ReaderPhase,
    writer: WriterPhase,
    read: ReaderEvent,
    written: WriterEvent,
)
    requires
        read !is Cancelled,
        written !is Cancelled,
    ensures
        match (state.writer_step(written), (SessionState { reader, ..state }).writer_step(written)) {
            (Some((a, action)), Some((b, other))) => action == other && a.writer == b.writer
                && a.reader == state.reader && b.reader == reader,
            (None, None) => true,
            _ => false,
        },
        match (state.reader_step(read), (SessionState { writer, ..state }).reader_step(read)) {
            (Some((a, action)), Some((b, other))) => action == other && a.reader == b.reader
                && a.writer == state.writer && b.writer == writer,
            (None, None) => true,
            _ => false,
        },
{
}

/// Once the writer accepts no more from the application, nothing of the
/// application's is written any more.
pub proof fn law_nothing_is_written_after_draining(state: SessionState, event: SessionEvent)
    requires
        !state.writing(),
    ensures
        state.step(event) matches Some((next, action)) ==> {
            &&& message_written(action) is None
            &&& !next.writing()
        },
{
}

} // verus!

//! What each part of a session makes of each event, said of the event and of
//! what it leads to.

use std::time::Duration;
use tokio_tungstenite::tungstenite::protocol::CloseFrame;
use tokio_tungstenite::tungstenite::Error;
use vstd::prelude::*;

use crate::client::Message;
use crate::session::{
    CloseAction, CloseEvent, ClosePhase, Incoming, Outgoing, ReaderAction, ReaderEvent,
    ReaderPhase, SessionAction, SessionEvent, SessionState, SocketError, WriterAction, WriterEvent,
    WriterPhase,
};

verus! {

/// A connection that was just opened is read from and written to, nothing was
/// seen of its end, and it has the time for closing that it was given.
pub proof fn law_a_session_opens_idle(close_timeout: Duration)
    ensures
        ({
            let state = SessionState::opened(close_timeout);
            &&& state.close_timeout == close_timeout
            &&& state.reader == ReaderPhase::Reading
            &&& state.writer == WriterPhase::Receiving
            &&& state.closing == ClosePhase::Pending
            &&& state.close_frame is None
            &&& state.error is None
        }),
{
}

/// A session is cancelled exactly if its reader has finished, or its writer
/// takes no more messages from the application.
pub proof fn law_what_cancelled_means(state: SessionState)
    ensures
        state.cancelled() <==> state.reader == ReaderPhase::Finished || state.writer
            == WriterPhase::Draining || state.writer == WriterPhase::Finished,
{
}

/// Driving a session as a whole and driving its parts comes to the same.
pub proof fn law_parts_make_up_the_session(
    state: SessionState,
    read: ReaderEvent,
    written: WriterEvent,
    closed: CloseEvent,
)
    ensures
        match (state.step(SessionEvent::Reader(read)), state.reader_step(read)) {
            (Some((next, SessionAction::Reader(action))), Some((part_next, part_action))) => next
                == part_next && action == part_action,
            (None, None) => true,
            _ => false,
        },
        match (state.step(SessionEvent::Writer(written)), state.writer_step(written)) {
            (Some((next, SessionAction::Writer(action))), Some((part_next, part_action))) => next
                == part_next && action == part_action,
            (None, None) => true,
            _ => false,
        },
        match (state.step(SessionEvent::Close(closed)), state.close_step(closed)) {
            (Some((next, SessionAction::Close(action))), Some((part_next, part_action))) => next
                == part_next && action == part_action,
            (None, None) => true,
            _ => false,
        },
{
}

// The reader.

/// A text message that is read goes to the application as it is, and only
/// where the reader stands changes.
pub proof fn law_text_is_forwarded(state: SessionState, text: String)
    requires
        state.reader == ReaderPhase::Reading,
    ensures
        state.reader_step(ReaderEvent::Received(Some(Ok(Incoming::Text(text))))) == Some(
            (
                SessionState { reader: ReaderPhase::Forwarding, ..state },
                ReaderAction::Forward(Message::Text(text)),
            ),
        ),
{
}

/// A binary message that is read goes to the application as it is, and only
/// where the reader stands changes.
pub proof fn law_binary_is_forwarded(state: SessionState, bytes: Vec<u8>)
    requires
        state.reader == ReaderPhase::Reading,
    ensures
        state.reader_step(ReaderEvent::Received(Some(Ok(Incoming::Binary(bytes))))) == Some(
            (
                SessionState { reader: ReaderPhase::Forwarding, ..state },
                ReaderAction::Forward(Message::Binary(bytes)),
            ),
        ),
{
}

/// Nothing else is ever forwarded: where the reader hands a message to the
/// application, it has just read that message.
pub proof fn law_only_what_was_read_is_forwarded(state: SessionState, event: ReaderEvent)
    ensures
        state.reader_step(event) matches Some((_, ReaderAction::Forward(message))) ==> match message {
            Message::Text(text) => event == ReaderEvent::Received(Some(Ok(Incoming::Text(text)))),
            Message::Binary(bytes) => event == ReaderEvent::Received(
                Some(Ok(Incoming::Binary(bytes))),
            ),
        },
{
}

/// Pings, pongs, raw frames and close messages without a frame leave no trace:
/// the reader reads on.
pub proof fn law_control_messages_are_skipped(state: SessionState, incoming: Incoming)
    requires
        state.reader == ReaderPhase::Reading,
        incoming is Ping || incoming is Pong || incoming is Frame || incoming == Incoming::Close(
            None,
        ),
    ensures
        state.reader_step(ReaderEvent::Received(Some(Ok(incoming)))) == Some(
            (state, ReaderAction::Read),
        ),
{
}

/// The frame of a close message is kept if it is the first, and dropped
/// otherwise; the reader reads on.
pub proof fn law_the_first_close_frame_stays(state: SessionState, frame: CloseFrame<'static>)
    requires
        state.reader == ReaderPhase::Reading,
    ensures
        state.reader_step(ReaderEvent::Received(Some(Ok(Incoming::Close(Some(frame)))))) matches Some(
            (next, action),
        ) && {
            &&& action == ReaderAction::Read
            &&& state.close_frame is None ==> next.close_frame == Some(frame)
            &&& state.close_frame is Some ==> next.close_frame == state.close_frame
            &&& next == SessionState { close_frame: next.close_frame, ..state }
        },
{
}

/// The end of the socket ends reading, and cancels the session.
pub proof fn law_the_end_of_the_socket_ends_reading(state: SessionState)
    requires
        state.reader == ReaderPhase::Reading,
    ensures
        state.reader_step(ReaderEvent::Received(None)) == Some(
            (
                SessionState { reader: ReaderPhase::Finished, ..state },
                ReaderAction::Finish { cancel: true },
            ),
        ),
{
}

/// That the connection is merely closed ends neither reading nor writing, and
/// is not kept as an error.
pub proof fn law_a_closed_connection_is_no_error(state: SessionState, error: SocketError)
    requires
        error is ConnectionClosed || error is AlreadyClosed,
    ensures
        state.reader == ReaderPhase::Reading ==> state.reader_step(
            ReaderEvent::Received(Some(Err(error))),
        ) == Some((state, ReaderAction::Read)),
        state.writer == WriterPhase::Sending ==> state.writer_step(WriterEvent::Sent(Err(error)))
            == Some(
            (SessionState { writer: WriterPhase::Receiving, ..state }, WriterAction::Receive),
        ),
{
}

/// Any other error in reading ends reading and cancels the session; it is kept
/// if it is the first, and dropped otherwise.
pub proof fn law_an_error_ends_reading(state: SessionState, error: Error)
    requires
        state.reader == ReaderPhase::Reading,
    ensures
        state.reader_step(ReaderEvent::Received(Some(Err(SocketError::Other(error))))) matches Some(
            (next, action),
        ) && {
            &&& action == ReaderAction::Finish { cancel: true }
            &&& state.error is None ==> next.error == Some(error)
            &&& state.error is Some ==> next.error == state.error
            &&& next == SessionState {
                reader: ReaderPhase::Finished,
                error: next.error,
                ..state
            }
        },
{
}

/// If the application accepts a message the reader reads on, and if it does
/// not, reading ends and the session is cancelled.
pub proof fn law_reading_lasts_as_long_as_the_application_accepts(state: SessionState)
    requires
        state.reader == ReaderPhase::Forwarding,
    ensures
        state.reader_step(ReaderEvent::Forwarded(true)) == Some(
            (SessionState { reader: ReaderPhase::Reading, ..state }, ReaderAction::Read),
        ),
        state.reader_step(ReaderEvent::Forwarded(false)) == Some(
            (
                SessionState { reader: ReaderPhase::Finished, ..state },
                ReaderAction::Finish { cancel: true },
            ),
        ),
{
}

/// A reader at work finishes when the session was cancelled by the writer, and
/// only then.
pub proof fn law_a_cancelled_reader_finishes(state: SessionState)
    requires
        state.reader != ReaderPhase::Finished,
    ensures
        state.reader_step(ReaderEvent::Cancelled) == if state.writer == WriterPhase::Draining
            || state.writer == WriterPhase::Finished {
            Some(
                (
                    SessionState { reader: ReaderPhase::Finished, ..state },
                    ReaderAction::Finish { cancel: false },
                ),
            )
        } else {
            None
        },
{
}

/// The reader waits for the socket while it reads, for the application while
/// it forwards, and for nothing once it has finished.
pub proof fn law_what_the_reader_waits_for(state: SessionState, event: ReaderEvent)
    ensures
        event is Received ==> (state.reader_step(event) is Some <==> state.reader
            == ReaderPhase::Reading),
        event is Forwarded ==> (state.reader_step(event) is Some <==> state.reader
            == ReaderPhase::Forwarding),
        state.reader == ReaderPhase::Finished ==> state.reader_step(event) is None,
{
}

// The writer.

/// A message of the application is written as it is, and only where the writer
/// stands changes.
pub proof fn law_messages_are_written(state: SessionState, text: String, bytes: Vec<u8>)
    requires
        state.writer == WriterPhase::Receiving,
    ensures
        state.writer_step(WriterEvent::Received(Some(Message::Text(text)))) == Some(
            (
                SessionState { writer: WriterPhase::Sending, ..state },
                WriterAction::Send(Outgoing::Text(text)),
            ),
        ),
        state.writer_step(WriterEvent::Received(Some(Message::Binary(bytes)))) == Some(
            (
                SessionState { writer: WriterPhase::Sending, ..state },
                WriterAction::Send(Outgoing::Binary(bytes)),
            ),
        ),
{
}

/// Nothing else is ever written for the application: where the writer writes,
/// it was just sent that message.
pub proof fn law_only_what_was_taken_is_written(state: SessionState, event: WriterEvent)
    ensures
        state.writer_step(event) matches Some((_, WriterAction::Send(outgoing))) ==> match outgoing {
            Outgoing::Text(text) => event == WriterEvent::Received(Some(Message::Text(text))),
            Outgoing::Binary(bytes) => event == WriterEvent::Received(Some(Message::Binary(bytes))),
            Outgoing::Close(_) => false,
        },
{
}

/// After a message was written, the writer waits for the next.
pub proof fn law_writing_goes_on(state: SessionState)
    requires
        state.writer == WriterPhase::Sending,
    ensures
        state.writer_step(WriterEvent::Sent(Ok(()))) == Some(
            (SessionState { writer: WriterPhase::Receiving, ..state }, WriterAction::Receive),
        ),
{
}

/// Once the application will send no more, its channel is closed and drained,
/// and the session is cancelled.
pub proof fn law_a_silent_application_ends_writing(state: SessionState)
    requires
        state.writer == WriterPhase::Receiving,
    ensures
        state.writer_step(WriterEvent::Received(None)) == Some(
            (
                SessionState { writer: WriterPhase::Draining, ..state },
                WriterAction::CloseAndDrain { cancel: true },
            ),
        ),
{
}

/// An error in writing that says more than that the connection is closed ends
/// writing: the application's channel is closed and drained, and the session
/// is cancelled. The error is kept if it is the first, and dropped otherwise.
pub proof fn law_an_error_ends_writing(state: SessionState, error: Error)
    requires
        state.writer == WriterPhase::Sending,
    ensures
        state.writer_step(WriterEvent::Sent(Err(SocketError::Other(error)))) matches Some(
            (next, action),
        ) && {
            &&& action == WriterAction::CloseAndDrain { cancel: true }
            &&& state.error is None ==> next.error == Some(error)
            &&& state.error is Some ==> next.error == state.error
            &&& next == SessionState {
                writer: WriterPhase::Draining,
                error: next.error,
                ..state
            }
        },
{
}

/// A writer at work stops when the session was cancelled by the reader, and
/// only then; whatever else was seen, the application's channel is closed and
/// drained.
pub proof fn law_a_cancelled_writer_closes_the_channel(state: SessionState)
    requires
        state.writer == WriterPhase::Receiving || state.writer == WriterPhase::Sending,
    ensures
        state.writer_step(WriterEvent::Cancelled) == if state.reader == ReaderPhase::Finished {
            Some(
                (
                    SessionState { writer: WriterPhase::Draining, ..state },
                    WriterAction::CloseAndDrain { cancel: false },
                ),
            )
        } else {
            None
        },
{
}

/// Whenever the writer stops taking messages, whatever the reason, the
/// application's channel is closed; and it is closed at no other time.
pub proof fn law_leaving_off_writing_closes_the_channel(state: SessionState, event: WriterEvent)
    ensures
        state.writer_step(event) matches Some((next, action)) ==> {
            action is CloseAndDrain <==> {
                &&& state.writer == WriterPhase::Receiving || state.writer == WriterPhase::Sending
                &&& next.writer != WriterPhase::Receiving
                &&& next.writer != WriterPhase::Sending
            }
        },
{
}

/// What is left in the closed channel is discarded one by one, until there is
/// nothing left; then the writer has finished.
pub proof fn law_draining_lasts_until_nothing_is_left(state: SessionState)
    requires
        state.writer == WriterPhase::Draining,
    ensures
        state.writer_step(WriterEvent::Discarded(true)) == Some((state, WriterAction::Discard)),
        state.writer_step(WriterEvent::Discarded(false)) == Some(
            (SessionState { writer: WriterPhase::Finished, ..state }, WriterAction::Finish),
        ),
{
}

/// The writer waits for the application while it receives, for the socket
/// while it sends, for what is left while it drains, and for nothing once it
/// has finished.
pub proof fn law_what_the_writer_waits_for(state: SessionState, event: WriterEvent)
    ensures
        event is Received ==> (state.writer_step(event) is Some <==> state.writer
            == WriterPhase::Receiving),
        event is Sent ==> (state.writer_step(event) is Some <==> state.writer
            == WriterPhase::Sending),
        event is Discarded ==> (state.writer_step(event) is Some <==> state.writer
            == WriterPhase::Draining),
        event is Cancelled ==> (state.writer_step(event) is Some ==> state.writer
            == WriterPhase::Receiving || state.writer == WriterPhase::Sending),
        state.writer == WriterPhase::Finished ==> state.writer_step(event) is None,
{
}

// Closing.

/// Once reader and writer have finished, and not before, closing begins: a
/// close message without a frame is written, within the time that the session
/// was given.
pub proof fn law_closing_begins_when_both_have_finished(state: SessionState)
    requires
        state.closing == ClosePhase::Pending,
    ensures
        state.close_step(CloseEvent::Joined) == if state.reader == ReaderPhase::Finished
            && state.writer == WriterPhase::Finished {
            Some(
                (
                    SessionState {
                        closing: ClosePhase::Closing { sent: false, drained: false },
                        ..state
                    },
                    CloseAction::Start {
                        message: Outgoing::Close(None),
                        timeout: state.close_timeout,
                    },
                ),
            )
        } else {
            None
        },
{
}

/// However closing begins, it is with a close message without a frame, and
/// with the time that the session was given.
pub proof fn law_closing_takes_the_time_it_was_given(state: SessionState, event: CloseEvent)
    ensures
        state.close_step(event) matches Some((_, CloseAction::Start { message, timeout })) ==> {
            &&& message == Outgoing::Close(None)
            &&& timeout == state.close_timeout
        },
{
}

/// However closing ends, the application is told the close frame and the error
/// that were kept, and the session keeps neither any longer.
pub proof fn law_reports_tell_what_was_kept(state: SessionState, event: CloseEvent)
    ensures
        state.close_step(event) matches Some((next, action)) ==> {
            &&& action is Report <==> next.closing == ClosePhase::Reported
            &&& action matches CloseAction::Report { close_frame, error } ==> {
                &&& close_frame == state.close_frame
                &&& error == state.error
                &&& next == SessionState {
                    closing: ClosePhase::Reported,
                    close_frame: None,
                    error: None,
                    ..state
                }
            }
        },
{
}

/// Closing is over as soon as the close message is out, or failed to be, and
/// the socket has ended, in whichever order; until then what still arrives is
/// discarded, and nothing but how far closing has come changes.
pub proof fn law_closing_ends_when_both_its_parts_have(
    state: SessionState,
    result: Result<(), SocketError>,
)
    ensures
        state.closing == (ClosePhase::Closing { sent: false, drained: false })
            ==> state.close_step(CloseEvent::Sent(result)) == Some(
            (
                SessionState {
                    closing: ClosePhase::Closing { sent: true, drained: false },
                    ..state
                },
                CloseAction::Await,
            ),
        ),
        state.closing == (ClosePhase::Closing { sent: false, drained: true }) ==> (state.close_step(
            CloseEvent::Sent(result),
        ) matches Some((_, action)) && action is Report),
        state.closing == (ClosePhase::Closing { sent: false, drained: false })
            ==> state.close_step(CloseEvent::Discarded(false)) == Some(
            (
                SessionState {
                    closing: ClosePhase::Closing { sent: false, drained: true },
                    ..state
                },
                CloseAction::Await,
            ),
        ),
        state.closing == (ClosePhase::Closing { sent: true, drained: false }) ==> (state.close_step(
            CloseEvent::Discarded(false),
        ) matches Some((_, action)) && action is Report),
        state.closing matches ClosePhase::Closing { sent, drained: false } ==> state.close_step(
            CloseEvent::Discarded(true),
        ) == Some((state, CloseAction::Discard)),
{
}

/// When the time for closing is up, closing is over, however far it has come.
pub proof fn law_closing_ends_when_the_time_is_up(state: SessionState)
    requires
        state.closing is Closing,
    ensures
        state.close_step(CloseEvent::TimedOut) matches Some((_, action)) && action is Report,
{
}

/// Closing waits for reader and writer before it begins, for what is still
/// going on while it lasts, and for nothing once it is over.
pub proof fn law_what_closing_waits_for(state: SessionState, event: CloseEvent)
    ensures
        event is Joined ==> (state.close_step(event) is Some <==> state.closing
            == ClosePhase::Pending && state.reader == ReaderPhase::Finished && state.writer
            == WriterPhase::Finished),
        event is Sent ==> (state.close_step(event) is Some <==> (state.closing matches
            ClosePhase::Closing { sent, .. } && !sent)),
        event is Discarded ==> (state.close_step(event) is Some <==> (state.closing matches
            ClosePhase::Closing { drained, .. } && !drained)),
        event is TimedOut ==> (state.close_step(event) is Some <==> state.closing is Closing),
{
}

} // verus!

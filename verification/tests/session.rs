use durable_ws_client::client::Message;
use durable_ws_client::session::{
    CloseAction, CloseEvent, Incoming, Outgoing, ReaderAction, ReaderEvent, Session,
    SessionAction, SessionEvent, SocketError, WriterAction, WriterEvent,
};
use std::borrow::Cow;
use std::time::Duration;
use tokio_tungstenite::tungstenite::protocol::frame::coding::CloseCode;
use tokio_tungstenite::tungstenite::protocol::CloseFrame;
use tokio_tungstenite::tungstenite::Error;

fn open() -> Session {
    Session::new(Duration::from_secs(10))
}

fn text(text: &str) -> Message {
    Message::Text(text.to_string())
}

fn frame(reason: &'static str) -> CloseFrame<'static> {
    CloseFrame { code: CloseCode::Away, reason: Cow::Borrowed(reason) }
}

fn receive(session: &mut Session, incoming: Incoming) -> ReaderAction {
    session.read_from_socket(ReaderEvent::Received(Some(Ok(incoming)))).unwrap()
}

fn fail(session: &mut Session, error: SocketError) -> ReaderAction {
    session.read_from_socket(ReaderEvent::Received(Some(Err(error)))).unwrap()
}

fn write(session: &mut Session, event: WriterEvent) -> WriterAction {
    session.write_to_socket(event).unwrap()
}

/// Stops what still runs of a cancelled session, and closes its socket.
fn wind_up(session: &mut Session) -> (Option<CloseFrame<'static>>, Option<Error>) {
    assert!(session.is_cancelled());
    session.read_from_socket(ReaderEvent::Cancelled);
    session.write_to_socket(WriterEvent::Cancelled);
    session.write_to_socket(WriterEvent::Discarded(false));
    assert!(session.close_websocket(CloseEvent::Joined).is_some());
    match session.close_websocket(CloseEvent::TimedOut) {
        Some(CloseAction::Report { close_frame, error }) => (close_frame, error),
        other => panic!("{:?}", other),
    }
}

#[test]
fn a_session_starts_with_reading_and_receiving() {
    let (reader, writer) = Session::first_actions();
    assert!(matches!(reader, ReaderAction::Read));
    assert!(matches!(writer, WriterAction::Receive));
    let mut session = open();
    assert!(session.read_from_socket(ReaderEvent::Received(None)).is_some());
    assert!(session.write_to_socket(WriterEvent::Received(None)).is_some());
}

#[test]
fn text_and_binary_messages_are_forwarded_in_order() {
    let mut session = open();
    let action = receive(&mut session, Incoming::Text("one".to_string()));
    assert!(matches!(action, ReaderAction::Forward(m) if m == text("one")));
    let action = session.read_from_socket(ReaderEvent::Forwarded(true));
    assert!(matches!(action, Some(ReaderAction::Read)));
    let action = receive(&mut session, Incoming::Binary(vec![0, 255]));
    assert!(matches!(action, ReaderAction::Forward(m) if m == Message::Binary(vec![0, 255])));
    assert!(!session.is_cancelled());
}

#[test]
fn control_messages_are_skipped() {
    let mut session = open();
    assert!(matches!(receive(&mut session, Incoming::Ping), ReaderAction::Read));
    assert!(matches!(receive(&mut session, Incoming::Pong), ReaderAction::Read));
    assert!(matches!(receive(&mut session, Incoming::Frame), ReaderAction::Read));
    assert!(matches!(receive(&mut session, Incoming::Close(None)), ReaderAction::Read));
    assert!(!session.is_cancelled());
}

#[test]
fn the_first_close_frame_is_reported() {
    let mut session = open();
    receive(&mut session, Incoming::Close(None));
    let action = receive(&mut session, Incoming::Close(Some(frame("first"))));
    assert!(matches!(action, ReaderAction::Read));
    receive(&mut session, Incoming::Close(Some(frame("second"))));
    let action = session.read_from_socket(ReaderEvent::Received(None));
    assert!(matches!(action, Some(ReaderAction::Finish { cancel: true })));
    let (close_frame, error) = wind_up(&mut session);
    assert_eq!(close_frame, Some(frame("first")));
    assert!(error.is_none());
}

#[test]
fn the_end_of_the_socket_ends_reading() {
    let mut session = open();
    let action = session.read_from_socket(ReaderEvent::Received(None));
    assert!(matches!(action, Some(ReaderAction::Finish { cancel: true })));
    assert!(session.is_cancelled());
    let (close_frame, error) = wind_up(&mut session);
    assert!(close_frame.is_none());
    assert!(error.is_none());
}

#[test]
fn reading_goes_on_when_the_connection_is_merely_closed() {
    let mut session = open();
    assert!(matches!(fail(&mut session, SocketError::ConnectionClosed), ReaderAction::Read));
    assert!(matches!(fail(&mut session, SocketError::AlreadyClosed), ReaderAction::Read));
    session.read_from_socket(ReaderEvent::Received(None));
    let (_, error) = wind_up(&mut session);
    assert!(error.is_none());
}

#[test]
fn an_error_ends_reading_and_is_reported() {
    let mut session = open();
    let action = fail(&mut session, SocketError::Other(Error::Utf8));
    assert!(matches!(action, ReaderAction::Finish { cancel: true }));
    let (close_frame, error) = wind_up(&mut session);
    assert!(close_frame.is_none());
    assert!(matches!(error, Some(Error::Utf8)));
}

#[test]
fn reading_ends_when_the_application_accepts_no_more() {
    let mut session = open();
    receive(&mut session, Incoming::Text("unheard".to_string()));
    let action = session.read_from_socket(ReaderEvent::Forwarded(false));
    assert!(matches!(action, Some(ReaderAction::Finish { cancel: true })));
    assert!(session.is_cancelled());
}

#[test]
fn messages_of_the_application_are_written_in_order() {
    let mut session = open();
    let action = write(&mut session, WriterEvent::Received(Some(text("hello"))));
    assert!(matches!(action, WriterAction::Send(Outgoing::Text(t)) if t == "hello"));
    let action = write(&mut session, WriterEvent::Sent(Ok(())));
    assert!(matches!(action, WriterAction::Receive));
    let action = write(&mut session, WriterEvent::Received(Some(Message::Binary(vec![7]))));
    assert!(matches!(action, WriterAction::Send(Outgoing::Binary(b)) if b == vec![7]));
}

#[test]
fn writing_ends_when_the_application_sends_no_more() {
    let mut session = open();
    let action = write(&mut session, WriterEvent::Received(None));
    assert!(matches!(action, WriterAction::CloseAndDrain { cancel: true }));
    assert!(session.is_cancelled());
    let (close_frame, error) = wind_up(&mut session);
    assert!(close_frame.is_none());
    assert!(error.is_none());
}

#[test]
fn writing_goes_on_when_the_connection_is_merely_closed() {
    let mut session = open();
    write(&mut session, WriterEvent::Received(Some(text("a"))));
    let action = write(&mut session, WriterEvent::Sent(Err(SocketError::ConnectionClosed)));
    assert!(matches!(action, WriterAction::Receive));
    write(&mut session, WriterEvent::Received(Some(text("b"))));
    let action = write(&mut session, WriterEvent::Sent(Err(SocketError::AlreadyClosed)));
    assert!(matches!(action, WriterAction::Receive));
    assert!(!session.is_cancelled());
}

#[test]
fn an_error_ends_writing_and_is_reported() {
    let mut session = open();
    write(&mut session, WriterEvent::Received(Some(text("a"))));
    let event = WriterEvent::Sent(Err(SocketError::Other(Error::AttackAttempt)));
    let action = write(&mut session, event);
    assert!(matches!(action, WriterAction::CloseAndDrain { cancel: true }));
    let (_, error) = wind_up(&mut session);
    assert!(matches!(error, Some(Error::AttackAttempt)));
}

#[test]
fn only_the_first_error_is_reported() {
    let mut session = open();
    write(&mut session, WriterEvent::Received(Some(text("a"))));
    fail(&mut session, SocketError::Other(Error::Utf8));
    let event = WriterEvent::Sent(Err(SocketError::Other(Error::AttackAttempt)));
    let action = write(&mut session, event);
    assert!(matches!(action, WriterAction::CloseAndDrain { cancel: true }));
    let (_, error) = wind_up(&mut session);
    assert!(matches!(error, Some(Error::Utf8)));
}

#[test]
fn what_the_application_sent_in_vain_is_discarded() {
    let mut session = open();
    session.read_from_socket(ReaderEvent::Received(None));
    let action = write(&mut session, WriterEvent::Cancelled);
    assert!(matches!(action, WriterAction::CloseAndDrain { cancel: false }));
    assert!(matches!(write(&mut session, WriterEvent::Discarded(true)), WriterAction::Discard));
    assert!(matches!(write(&mut session, WriterEvent::Discarded(true)), WriterAction::Discard));
    assert!(session.write_to_socket(WriterEvent::Received(Some(text("late")))).is_none());
    assert!(session.close_websocket(CloseEvent::Joined).is_none());
    assert!(matches!(write(&mut session, WriterEvent::Discarded(false)), WriterAction::Finish));
    assert!(session.close_websocket(CloseEvent::Joined).is_some());
}

#[test]
fn cancelling_stops_a_reader_that_waits_for_the_application() {
    let mut session = open();
    receive(&mut session, Incoming::Text("stuck".to_string()));
    write(&mut session, WriterEvent::Received(None));
    let action = session.read_from_socket(ReaderEvent::Cancelled);
    assert!(matches!(action, Some(ReaderAction::Finish { cancel: false })));
    assert!(session.read_from_socket(ReaderEvent::Forwarded(true)).is_none());
}

#[test]
fn nobody_is_cancelled_while_both_are_at_work() {
    let mut session = open();
    assert!(!session.is_cancelled());
    assert!(session.read_from_socket(ReaderEvent::Cancelled).is_none());
    assert!(session.write_to_socket(WriterEvent::Cancelled).is_none());
    assert!(session.close_websocket(CloseEvent::Joined).is_none());
}

#[test]
fn a_waiting_reader_does_not_keep_the_writer_waiting() {
    let mut session = open();
    receive(&mut session, Incoming::Text("pending".to_string()));
    let action = write(&mut session, WriterEvent::Received(Some(text("out"))));
    assert!(matches!(action, WriterAction::Send(_)));
    let action = session.read_from_socket(ReaderEvent::Forwarded(true));
    assert!(matches!(action, Some(ReaderAction::Read)));
}

#[test]
fn only_what_comes_of_the_last_action_is_taken() {
    let mut session = open();
    assert!(session.read_from_socket(ReaderEvent::Forwarded(true)).is_none());
    assert!(session.write_to_socket(WriterEvent::Sent(Ok(()))).is_none());
    assert!(session.write_to_socket(WriterEvent::Discarded(true)).is_none());
    receive(&mut session, Incoming::Text("a".to_string()));
    assert!(session.read_from_socket(ReaderEvent::Received(None)).is_none());
    write(&mut session, WriterEvent::Received(Some(text("b"))));
    assert!(session.write_to_socket(WriterEvent::Received(None)).is_none());
    assert!(session.close_websocket(CloseEvent::Sent(Ok(()))).is_none());
    assert!(session.close_websocket(CloseEvent::Discarded(false)).is_none());
    assert!(session.read_from_socket(ReaderEvent::Forwarded(true)).is_some());
    assert!(session.write_to_socket(WriterEvent::Sent(Ok(()))).is_some());
}

/// A session of which both reader and writer have stopped.
fn stopped() -> Session {
    let mut session = open();
    session.read_from_socket(ReaderEvent::Received(None));
    session.write_to_socket(WriterEvent::Cancelled);
    session.write_to_socket(WriterEvent::Discarded(false));
    session
}

#[test]
fn closing_writes_a_close_message_within_the_time_allowed() {
    let mut session = stopped();
    match session.close_websocket(CloseEvent::Joined) {
        Some(CloseAction::Start { message, timeout }) => {
            assert!(matches!(message, Outgoing::Close(None)));
            assert_eq!(timeout, Duration::from_secs(10));
        }
        other => panic!("{:?}", other),
    }
    assert!(session.close_websocket(CloseEvent::Joined).is_none());
}

#[test]
fn closing_ends_when_the_message_is_out_and_the_socket_has_ended() {
    let mut session = stopped();
    session.close_websocket(CloseEvent::Joined);
    let action = session.close_websocket(CloseEvent::Discarded(true));
    assert!(matches!(action, Some(CloseAction::Discard)));
    let action = session.close_websocket(CloseEvent::Sent(Ok(())));
    assert!(matches!(action, Some(CloseAction::Await)));
    assert!(session.close_websocket(CloseEvent::Sent(Ok(()))).is_none());
    let action = session.close_websocket(CloseEvent::Discarded(true));
    assert!(matches!(action, Some(CloseAction::Discard)));
    let action = session.close_websocket(CloseEvent::Discarded(false));
    assert!(matches!(action, Some(CloseAction::Report { close_frame: None, error: None })));
    assert!(session.close_websocket(CloseEvent::TimedOut).is_none());
}

#[test]
fn closing_goes_on_when_the_socket_ends_first() {
    let mut session = stopped();
    session.close_websocket(CloseEvent::Joined);
    let action = session.close_websocket(CloseEvent::Discarded(false));
    assert!(matches!(action, Some(CloseAction::Await)));
    let failed = CloseEvent::Sent(Err(SocketError::Other(Error::Utf8)));
    let action = session.close_websocket(failed);
    assert!(matches!(action, Some(CloseAction::Report { close_frame: None, error: None })));
}

#[test]
fn steps_of_every_part() {
    let mut session = open();
    let action = session.step(SessionEvent::Reader(ReaderEvent::Received(None)));
    assert!(matches!(
        action,
        Some(SessionAction::Reader(ReaderAction::Finish { cancel: true }))
    ));
    let action = session.step(SessionEvent::Writer(WriterEvent::Cancelled));
    assert!(matches!(
        action,
        Some(SessionAction::Writer(WriterAction::CloseAndDrain { cancel: false }))
    ));
    assert!(session.step(SessionEvent::Close(CloseEvent::TimedOut)).is_none());
    session.step(SessionEvent::Writer(WriterEvent::Discarded(false)));
    let action = session.step(SessionEvent::Close(CloseEvent::Joined));
    assert!(matches!(action, Some(SessionAction::Close(CloseAction::Start { .. }))));
    let action = session.step(SessionEvent::Close(CloseEvent::TimedOut));
    assert!(matches!(action, Some(SessionAction::Close(CloseAction::Report { .. }))));
    assert!(session.step(SessionEvent::Reader(ReaderEvent::Cancelled)).is_none());
}

#[test]
fn an_outgoing_message_carries_the_same_contents() {
    assert!(matches!(Outgoing::from_message(text("x")), Outgoing::Text(t) if t == "x"));
    let binary = Outgoing::from_message(Message::Binary(vec![1, 2, 3]));
    assert!(matches!(binary, Outgoing::Binary(b) if b == vec![1, 2, 3]));
}

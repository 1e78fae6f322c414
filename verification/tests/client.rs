use durable_ws_client::client::{
    connect, ConnectError, Message, ReconnectingClient, Run, RunAction, RunEvent,
};
use durable_ws_client::config::{Config, ConfigBuilder};
use std::collections::HashSet;
use std::time::Duration;
use tokio_tungstenite::tungstenite::Error;

type Client = Run<&'static str, &'static str>;
type Action = RunAction<&'static str, &'static str>;

const URL: &str = "wss://www.bitmex.com/realtime";

fn start(backoff: bool) -> (Client, Action) {
    ReconnectingClient::connect(Config::default(), URL, backoff)
}

/// Takes an event that the client waits for.
fn take(run: Client, event: RunEvent<&'static str>) -> (Client, Action) {
    let (run, action) = run.step(event);
    (run, action.unwrap())
}

#[test]
fn messages_compare_by_contents() {
    assert_eq!(Message::Text("a".to_string()), Message::Text("a".to_string()).clone());
    assert_ne!(Message::Text("a".to_string()), Message::Binary(vec![97]));
    let mut seen = HashSet::new();
    assert!(seen.insert(Message::Binary(vec![1, 2])));
    assert!(!seen.insert(Message::Binary(vec![1, 2])));
}

#[test]
fn connect_keeps_both_halves() {
    let outcome = connect(Some(Ok(("tx", "rx", 101))));
    assert_eq!(outcome.unwrap(), ("tx", "rx"));
}

#[test]
fn connect_passes_the_error_on() {
    let outcome = connect::<u8, u8, u8>(Some(Err(Error::Utf8)));
    assert!(matches!(outcome, Err(ConnectError::Inner(Error::Utf8))));
}

#[test]
fn connect_times_out() {
    let outcome = connect::<u8, u8, u8>(None);
    assert!(matches!(outcome, Err(ConnectError::TimedOut)));
}

#[test]
fn connect_errors_in_words() {
    assert_eq!(ConnectError::TimedOut.to_string(), "connection attempt timed out");
    assert_eq!(
        ConnectError::from(Error::ConnectionClosed).to_string(),
        "Connection closed normally"
    );
    assert_eq!(ConnectError::Inner(Error::Utf8).to_string(), "UTF-8 encoding error");
    let refused = std::io::Error::new(std::io::ErrorKind::Other, "refused");
    let words = Error::Io(std::io::Error::new(std::io::ErrorKind::Other, "refused")).to_string();
    assert_eq!(ConnectError::Inner(Error::Io(refused)).to_string(), words);
}

#[test]
fn text_of_a_connect_error() {
    assert_eq!(ConnectError::Inner(Error::Utf8).text("why".to_string()), "why");
    assert_eq!(
        ConnectError::TimedOut.text("why".to_string()),
        "connection attempt timed out"
    );
}

#[test]
fn source_of_a_connect_error() {
    assert!(matches!(
        ConnectError::Inner(Error::AlreadyClosed).source(),
        Some(Error::AlreadyClosed)
    ));
    assert!(ConnectError::TimedOut.source().is_none());
}

#[test]
fn connect_error_from_socket_error() {
    let error: ConnectError = Error::AlreadyClosed.into();
    assert!(matches!(error, ConnectError::Inner(Error::AlreadyClosed)));
}

#[test]
fn without_backoff_the_client_connects_at_once() {
    let (_, action) = start(false);
    match action {
        RunAction::Connect(request) => {
            assert_eq!(request.url, URL);
            assert!(request.ws_config.is_none());
            assert!(!request.disable_nagle);
            assert_eq!(request.timeout, Duration::from_secs(10));
        }
        other => panic!("{:?}", other),
    }
}

#[test]
fn with_backoff_the_client_first_makes_one() {
    let (run, action) = start(true);
    assert!(matches!(action, RunAction::MakeBackoff));
    let (run, action) = run.step(RunEvent::BackoffRenewed);
    assert!(action.is_none());
    let (_, action) = take(run, RunEvent::BackoffMade);
    assert!(matches!(action, RunAction::Connect(_)));
}

#[test]
fn settings_reach_every_action() {
    let config = ConfigBuilder::new()
        .connect_timeout(Duration::from_secs(1))
        .close_timeout(Duration::from_secs(2))
        .channel_size(3)
        .disable_nagle(true)
        .build();
    let (mut run, mut action) = ReconnectingClient::connect(config, URL, false);
    for _ in 0..2 {
        match action {
            RunAction::Connect(request) => {
                assert_eq!(request.url, URL);
                assert!(request.disable_nagle);
                assert_eq!(request.timeout, Duration::from_secs(1));
            }
            other => panic!("{:?}", other),
        }
        (run, action) = take(run, RunEvent::ConnectFinished(Ok("socket")));
        assert!(matches!(action, RunAction::AnnounceConnection { channel_size: 3 }));
        (run, action) = take(run, RunEvent::Announced(true));
        match action {
            RunAction::Serve { socket, close_timeout } => {
                assert_eq!(socket, "socket");
                assert_eq!(close_timeout, Duration::from_secs(2));
            }
            other => panic!("{:?}", other),
        }
        (run, action) = take(run, RunEvent::SessionEnded);
    }
}

#[test]
fn a_failure_is_announced_and_retried() {
    let (run, _) = start(false);
    let failure = Err(ConnectError::Inner(Error::AttackAttempt));
    let (run, action) = take(run, RunEvent::ConnectFinished(failure));
    assert!(matches!(
        action,
        RunAction::AnnounceFailure(ConnectError::Inner(Error::AttackAttempt))
    ));
    let (_, action) = take(run, RunEvent::Announced(true));
    assert!(matches!(action, RunAction::Connect(_)));
}

#[test]
fn a_failure_backs_off_before_the_next_attempt() {
    let (run, _) = start(true);
    let (run, _) = take(run, RunEvent::BackoffMade);
    let (run, action) = take(run, RunEvent::ConnectFinished(Err(ConnectError::TimedOut)));
    assert!(matches!(action, RunAction::AnnounceFailure(ConnectError::TimedOut)));
    let (run, action) = take(run, RunEvent::Announced(true));
    assert!(matches!(action, RunAction::BackOff));
    let (_, action) = take(run, RunEvent::BackoffElapsed);
    assert!(matches!(action, RunAction::Connect(_)));
}

#[test]
fn a_connection_renews_the_backoff_before_it_is_announced() {
    let (run, _) = start(true);
    let (run, _) = take(run, RunEvent::BackoffMade);
    let (run, action) = take(run, RunEvent::ConnectFinished(Ok("first")));
    assert!(matches!(action, RunAction::RenewBackoff));
    let (run, action) = take(run, RunEvent::BackoffRenewed);
    assert!(matches!(action, RunAction::AnnounceConnection { channel_size: 32 }));
    let (run, action) = take(run, RunEvent::Announced(true));
    assert!(matches!(action, RunAction::Serve { socket: "first", .. }));
    let (_, action) = take(run, RunEvent::SessionEnded);
    assert!(matches!(action, RunAction::BackOff));
}

#[test]
fn the_client_stops_when_a_failure_is_not_taken_note_of() {
    let (run, _) = start(false);
    let (run, _) = take(run, RunEvent::ConnectFinished(Err(ConnectError::TimedOut)));
    let (run, action) = take(run, RunEvent::Announced(false));
    assert!(matches!(action, RunAction::Stop));
    let (run, action) = run.step(RunEvent::BackoffElapsed);
    assert!(action.is_none());
    let (_, action) = run.step(RunEvent::ConnectFinished(Ok("late")));
    assert!(action.is_none());
}

#[test]
fn the_client_stops_when_a_connection_is_not_taken_note_of() {
    let (run, _) = start(false);
    let (run, _) = take(run, RunEvent::ConnectFinished(Ok("socket")));
    let (_, action) = take(run, RunEvent::Announced(false));
    assert!(matches!(action, RunAction::Stop));
}

#[test]
fn events_out_of_turn_change_nothing() {
    let (run, _) = start(false);
    let (run, action) = run.step(RunEvent::SessionEnded);
    assert!(action.is_none());
    let (run, action) = run.step(RunEvent::Announced(false));
    assert!(action.is_none());
    let (_, action) = take(run, RunEvent::ConnectFinished(Ok("socket")));
    assert!(matches!(action, RunAction::AnnounceConnection { .. }));
}

#[test]
fn one_connection_at_a_time() {
    let (run, _) = start(true);
    let (run, _) = take(run, RunEvent::BackoffMade);
    let (run, _) = take(run, RunEvent::ConnectFinished(Ok("first")));
    let (run, _) = take(run, RunEvent::BackoffRenewed);
    let (mut run, action) = take(run, RunEvent::Announced(true));
    assert!(matches!(action, RunAction::Serve { socket: "first", .. }));
    for event in vec![
        RunEvent::BackoffMade,
        RunEvent::BackoffRenewed,
        RunEvent::ConnectFinished(Ok("second")),
        RunEvent::ConnectFinished(Err(ConnectError::TimedOut)),
        RunEvent::Announced(true),
        RunEvent::Announced(false),
        RunEvent::BackoffElapsed,
    ] {
        let (next, action) = run.step(event);
        assert!(action.is_none());
        run = next;
    }
    let (_, action) = take(run, RunEvent::SessionEnded);
    assert!(matches!(action, RunAction::BackOff));
}

#[test]
fn each_attempt_has_one_outcome() {
    let (run, _) = start(false);
    let (run, _) = take(run, RunEvent::ConnectFinished(Err(ConnectError::TimedOut)));
    let (run, action) = run.step(RunEvent::ConnectFinished(Ok("late")));
    assert!(action.is_none());
    let (_, action) = take(run, RunEvent::Announced(true));
    assert!(matches!(action, RunAction::Connect(_)));
}

#[test]
fn the_client_is_a_plain_value() {
    let client = ReconnectingClient;
    assert_eq!(client, client.clone());
}

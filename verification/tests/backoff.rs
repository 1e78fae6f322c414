use durable_ws_client::backoff::{BackoffGenerator, FixedBackoff};
use durable_ws_client::client::{RunAction, RunEvent, ReconnectingClient, ConnectError};
use durable_ws_client::config::Config;
use durable_ws_client::connection::WebSocketBuilder;
use durable_ws_client::websocket::DefaultBuilder;
use std::time::Duration;

/// Waits a second longer each time.
struct Growing {
    seconds: u64,
}

impl BackoffGenerator for Growing {
    fn reset(&mut self) {
        self.seconds = 0;
    }

    fn next_delay(&mut self) -> Duration {
        self.seconds += 1;
        Duration::from_secs(self.seconds)
    }
}

#[test]
fn fixed_backoff_always_returns_the_same_delay() {
    let mut backoff = FixedBackoff::new(Duration::from_millis(250));
    assert_eq!(backoff.next_delay(), Duration::from_millis(250));
    assert_eq!(backoff.next_delay(), Duration::from_millis(250));
    backoff.reset();
    assert_eq!(backoff.next_delay(), Duration::from_millis(250));
    let mut copy = backoff.clone();
    assert_eq!(copy.next_delay(), Duration::from_millis(250));
}

#[test]
fn actions_pace_a_generator() {
    let mut backoff = Growing { seconds: 4 };
    assert_eq!(RunAction::<u8, u8>::BackOff.pace(&mut backoff), Some(Duration::from_secs(5)));
    assert_eq!(RunAction::<u8, u8>::Stop.pace(&mut backoff), None);
    assert_eq!(RunAction::<u8, u8>::MakeBackoff.pace(&mut backoff), None);
    assert_eq!(backoff.seconds, 5);
    assert_eq!(RunAction::<u8, u8>::RenewBackoff.pace(&mut backoff), None);
    assert_eq!(backoff.seconds, 0);
    assert_eq!(RunAction::<u8, u8>::BackOff.pace(&mut backoff), Some(Duration::from_secs(1)));
}

/// Delays grow with each failure, from where the generator stood when it was
/// handed in, and start over after a connection.
#[test]
fn delays_start_over_after_a_connection() {
    let mut backoff = Growing { seconds: 2 };
    let mut delays = Vec::new();
    let mut outcomes = vec![false, true, false, false].into_iter();
    let (mut run, mut action) = ReconnectingClient::connect::<&str, u8>(Config::default(), "ws://a", true);
    loop {
        delays.extend(action.pace(&mut backoff));
        let event = match action {
            RunAction::MakeBackoff => RunEvent::BackoffMade,
            RunAction::RenewBackoff => RunEvent::BackoffRenewed,
            RunAction::Connect(_) => match outcomes.next() {
                Some(true) => RunEvent::ConnectFinished(Ok(1)),
                Some(false) => RunEvent::ConnectFinished(Err(ConnectError::TimedOut)),
                None => break,
            },
            RunAction::AnnounceConnection { .. } => RunEvent::Announced(true),
            RunAction::AnnounceFailure(_) => RunEvent::Announced(true),
            RunAction::Serve { .. } => RunEvent::SessionEnded,
            RunAction::BackOff => RunEvent::BackoffElapsed,
            RunAction::Stop => break,
        };
        let (next, then) = run.step(event);
        run = next;
        action = then.unwrap();
    }
    let seconds: Vec<u64> = delays.iter().map(|delay| delay.as_secs()).collect();
    assert_eq!(seconds, vec![3, 1, 2, 3]);
}

#[test]
fn builders_can_be_cloned() {
    let _ = WebSocketBuilder.clone();
    let _ = DefaultBuilder::new().clone();
}

//! The client: it connects, tells the application, serves the connection until
//! it ends, and connects again.
//!
//! A [`Run`] decides; it does not wait. Whoever drives it performs the action
//! that a step returns and reports what came of it as the next event.

use std::time::Duration;
use tokio_tungstenite::tungstenite::protocol::WebSocketConfig;
use tokio_tungstenite::tungstenite::Error;
use vstd::prelude::*;

use crate::backoff::BackoffGenerator;
use crate::config::Config;
use crate::config::Settings;
use crate::trusted::error_text;

verus! {

/// A message between the client and the application.
#[derive(Debug, Clone, PartialEq, Eq, Hash)]
pub enum Message {
    Text(String),
    Binary(Vec<u8>),
}

/// Why an attempt to connect failed.
#[derive(Debug)]
pub enum ConnectError {
    /// The WebSocket could not be opened.
    Inner(Error),
    /// The attempt took too long.
    TimedOut,
}

impl ConnectError {
    /// The error in words: for an inner error exactly the words that
    /// [`error_text`] gave for it.
    pub fn to_string(&self) -> (text: String)
        ensures
            match self {
                ConnectError::Inner(error) => exists|inner: String|
                    #![trigger call_ensures(error_text, (error,), inner)]
                    call_ensures(error_text, (error,), inner) && text@ == inner@,
                ConnectError::TimedOut => text@ == "connection attempt timed out"@,
            },
    {
        match self {
            Self::Inner(error) => {
                let inner = error_text(error);
                self.text(inner)
            },
            Self::TimedOut => self.text(String::new()),
        }
    }

    /// The error in words, where `inner` are the words of the inner error, if
    /// there is one.
    pub fn text(&self, inner: String) -> (text: String)
        ensures
            text@ == match self {
                ConnectError::Inner(_) => inner@,
                ConnectError::TimedOut => "connection attempt timed out"@,
            },
    {
        match self {
            Self::Inner(_) => inner,
            Self::TimedOut => String::from_str("connection attempt timed out"),
        }
    }

    /// The error that caused this one, if there is one.
    pub fn source(&self) -> (source: Option<&Error>)
        ensures
            source == match self {
                ConnectError::Inner(error) => Some(error),
                ConnectError::TimedOut => None,
            },
    {
        match self {
            Self::Inner(error) => Some(error),
            Self::TimedOut => None,
        }
    }
}

impl From<Error> for ConnectError {
    fn from(error: Error) -> (connect_error: Self)
        ensures
            connect_error == ConnectError::Inner(error),
    {
        Self::Inner(error)
    }
}

impl vstd::std_specs::convert::FromSpecImpl<Error> for ConnectError {
    open spec fn obeys_from_spec() -> bool {
        true
    }

    open spec fn from_spec(error: Error) -> Self {
        ConnectError::Inner(error)
    }
}

/// What an attempt to connect came to: its two halves, or why it failed.
/// `attempt` is what the attempt returned, `None` if its time was up before.
/// The server's response is of no further use.
pub fn connect<Tx, Rx, Response>(attempt: Option<Result<(Tx, Rx, Response), Error>>) -> (outcome:
    Result<(Tx, Rx), ConnectError>)
    ensures
        outcome == match attempt {
            Some(Ok((tx, rx, _))) => Ok((tx, rx)),
            Some(Err(error)) => Err(ConnectError::Inner(error)),
            None => Err(ConnectError::TimedOut),
        },
{
    match attempt {
        Some(Ok((tx, rx, _))) => Ok((tx, rx)),
        Some(Err(error)) => Err(ConnectError::from(error)),
        None => Err(ConnectError::TimedOut),
    }
}

/// How a connection is attempted. `U` is an address.
#[derive(Debug)]
pub struct ConnectRequest<U> {
    /// Where to.
    pub url: U,
    pub ws_config: Option<WebSocketConfig>,
    pub disable_nagle: bool,
    /// How long the attempt may take.
    pub timeout: Duration,
}

/// Where the client stands. `S` is an open socket.
#[derive(Debug)]
pub enum RunPhase<S> {
    /// Waiting for the first back-off to be made, before any attempt.
    Starting,
    /// Waiting for an attempt to connect.
    Connecting,
    /// Waiting for the back-off to be renewed, with a socket just opened.
    Renewing(S),
    /// Waiting for the application to take note of a socket just opened.
    Announcing(S),
    /// Waiting for the application to take note of a failed attempt.
    AnnouncingFailure,
    /// Waiting for the session of an open socket to end.
    Serving,
    /// Waiting before the next attempt.
    BackingOff,
    /// Done: the application is no longer there.
    Stopped,
}

/// What came of the client's last action.
#[derive(Debug)]
pub enum RunEvent<S> {
    /// The first back-off was made.
    BackoffMade,
    /// The back-off was renewed.
    BackoffRenewed,
    /// The attempt to connect is over.
    ConnectFinished(Result<S, ConnectError>),
    /// Whether the application was there to take note.
    Announced(bool),
    /// The session is over.
    SessionEnded,
    /// The back-off has elapsed.
    BackoffElapsed,
}

/// What the client does next. `U` is an address, `S` an open socket.
#[derive(Debug)]
pub enum RunAction<U, S> {
    /// Make the first back-off, before the first attempt.
    MakeBackoff,
    /// Start over with a new back-off: a connection was opened.
    RenewBackoff,
    /// Attempt to connect.
    Connect(ConnectRequest<U>),
    /// Hand the application its ends of a new connection, with room for
    /// `channel_size` messages in each direction.
    AnnounceConnection { channel_size: usize },
    /// Tell the application why the attempt failed.
    AnnounceFailure(ConnectError),
    /// Serve the connection until it ends, as a session.
    Serve { socket: S, close_timeout: Duration },
    /// Wait for the next back-off to elapse.
    BackOff,
    /// Do nothing more.
    Stop,
}

impl<U, S> RunAction<U, S> {
    /// Performs on `generator` what this action asks of a back-off. Once a
    /// connection was opened the generator is reset, and the delay to wait
    /// before a reconnect is its next one. Any other action leaves the
    /// generator alone: it is itself the first back-off, as it was handed in.
    pub fn pace<G: BackoffGenerator>(&self, generator: &mut G) -> (delay: Option<Duration>)
        ensures
            match self {
                RunAction::RenewBackoff => delay is None && old(generator).resets(final(generator)),
                RunAction::BackOff => delay matches Some(delay) && old(generator).delays(
                    delay,
                    final(generator),
                ),
                _ => delay is None && *final(generator) == *old(generator),
            },
    {
        match self {
            RunAction::RenewBackoff => {
                generator.reset();
                None
            },
            RunAction::BackOff => Some(generator.next_delay()),
            _ => None,
        }
    }
}

/// The state of a [`Run`].
pub struct RunState<U, S> {
    pub settings: Settings,
    /// Where the client connects to.
    pub url: U,
    /// Whether the client backs off before it connects again.
    pub backoff: bool,
    pub phase: RunPhase<S>,
}

impl Settings {
    /// How a client with these settings attempts to connect to `url`.
    pub open spec fn request<U>(self, url: U) -> ConnectRequest<U> {
        ConnectRequest {
            url,
            ws_config: self.ws_config,
            disable_nagle: self.disable_nagle,
            timeout: self.connect_timeout,
        }
    }
}

impl<U, S> RunState<U, S> {
    /// A client that was just started, and its first action.
    pub open spec fn started(settings: Settings, url: U, backoff: bool) -> (
        RunState<U, S>,
        RunAction<U, S>,
    ) {
        let state = RunState { settings, url, backoff, phase: RunPhase::Starting };
        if backoff {
            (state, RunAction::MakeBackoff)
        } else {
            state.attempts()
        }
    }

    /// What holds of every client: without a back-off, none is ever waited
    /// for.
    pub open spec fn wf(self) -> bool {
        !self.backoff ==> self.phase !is Starting && self.phase !is Renewing && self.phase
            !is BackingOff
    }

    /// The client at `phase`.
    pub open spec fn at(self, phase: RunPhase<S>) -> RunState<U, S> {
        RunState { phase, ..self }
    }

    /// An attempt to connect begins.
    pub open spec fn attempts(self) -> (RunState<U, S>, RunAction<U, S>) {
        (self.at(RunPhase::Connecting), RunAction::Connect(self.settings.request(self.url)))
    }

    /// The application is told of an open socket.
    pub open spec fn announces(self, socket: S) -> (RunState<U, S>, RunAction<U, S>) {
        (
            self.at(RunPhase::Announcing(socket)),
            RunAction::AnnounceConnection { channel_size: self.settings.channel_size },
        )
    }

    /// The next attempt to connect is due, after a back-off if there is one.
    pub open spec fn retries(self) -> (RunState<U, S>, RunAction<U, S>) {
        if self.backoff {
            (self.at(RunPhase::BackingOff), RunAction::BackOff)
        } else {
            self.attempts()
        }
    }

    /// What the client makes of `event`; `None` where it does not wait for
    /// such an event.
    pub open spec fn step(self, event: RunEvent<S>) -> Option<(RunState<U, S>, RunAction<U, S>)> {
        match (self.phase, event) {
            (RunPhase::Starting, RunEvent::BackoffMade) => Some(self.attempts()),
            (RunPhase::Connecting, RunEvent::ConnectFinished(Ok(socket))) => if self.backoff {
                Some((self.at(RunPhase::Renewing(socket)), RunAction::RenewBackoff))
            } else {
                Some(self.announces(socket))
            },
            (RunPhase::Connecting, RunEvent::ConnectFinished(Err(error))) => Some(
                (self.at(RunPhase::AnnouncingFailure), RunAction::AnnounceFailure(error)),
            ),
            (RunPhase::Renewing(socket), RunEvent::BackoffRenewed) => Some(self.announces(socket)),
            (RunPhase::Announcing(socket), RunEvent::Announced(true)) => Some(
                (
                    self.at(RunPhase::Serving),
                    RunAction::Serve { socket, close_timeout: self.settings.close_timeout },
                ),
            ),
            (RunPhase::AnnouncingFailure, RunEvent::Announced(true)) => Some(self.retries()),
            (
                RunPhase::Announcing(_) | RunPhase::AnnouncingFailure,
                RunEvent::Announced(false),
            ) => Some((self.at(RunPhase::Stopped), RunAction::Stop)),
            (RunPhase::Serving, RunEvent::SessionEnded) => Some(self.retries()),
            (RunPhase::BackingOff, RunEvent::BackoffElapsed) => Some(self.attempts()),
            _ => None,
        }
    }
}

/// A client at work. `U` is an address, `S` an open socket.
#[derive(Debug)]
pub struct Run<U, S> {
    config: Config,
    url: U,
    backoff: bool,
    phase: RunPhase<S>,
}

impl<U, S> View for Run<U, S> {
    type V = RunState<U, S>;

    closed spec fn view(&self) -> RunState<U, S> {
        RunState {
            settings: self.config@,
            url: self.url,
            backoff: self.backoff,
            phase: self.phase,
        }
    }
}

impl<U: Copy, S> Run<U, S> {
    /// Begins an attempt to connect.
    fn attempt(config: Config, url: U, backoff: bool) -> (result: (Self, RunAction<U, S>))
        ensures
            result.0@ == (RunState {
                settings: config@,
                url,
                backoff,
                phase: RunPhase::<S>::Connecting,
            }),
            result.1 == RunAction::<U, S>::Connect(config@.request(url)),
    {
        let request = ConnectRequest {
            url,
            ws_config: config.ws_config(),
            disable_nagle: config.disable_nagle(),
            timeout: config.connect_timeout(),
        };
        (Run { config, url, backoff, phase: RunPhase::Connecting }, RunAction::Connect(request))
    }

    /// Backs off, or begins an attempt to connect if there is no back-off.
    fn retry(config: Config, url: U, backoff: bool) -> (result: (Self, RunAction<U, S>))
        ensures
            result.0@ == (RunState {
                settings: config@,
                url,
                backoff,
                phase: if backoff {
                    RunPhase::<S>::BackingOff
                } else {
                    RunPhase::<S>::Connecting
                },
            }),
            result.1 == if backoff {
                RunAction::<U, S>::BackOff
            } else {
                RunAction::<U, S>::Connect(config@.request(url))
            },
    {
        if backoff {
            (Run { config, url, backoff, phase: RunPhase::BackingOff }, RunAction::BackOff)
        } else {
            Self::attempt(config, url, backoff)
        }
    }

    /// Takes an event and says what to do next.
    ///
    /// Each outcome of an attempt to connect is announced to the application,
    /// and the client stops only when the application is not there to take
    /// note. Otherwise it connects again, whether the attempt had failed or
    /// the connection has ended; it backs off first, and starts with a new
    /// back-off after every connection that was opened.
    ///
    /// `None` is returned, and nothing changes, where the client does not wait
    /// for such an event.
    pub fn step(self, event: RunEvent<S>) -> (result: (Self, Option<RunAction<U, S>>))
        ensures
            match self@.step(event) {
                Some((next, action)) => result.0@ == next && result.1 == Some(action),
                None => result.0@ == self@ && result.1 is None,
            },
            self@.wf() ==> result.0@.wf(),
    {
        let Run { config, url, backoff, phase } = self;
        let (next, action) = match (phase, event) {
            (RunPhase::Starting, RunEvent::BackoffMade) => Self::attempt(config, url, backoff),
            (RunPhase::Connecting, RunEvent::ConnectFinished(Ok(socket))) => if backoff {
                let phase = RunPhase::Renewing(socket);
                (Run { config, url, backoff, phase }, RunAction::RenewBackoff)
            } else {
                let channel_size: usize = config.channel_size();
                let phase = RunPhase::Announcing(socket);
                (Run { config, url, backoff, phase }, RunAction::AnnounceConnection { channel_size })
            },
            (RunPhase::Connecting, RunEvent::ConnectFinished(Err(error))) => {
                let phase = RunPhase::AnnouncingFailure;
                (Run { config, url, backoff, phase }, RunAction::AnnounceFailure(error))
            },
            (RunPhase::Renewing(socket), RunEvent::BackoffRenewed) => {
                let channel_size: usize = config.channel_size();
                let phase = RunPhase::Announcing(socket);
                (Run { config, url, backoff, phase }, RunAction::AnnounceConnection { channel_size })
            },
            (RunPhase::Announcing(socket), RunEvent::Announced(true)) => {
                let close_timeout = config.close_timeout();
                let phase = RunPhase::Serving;
                (Run { config, url, backoff, phase }, RunAction::Serve { socket, close_timeout })
            },
            (RunPhase::AnnouncingFailure, RunEvent::Announced(true)) => {
                Self::retry(config, url, backoff)
            },
            (
                RunPhase::Announcing(_) | RunPhase::AnnouncingFailure,
                RunEvent::Announced(false),
            ) => (Run { config, url, backoff, phase: RunPhase::Stopped }, RunAction::Stop),
            (RunPhase::Serving, RunEvent::SessionEnded) => Self::retry(config, url, backoff),
            (RunPhase::BackingOff, RunEvent::BackoffElapsed) => Self::attempt(config, url, backoff),
            (phase, _) => {
                return (Run { config, url, backoff, phase }, None);
            },
        };
        (next, Some(action))
    }
}

/// A client that connects again whenever its connection fails or ends.
#[derive(Debug, Clone, Copy, PartialEq, Eq)]
pub struct ReconnectingClient;

impl ReconnectingClient {
    /// Starts a client of `url` and says what to do first. With `backoff`, the
    /// client backs off each time before it connects again.
    pub fn connect<U: Copy, S>(config: Config, url: U, backoff: bool) -> (result: (
        Run<U, S>,
        RunAction<U, S>,
    ))
        ensures
            (result.0@, result.1) == RunState::<U, S>::started(config@, url, backoff),
            result.0@.wf(),
            backoff ==> result.1 is MakeBackoff,
            !backoff ==> (result.1 matches RunAction::Connect(request) && {
                &&& request.url == url
                &&& request.ws_config == config@.ws_config
                &&& request.disable_nagle == config@.disable_nagle
                &&& request.timeout == config@.connect_timeout
            }),
    {
        if backoff {
            (Run { config, url, backoff, phase: RunPhase::Starting }, RunAction::MakeBackoff)
        } else {
            Run::attempt(config, url, backoff)
        }
    }
}

} // verus!

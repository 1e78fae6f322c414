//! What a client makes of each event, said of the event and of what it leads
//! to.

use vstd::prelude::*;

use crate::client::{ConnectError, RunAction, RunEvent, RunPhase, RunState};
use crate::config::Settings;

verus! {

/// A client that was just started holds what it was given. With a back-off it
/// makes that first; without one it connects at once.
pub proof fn law_how_a_client_starts<U, S>(settings: Settings, url: U, backoff: bool)
    ensures
        ({
            let (state, action) = RunState::<U, S>::started(settings, url, backoff);
            &&& state.settings == settings
            &&& state.url == url
            &&& state.backoff == backoff
            &&& backoff ==> state.phase is Starting && action is MakeBackoff
            &&& !backoff ==> {
                &&& state.phase is Connecting
                &&& action matches RunAction::Connect(request) && {
                    &&& request.url == url
                    &&& request.ws_config == settings.ws_config
                    &&& request.disable_nagle == settings.disable_nagle
                    &&& request.timeout == settings.connect_timeout
                }
            }
        }),
{
}

/// However an attempt to connect begins, it is to the client's address, with
/// the WebSocket configuration, the choice about Nagle's algorithm and the
/// timeout of its settings.
pub proof fn law_attempts_follow_the_settings<U, S>(state: RunState<U, S>, event: RunEvent<S>)
    ensures
        state.step(event) matches Some((next, action)) ==> {
            &&& action is Connect <==> next.phase is Connecting
            &&& action matches RunAction::Connect(request) ==> {
                &&& request.url == state.url
                &&& request.ws_config == state.settings.ws_config
                &&& request.disable_nagle == state.settings.disable_nagle
                &&& request.timeout == state.settings.connect_timeout
            }
        },
{
}

/// No event changes the settings, the address, or whether the client backs
/// off.
pub proof fn law_events_only_move_the_client_on<U, S>(state: RunState<U, S>, event: RunEvent<S>)
    ensures
        state.step(event) matches Some((next, _)) ==> {
            &&& next.settings == state.settings
            &&& next.url == state.url
            &&& next.backoff == state.backoff
        },
{
}

/// Once the first back-off is made, the client connects.
pub proof fn law_the_first_attempt_follows_the_first_backoff<U, S>(state: RunState<U, S>)
    requires
        state.phase is Starting,
    ensures
        state.step(RunEvent::BackoffMade) matches Some((next, action)) && next.phase is Connecting
            && action is Connect,
{
}

/// A socket that was opened is kept while the back-off is renewed, if there is
/// one; then it is announced, with the room for messages of the settings.
pub proof fn law_an_open_socket_is_announced<U, S>(state: RunState<U, S>, socket: S)
    ensures
        state.phase is Connecting && state.backoff ==> state.step(
            RunEvent::ConnectFinished(Ok(socket)),
        ) == Some(
            (
                RunState { phase: RunPhase::Renewing(socket), ..state },
                RunAction::<U, S>::RenewBackoff,
            ),
        ),
        state.phase is Connecting && !state.backoff ==> state.step(
            RunEvent::ConnectFinished(Ok(socket)),
        ) == Some(
            (
                RunState { phase: RunPhase::Announcing(socket), ..state },
                RunAction::<U, S>::AnnounceConnection { channel_size: state.settings.channel_size },
            ),
        ),
        state.phase == RunPhase::Renewing(socket) ==> state.step(RunEvent::BackoffRenewed) == Some(
            (
                RunState { phase: RunPhase::Announcing(socket), ..state },
                RunAction::<U, S>::AnnounceConnection { channel_size: state.settings.channel_size },
            ),
        ),
{
}

/// A socket that was announced is served, that very one, with the time for
/// closing of the settings.
pub proof fn law_an_announced_socket_is_served<U, S>(state: RunState<U, S>, socket: S)
    requires
        state.phase == RunPhase::Announcing(socket),
    ensures
        state.step(RunEvent::Announced(true)) == Some(
            (
                RunState { phase: RunPhase::Serving, ..state },
                RunAction::<U, S>::Serve { socket, close_timeout: state.settings.close_timeout },
            ),
        ),
{
}

/// A failed attempt is announced with its very error.
pub proof fn law_a_failure_is_announced<U, S>(state: RunState<U, S>, error: ConnectError)
    requires
        state.phase is Connecting,
    ensures
        state.step(RunEvent::ConnectFinished(Err(error))) == Some(
            (
                RunState { phase: RunPhase::AnnouncingFailure, ..state },
                RunAction::<U, S>::AnnounceFailure(error),
            ),
        ),
{
}

/// After a failure that the application took note of, and after every session,
/// the client backs off if it can, and else connects at once.
pub proof fn law_the_next_attempt_is_due<U, S>(state: RunState<U, S>, event: RunEvent<S>)
    requires
        (state.phase is AnnouncingFailure && event == RunEvent::<S>::Announced(true)) || (
        state.phase is Serving && event is SessionEnded),
    ensures
        state.backoff ==> state.step(event) == Some(
            (RunState { phase: RunPhase::BackingOff, ..state }, RunAction::<U, S>::BackOff),
        ),
        !state.backoff ==> (state.step(event) matches Some((next, action)) && next.phase
            is Connecting && action is Connect),
{
}

/// Once the back-off has elapsed, the client connects.
pub proof fn law_an_attempt_follows_the_backoff<U, S>(state: RunState<U, S>)
    requires
        state.phase is BackingOff,
    ensures
        state.step(RunEvent::BackoffElapsed) matches Some((next, action)) && next.phase
            is Connecting && action is Connect,
{
}

/// The client stops exactly where the application does not take note of a
/// socket or of a failure.
pub proof fn law_a_refusal_stops_the_client<U, S>(state: RunState<U, S>, event: RunEvent<S>)
    ensures
        state.step(event) matches Some((next, action)) ==> {
            &&& next.phase is Stopped <==> event == RunEvent::<S>::Announced(false)
            &&& action is Stop <==> event == RunEvent::<S>::Announced(false)
        },
{
}

/// The client waits for exactly one thing at a time, and for nothing once it
/// has stopped.
pub proof fn law_what_the_client_waits_for<U, S>(state: RunState<U, S>, event: RunEvent<S>)
    ensures
        state.step(event) is Some <==> {
            ||| state.phase is Starting && event is BackoffMade
            ||| state.phase is Connecting && event is ConnectFinished
            ||| state.phase is Renewing && event is BackoffRenewed
            ||| state.phase is Announcing && event is Announced
            ||| state.phase is AnnouncingFailure && event is Announced
            ||| state.phase is Serving && event is SessionEnded
            ||| state.phase is BackingOff && event is BackoffElapsed
        },
{
}

} // verus!

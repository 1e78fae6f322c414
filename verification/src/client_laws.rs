//! What holds of a client whatever happens to it.

use vstd::prelude::*;

use crate::client::{ConnectError, RunAction, RunEvent, RunPhase, RunState};
use crate::config::Settings;

verus! {

/// What became of a client: the events it took, and its actions, the first of
/// which comes before any event.
#[verifier::reject_recursive_types(U)]
#[verifier::reject_recursive_types(S)]
pub struct RunHistory<U, S> {
    pub state: RunState<U, S>,
    pub events: Seq<RunEvent<S>>,
    pub actions: Seq<RunAction<U, S>>,
}

/// The history of a client that was started with `settings`, `url` and
/// `backoff`, and to which `trace` happened. Events that it did not wait for leave no mark.
pub open spec fn run_history<U, S>(
    settings: Settings,
    url: U,
    backoff: bool,
    trace: Seq<RunEvent<S>>,
) -> RunHistory<U, S>
    decreases trace.len(),
{
    if trace.len() == 0 {
        let (state, action) = RunState::started(settings, url, backoff);
        RunHistory { state, events: Seq::empty(), actions: seq![action] }
    } else {
        let before = run_history(settings, url, backoff, trace.drop_last());
        match before.state.step(trace.last()) {
            Some((state, action)) => RunHistory {
                state,
                events: before.events.push(trace.last()),
                actions: before.actions.push(action),
            },
            None => before,
        }
    }
}

/// What an event says of an attempt to connect: nothing, that it succeeded
/// (`None`), or why it failed.
pub open spec fn outcome<S>(event: RunEvent<S>) -> Option<Option<ConnectError>> {
    match event {
        RunEvent::ConnectFinished(Ok(_)) => Some(None),
        RunEvent::ConnectFinished(Err(error)) => Some(Some(error)),
        _ => None,
    }
}

/// What an action tells the application of an attempt to connect: nothing,
/// that it succeeded (`None`), or why it failed.
pub open spec fn announced<U, S>(action: RunAction<U, S>) -> Option<Option<ConnectError>> {
    match action {
        RunAction::AnnounceConnection { .. } => Some(None),
        RunAction::AnnounceFailure(error) => Some(Some(error)),
        _ => None,
    }
}

/// The socket that an event brings.
pub open spec fn socket_opened<S>(event: RunEvent<S>) -> Option<S> {
    match event {
        RunEvent::ConnectFinished(Ok(socket)) => Some(socket),
        _ => None,
    }
}

/// The socket that an action serves.
pub open spec fn socket_served<U, S>(action: RunAction<U, S>) -> Option<S> {
    match action {
        RunAction::Serve { socket, .. } => Some(socket),
        _ => None,
    }
}

/// Marks where the application was not there to take note.
pub open spec fn refused<S>(event: RunEvent<S>) -> Option<()> {
    if event == RunEvent::<S>::Announced(false) {
        Some(())
    } else {
        None
    }
}

/// Marks where a back-off has elapsed.
pub open spec fn waited<S>(event: RunEvent<S>) -> Option<()> {
    if event is BackoffElapsed {
        Some(())
    } else {
        None
    }
}

/// Marks where a back-off begins.
pub open spec fn backs_off<U, S>(action: RunAction<U, S>) -> Option<()> {
    if action is BackOff {
        Some(())
    } else {
        None
    }
}

/// Marks where the first back-off is made.
pub open spec fn makes<U, S>(action: RunAction<U, S>) -> Option<()> {
    if action is MakeBackoff {
        Some(())
    } else {
        None
    }
}

/// Marks where the back-off is renewed.
pub open spec fn renews<U, S>(action: RunAction<U, S>) -> Option<()> {
    if action is RenewBackoff {
        Some(())
    } else {
        None
    }
}

/// Marks where an attempt to connect begins.
pub open spec fn attempts<U, S>(action: RunAction<U, S>) -> Option<()> {
    if action is Connect {
        Some(())
    } else {
        None
    }
}

/// Whether `event` is something that can come of `action`.
pub open spec fn comes_of<U, S>(event: RunEvent<S>, action: RunAction<U, S>) -> bool {
    match action {
        RunAction::MakeBackoff => event is BackoffMade,
        RunAction::RenewBackoff => event is BackoffRenewed,
        RunAction::Connect(_) => event is ConnectFinished,
        RunAction::AnnounceConnection { .. } => event is Announced,
        RunAction::AnnounceFailure(_) => event is Announced,
        RunAction::Serve { .. } => event is SessionEnded,
        RunAction::BackOff => event is BackoffElapsed,
        RunAction::Stop => false,
    }
}

/// Whether `action` is an attempt to connect to the client's address, with the
/// WebSocket configuration, the choice about Nagle's algorithm and the timeout
/// of its settings.
pub open spec fn connects_as_configured<U, S>(
    state: RunState<U, S>,
    action: RunAction<U, S>,
) -> bool {
    action matches RunAction::Connect(request) && {
        &&& request.url == state.url
        &&& request.ws_config == state.settings.ws_config
        &&& request.disable_nagle == state.settings.disable_nagle
        &&& request.timeout == state.settings.connect_timeout
    }
}

/// Whether the client connects again after `event`: at once if it has no
/// back-off, and else as soon as a back-off has elapsed.
pub open spec fn reconnects_after<U, S>(state: RunState<U, S>, event: RunEvent<S>) -> bool {
    match state.step(event) {
        Some((next, action)) => if state.backoff {
            &&& action is BackOff
            &&& next.step(RunEvent::BackoffElapsed) matches Some((_, then))
            &&& connects_as_configured(state, then)
        } else {
            connects_as_configured(state, action)
        },
        None => false,
    }
}

/// Every client is well-formed and keeps its settings and its address,
/// whatever happens to it.
pub proof fn law_clients_stay_well_formed<U, S>(
    settings: Settings,
    url: U,
    backoff: bool,
    trace: Seq<RunEvent<S>>,
)
    ensures
        ({
            let state = run_history(settings, url, backoff, trace).state;
            &&& state.wf()
            &&& state.settings == settings
            &&& state.url == url
            &&& state.backoff == backoff
        }),
    decreases trace.len(),
{
    if trace.len() > 0 {
        law_clients_stay_well_formed(settings, url, backoff, trace.drop_last());
    }
}

/// Every attempt is made to the same address, and every attempt, every
/// connection and every session as the settings say.
pub proof fn law_settings_are_followed<U, S>(
    settings: Settings,
    url: U,
    backoff: bool,
    trace: Seq<RunEvent<S>>,
)
    ensures
        ({
            let history = run_history(settings, url, backoff, trace);
            forall|i: int|
                0 <= i < history.actions.len() ==> match #[trigger] history.actions[i] {
                    RunAction::Connect(request) => {
                        &&& request.url == url
                        &&& request.ws_config == settings.ws_config
                        &&& request.disable_nagle == settings.disable_nagle
                        &&& request.timeout == settings.connect_timeout
                    },
                    RunAction::AnnounceConnection { channel_size } => channel_size
                        == settings.channel_size,
                    RunAction::Serve { close_timeout, .. } => close_timeout
                        == settings.close_timeout,
                    _ => true,
                }
        }),
    decreases trace.len(),
{
    if trace.len() > 0 {
        law_settings_are_followed(settings, url, backoff, trace.drop_last());
        law_clients_stay_well_formed(settings, url, backoff, trace.drop_last());
    }
}

/// The application is told what every attempt to connect came to, once and in
/// order, and of nothing else. Only the back-off may still have to be renewed
/// before it is told of the latest success.
pub proof fn law_every_outcome_is_announced<U, S>(
    settings: Settings,
    url: U,
    backoff: bool,
    trace: Seq<RunEvent<S>>,
)
    ensures
        ({
            let history = run_history(settings, url, backoff, trace);
            let told = crate::history::picked(history.actions, |action| announced(action));
            let pending = if history.state.phase is Renewing {
                seq![None::<ConnectError>]
            } else {
                Seq::empty()
            };
            crate::history::picked(history.events, |event| outcome(event)) == told + pending
        }),
    decreases trace.len(),
{
    let tells = |action: RunAction<U, S>| announced(action);
    let history = run_history(settings, url, backoff, trace);
    if trace.len() > 0 {
        law_every_outcome_is_announced(settings, url, backoff, trace.drop_last());
        law_clients_stay_well_formed(settings, url, backoff, trace.drop_last());
        let before = run_history(settings, url, backoff, trace.drop_last());
        if let Some((_, action)) = before.state.step(trace.last()) {
            crate::history::lemma_picked_push(before.actions, action, tells);
            crate::history::lemma_picked_push(
                before.events,
                trace.last(),
                |event: RunEvent<S>| outcome(event),
            );
        }
    } else {
        let (_, action) = RunState::<U, S>::started(settings, url, backoff);
        crate::history::lemma_picked_push(Seq::empty(), action, tells);
        assert(history.actions =~= Seq::empty().push(action));
    }
}

/// The client stops exactly when the application was not there to take note of
/// an outcome, and a client that has not stopped is waiting for something.
pub proof fn law_only_a_missing_application_stops_the_client<U, S>(
    settings: Settings,
    url: U,
    backoff: bool,
    trace: Seq<RunEvent<S>>,
)
    ensures
        ({
            let history = run_history(settings, url, backoff, trace);
            let refusals = crate::history::picked(history.events, |event| refused(event));
            &&& history.state.phase is Stopped <==> refusals.len() > 0
            &&& history.state.phase is Stopped ==> forall|event: RunEvent<S>|
                history.state.step(event) is None
            &&& history.state.phase !is Stopped ==> exists|event: RunEvent<S>|
                history.state.step(event) is Some
        }),
    decreases trace.len(),
{
    let history = run_history(settings, url, backoff, trace);
    if trace.len() > 0 {
        law_only_a_missing_application_stops_the_client(settings, url, backoff, trace.drop_last());
        let before = run_history(settings, url, backoff, trace.drop_last());
        if let Some((_, action)) = before.state.step(trace.last()) {
            crate::history::lemma_picked_push(
                before.events,
                trace.last(),
                |event: RunEvent<S>| refused(event),
            );
        }
    }
    if history.state.phase !is Stopped {
        let awaited: RunEvent<S> = match history.state.phase {
            RunPhase::Starting => RunEvent::BackoffMade,
            RunPhase::Renewing(_) => RunEvent::BackoffRenewed,
            RunPhase::Connecting => RunEvent::ConnectFinished(Err(ConnectError::TimedOut)),
            RunPhase::Announcing(_) | RunPhase::AnnouncingFailure => RunEvent::Announced(true),
            RunPhase::Serving => RunEvent::SessionEnded,
            RunPhase::BackingOff | RunPhase::Stopped => RunEvent::BackoffElapsed,
        };
        assert(history.state.step(awaited) is Some);
    }
}

/// Whatever comes of the client's last action is taken, and nothing else is.
pub proof fn law_exactly_the_outcome_of_the_last_action_is_taken<U, S>(
    settings: Settings,
    url: U,
    backoff: bool,
    trace: Seq<RunEvent<S>>,
    event: RunEvent<S>,
)
    ensures
        ({
            let history = run_history(settings, url, backoff, trace);
            &&& history.actions.len() > 0
            &&& history.state.step(event) is Some <==> comes_of(event, history.actions.last())
        }),
    decreases trace.len(),
{
    if trace.len() > 0 {
        law_clients_stay_well_formed(settings, url, backoff, trace.drop_last());
        law_exactly_the_outcome_of_the_last_action_is_taken(
            settings,
            url,
            backoff,
            trace.drop_last(),
            event,
        );
    }
}

/// There is one connection at a time: while one is served, only the end of its
/// session leads to an action.
pub proof fn law_one_connection_at_a_time<U, S>(
    settings: Settings,
    url: U,
    backoff: bool,
    trace: Seq<RunEvent<S>>,
    event: RunEvent<S>,
)
    requires
        run_history(settings, url, backoff, trace).actions.last() is Serve,
    ensures
        run_history(settings, url, backoff, trace).state.step(event) is Some <==> event
            is SessionEnded,
{
    law_exactly_the_outcome_of_the_last_action_is_taken(settings, url, backoff, trace, event);
}

/// Each attempt to connect has exactly one outcome, unless it is still going
/// on.
pub proof fn law_each_attempt_has_one_outcome<U, S>(
    settings: Settings,
    url: U,
    backoff: bool,
    trace: Seq<RunEvent<S>>,
)
    ensures
        ({
            let history = run_history(settings, url, backoff, trace);
            let begun = crate::history::picked(history.actions, |action| attempts(action));
            let over = crate::history::picked(history.events, |event| outcome(event));
            begun.len() == over.len() + if history.actions.last() is Connect {
                1int
            } else {
                0
            }
        }),
    decreases trace.len(),
{
    let begins = |action: RunAction<U, S>| attempts(action);
    let history = run_history(settings, url, backoff, trace);
    if trace.len() > 0 {
        law_each_attempt_has_one_outcome(settings, url, backoff, trace.drop_last());
        law_exactly_the_outcome_of_the_last_action_is_taken(
            settings,
            url,
            backoff,
            trace.drop_last(),
            trace.last(),
        );
        let before = run_history(settings, url, backoff, trace.drop_last());
        if let Some((_, action)) = before.state.step(trace.last()) {
            crate::history::lemma_picked_push(before.actions, action, begins);
            crate::history::lemma_picked_push(
                before.events,
                trace.last(),
                |event: RunEvent<S>| outcome(event),
            );
        }
    } else {
        let (_, action) = RunState::<U, S>::started(settings, url, backoff);
        crate::history::lemma_picked_push(Seq::empty(), action, begins);
        assert(history.actions =~= Seq::empty().push(action));
    }
}

/// Whatever the error, a failed attempt is announced with that error, and if
/// the application takes note, the client connects again.
pub proof fn law_the_client_reconnects_on_any_error<U, S>(state: RunState<U, S>, error: ConnectError)
    requires
        state.phase is Connecting,
    ensures
        state.step(RunEvent::ConnectFinished(Err(error))) matches Some((next, action)) && action
            == RunAction::<U, S>::AnnounceFailure(error) && reconnects_after(
            next,
            RunEvent::Announced(true),
        ),
{
}

/// When a connection ends, for whatever reason, the client connects again.
pub proof fn law_the_client_reconnects_after_every_session<U, S>(state: RunState<U, S>)
    requires
        state.phase is Serving,
    ensures
        reconnects_after(state, RunEvent::SessionEnded),
{
}

/// A back-off is made once, before anything else, and renewed each time a
/// connection is opened and at no other time.
pub proof fn law_every_connection_renews_the_backoff<U, S>(
    settings: Settings,
    url: U,
    backoff: bool,
    trace: Seq<RunEvent<S>>,
)
    ensures
        ({
            let history = run_history(settings, url, backoff, trace);
            let opened = crate::history::picked(history.events, |event| socket_opened(event));
            let made = crate::history::picked(history.actions, |action| makes(action));
            let renewed = crate::history::picked(history.actions, |action| renews(action));
            if backoff {
                &&& history.actions.len() > 0
                &&& history.actions[0] is MakeBackoff
                &&& made.len() == 1
                &&& renewed.len() == opened.len()
            } else {
                made.len() == 0 && renewed.len() == 0
            }
        }),
    decreases trace.len(),
{
    let making = |action: RunAction<U, S>| makes(action);
    let renewing = |action: RunAction<U, S>| renews(action);
    let history = run_history(settings, url, backoff, trace);
    if trace.len() > 0 {
        law_every_connection_renews_the_backoff(settings, url, backoff, trace.drop_last());
        law_clients_stay_well_formed(settings, url, backoff, trace.drop_last());
        let before = run_history(settings, url, backoff, trace.drop_last());
        if let Some((_, action)) = before.state.step(trace.last()) {
            crate::history::lemma_picked_push(before.actions, action, making);
            crate::history::lemma_picked_push(before.actions, action, renewing);
            crate::history::lemma_picked_push(
                before.events,
                trace.last(),
                |event: RunEvent<S>| socket_opened(event),
            );
        }
    } else {
        let (_, action) = RunState::<U, S>::started(settings, url, backoff);
        crate::history::lemma_picked_push(Seq::empty(), action, making);
        crate::history::lemma_picked_push(Seq::empty(), action, renewing);
        assert(history.actions =~= Seq::empty().push(action));
    }
}

/// With a back-off, the client waits once before each attempt but the first;
/// without one, it never waits.
pub proof fn law_every_reconnect_backs_off<U, S>(
    settings: Settings,
    url: U,
    backoff: bool,
    trace: Seq<RunEvent<S>>,
)
    ensures
        ({
            let history = run_history(settings, url, backoff, trace);
            let begun = crate::history::picked(history.actions, |action| attempts(action));
            let waits = crate::history::picked(history.actions, |action| backs_off(action));
            let elapsed = crate::history::picked(history.events, |event| waited(event));
            if backoff {
                &&& begun.len() == elapsed.len() + if history.state.phase is Starting {
                    0int
                } else {
                    1
                }
                &&& waits.len() == elapsed.len() + if history.state.phase is BackingOff {
                    1int
                } else {
                    0
                }
            } else {
                waits.len() == 0
            }
        }),
    decreases trace.len(),
{
    let begins = |action: RunAction<U, S>| attempts(action);
    let waits = |action: RunAction<U, S>| backs_off(action);
    let history = run_history(settings, url, backoff, trace);
    if trace.len() > 0 {
        law_every_reconnect_backs_off(settings, url, backoff, trace.drop_last());
        law_clients_stay_well_formed(settings, url, backoff, trace.drop_last());
        let before = run_history(settings, url, backoff, trace.drop_last());
        if let Some((_, action)) = before.state.step(trace.last()) {
            crate::history::lemma_picked_push(before.actions, action, begins);
            crate::history::lemma_picked_push(before.actions, action, waits);
            crate::history::lemma_picked_push(
                before.events,
                trace.last(),
                |event: RunEvent<S>| waited(event),
            );
        }
    } else {
        let (_, action) = RunState::<U, S>::started(settings, url, backoff);
        crate::history::lemma_picked_push(Seq::empty(), action, begins);
        crate::history::lemma_picked_push(Seq::empty(), action, waits);
        assert(history.actions =~= Seq::empty().push(action));
    }
}

/// As long as the client has not stopped, it serves exactly the sockets that
/// were opened, each once and in order; the latest may still have to be
/// announced.
pub proof fn law_every_socket_is_served<U, S>(
    settings: Settings,
    url: U,
    backoff: bool,
    trace: Seq<RunEvent<S>>,
)
    requires
        run_history(settings, url, backoff, trace).state.phase !is Stopped,
    ensures
        ({
            let history = run_history(settings, url, backoff, trace);
            let served = crate::history::picked(history.actions, |action| socket_served(action));
            let pending = match history.state.phase {
                RunPhase::Renewing(socket) => seq![socket],
                RunPhase::Announcing(socket) => seq![socket],
                _ => Seq::empty(),
            };
            crate::history::picked(history.events, |event| socket_opened(event)) == served + pending
        }),
    decreases trace.len(),
{
    let serves = |action: RunAction<U, S>| socket_served(action);
    let history = run_history(settings, url, backoff, trace);
    if trace.len() > 0 {
        let before = run_history(settings, url, backoff, trace.drop_last());
        law_every_socket_is_served(settings, url, backoff, trace.drop_last());
        if let Some((_, action)) = before.state.step(trace.last()) {
            crate::history::lemma_picked_push(before.actions, action, serves);
            crate::history::lemma_picked_push(
                before.events,
                trace.last(),
                |event: RunEvent<S>| socket_opened(event),
            );
        }
    } else {
        let (_, action) = RunState::<U, S>::started(settings, url, backoff);
        crate::history::lemma_picked_push(Seq::empty(), action, serves);
        assert(history.actions =~= Seq::empty().push(action));
    }
}

} // verus!

//! How long a client waits before it connects again.

use std::time::Duration;
use vstd::prelude::*;

verus! {

/// Trait for creating different backoff/timeout routines. Required
/// when reconnecting to avoid hitting the server too many times with
/// requests.
///
/// When a reconnect attempt is about to start, `next_delay` will be
/// called. The [`Duration`] returned determines how long the client
/// will wait before trying to reconnect.
///
/// Once a connection is successfully opened, `reset` will be called.
/// This is an opportunity to reset the routine.
///
/// [`Duration`]: std::time::Duration
pub trait BackoffGenerator {
    /// Whether `reset` may turn this into `after`. A routine that says nothing
    /// about it may do anything.
    open spec fn resets(&self, after: &Self) -> bool {
        true
    }

    /// Whether `next_delay` may return `delay` and turn this into `after`. A
    /// routine that says nothing about it may do anything.
    open spec fn delays(&self, delay: Duration, after: &Self) -> bool {
        true
    }

    fn reset(&mut self)
        ensures
            old(self).resets(final(self)),
    ;

    fn next_delay(&mut self) -> (delay: Duration)
        ensures
            old(self).delays(delay, final(self)),
    ;
}

/// A fixed backoff which always returns the same [`Duration`].
///
/// [`Duration`]: std::time::Duration
pub struct FixedBackoff {
    backoff_duration: Duration,
}

impl View for FixedBackoff {
    type V = Duration;

    /// The delay that is returned each time.
    closed spec fn view(&self) -> Duration {
        self.backoff_duration
    }
}

impl FixedBackoff {
    /// Creates a new instance. The passed `backoff_duration` will be
    /// returned on every call to [`next_delay`].
    ///
    /// [`next_delay`]: BackoffGenerator::next_delay
    pub fn new(backoff_duration: Duration) -> (backoff: Self)
        ensures
            backoff@ == backoff_duration,
    {
        FixedBackoff { backoff_duration }
    }
}

impl Clone for FixedBackoff {
    fn clone(&self) -> (backoff: Self)
        ensures
            backoff@ == self@,
    {
        FixedBackoff { backoff_duration: self.backoff_duration }
    }
}

impl BackoffGenerator for FixedBackoff {
    open spec fn resets(&self, after: &Self) -> bool {
        after@ == self@
    }

    open spec fn delays(&self, delay: Duration, after: &Self) -> bool {
        delay == self@ && after@ == self@
    }

    fn reset(&mut self)
        ensures
            final(self)@ == old(self)@,
    {
    }

    fn next_delay(&mut self) -> (delay: Duration)
        ensures
            delay == old(self)@,
            final(self)@ == old(self)@,
    {
        self.backoff_duration
    }
}

/// Whether `states` are those of a backoff that is called again and again:
/// call `i` is `next_delay`, returning `calls[i]`, or `reset` where `calls[i]`
/// is `None`.
pub open spec fn called<G: BackoffGenerator>(states: Seq<G>, calls: Seq<Option<Duration>>) -> bool {
    &&& states.len() == calls.len() + 1
    &&& forall|i: int|
        0 <= i < calls.len() ==> match #[trigger] calls[i] {
            Some(delay) => states[i].delays(delay, &states[i + 1]),
            None => states[i].resets(&states[i + 1]),
        }
}

/// A fixed backoff returns the duration it was made with on every call to
/// `next_delay`, however often it is called and reset.
pub proof fn law_fixed_backoff_never_changes(
    states: Seq<FixedBackoff>,
    calls: Seq<Option<Duration>>,
    i: int,
)
    requires
        called(states, calls),
        0 <= i < calls.len(),
    ensures
        calls[i] matches Some(delay) ==> delay == states[0]@,
        states[i + 1]@ == states[0]@,
    decreases i,
{
    if i > 0 {
        law_fixed_backoff_never_changes(states, calls, i - 1);
    }
}

} // verus!

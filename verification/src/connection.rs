//! Host-liveness tracking.
//!
//! The connection state is a three-rung degradation ladder driven solely by
//! the outcome of each inbound read attempt.  A successful read recovers to
//! `Connected` immediately from any rung; a transport-level error moves to
//! `Stale`; a timeout decays exactly one rung, never two.

use vstd::prelude::*;

verus! {

/// Liveness of the host link, from best to worst.
#[derive(Clone, Copy, Debug, PartialEq, Eq, Structural)]
pub enum ConnectionState {
    Connected,
    Stale,
    Disconnected,
}

/// Outcome of one inbound read attempt, each attempt bounded by the
/// receive timeout.
#[derive(Clone, Copy, Debug, PartialEq, Eq, Structural)]
pub enum ReadOutcome {
    /// The read completed with data.
    Success,
    /// The read completed but the transport reported an error.
    TransportError,
    /// The read did not complete within the timeout.
    Timeout,
}

/// Position on the degradation ladder, counted downwards from `Connected`.
pub open spec fn spec_rung(s: ConnectionState) -> int {
    match s {
        ConnectionState::Connected => 0,
        ConnectionState::Stale => 1,
        ConnectionState::Disconnected => 2,
    }
}

/// The state after observing one read outcome.
pub open spec fn spec_connection_next(s: ConnectionState, o: ReadOutcome) -> ConnectionState {
    match o {
        ReadOutcome::Success => ConnectionState::Connected,
        ReadOutcome::TransportError => ConnectionState::Stale,
        ReadOutcome::Timeout => match s {
            ConnectionState::Connected => ConnectionState::Stale,
            ConnectionState::Stale => ConnectionState::Disconnected,
            ConnectionState::Disconnected => ConnectionState::Disconnected,
        },
    }
}

/// Whether the new state is published to watchers: on any change, and on
/// every timeout even without a change, to refresh them.
pub open spec fn spec_connection_publish(s: ConnectionState, o: ReadOutcome) -> bool {
    match o {
        ReadOutcome::Success => s != ConnectionState::Connected,
        ReadOutcome::TransportError => s != ConnectionState::Stale,
        ReadOutcome::Timeout => true,
    }
}

/// Single writer of the connection state.  Starts pessimistic: nothing has
/// been heard from the host yet.
pub struct ConnectionTracker {
    pub state: ConnectionState,
}

impl ConnectionTracker {
    pub fn new() -> (t: Self)
        ensures
            t.state == ConnectionState::Disconnected,
    {
        ConnectionTracker { state: ConnectionState::Disconnected }
    }

    /// Observe the outcome of one read attempt; returns whether the (new)
    /// state must be published to watchers.
    pub fn observe(&mut self, outcome: ReadOutcome) -> (publish: bool)
        ensures
            final(self).state == spec_connection_next(old(self).state, outcome),
            publish == spec_connection_publish(old(self).state, outcome),
    {
        match outcome {
            ReadOutcome::Success => {
                if self.state != ConnectionState::Connected {
                    self.state = ConnectionState::Connected;
                    true
                } else {
                    false
                }
            },
            ReadOutcome::TransportError => {
                if self.state != ConnectionState::Stale {
                    self.state = ConnectionState::Stale;
                    true
                } else {
                    false
                }
            },
            ReadOutcome::Timeout => {
                self.state = match self.state {
                    ConnectionState::Connected => ConnectionState::Stale,
                    ConnectionState::Stale => ConnectionState::Disconnected,
                    ConnectionState::Disconnected => ConnectionState::Disconnected,
                };
                true
            },
        }
    }
}

/// The tracker never skips a rung downwards: one observation moves at most
/// one step down the ladder, whatever the outcome.  In particular three
/// timeouts from `Connected` pass through `Stale` and `Disconnected` and
/// then stay there.
pub proof fn lemma_decay_one_rung_at_a_time(s: ConnectionState, o: ReadOutcome)
    ensures
        spec_rung(spec_connection_next(s, o)) <= spec_rung(s) + 1,
        spec_connection_next(ConnectionState::Connected, ReadOutcome::Timeout)
            == ConnectionState::Stale,
        spec_connection_next(ConnectionState::Stale, ReadOutcome::Timeout)
            == ConnectionState::Disconnected,
        spec_connection_next(ConnectionState::Disconnected, ReadOutcome::Timeout)
            == ConnectionState::Disconnected,
{
}

/// Any single successful read recovers to `Connected` immediately,
/// whatever rung the tracker was on.
pub proof fn lemma_success_recovers_immediately(s: ConnectionState)
    ensures
        spec_connection_next(s, ReadOutcome::Success) == ConnectionState::Connected,
{
}

} // verus!

use vstd::prelude::*;

verus! {

/// Where a listener stands in its life.
#[derive(Clone, Copy, Debug, PartialEq, Eq, Structural)]
pub enum ServerPhase {
    /// Accepting connections and handing each to its protocol.
    Accepting,
    /// No longer accepting; waiting for the connections in flight, up to a timeout.
    Draining,
    /// Done: the process may exit.
    Stopped,
}

/// What happens to a listener.
#[derive(Clone, Copy, Debug, PartialEq, Eq, Structural)]
pub enum ServerEvent {
    /// A connection was accepted.
    Accepted,
    /// The shutdown signal arrived.
    ShutdownSignal,
    /// The registry of connections in flight drained.
    Drained,
    /// The shutdown timeout elapsed before the registry drained.
    TimedOut,
}

/// What the listener's loop does next.
#[derive(Clone, Copy, Debug, PartialEq, Eq, Structural)]
pub enum ServerAction {
    /// Register the connection and run its protocol on a task of its own.
    Dispatch,
    /// Stop accepting; wait for the registry to drain, for at most `timeout_secs` seconds.
    StartDrain { timeout_secs: u64 },
    /// Shutdown finished with every connection done.
    Finish,
    /// Shutdown gave up on the connections still in flight.
    GiveUp,
    /// Nothing: the event does not apply in this phase.
    Ignore,
}

/// The accept loop of one listener: it accepts until the shutdown signal, then drains the
/// connections in flight for at most `shutdown_timeout` seconds. Sessions are never cancelled:
/// after a timeout they end with the process.
pub struct ServerLoop {
    pub phase: ServerPhase,
    pub shutdown_timeout: u64,
}

/// The phase and action that follow `e` in phase `p`.
pub open spec fn server_step(p: ServerPhase, timeout: u64, e: ServerEvent) -> (
    ServerPhase,
    ServerAction,
) {
    match (p, e) {
        (ServerPhase::Accepting, ServerEvent::Accepted) => (
            ServerPhase::Accepting,
            ServerAction::Dispatch,
        ),
        (ServerPhase::Accepting, ServerEvent::ShutdownSignal) => (
            ServerPhase::Draining,
            ServerAction::StartDrain { timeout_secs: timeout },
        ),
        (ServerPhase::Draining, ServerEvent::Drained) => (
            ServerPhase::Stopped,
            ServerAction::Finish,
        ),
        (ServerPhase::Draining, ServerEvent::TimedOut) => (
            ServerPhase::Stopped,
            ServerAction::GiveUp,
        ),
        _ => (p, ServerAction::Ignore),
    }
}

impl ServerLoop {
    /// A listener that has just started accepting.
    pub fn new(shutdown_timeout: u64) -> (r: ServerLoop)
        ensures
            r.phase == ServerPhase::Accepting,
            r.shutdown_timeout == shutdown_timeout,
    {
        ServerLoop { phase: ServerPhase::Accepting, shutdown_timeout }
    }

    /// Takes one event and says what to do about it.
    pub fn on_event(&mut self, e: ServerEvent) -> (r: ServerAction)
        ensures
            final(self).shutdown_timeout == old(self).shutdown_timeout,
            (final(self).phase, r) == server_step(old(self).phase, old(self).shutdown_timeout, e),
    {
        match (self.phase, e) {
            (ServerPhase::Accepting, ServerEvent::Accepted) => ServerAction::Dispatch,
            (ServerPhase::Accepting, ServerEvent::ShutdownSignal) => {
                self.phase = ServerPhase::Draining;
                ServerAction::StartDrain { timeout_secs: self.shutdown_timeout }
            },
            (ServerPhase::Draining, ServerEvent::Drained) => {
                self.phase = ServerPhase::Stopped;
                ServerAction::Finish
            },
            (ServerPhase::Draining, ServerEvent::TimedOut) => {
                self.phase = ServerPhase::Stopped;
                ServerAction::GiveUp
            },
            _ => ServerAction::Ignore,
        }
    }
}

/// Once the shutdown signal has arrived, no later event dispatches a connection.
pub proof fn lemma_no_dispatch_after_signal(p: ServerPhase, timeout: u64, e: ServerEvent)
    requires
        p != ServerPhase::Accepting,
    ensures
        server_step(p, timeout, e).1 != ServerAction::Dispatch,
        server_step(p, timeout, e).0 != ServerPhase::Accepting,
{
}

} // verus!

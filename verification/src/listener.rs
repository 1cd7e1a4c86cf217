//! The accept loop's decisions: a failure that concerns one incoming
//! connection is passed over, a failure of the listening socket ends the
//! server.

use vstd::prelude::*;

verus! {

/// Why an attempt to accept a connection failed, as far as the accept loop
/// tells failures apart.
#[derive(Debug, Clone, Copy, PartialEq, Eq, Structural)]
pub enum AcceptFailure {
    /// The peer gave the connection up before it was accepted.
    ConnectionAborted,
    /// The peer reset the connection before it was accepted.
    ConnectionReset,
    /// The connection was refused on its way in.
    ConnectionRefused,
    /// The call was interrupted before a connection came.
    Interrupted,
    /// No connection was waiting.
    WouldBlock,
    /// The attempt ran out of time.
    TimedOut,
    /// Any other failure: the listening socket itself is of no more use.
    Other,
}

/// What one attempt to accept a connection gave.
#[derive(Debug, Clone, Copy, PartialEq, Eq, Structural)]
pub enum AcceptOutcome {
    /// A connection was accepted.
    Connected,
    /// The attempt failed.
    Failed(AcceptFailure),
}

/// What the accept loop does next.
#[derive(Debug, Clone, Copy, PartialEq, Eq, Structural)]
pub enum ListenerAction {
    /// Hand the connection to a task of its own, then accept again.
    Serve,
    /// Accept again.
    Retry,
    /// End the server with a diagnostic.
    Stop,
}

/// Whether the listener can go on accepting after this failure.
pub open spec fn is_recoverable(failure: AcceptFailure) -> bool {
    failure != AcceptFailure::Other
}

/// The accept loop's rule.
pub open spec fn listener_action(outcome: AcceptOutcome) -> ListenerAction {
    match outcome {
        AcceptOutcome::Connected => ListenerAction::Serve,
        AcceptOutcome::Failed(failure) => if is_recoverable(failure) {
            ListenerAction::Retry
        } else {
            ListenerAction::Stop
        },
    }
}

/// Decides what follows one attempt to accept a connection. The server stops
/// only on a failure that it cannot recover from.
pub fn after_accept(outcome: AcceptOutcome) -> (action: ListenerAction)
    ensures
        action == listener_action(outcome),
        action == ListenerAction::Stop <==> (outcome matches AcceptOutcome::Failed(failure)
            && !is_recoverable(failure)),
{
    match outcome {
        AcceptOutcome::Connected => ListenerAction::Serve,
        AcceptOutcome::Failed(AcceptFailure::Other) => ListenerAction::Stop,
        AcceptOutcome::Failed(_) => ListenerAction::Retry,
    }
}

} // verus!

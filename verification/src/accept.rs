//! Decisions of the two accept loops and of the process supervisor. Each
//! acceptor is an endless loop that accepts inbound connections and hands
//! each one off as an independent unit of work; the process runs both loops
//! concurrently and fails if either fails.

use vstd::prelude::*;

verus! {

/// What one turn of an accept loop observed.
#[derive(Clone, Copy, Debug, PartialEq, Eq, Structural)]
pub enum AcceptEvent {
    /// A client connection was accepted.
    Accepted,
    /// Accepting one connection failed, but the listener itself is still
    /// usable.
    AcceptFailed,
    /// The listener itself is unusable; no further connection can be
    /// accepted.
    ListenerBroken,
}

/// What the accept loop must do next.
#[derive(Clone, Copy, Debug, PartialEq, Eq, Structural)]
pub enum AcceptAction {
    /// Hand the accepted connection off as an independent unit of work and
    /// accept again: in-flight connections never block the next accept.
    StartConnection,
    /// Drop the failed accept and accept again.
    KeepAccepting,
    /// Leave the loop with a failure; the supervisor sees it.
    StopFailed,
}

/// The decision an accept loop owes for each observation: an accepted
/// connection is started and the loop goes on; a per-connection accept
/// failure is dropped and the loop goes on; only a broken listener ends the
/// loop, with a failure.
pub open spec fn accept_decision_of(e: AcceptEvent) -> AcceptAction {
    match e {
        AcceptEvent::Accepted => AcceptAction::StartConnection,
        AcceptEvent::AcceptFailed => AcceptAction::KeepAccepting,
        AcceptEvent::ListenerBroken => AcceptAction::StopFailed,
    }
}

/// Decide one turn of an accept loop.
pub fn accept_decision(e: AcceptEvent) -> (a: AcceptAction)
    ensures
        a == accept_decision_of(e),
        a == AcceptAction::StopFailed <==> e == AcceptEvent::ListenerBroken,
{
    match e {
        AcceptEvent::Accepted => AcceptAction::StartConnection,
        AcceptEvent::AcceptFailed => AcceptAction::KeepAccepting,
        AcceptEvent::ListenerBroken => AcceptAction::StopFailed,
    }
}

/// Combined outcome of two parts that must both finish — the two copy
/// directions of one session, or the two accept loops of the process. Each
/// part reports `None` for a clean end or `Some(failure)`; the whole is
/// clean only if both parts are, and otherwise the failure observed first
/// wins (`first` is the outcome that arrived first).
pub fn first_failure<E>(first: Option<E>, second: Option<E>) -> (r: Option<E>)
    ensures
        first matches Some(_) ==> r == first,
        first matches None ==> r == second,
        r matches None <==> (first matches None && second matches None),
{
    match first {
        Some(e) => Some(e),
        None => second,
    }
}

} // verus!

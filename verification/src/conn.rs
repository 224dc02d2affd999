//! Per-connection decisions of the two acceptors. Each accepted client
//! connection becomes an independent unit of work that first terminates TLS
//! (on the secure port only), then dials the one fixed upstream address, and
//! then relays bytes until both directions end. A handshake or dial failure
//! drops only that client connection — no relay session is created, and no
//! other connection is touched.

use vstd::prelude::*;

use crate::lanes::Scheduled;
use crate::lanes::lane_events;
use crate::lanes::lane_run;
use crate::lanes::lemma_lane_isolation;
use crate::lanes::world_run;

verus! {

/// Which listener accepted the connection.
#[derive(Clone, Copy, Debug, PartialEq, Eq, Structural)]
pub enum ConnMode {
    /// The plaintext port: the accepted stream is relayed as it is.
    Plain,
    /// The TLS-terminating port: the accepted stream first goes through a
    /// server-side TLS handshake.
    Secure,
}

/// Where one accepted connection stands.
#[derive(Clone, Copy, Debug, PartialEq, Eq, Structural)]
pub enum ConnPhase {
    /// The server-side TLS handshake is in flight.
    Handshaking,
    /// The dial to the fixed upstream address is in flight.
    Dialing,
    /// A session exists; its two copy directions are running.
    Relaying,
    /// Dropped before a session existed: the handshake or the dial failed,
    /// and the client connection was closed.
    Refused,
    /// The relay session ran and both of its directions ended.
    Finished,
}

/// What the driver observed for one connection.
#[derive(Clone, Copy, Debug, PartialEq, Eq, Structural)]
pub enum ConnEvent {
    /// The TLS handshake completed; the stream now carries plaintext bytes.
    HandshakeOk,
    /// The TLS handshake failed (malformed hello, no shared cipher, ...).
    HandshakeFailed,
    /// The upstream dial completed; both streams of the session exist.
    DialOk,
    /// The upstream address could not be reached.
    DialFailed,
    /// The relay session over the paired streams ended, cleanly or not.
    RelayEnded,
}

/// What the driver must do next for one connection.
#[derive(Clone, Copy, Debug, PartialEq, Eq, Structural)]
pub enum ConnAction {
    /// Run the server-side TLS handshake on the accepted stream.
    DoHandshake,
    /// Dial the fixed upstream address.
    DoDial,
    /// Run the relay session over the client and upstream streams.
    DoRelay,
    /// Close the client connection; no session was or will be created.
    CloseClient,
    /// The connection is over; nothing is owed.
    Stop,
}

/// The action owed in each phase when no event just arrived.
pub open spec fn conn_action_of(phase: ConnPhase) -> ConnAction {
    match phase {
        ConnPhase::Handshaking => ConnAction::DoHandshake,
        ConnPhase::Dialing => ConnAction::DoDial,
        ConnPhase::Relaying => ConnAction::DoRelay,
        ConnPhase::Refused => ConnAction::Stop,
        ConnPhase::Finished => ConnAction::Stop,
    }
}

/// The phase a connection starts in: a secure connection owes the TLS
/// handshake first; a plain connection goes straight to the upstream dial.
pub open spec fn conn_init(mode: ConnMode) -> ConnPhase {
    match mode {
        ConnMode::Plain => ConnPhase::Dialing,
        ConnMode::Secure => ConnPhase::Handshaking,
    }
}

/// One transition of the per-connection state machine, with the immediate
/// action it orders. An event that does not answer the phase leaves the
/// connection unchanged.
pub open spec fn conn_model_step(phase: ConnPhase, e: ConnEvent) -> (ConnPhase, ConnAction) {
    match (phase, e) {
        (ConnPhase::Handshaking, ConnEvent::HandshakeOk) => (ConnPhase::Dialing, ConnAction::DoDial),
        (ConnPhase::Handshaking, ConnEvent::HandshakeFailed) => (
            ConnPhase::Refused,
            ConnAction::CloseClient,
        ),
        (ConnPhase::Dialing, ConnEvent::DialOk) => (ConnPhase::Relaying, ConnAction::DoRelay),
        (ConnPhase::Dialing, ConnEvent::DialFailed) => (
            ConnPhase::Refused,
            ConnAction::CloseClient,
        ),
        (ConnPhase::Relaying, ConnEvent::RelayEnded) => (ConnPhase::Finished, ConnAction::Stop),
        _ => (phase, conn_action_of(phase)),
    }
}

/// Start one accepted connection.
pub fn conn_start(mode: ConnMode) -> (r: (ConnPhase, ConnAction))
    ensures
        r.0 == conn_init(mode),
        r.1 == conn_action_of(r.0),
{
    match mode {
        ConnMode::Plain => (ConnPhase::Dialing, ConnAction::DoDial),
        ConnMode::Secure => (ConnPhase::Handshaking, ConnAction::DoHandshake),
    }
}

/// Feed the outcome of a connection's last action; the new phase and the
/// next action come back. A failed TLS handshake or a failed upstream dial
/// refuses exactly this connection (its client end is closed and no session
/// is created); a finished relay settles it.
pub fn conn_step(phase: ConnPhase, e: ConnEvent) -> (r: (ConnPhase, ConnAction))
    ensures
        r == conn_model_step(phase, e),
        phase == ConnPhase::Handshaking && e == ConnEvent::HandshakeFailed ==> r == (
            ConnPhase::Refused,
            ConnAction::CloseClient,
        ),
        phase == ConnPhase::Dialing && e == ConnEvent::DialFailed ==> r == (
            ConnPhase::Refused,
            ConnAction::CloseClient,
        ),
{
    match (phase, e) {
        (ConnPhase::Handshaking, ConnEvent::HandshakeOk) => (
            ConnPhase::Dialing,
            ConnAction::DoDial,
        ),
        (ConnPhase::Handshaking, ConnEvent::HandshakeFailed) => (
            ConnPhase::Refused,
            ConnAction::CloseClient,
        ),
        (ConnPhase::Dialing, ConnEvent::DialOk) => (ConnPhase::Relaying, ConnAction::DoRelay),
        (ConnPhase::Dialing, ConnEvent::DialFailed) => (
            ConnPhase::Refused,
            ConnAction::CloseClient,
        ),
        (ConnPhase::Relaying, ConnEvent::RelayEnded) => (ConnPhase::Finished, ConnAction::Stop),
        (p, _) => {
            let a = match p {
                ConnPhase::Handshaking => ConnAction::DoHandshake,
                ConnPhase::Dialing => ConnAction::DoDial,
                ConnPhase::Relaying => ConnAction::DoRelay,
                ConnPhase::Refused => ConnAction::Stop,
                ConnPhase::Finished => ConnAction::Stop,
            };
            (p, a)
        }
    }
}

/// The per-connection transition as a lane step.
pub open spec fn conn_step_fn() -> spec_fn(ConnPhase, ConnEvent) -> ConnPhase {
    |p: ConnPhase, e: ConnEvent| conn_model_step(p, e).0
}

/// LAW (handshake gating and dial-failure containment across connections):
/// accepted connections are independent lanes. Under any interleaved
/// schedule of per-connection events, each connection ends in the phase its
/// own events alone produce — so a malformed hello that fails one
/// connection's handshake, or an unreachable upstream that fails one
/// connection's dial, refuses that connection only and leaves every
/// concurrently-handshaking or relaying connection exactly where its own
/// events put it.
pub proof fn lemma_connection_isolation(
    w: Map<int, ConnPhase>,
    sched: Seq<Scheduled<ConnEvent>>,
    lane: int,
)
    requires
        w.dom().contains(lane),
    ensures
        world_run(conn_step_fn(), w, sched)[lane] == lane_run(
            conn_step_fn(),
            w[lane],
            lane_events(sched, lane),
        ),
{
    lemma_lane_isolation(conn_step_fn(), w, sched, lane);
}

} // verus!

//! The acceptors' and supervisor's decisions, and the TLS identity rules.

use tls_relay::accept::accept_decision;
use tls_relay::accept::first_failure;
use tls_relay::accept::AcceptAction;
use tls_relay::accept::AcceptEvent;
use tls_relay::conn::conn_start;
use tls_relay::conn::conn_step;
use tls_relay::conn::ConnAction;
use tls_relay::conn::ConnEvent;
use tls_relay::conn::ConnMode;
use tls_relay::conn::ConnPhase;
use tls_relay::tls::TlsIdentity;
use tls_relay::tls::TlsIdentityError;

#[test]
fn plain_connection_dials_then_relays() {
    let (phase, action) = conn_start(ConnMode::Plain);
    assert_eq!((phase, action), (ConnPhase::Dialing, ConnAction::DoDial));
    let (phase, action) = conn_step(phase, ConnEvent::DialOk);
    assert_eq!((phase, action), (ConnPhase::Relaying, ConnAction::DoRelay));
    let (phase, action) = conn_step(phase, ConnEvent::RelayEnded);
    assert_eq!((phase, action), (ConnPhase::Finished, ConnAction::Stop));
}

#[test]
fn secure_connection_handshakes_first() {
    let (phase, action) = conn_start(ConnMode::Secure);
    assert_eq!((phase, action), (ConnPhase::Handshaking, ConnAction::DoHandshake));
    let (phase, action) = conn_step(phase, ConnEvent::HandshakeOk);
    assert_eq!((phase, action), (ConnPhase::Dialing, ConnAction::DoDial));
}

#[test]
fn handshake_failure_drops_only_that_connection() {
    // A malformed client hello fails one connection's handshake; a
    // concurrently-handshaking well-formed connection on the same port
    // proceeds untouched.
    let (bad, _) = conn_start(ConnMode::Secure);
    let (good, _) = conn_start(ConnMode::Secure);

    let (bad, bad_action) = conn_step(bad, ConnEvent::HandshakeFailed);
    assert_eq!((bad, bad_action), (ConnPhase::Refused, ConnAction::CloseClient));

    let (good, action) = conn_step(good, ConnEvent::HandshakeOk);
    assert_eq!((good, action), (ConnPhase::Dialing, ConnAction::DoDial));
    let (good, action) = conn_step(good, ConnEvent::DialOk);
    assert_eq!((good, action), (ConnPhase::Relaying, ConnAction::DoRelay));
}

#[test]
fn dial_failure_closes_client_and_loop_serves_on() {
    // The upstream is unreachable: the client connection is closed, no
    // session is created, and the accept loop keeps serving.
    let (phase, _) = conn_start(ConnMode::Plain);
    let (phase, action) = conn_step(phase, ConnEvent::DialFailed);
    assert_eq!((phase, action), (ConnPhase::Refused, ConnAction::CloseClient));

    assert_eq!(accept_decision(AcceptEvent::Accepted), AcceptAction::StartConnection);
}

#[test]
fn mismatched_connection_events_change_nothing() {
    let (phase, _) = conn_start(ConnMode::Plain);
    let (phase, action) = conn_step(phase, ConnEvent::HandshakeFailed);
    assert_eq!((phase, action), (ConnPhase::Dialing, ConnAction::DoDial));
    let (phase, action) = conn_step(ConnPhase::Refused, ConnEvent::DialOk);
    assert_eq!((phase, action), (ConnPhase::Refused, ConnAction::Stop));
    assert_eq!(phase, ConnPhase::Refused);
}

#[test]
fn accept_loop_decisions() {
    assert_eq!(accept_decision(AcceptEvent::Accepted), AcceptAction::StartConnection);
    assert_eq!(accept_decision(AcceptEvent::AcceptFailed), AcceptAction::KeepAccepting);
    assert_eq!(accept_decision(AcceptEvent::ListenerBroken), AcceptAction::StopFailed);
}

#[test]
fn first_observed_failure_wins() {
    assert_eq!(first_failure::<&str>(None, None), None);
    assert_eq!(first_failure(Some("read reset"), None), Some("read reset"));
    assert_eq!(first_failure(None, Some("write broken")), Some("write broken"));
    assert_eq!(first_failure(Some("first"), Some("second")), Some("first"));
}

#[test]
fn tls_identity_rejects_empty_chain() {
    let r = TlsIdentity::new(Vec::new(), b"key".to_vec());
    assert_eq!(r.unwrap_err(), TlsIdentityError::EmptyChain);
}

#[test]
fn tls_identity_keeps_chain_and_key() {
    let chain = vec![b"leaf".to_vec(), b"issuer".to_vec()];
    let t = TlsIdentity::new(chain.clone(), b"key".to_vec()).unwrap();
    assert_eq!(t.chain, chain);
    assert_eq!(t.key, b"key".to_vec());
    assert_eq!(t.leaf(), &b"leaf".to_vec());
}

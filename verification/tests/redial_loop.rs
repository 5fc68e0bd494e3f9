//! The dial-side redial loop: relay-leg failures are process-fatal and
//! never retried; spawned sessions are isolated.

use secure_tcp_gender_changer::redial::{RedialAction, RedialEvent, RedialLoop, RedialPhase};

#[test]
fn a_refused_connect_terminates_the_process() {
    let mut l = RedialLoop::new();
    assert_eq!(l.phase(), RedialPhase::ConnectingRelay);
    let a = l.on_event(RedialEvent::RelayConnectFailed);
    assert_eq!(a, RedialAction::ExitProcess);
    assert_eq!(l.phase(), RedialPhase::Terminated);
}

#[test]
fn a_terminated_loop_never_dials_again() {
    let mut l = RedialLoop::new();
    l.on_event(RedialEvent::RelayConnectFailed);
    // Whatever straggles in afterwards, the loop stays down and orders no
    // further work.
    assert_eq!(l.on_event(RedialEvent::RelayConnected), RedialAction::Continue);
    assert_eq!(l.on_event(RedialEvent::HandshakeAccepted), RedialAction::Continue);
    assert_eq!(l.on_event(RedialEvent::SessionFinished(true)), RedialAction::Continue);
    assert_eq!(l.phase(), RedialPhase::Terminated);
}

#[test]
fn a_rejected_handshake_terminates_the_process() {
    let mut l = RedialLoop::new();
    assert_eq!(l.on_event(RedialEvent::RelayConnected), RedialAction::AwaitHandshake);
    assert_eq!(l.phase(), RedialPhase::HandshakingRelay);
    assert_eq!(l.on_event(RedialEvent::HandshakeRejected), RedialAction::ExitProcess);
    assert_eq!(l.phase(), RedialPhase::Terminated);
}

#[test]
fn each_accepted_handshake_spawns_and_redials() {
    let mut l = RedialLoop::new();
    assert_eq!(l.on_event(RedialEvent::RelayConnected), RedialAction::AwaitHandshake);
    assert_eq!(l.on_event(RedialEvent::HandshakeAccepted), RedialAction::SpawnAndRedial);
    // Back at the dialing phase for the next tunneled connection.
    assert_eq!(l.phase(), RedialPhase::ConnectingRelay);
    assert_eq!(l.on_event(RedialEvent::RelayConnected), RedialAction::AwaitHandshake);
    assert_eq!(l.on_event(RedialEvent::HandshakeAccepted), RedialAction::SpawnAndRedial);
}

#[test]
fn a_finished_session_never_touches_the_loop() {
    let mut l = RedialLoop::new();
    assert_eq!(l.on_event(RedialEvent::RelayConnected), RedialAction::AwaitHandshake);
    // A spawned session failing — destination refused, relay error —
    // is local to it: the loop neither exits nor changes phase.
    assert_eq!(l.on_event(RedialEvent::SessionFinished(false)), RedialAction::Continue);
    assert_eq!(l.phase(), RedialPhase::HandshakingRelay);
    assert_eq!(l.on_event(RedialEvent::HandshakeAccepted), RedialAction::SpawnAndRedial);
}

//! The per-session state machine: the pin gates the relay phase.

use secure_tcp_gender_changer::identity::Identity;
use secure_tcp_gender_changer::session::{Session, SessionEvent, SessionPhase};

fn pinned() -> Identity {
    Identity::new(vec![0xde, 0xad, 0xbe, 0xef])
}

#[test]
fn a_matching_peer_reaches_the_relay_phase() {
    let mut s = Session::new(pinned());
    assert_eq!(s.phase(), SessionPhase::Connecting);
    s.on_event(SessionEvent::TransportReady);
    assert_eq!(s.phase(), SessionPhase::Handshaking);
    s.on_event(SessionEvent::PeerPresented(Identity::new(vec![0xde, 0xad, 0xbe, 0xef])));
    assert_eq!(s.phase(), SessionPhase::Relaying);
    s.on_event(SessionEvent::Relayed(b"data".to_vec()));
    s.on_event(SessionEvent::StreamsClosed);
    assert_eq!(s.phase(), SessionPhase::Closed);
}

#[test]
fn a_mismatched_peer_aborts_before_any_traffic() {
    let mut s = Session::new(pinned());
    s.on_event(SessionEvent::TransportReady);
    // One byte off the pinned reference.
    s.on_event(SessionEvent::PeerPresented(Identity::new(vec![0xde, 0xad, 0xbe, 0xee])));
    assert_eq!(s.phase(), SessionPhase::Aborted);
    // A rejected session relays nothing: traffic events no longer move it.
    s.on_event(SessionEvent::Relayed(b"smuggled".to_vec()));
    assert_eq!(s.phase(), SessionPhase::Aborted);
}

#[test]
fn a_handshake_io_error_aborts_the_session() {
    let mut s = Session::new(pinned());
    s.on_event(SessionEvent::TransportReady);
    s.on_event(SessionEvent::IoFailed);
    assert_eq!(s.phase(), SessionPhase::Aborted);
}

#[test]
fn a_relay_io_error_aborts_the_session() {
    let mut s = Session::new(pinned());
    s.on_event(SessionEvent::TransportReady);
    s.on_event(SessionEvent::PeerPresented(pinned()));
    s.on_event(SessionEvent::Relayed(b"half".to_vec()));
    s.on_event(SessionEvent::IoFailed);
    assert_eq!(s.phase(), SessionPhase::Aborted);
}

#[test]
fn terminal_phases_absorb_every_event() {
    let mut s = Session::new(pinned());
    s.on_event(SessionEvent::TransportReady);
    s.on_event(SessionEvent::PeerPresented(pinned()));
    s.on_event(SessionEvent::StreamsClosed);
    assert_eq!(s.phase(), SessionPhase::Closed);
    s.on_event(SessionEvent::TransportReady);
    s.on_event(SessionEvent::IoFailed);
    assert_eq!(s.phase(), SessionPhase::Closed);
}

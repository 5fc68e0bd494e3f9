//! The relay engine: byte-for-byte fidelity per direction, half-close
//! propagation, and independent directions.

use secure_tcp_gender_changer::relay::{
    DirectionPhase, ReadOutcome, RelayAction, RelayDirection, RelayEngine,
};

#[test]
fn forwards_chunks_unchanged_and_in_order() {
    let mut d = RelayDirection::new();
    let a = d.step(ReadOutcome::Data(b"hel".to_vec()));
    assert_eq!(a, RelayAction::Forward(b"hel".to_vec()));
    let a = d.step(ReadOutcome::Data(b"lo".to_vec()));
    assert_eq!(a, RelayAction::Forward(b"lo".to_vec()));
    assert_eq!(d.phase(), DirectionPhase::Streaming);
}

#[test]
fn eof_shuts_down_the_peer_write_side() {
    let mut d = RelayDirection::new();
    let a = d.step(ReadOutcome::Data(b"last".to_vec()));
    assert_eq!(a, RelayAction::Forward(b"last".to_vec()));
    let a = d.step(ReadOutcome::Eof);
    assert_eq!(a, RelayAction::ShutdownWrite);
    assert_eq!(d.phase(), DirectionPhase::Closed);
}

#[test]
fn an_io_error_aborts_the_direction() {
    let mut d = RelayDirection::new();
    let a = d.step(ReadOutcome::Failed);
    assert_eq!(a, RelayAction::Abort);
    assert_eq!(d.phase(), DirectionPhase::Aborted);
}

#[test]
fn ping_and_pong_cross_byte_exact() {
    // One session: "ping" flows from the private side toward the dial
    // side, the reply "pong" flows back, each direction independent.
    let mut e = RelayEngine::new();
    let a = e.step_from_incoming(ReadOutcome::Data(b"ping".to_vec()));
    assert_eq!(a, RelayAction::Forward(b"ping".to_vec()));
    let a = e.step_from_proxy(ReadOutcome::Data(b"pong".to_vec()));
    assert_eq!(a, RelayAction::Forward(b"pong".to_vec()));
    assert!(!e.finished());
    assert_eq!(e.step_from_incoming(ReadOutcome::Eof), RelayAction::ShutdownWrite);
    assert!(!e.finished());
    assert_eq!(e.step_from_proxy(ReadOutcome::Eof), RelayAction::ShutdownWrite);
    assert!(e.finished());
}

#[test]
fn one_direction_closing_leaves_the_other_streaming() {
    let mut e = RelayEngine::new();
    assert_eq!(e.step_from_proxy(ReadOutcome::Eof), RelayAction::ShutdownWrite);
    assert_eq!(e.from_proxy.phase(), DirectionPhase::Closed);
    assert_eq!(e.from_incoming.phase(), DirectionPhase::Streaming);
    // The other direction still relays.
    let a = e.step_from_incoming(ReadOutcome::Data(b"tail".to_vec()));
    assert_eq!(a, RelayAction::Forward(b"tail".to_vec()));
}

#[test]
fn the_engine_finishes_on_error_paths_too() {
    let mut e = RelayEngine::new();
    assert_eq!(e.step_from_proxy(ReadOutcome::Failed), RelayAction::Abort);
    assert_eq!(e.step_from_incoming(ReadOutcome::Failed), RelayAction::Abort);
    assert!(e.finished());
}

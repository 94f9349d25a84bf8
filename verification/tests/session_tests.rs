use i2p_proxy::errors::{is_fatal, ErrorKind, Phase};
use i2p_proxy::session::{
    default_signature_algorithm, ControlSession, Destination, SessionError, SessionPhase,
};

#[test]
fn second_registration_fails_deterministically() {
    let mut s = ControlSession::new();
    assert!(s.begin_registration().is_ok());
    s.complete_registration(Destination { text: "abcd.b32.i2p".to_string() });
    // A second persistent registration on the same instance must fail, not
    // silently replace the first.
    assert_eq!(s.begin_registration(), Err(SessionError::AlreadyRegistered));
    match &s.phase {
        SessionPhase::Registered(d) => assert_eq!(d.text, "abcd.b32.i2p"),
        other => panic!("first registration was disturbed: {:?}", other),
    }
    // And a third attempt fails the same way.
    assert_eq!(s.begin_registration(), Err(SessionError::AlreadyRegistered));
}

#[test]
fn registration_underway_also_blocks_a_second_one() {
    let mut s = ControlSession::new();
    assert!(s.begin_registration().is_ok());
    assert_eq!(s.begin_registration(), Err(SessionError::AlreadyRegistered));
}

#[test]
fn accepting_requires_a_registered_destination() {
    let mut s = ControlSession::new();
    assert!(!s.may_accept());
    assert!(s.destination().is_none());
    s.begin_registration().unwrap();
    assert!(!s.may_accept());
    s.complete_registration(Destination { text: "dest.b32.i2p".to_string() });
    assert!(s.may_accept());
    assert_eq!(s.destination().unwrap().text, "dest.b32.i2p");
}

#[test]
fn aborted_registration_frees_the_slot() {
    let mut s = ControlSession::new();
    s.begin_registration().unwrap();
    s.abort_registration();
    assert!(s.begin_registration().is_ok());
}

#[test]
fn the_selected_signature_algorithm_is_ed25519_based() {
    assert_eq!(default_signature_algorithm(), "EdDSA_SHA512_Ed25519");
}

#[test]
fn refused_registration_is_a_protocol_error() {
    assert_eq!(SessionError::AlreadyRegistered.kind(), ErrorKind::Protocol);
}

#[test]
fn startup_errors_are_fatal_and_connection_errors_are_not() {
    assert!(is_fatal(ErrorKind::Config, Phase::Startup));
    assert!(is_fatal(ErrorKind::Config, Phase::PerConnection));
    assert!(is_fatal(ErrorKind::Connection, Phase::Startup));
    assert!(!is_fatal(ErrorKind::Connection, Phase::PerConnection));
    assert!(is_fatal(ErrorKind::Protocol, Phase::Startup));
    assert!(!is_fatal(ErrorKind::Protocol, Phase::PerConnection));
    assert!(!is_fatal(ErrorKind::Io, Phase::Startup));
    assert!(!is_fatal(ErrorKind::Io, Phase::PerConnection));
    assert!(!is_fatal(ErrorKind::Timeout, Phase::Startup));
    assert!(!is_fatal(ErrorKind::Timeout, Phase::PerConnection));
}

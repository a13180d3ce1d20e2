use icy_bootstrap::identity::ClientIdentity;
use icy_bootstrap::identity::ServerIdentity;
use icy_bootstrap::session::Phase;
use icy_bootstrap::session::Session;
use icy_bootstrap::session::abort_message_text;

#[test]
fn new_session_uses_embedded_identities() {
    let s = Session::new();
    assert_eq!(s.server.name.as_str(), "Icy Server");
    assert_eq!(s.server.setting, 0);
    assert_eq!(s.client.name.as_str(), "Icy Client");
    assert!(matches!(s.phase, Phase::Unconnected));
}

#[test]
fn embedded_identity_constructors_fix_the_literals() {
    let server = ServerIdentity::embedded();
    assert_eq!(server.name.as_str(), "Icy Server");
    assert_eq!(server.setting, 0);
    let client = ClientIdentity::embedded();
    assert_eq!(client.name.as_str(), "Icy Client");
}

#[test]
fn successful_attempt_connects() {
    let mut s = Session::new();
    s.on_connect_result(true);
    assert!(matches!(s.phase, Phase::Connected));
    assert_eq!(s.server.name.as_str(), "Icy Server");
    assert_eq!(s.client.name.as_str(), "Icy Client");
    let finished = s.finish();
    assert!(finished.is_ok());
    let connected = finished.unwrap();
    assert!(matches!(connected.phase, Phase::Connected));
}

#[test]
fn failed_attempt_aborts_with_fixed_message() {
    let mut s = Session::new();
    s.on_connect_result(false);
    assert!(matches!(s.phase, Phase::Aborted));
    let finished = s.finish();
    assert!(finished.is_err());
    let error = finished.err().unwrap();
    assert_eq!(error.message(), "embedded connection to immediately activate");
    assert_eq!(abort_message_text(), "embedded connection to immediately activate");
}

#[test]
fn outcome_is_deterministic_across_runs() {
    let mut first = Session::new();
    let mut second = Session::new();
    first.on_connect_result(true);
    second.on_connect_result(true);
    assert_eq!(first.phase, second.phase);
    assert_eq!(first.server.name, second.server.name);
    assert_eq!(first.server.setting, second.server.setting);
    assert_eq!(first.client.name, second.client.name);

    let mut third = Session::new();
    let mut fourth = Session::new();
    third.on_connect_result(false);
    fourth.on_connect_result(false);
    assert_eq!(third.phase, fourth.phase);
    let third_error = third.finish().err().unwrap();
    let fourth_error = fourth.finish().err().unwrap();
    assert_eq!(third_error.message(), fourth_error.message());
}

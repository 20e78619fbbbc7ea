//! Operations against the real engine. No network is needed: a session is
//! never successfully started here, and every path exercised is decided
//! either by the registry or by the engine's synchronous validation.

use smoldot_flutter::SessionError;
use smoldot_flutter::manager::init_light_client;

#[test]
fn send_on_unknown_session() {
    let mut manager = init_light_client();
    let r = manager.send_json_rpc_request(
        String::from("nowhere"),
        String::from("{\"jsonrpc\":\"2.0\",\"id\":1,\"method\":\"system_name\",\"params\":[]}"),
    );
    assert_eq!(r, Err(SessionError::UnknownSession));
}

#[test]
fn stop_on_unknown_session() {
    let mut manager = init_light_client();
    let r = manager.stop_chain_sync(String::from("nowhere"));
    assert_eq!(r, Err(SessionError::UnknownSession));
}

#[test]
fn listen_on_unknown_session() {
    let mut manager = init_light_client();
    let r = manager.listen_json_rpc_responses(String::from("nowhere"));
    assert!(matches!(r, Err(SessionError::UnknownSession)));
}

#[test]
fn engine_rejects_malformed_specification() {
    let mut manager = init_light_client();
    let r = manager.start_chain_sync(
        String::from("broken"),
        String::from("this is not a chain specification"),
        String::new(),
        None,
    );
    assert_eq!(r, Err(SessionError::EngineRejected));
    assert!(!manager.is_active(&String::from("broken")));
}

#[test]
fn start_with_unknown_parent_is_rejected_before_the_engine() {
    let mut manager = init_light_client();
    let r = manager.start_chain_sync(
        String::from("para"),
        String::from("{}"),
        String::new(),
        Some(String::from("missing-relay")),
    );
    assert_eq!(r, Err(SessionError::UnknownSession));
    assert!(!manager.is_active(&String::from("para")));
}

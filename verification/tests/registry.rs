use smoldot_flutter::SessionError;
use smoldot_flutter::registry::SessionTable;

#[test]
fn start_then_duplicate_start() {
    let mut t: SessionTable<u64> = SessionTable::new();
    let r = t.register(String::from("alpha"), None, 7);
    assert_eq!(r, Ok(0));
    let r2 = t.register(String::from("alpha"), None, 8);
    assert_eq!(r2, Err(SessionError::AlreadyActive));
    // The first session's identifier and state are unchanged.
    assert_eq!(t.session_id(&String::from("alpha")), Some(0));
    assert_eq!(t.is_connected(&String::from("alpha")), Some(false));
}

#[test]
fn independent_starts_succeed_in_either_order() {
    let mut t: SessionTable<u64> = SessionTable::new();
    assert_eq!(t.register(String::from("a"), None, 1), Ok(0));
    assert_eq!(t.register(String::from("b"), None, 2), Ok(1));

    let mut u: SessionTable<u64> = SessionTable::new();
    assert_eq!(u.register(String::from("b"), None, 2), Ok(0));
    assert_eq!(u.register(String::from("a"), None, 1), Ok(1));

    // Both orders leave both sessions active.
    assert!(t.is_active(&String::from("a")) && t.is_active(&String::from("b")));
    assert!(u.is_active(&String::from("a")) && u.is_active(&String::from("b")));
}

#[test]
fn parent_resolved_at_creation() {
    let mut t: SessionTable<u64> = SessionTable::new();
    assert_eq!(t.register(String::from("relay"), None, 1), Ok(0));
    let relay = String::from("relay");
    assert_eq!(t.register(String::from("para"), Some(&relay), 2), Ok(1));
    assert_eq!(t.session_parent(&String::from("para")), Some(Some(0)));
    assert_eq!(t.session_parent(&String::from("relay")), Some(None));
}

#[test]
fn unknown_parent_is_rejected() {
    let mut t: SessionTable<u64> = SessionTable::new();
    let ghostly = String::from("ghostly");
    let r = t.register(String::from("para"), Some(&ghostly), 2);
    assert_eq!(r, Err(SessionError::UnknownSession));
    assert!(!t.is_active(&String::from("para")));
}

#[test]
fn buffered_responses_handed_over_in_order() {
    // The payload stands for the session's buffered response queue: the
    // first connection hands it over exactly as it was filled.
    let mut t: SessionTable<Vec<String>> = SessionTable::new();
    let buffered = vec![
        String::from("R1"),
        String::from("R2"),
        String::from("R3"),
    ];
    assert_eq!(t.register(String::from("relay"), None, buffered), Ok(0));
    let relay = String::from("relay");
    let handed = t.connect(&relay, Vec::new());
    assert_eq!(
        handed,
        Ok(Some(vec![
            String::from("R1"),
            String::from("R2"),
            String::from("R3"),
        ]))
    );
    assert_eq!(t.is_connected(&relay), Some(true));
}

#[test]
fn second_listener_gets_nothing() {
    let mut t: SessionTable<Vec<String>> = SessionTable::new();
    assert_eq!(
        t.register(String::from("relay"), None, vec![String::from("R1")]),
        Ok(0)
    );
    let relay = String::from("relay");
    let first = t.connect(&relay, Vec::new());
    assert_eq!(first, Ok(Some(vec![String::from("R1")])));
    // A repeated connection succeeds without effect and hands nothing over.
    let second = t.connect(&relay, vec![String::from("stray")]);
    assert_eq!(second, Ok(None));
    assert_eq!(t.is_connected(&relay), Some(true));
}

#[test]
fn connect_on_unknown_name() {
    let mut t: SessionTable<u64> = SessionTable::new();
    let nobody = String::from("nobody");
    assert_eq!(t.connect(&nobody, 0), Err(SessionError::UnknownSession));
}

#[test]
fn stop_retires_the_name() {
    let mut t: SessionTable<u64> = SessionTable::new();
    assert_eq!(t.register(String::from("a"), None, 1), Ok(0));
    assert_eq!(t.register(String::from("b"), None, 2), Ok(1));
    let a = String::from("a");
    let removed = t.remove(&a).unwrap();
    assert_eq!(removed.id, 0);
    assert_eq!(removed.payload, 1);
    // A second stop on the same name reports an unknown session; the
    // other session is undisturbed.
    assert!(matches!(t.remove(&a), Err(SessionError::UnknownSession)));
    assert_eq!(t.session_id(&String::from("b")), Some(1));
}

#[test]
fn identifiers_are_not_reused() {
    let mut t: SessionTable<u64> = SessionTable::new();
    assert_eq!(t.register(String::from("a"), None, 1), Ok(0));
    let a = String::from("a");
    assert!(t.remove(&a).is_ok());
    // The retired identifier is not issued again.
    assert_eq!(t.register(String::from("a"), None, 1), Ok(1));
}

#[test]
fn full_session_lifecycle() {
    let mut t: SessionTable<u64> = SessionTable::new();
    assert_eq!(t.register(String::from("relay"), None, 10), Ok(0));
    let relay = String::from("relay");
    assert_eq!(t.register(String::from("para"), Some(&relay), 20), Ok(1));
    assert_eq!(t.session_parent(&String::from("para")), Some(Some(0)));
    assert!(t.remove(&relay).is_ok());
    let para = String::from("para");
    assert!(t.remove(&para).is_ok());
    assert!(matches!(t.remove(&para), Err(SessionError::UnknownSession)));
}

use ssh_agent_notify::identity::Identity;
use ssh_agent_notify::outcome::{Outcome, ResponseKind};
use ssh_agent_notify::session::{Action, Event, ForwardingSession};

type S = ForwardingSession<String>;

fn two_identities() -> Vec<Identity> {
    vec![
        Identity::new(b"keyA".to_vec(), "laptop".to_string()),
        Identity::new(b"keyB".to_vec(), "yubikey".to_string()),
    ]
}

#[test]
fn other_requests_pass_through() {
    let mut s: S = ForwardingSession::new(None);
    assert!(s.is_idle());
    match s.on_event::<Vec<u8>>(Event::Request { request: "list".to_string(), sign_key: None }) {
        Action::Forward { request, notice } => {
            assert_eq!(request, "list");
            assert!(notice.is_none());
        }
        _ => panic!("expected forward"),
    }
    assert!(!s.is_idle());
    let answer = vec![12u8, 0, 0, 0, 0];
    match s.on_event(Event::Response { response: answer.clone(), kind: ResponseKind::IdentitiesAnswer }) {
        Action::Reply { response, outcome } => {
            assert_eq!(response, answer);
            assert!(outcome.is_none());
        }
        _ => panic!("expected reply"),
    }
    assert!(s.is_idle());
}

#[test]
fn sign_request_with_known_key() {
    let mut s: S = ForwardingSession::new(Some("Process 7 (unknown) of user 1000".to_string()));
    let r = s.on_event::<Vec<u8>>(Event::Request { request: "sign".to_string(), sign_key: Some(b"keyB".to_vec()) });
    assert!(matches!(r, Action::ListIdentities));
    match s.on_event::<Vec<u8>>(Event::Identities(two_identities())) {
        Action::Forward { request, notice } => {
            assert_eq!(request, "sign");
            let body = notice.unwrap();
            assert!(body.contains("yubikey"));
            assert_eq!(body, "Client: Process 7 (unknown) of user 1000\nWants to use pubkey: yubikey");
        }
        _ => panic!("expected forward"),
    }
    let produced = vec![14u8, 1, 2, 3];
    match s.on_event(Event::Response { response: produced.clone(), kind: ResponseKind::SignResponse }) {
        Action::Reply { response, outcome } => {
            assert_eq!(response, produced);
            assert_eq!(outcome, Some(Outcome::Signed));
            assert_eq!(outcome.unwrap().title(), "✅ Signed");
        }
        _ => panic!("expected reply"),
    }
    assert!(s.is_idle());
}

#[test]
fn sign_request_with_unknown_key() {
    let mut s: S = ForwardingSession::new(None);
    s.on_event::<Vec<u8>>(Event::Request { request: "sign".to_string(), sign_key: Some(b"keyC".to_vec()) });
    match s.on_event::<Vec<u8>>(Event::Identities(two_identities())) {
        Action::Forward { notice, .. } => {
            assert_eq!(notice.unwrap(), "Unknown Client\nWants to use pubkey: <unknown identity>");
        }
        _ => panic!("expected forward"),
    }
    match s.on_event(Event::Response { response: vec![5u8], kind: ResponseKind::Failure }) {
        Action::Reply { response, outcome } => {
            assert_eq!(response, vec![5u8]);
            assert_eq!(outcome, Some(Outcome::Failed));
        }
        _ => panic!("expected reply"),
    }
}

#[test]
fn events_out_of_order_change_nothing() {
    let mut s: S = ForwardingSession::new(None);
    assert!(matches!(s.on_event::<Vec<u8>>(Event::Identities(two_identities())), Action::OutOfOrder));
    assert!(matches!(
        s.on_event(Event::Response { response: vec![6u8], kind: ResponseKind::Success }),
        Action::OutOfOrder
    ));
    assert!(s.is_idle());
    s.on_event::<Vec<u8>>(Event::Request { request: "sign".to_string(), sign_key: Some(b"keyA".to_vec()) });
    assert!(matches!(
        s.on_event::<Vec<u8>>(Event::Request { request: "again".to_string(), sign_key: None }),
        Action::OutOfOrder
    ));
    match s.on_event::<Vec<u8>>(Event::Identities(two_identities())) {
        Action::Forward { request, notice } => {
            assert_eq!(request, "sign");
            assert!(notice.unwrap().ends_with("laptop"));
        }
        _ => panic!("expected forward"),
    }
}

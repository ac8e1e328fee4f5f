//! The error taxonomy, response classification, the login flow's acceptance
//! step, and the session list's bookkeeping.

use rain::client::{classify_response, ResponseKind};
use rain::{Account, Bus, CpuRepr, Error, Login, SessionInfo, SessionRepr, Sessions, Token, Tokens};

#[test]
fn responses_classify_by_body_and_status() {
    assert_eq!(classify_response(200, true), ResponseKind::Empty);
    assert_eq!(classify_response(404, true), ResponseKind::Empty);
    assert_eq!(classify_response(400, false), ResponseKind::Rejection);
    assert_eq!(classify_response(499, false), ResponseKind::Rejection);
    assert_eq!(classify_response(200, false), ResponseKind::Payload);
    assert_eq!(classify_response(399, false), ResponseKind::Payload);
    assert_eq!(classify_response(500, false), ResponseKind::Payload);
}

#[test]
fn error_messages_render_each_variant() {
    assert_eq!(Error::Http(String::from("t")).message(), "failed http");
    assert_eq!(Error::Serde(String::from("b")).message(), "deserialize");
    assert_eq!(Error::Client(String::from("no such session")).message(), "no such session");
    assert_eq!(Error::Internal(String::from("internal: 502")).message(), "internal: 502");
}

#[test]
fn successful_login_becomes_an_account() {
    let mut login = Login::new();
    let tokens = Tokens { access: String::from("acc"), refresh: String::from("ref") };
    let account = login
        .accept_login(Ok(tokens), String::from("alex"))
        .expect("a delivered token pair yields an account");
    assert_eq!(account.access, "acc");
    assert_eq!(account.name.as_deref(), Some("alex"));
    assert_eq!(account.refresh.as_deref(), Some("ref"));
    assert!(login.errors.errors.is_empty());
}

#[test]
fn failed_login_is_pushed_onto_the_error_list() {
    let mut login = Login::new();
    let r = login.accept_login(Err(Error::Client(String::from("bad password"))), String::from("a"));
    assert!(r.is_none());
    assert_eq!(login.errors.errors.len(), 1);
    assert_eq!(login.errors.errors[0].message(), "bad password");
    login.errors.clear();
    assert!(login.errors.errors.is_empty());
}

#[test]
fn idle_login_polls_nothing() {
    let mut login = Login::new();
    assert!(login.poll_login().is_none());
}

#[test]
fn delivered_login_outcome_is_accepted_by_a_poll() {
    let mut login = Login::new();
    let sender = login.begin_login();
    let tokens = Tokens { access: String::from("acc"), refresh: String::from("ref") };
    sender.send((Ok(tokens), String::from("alex")));
    let account = login.poll_login().expect("the delivery yields an account");
    assert_eq!(account.access, "acc");
    // Drained: nothing further to observe.
    assert!(login.poll_login().is_none());
}

#[test]
fn token_sign_in_carries_only_the_access_token() {
    let token = Token { token: String::from("bearer-x") };
    let account: Account = token.to_account();
    assert_eq!(account.access, "bearer-x");
    assert!(account.name.is_none());
    assert!(account.refresh.is_none());
}

fn info(id: &str) -> SessionInfo {
    SessionInfo {
        id: String::from(id),
        user: String::from("u"),
        name: None,
        creation: String::from("c"),
        modified: String::from("m"),
    }
}

#[test]
fn page_load_is_started_exactly_once() {
    let mut sessions = Sessions::default();
    assert!(sessions.ensure_page_load().is_some());
    assert!(sessions.loaded);
    assert!(sessions.ensure_page_load().is_none());
    assert!(sessions.ensure_page_load().is_none());
}

#[test]
fn absorbed_pages_append_in_order() {
    let mut sessions = Sessions::default();
    sessions.absorb_page(vec![info("a"), info("b")]);
    sessions.absorb_page(vec![info("c")]);
    let ids: Vec<&str> = sessions.sessions.iter().map(|s| s.id.as_str()).collect();
    assert_eq!(ids, ["a", "b", "c"]);
}

#[test]
fn removal_drops_the_delivered_index() {
    let mut sessions = Sessions::default();
    sessions.absorb_page(vec![info("a"), info("b"), info("c")]);
    assert!(sessions.can_remove());
    let sender = sessions.begin_remove();
    assert!(!sessions.can_remove());
    sender.send(Some(1));
    if let rain::Poll::Delivered(Some(idx)) = sessions.rmx.poll() {
        sessions.remove_at(idx);
    } else {
        panic!("expected the delivered index");
    }
    let ids: Vec<&str> = sessions.sessions.iter().map(|s| s.id.as_str()).collect();
    assert_eq!(ids, ["a", "c"]);
    assert!(sessions.can_remove());
}

#[test]
fn session_records_clone_deeply() {
    let repr = SessionRepr {
        id: String::from("id"),
        user: String::from("u"),
        name: String::from("n"),
        creation: String::from("c"),
        modified: String::from("m"),
        cpu: CpuRepr { pc: 7, xregs: vec![1, 2], bus: Bus { dram: vec![3, 4] } },
    };
    let copy = repr.clone();
    assert_eq!(copy.id, repr.id);
    assert_eq!(copy.user, repr.user);
    assert_eq!(copy.name, repr.name);
    assert_eq!(copy.creation, repr.creation);
    assert_eq!(copy.modified, repr.modified);
    assert_eq!(copy.cpu.pc, 7);
    assert_eq!(copy.cpu.xregs, vec![1, 2]);
    assert_eq!(copy.cpu.bus.dram, vec![3, 4]);

    let one = info("x");
    let two = one.clone();
    assert_eq!(two.id, "x");
    assert!(two.name.is_none());
}

use eureka::application::{Application, CallContext, Channel, Handler};
use eureka::pingpong::{AppError, Contract};
use eureka::types::{Addr, ClientRef};

fn addr(name: &str) -> Addr {
    Addr::unchecked(name)
}

fn client(name: &str) -> ClientRef {
    (addr(name), vec![])
}

fn by(sender: &str) -> CallContext {
    CallContext::new(addr(sender), vec![], 100, addr("app"))
}

fn ready() -> Contract {
    let mut app = Contract::new();
    app.instantiate(&by("alice"), addr("tao"));
    app.set_allowed_channel(&by("alice"), client("C1"), client("C2"), addr("peer")).unwrap();
    app
}

#[test]
fn a_fresh_application_holds_nothing() {
    let app = Contract::new();
    assert!(!app.has_tao_contract());
    assert!(!app.has_allowed_channel());
    assert_eq!(app.sent_value(), "");
    assert_eq!(app.received_value(), "");
}

#[test]
fn instantiate_sets_owner_engine_and_notes() {
    let mut app = Contract::new();
    app.instantiate(&by("alice"), addr("tao"));
    assert_eq!(app.get_tao_contract(), addr("tao"));
    assert_eq!(app.sent_value(), "null");
    assert_eq!(app.received_value(), "null");
    assert!(!app.has_allowed_channel());
}

#[test]
fn only_the_owner_changes_settings() {
    let mut app = ready();
    assert_eq!(app.set_tao_contract(&by("hacker"), addr("evil")), Err(AppError::Unauthorized));
    assert_eq!(AppError::Unauthorized.message(), "unauthorized");
    assert_eq!(app.get_tao_contract(), addr("tao"));
    assert_eq!(
        app.set_allowed_channel(&by("hacker"), client("X"), client("Y"), addr("Z")),
        Err(AppError::Unauthorized)
    );
    assert_eq!(
        app.get_allowed_channel(),
        Channel {
            lightclient_local: client("C1"),
            lightclient_remote: client("C2"),
            application_remote: addr("peer"),
        }
    );

    assert_eq!(app.set_tao_contract(&by("alice"), addr("tao2")), Ok(()));
    assert_eq!(app.get_tao_contract(), addr("tao2"));

    // before instantiate there is no owner, so nobody may change anything
    let mut fresh = Contract::new();
    assert_eq!(fresh.set_tao_contract(&by("alice"), addr("tao")), Err(AppError::Unauthorized));
}

#[test]
fn send_takes_note_of_the_packet() {
    let mut app = ready();
    app.send(&by("tao"), client("C1"), client("C2"), addr("peer"), b"hello".to_vec(), addr("alice"))
        .unwrap();
    assert_eq!(app.sent_value(), "peer(via tao) receives hello");
    assert_eq!(app.received_value(), "null");
}

#[test]
fn receive_takes_note_of_the_packet() {
    let mut app = ready();
    app.receive(
        &by("tao"),
        client("C1"),
        client("C2"),
        addr("peer"),
        b"hello".to_vec(),
        addr("relayer"),
        vec![],
    )
    .unwrap();
    assert_eq!(app.received_value(), "peer(via tao) sent hello");
    assert_eq!(app.sent_value(), "null");
}

#[test]
fn bytes_that_are_not_text_are_noted_with_replacement_characters() {
    let mut app = ready();
    app.send(
        &by("tao"),
        client("C1"),
        client("C2"),
        addr("peer"),
        vec![b'a', 0xff, b'b', 0xc3],
        addr("alice"),
    )
    .unwrap();
    assert_eq!(app.sent_value(), "peer(via tao) receives a\u{fffd}b\u{fffd}");

    app.receive(
        &by("tao"),
        client("C1"),
        client("C2"),
        addr("peer"),
        "grüße".as_bytes().to_vec(),
        addr("relayer"),
        vec![],
    )
    .unwrap();
    assert_eq!(app.received_value(), "peer(via tao) sent grüße");
}

#[test]
fn handlers_take_calls_from_the_engine_only() {
    let mut app = ready();
    let error = app
        .send(&by("alice"), client("C1"), client("C2"), addr("peer"), vec![], addr("alice"))
        .unwrap_err();
    assert_eq!(error, AppError::NotTao(Handler::Send));
    assert_eq!(error.message(), "send can only be called by tao");

    let error = app
        .receive(&by("alice"), client("C1"), client("C2"), addr("peer"), vec![], addr("r"), vec![])
        .unwrap_err();
    assert_eq!(error, AppError::NotTao(Handler::Receive));
    assert_eq!(error.message(), "receive can only be called by tao");

    let error = app
        .timeout(&by("alice"), client("C1"), client("C2"), addr("peer"), vec![], addr("r"), vec![])
        .unwrap_err();
    assert_eq!(error, AppError::NotTao(Handler::Timeout));
    assert_eq!(error.message(), "timeout can only be called by tao");

    assert_eq!(app.sent_value(), "null");
    assert_eq!(app.received_value(), "null");
}

#[test]
fn handlers_work_over_the_allowed_channel_only() {
    let mut app = ready();
    let error = app
        .send(&by("tao"), client("C1"), client("C2"), addr("other"), vec![], addr("alice"))
        .unwrap_err();
    assert_eq!(error, AppError::ChannelNotAllowed);
    assert_eq!(error.message(), "not allowed channel");
    assert_eq!(
        app.receive(&by("tao"), client("C2"), client("C1"), addr("peer"), vec![], addr("r"), vec![]),
        Err(AppError::ChannelNotAllowed)
    );
    assert_eq!(
        app.timeout(
            &by("tao"),
            (addr("C1"), vec![1]),
            client("C2"),
            addr("peer"),
            vec![],
            addr("r"),
            vec![]
        ),
        Err(AppError::ChannelNotAllowed)
    );

    // without an allowed channel every channel is refused
    let mut bare = Contract::new();
    bare.instantiate(&by("alice"), addr("tao"));
    assert_eq!(
        bare.send(&by("tao"), client("C1"), client("C2"), addr("peer"), vec![], addr("alice")),
        Err(AppError::ChannelNotAllowed)
    );
}

#[test]
fn only_the_owner_submits_packets() {
    let mut app = ready();
    let error = app
        .send(&by("tao"), client("C1"), client("C2"), addr("peer"), vec![], addr("hacker"))
        .unwrap_err();
    assert_eq!(error, AppError::NotOwner);
    assert_eq!(error.message(), "only owner can submit packet");
    assert_eq!(app.sent_value(), "null");

    // anyone may relay
    assert_eq!(
        app.receive(&by("tao"), client("C1"), client("C2"), addr("peer"), vec![], addr("hacker"), vec![]),
        Ok(())
    );
}

#[test]
fn a_timeout_keeps_the_notes() {
    let mut app = ready();
    assert_eq!(
        app.timeout(&by("tao"), client("C1"), client("C2"), addr("peer"), b"x".to_vec(), addr("r"), vec![]),
        Ok(())
    );
    assert_eq!(app.sent_value(), "null");
    assert_eq!(app.received_value(), "null");
}

#[test]
fn an_application_is_made_of_its_parts() {
    let app = Contract::from_parts(
        Some(addr("alice")),
        Some(addr("tao")),
        None,
        Some("was sent".to_string()),
        None,
    );
    assert_eq!(app.owner(), Some(addr("alice")));
    assert_eq!(app.get_tao_contract(), addr("tao"));
    assert!(!app.has_allowed_channel());
    assert_eq!(app.sent_value(), "was sent");
    assert_eq!(app.received_value(), "");
    assert_eq!(Contract::new().owner(), None);

    let copy = app.clone();
    assert_eq!(copy.owner(), Some(addr("alice")));
    assert_eq!(copy.sent_value(), "was sent");
}

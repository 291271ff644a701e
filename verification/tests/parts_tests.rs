use eureka::error::EngineError;
use eureka::funds::{check_funds, funds_exceed};
use eureka::lightclient::{LightClient, Status};
use eureka::lightclient_dummy::Contract as DummyClient;
use eureka::packet::{Packet, PacketHeader, Payload, PayloadHeader};
use eureka::registry::Registry;
use eureka::store::CommitmentStore;
use eureka::step::{admits, build_dispatches, receive_query, receive_step, send_step, timeout_query, timeout_step};
use eureka::application::CallContext;
use eureka::encoding::{commit_key, commit_value, connection_key};
use eureka::error::Side;
use eureka::application::Handler;
use eureka::text::decimal_string;
use eureka::types::{bytes_equal, client_ref_equal, copy_bytes, Addr, ClientRef, Coin};

fn client(name: &str) -> ClientRef {
    (Addr::unchecked(name), vec![])
}

fn packet(source: &str, destination: &str, data: &[u8]) -> Packet {
    Packet {
        header: PacketHeader {
            lightclient_source: client(source),
            lightclient_destination: client(destination),
            nonce: 0,
            timeout: 10,
        },
        payloads: vec![Payload {
            header: PayloadHeader {
                application_source: Addr::unchecked("A1"),
                application_destination: Addr::unchecked("A2"),
                funds: vec![],
            },
            data: data.to_vec(),
        }],
    }
}

fn payload(funds: Vec<Coin>) -> Payload {
    Payload {
        header: PayloadHeader {
            application_source: Addr::unchecked("A1"),
            application_destination: Addr::unchecked("A2"),
            funds,
        },
        data: vec![],
    }
}

#[test]
fn numbers_are_written_in_decimal() {
    assert_eq!(decimal_string(0), "0");
    assert_eq!(decimal_string(7), "7");
    assert_eq!(decimal_string(10), "10");
    assert_eq!(decimal_string(1234567890), "1234567890");
    assert_eq!(decimal_string(u64::MAX as u128), "18446744073709551615");
    assert_eq!(decimal_string(u128::MAX), "340282366920938463463374607431768211455");
}

#[test]
fn every_engine_error_has_its_message() {
    assert_eq!(
        EngineError::Timeout { now: 20, timeout: 3 }.message(),
        "timeout is in the past: current time: 20, timeout: 3"
    );
    assert_eq!(
        EngineError::TimeoutNotReached { proof_time: 5, timeout: 10 }.message(),
        "timeout is in the future for proof height: current time: 5, timeout: 10"
    );
    assert_eq!(EngineError::NonceMismatch.message(), "nonce mismatch");
    assert_eq!(EngineError::ClientInactive.message(), "light client is inactive");
    assert_eq!(EngineError::ProofInvalid.message(), "commitment proof is invalid");
    assert_eq!(EngineError::AlreadyReceived.message(), "packet was already received");
}

#[test]
fn bytes_are_copied_and_compared() {
    assert_eq!(copy_bytes(&vec![1, 2, 3]), vec![1, 2, 3]);
    assert!(bytes_equal(&vec![], &vec![]));
    assert!(bytes_equal(&vec![1, 2], &vec![1, 2]));
    assert!(!bytes_equal(&vec![1, 2], &vec![1, 3]));
    assert!(!bytes_equal(&vec![1, 2], &vec![1, 2, 3]));
    assert!(client_ref_equal(&client("a"), &client("a")));
    assert!(!client_ref_equal(&client("a"), &client("b")));
    assert!(!client_ref_equal(&client("a"), &(Addr::unchecked("a"), vec![0])));
}

#[test]
fn addresses_are_equal_by_their_text() {
    assert_eq!(Addr::unchecked("alice"), Addr::unchecked("alice"));
    assert_ne!(Addr::unchecked("alice"), Addr::unchecked("Alice"));
    assert_eq!(Addr::unchecked("alice").as_str(), "alice");
    assert_eq!(Addr::unchecked("alice").to_string(), "alice");
    assert_eq!(Addr::unchecked("alice").clone(), Addr::unchecked("alice"));
}

#[test]
fn the_total_of_a_denomination_is_taken_over_all_payloads() {
    let payloads = vec![
        payload(vec![Coin::new(3, "atom"), Coin::new(4, "osmo")]),
        payload(vec![]),
        payload(vec![Coin::new(2, "atom"), Coin::new(1, "atom")]),
    ];
    let atom = "atom".to_string();
    assert!(!funds_exceed(&payloads, &atom, 6));
    assert!(funds_exceed(&payloads, &atom, 5));
    assert!(!funds_exceed(&payloads, &"osmo".to_string(), 4));
    assert!(funds_exceed(&payloads, &"osmo".to_string(), 3));
    assert!(!funds_exceed(&payloads, &"none".to_string(), 0));

    assert!(check_funds(&payloads, &vec![]));
    assert!(check_funds(&payloads, &vec![Coin::new(6, "atom"), Coin::new(4, "osmo")]));
    assert!(!check_funds(&payloads, &vec![Coin::new(6, "atom"), Coin::new(3, "osmo")]));
    // each attached coin is held against the total by itself
    assert!(!check_funds(&payloads, &vec![Coin::new(6, "atom"), Coin::new(5, "atom")]));
    // a denomination that is not attached is not held against anything
    assert!(check_funds(&payloads, &vec![Coin::new(4, "osmo")]));
}

#[test]
fn a_registry_holds_each_address_once() {
    let mut registry = Registry::new();
    assert!(!registry.contains(&Addr::unchecked("a")));
    registry.insert(Addr::unchecked("a"));
    registry.insert(Addr::unchecked("b"));
    registry.insert(Addr::unchecked("a"));
    assert!(registry.contains(&Addr::unchecked("a")));
    assert!(registry.contains(&Addr::unchecked("b")));
    assert!(!registry.contains(&Addr::unchecked("c")));
    assert_eq!(registry.members(), vec![Addr::unchecked("a"), Addr::unchecked("b")]);
    assert_eq!(registry.clone().members(), registry.members());
}

#[test]
fn a_store_keeps_packets_by_connection_and_nonce() {
    let mut store = CommitmentStore::new();
    assert_eq!(store.sent_next_nonce(&client("a"), &client("b")), 0);
    assert_eq!(store.sent_packet(&client("a"), &client("b"), 1), None);

    store.record_sent(packet("a", "b", b"one"));
    store.record_sent(packet("a", "b", b"two"));
    store.record_received(packet("a", "b", b"in"));
    store.record_sent(packet("b", "a", b"back"));

    assert_eq!(store.sent_next_nonce(&client("a"), &client("b")), 2);
    assert_eq!(store.received_next_nonce(&client("a"), &client("b")), 1);
    assert_eq!(store.sent_next_nonce(&client("b"), &client("a")), 1);
    assert_eq!(store.received_next_nonce(&client("b"), &client("a")), 0);

    assert_eq!(store.sent_packet(&client("a"), &client("b"), 1), Some(packet("a", "b", b"one")));
    assert_eq!(store.sent_packet(&client("a"), &client("b"), 2), Some(packet("a", "b", b"two")));
    assert_eq!(store.sent_packet(&client("a"), &client("b"), 3), None);
    assert_eq!(store.sent_packet(&client("a"), &client("b"), 0), None);
    assert_eq!(store.received_packet(&client("a"), &client("b"), 1), Some(packet("a", "b", b"in")));
    assert_eq!(store.sent_packet(&client("b"), &client("a"), 1), Some(packet("b", "a", b"back")));
    assert!(store.has_received(&client("a"), &client("b"), 1));
    assert!(!store.has_received(&client("a"), &client("b"), 2));
    assert!(!store.has_received(&client("b"), &client("a"), 1));

    // a prefix makes another connection
    assert_eq!(store.sent_next_nonce(&(Addr::unchecked("a"), vec![1]), &client("b")), 0);

    let copy = store.clone();
    assert_eq!(copy.sent_packet(&client("a"), &client("b"), 2), Some(packet("a", "b", b"two")));
    assert_eq!(copy.received_next_nonce(&client("a"), &client("b")), 1);
}

#[test]
fn one_dispatch_is_built_per_payload_in_order() {
    let mut sent = packet("a", "b", b"first");
    let mut second = sent.payloads[0].clone();
    second.data = b"second".to_vec();
    second.header.application_source = Addr::unchecked("A3");
    sent.payloads.push(second);

    let queued = build_dispatches(Handler::Send, &Addr::unchecked("alice"), &sent);
    assert_eq!(queued.len(), 2);
    assert_eq!(queued[0].data, b"first".to_vec());
    assert_eq!(queued[0].application, Addr::unchecked("A1"));
    assert_eq!(queued[1].data, b"second".to_vec());
    assert_eq!(queued[1].application, Addr::unchecked("A3"));

    let queued = build_dispatches(Handler::Receive, &Addr::unchecked("relayer"), &sent);
    assert_eq!(queued[0].application, Addr::unchecked("A2"));
    assert_eq!(queued[0].application_remote, Addr::unchecked("A1"));
    assert_eq!(queued[1].application_remote, Addr::unchecked("A3"));
    assert_eq!(queued[0].lightclient_local, client("b"));
    assert_eq!(queued[0].lightclient_remote, client("a"));

    let empty = Packet { payloads: vec![], ..packet("a", "b", b"") };
    assert!(build_dispatches(Handler::Timeout, &Addr::unchecked("relayer"), &empty).is_empty());
}

#[test]
fn the_dummy_client_accepts_everything() {
    let mut dummy = DummyClient::new();
    assert!(dummy.lightclient_state.is_empty());
    assert!(dummy.consensus_states.is_empty());
    dummy.instantiate(vec![1, 2], vec![3]);
    assert_eq!(dummy.lightclient_state, vec![1, 2]);
    assert_eq!(dummy.consensus_states, vec![(0, vec![3])]);

    assert!(dummy.update(vec![9]).is_ok());
    assert!(dummy.prune().is_ok());
    assert_eq!(dummy.lightclient_state, vec![1, 2]);
    assert_eq!(dummy.status(), Ok(Status::Active));
    assert_eq!(dummy.timestamp(7), Ok(u64::MAX));
    assert_eq!(dummy.check_membership(vec![], vec![], vec![], 0, vec![]), Ok(true));
    assert_eq!(dummy.check_non_membership(vec![], vec![], 0, vec![]), Ok(true));
}

fn call(time: u64) -> CallContext {
    CallContext::new(Addr::unchecked("alice"), vec![], time, Addr::unchecked("tao"))
}

#[test]
fn a_step_decides_from_the_counter_it_is_given() {
    let open = Registry::new();
    let sent = packet("a", "b", b"x");

    let (nonce, queued) = send_step(false, &open, 41, &call(5), &sent).unwrap();
    assert_eq!(nonce, 42);
    assert_eq!(queued.len(), 1);
    assert_eq!(queued[0].handler, Handler::Send);

    let named = Packet { header: PacketHeader { nonce: 42, ..sent.header.clone() }, ..sent.clone() };
    assert_eq!(send_step(false, &open, 41, &call(5), &named).unwrap().0, 42);
    assert_eq!(send_step(false, &open, 42, &call(5), &named), Err(EngineError::NonceMismatch));
    // a counter that is full takes no further packet
    assert_eq!(send_step(false, &open, u64::MAX, &call(5), &sent), Err(EngineError::NonceMismatch));
    assert_eq!(
        send_step(false, &open, 41, &call(11), &sent),
        Err(EngineError::Timeout { now: 11, timeout: 10 })
    );
    assert_eq!(
        send_step(true, &open, 41, &call(5), &sent),
        Err(EngineError::UnauthorizedClient(Side::Source))
    );
}

#[test]
fn a_receive_step_asks_first_and_decides_on_the_answers() {
    let open = Registry::new();
    let arriving = packet("a", "b", b"x");
    let active = Some(Status::Active);

    let asked = receive_query(false, &open, 6, &call(5), &arriving).unwrap();
    assert_eq!(asked.key, commit_key(&client("a"), &client("b"), 7));
    assert_eq!(asked.value, commit_value(&arriving));
    assert_eq!(
        receive_query(false, &open, 6, &call(11), &arriving).unwrap_err(),
        EngineError::Timeout { now: 11, timeout: 10 }
    );

    let (nonce, queued) = receive_step(false, &open, 6, &call(5), &arriving, active, Some(true)).unwrap();
    assert_eq!(nonce, 7);
    assert_eq!(queued[0].handler, Handler::Receive);
    assert_eq!(
        receive_step(false, &open, 6, &call(5), &arriving, active, Some(false)),
        Err(EngineError::ProofInvalid)
    );
    assert_eq!(
        receive_step(false, &open, 6, &call(5), &arriving, None, Some(true)),
        Err(EngineError::ClientInactive)
    );
    // timing comes before liveness
    assert_eq!(
        receive_step(false, &open, 6, &call(11), &arriving, None, None),
        Err(EngineError::Timeout { now: 11, timeout: 10 })
    );
}

#[test]
fn a_timeout_step_decides_on_the_answers() {
    let late = packet("a", "b", b"x");
    let active = Some(Status::Active);

    assert_eq!(timeout_query(&late).key, commit_key(&client("a"), &client("b"), 0));
    let queued = timeout_step(false, &call(20), &late, active, Some(10), Some(true)).unwrap();
    assert_eq!(queued[0].handler, Handler::Timeout);
    assert_eq!(
        timeout_step(true, &call(20), &late, active, Some(10), Some(true)),
        Err(EngineError::AlreadyReceived)
    );
    // the proof comes before the receipt
    assert_eq!(
        timeout_step(true, &call(20), &late, active, Some(10), Some(false)),
        Err(EngineError::ProofInvalid)
    );
    assert_eq!(
        timeout_step(false, &call(20), &late, active, Some(9), Some(true)),
        Err(EngineError::TimeoutNotReached { proof_time: 9, timeout: 10 })
    );
}

#[test]
fn a_registry_in_force_admits_its_members_only() {
    let mut registry = Registry::new();
    registry.insert(Addr::unchecked("a"));
    assert!(admits(true, &registry, &Addr::unchecked("a")));
    assert!(!admits(true, &registry, &Addr::unchecked("b")));
    assert!(admits(false, &registry, &Addr::unchecked("b")));
}

#[test]
fn a_commit_key_extends_the_key_of_its_connection() {
    let connection = connection_key(&client("a"), &client("b"));
    let key = commit_key(&client("a"), &client("b"), 3);
    assert!(key.starts_with(&connection));
    assert_eq!(key.len(), connection.len() + 4 + 8);
    assert_ne!(connection_key(&client("a"), &client("b")), connection_key(&client("b"), &client("a")));
}

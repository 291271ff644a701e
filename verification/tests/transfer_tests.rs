use eureka::application::{CallContext, Channel, Handler};
use eureka::transfer::{
    Action, Contract, Cw20Call, Event, Receiver, TransferCoin, TransferDenom, TransferError,
    TransferPacket,
};
use eureka::types::{Addr, ClientRef};

fn addr(name: &str) -> Addr {
    Addr::unchecked(name)
}

fn client(name: &str) -> ClientRef {
    (addr(name), vec![])
}

fn by(sender: &str) -> CallContext {
    CallContext::new(addr(sender), vec![], 100, addr("transfer"))
}

fn channel() -> Channel {
    Channel {
        lightclient_local: client("C1"),
        lightclient_remote: client("C2"),
        application_remote: addr("peer"),
    }
}

fn ready() -> Contract {
    let mut app = Contract::new();
    app.instantiate(&by("owner"), 42, addr("tao"));
    app.set_allowed_channel(&by("owner"), client("C1"), client("C2"), addr("peer")).unwrap();
    app
}

fn transfer(amount: u128, denom: TransferDenom, receiver: Receiver) -> TransferPacket {
    TransferPacket { sender: addr("alice"), receiver, fund: TransferCoin { amount, denom }, memo: String::new() }
}

fn native(origin: &str) -> TransferDenom {
    TransferDenom::Native(origin.to_string())
}

fn bridged(wrapped: &str, origin: &str) -> TransferDenom {
    TransferDenom::Bridged { wrapped: wrapped.to_string(), origin: origin.to_string() }
}

fn send(app: &Contract, sender: &str, packet: Option<TransferPacket>) -> Result<Action, TransferError> {
    app.send(&by("tao"), client("C1"), client("C2"), addr("peer"), 10, packet, addr(sender))
}

fn receive(app: &mut Contract, packet: Option<TransferPacket>) -> Result<Action, TransferError> {
    app.receive(&by("tao"), client("C1"), client("C2"), addr("peer"), 10, packet, addr("relayer"))
}

fn instantiated(address: &str, code_id: &str) -> Vec<Event> {
    vec![Event {
        ty: "instantiate".to_string(),
        attributes: vec![
            ("_contract_address".to_string(), address.to_string()),
            ("code_id".to_string(), code_id.to_string()),
        ],
    }]
}

/// An application that has minted the token "wrapped" for "remote-token".
fn with_wrapped_token() -> Contract {
    let mut app = ready();
    receive(&mut app, Some(transfer(5, native("remote-token"), Receiver::Relayer))).unwrap();
    app.reply(0, Ok(instantiated("wrapped", "42"))).unwrap();
    app
}

#[test]
fn sending_a_native_token_puts_it_in_escrow() {
    let app = ready();
    let action = send(&app, "alice", Some(transfer(7, native("token"), Receiver::Relayer))).unwrap();
    assert_eq!(
        action,
        Action::Execute {
            token: addr("token"),
            call: Cw20Call::TransferFrom { owner: addr("alice"), recipient: addr("transfer"), amount: 7 },
        }
    );
}

#[test]
fn sending_a_bridged_token_burns_it() {
    let app = with_wrapped_token();
    let action =
        send(&app, "alice", Some(transfer(3, bridged("wrapped", "remote-token"), Receiver::Relayer)))
            .unwrap();
    assert_eq!(
        action,
        Action::Execute { token: addr("wrapped"), call: Cw20Call::BurnFrom { owner: addr("alice"), amount: 3 } }
    );
}

#[test]
fn send_refuses_in_the_order_of_its_checks() {
    let app = with_wrapped_token();
    let good = || Some(transfer(7, native("token"), Receiver::Relayer));

    let not_tao = app.send(&by("alice"), client("C1"), client("C2"), addr("peer"), 10, good(), addr("alice"));
    assert_eq!(not_tao, Err(TransferError::NotTao(Handler::Send)));
    assert_eq!(TransferError::NotTao(Handler::Send).message(), "send can only be called by tao");

    let wrong_channel = app.send(&by("tao"), client("C1"), client("C2"), addr("x"), 10, good(), addr("alice"));
    assert_eq!(wrong_channel, Err(TransferError::ChannelNotAllowed));
    assert_eq!(TransferError::ChannelNotAllowed.message(), "not allowed channel");

    let at_limit = app.send(&by("tao"), client("C1"), client("C2"), addr("peer"), 1024, good(), addr("alice"));
    assert!(at_limit.is_ok());
    let too_large = app.send(&by("tao"), client("C1"), client("C2"), addr("peer"), 1025, None, addr("alice"));
    assert_eq!(too_large, Err(TransferError::PacketTooLarge));
    assert_eq!(
        TransferError::PacketTooLarge.message(),
        "packet size must be less than or equal to 1024 bytes"
    );

    assert_eq!(send(&app, "alice", None), Err(TransferError::Malformed));

    assert_eq!(send(&app, "bob", good()), Err(TransferError::SenderMismatch));
    assert_eq!(
        TransferError::SenderMismatch.message(),
        "packet_sender must be equal to origin sender of the packet"
    );

    assert_eq!(
        send(&app, "alice", Some(transfer(0, native("token"), Receiver::Relayer))),
        Err(TransferError::ZeroAmount)
    );
    assert_eq!(TransferError::ZeroAmount.message(), "amount must be greater than zero");

    // a token that was minted for this channel must be sent as bridged
    assert_eq!(
        send(&app, "alice", Some(transfer(1, native("wrapped"), Receiver::Relayer))),
        Err(TransferError::NativeIsWrapped)
    );
    // and only under the origin it was minted for
    assert_eq!(
        send(&app, "alice", Some(transfer(1, bridged("wrapped", "other"), Receiver::Relayer))),
        Err(TransferError::BridgedUnknown)
    );
    assert_eq!(
        send(&app, "alice", Some(transfer(1, bridged("unknown", "remote-token"), Receiver::Relayer))),
        Err(TransferError::BridgedUnknown)
    );
}

#[test]
fn the_first_arrival_of_a_token_asks_for_its_contract() {
    let mut app = ready();
    let action = receive(&mut app, Some(transfer(5, native("remote-token"), Receiver::Relayer))).unwrap();
    assert_eq!(
        action,
        Action::Instantiate {
            code_id: 42,
            channel: channel(),
            origin: "remote-token".to_string(),
            decimals: 6,
            minter: addr("transfer"),
            reply_id: 0,
        }
    );
    assert_eq!(app.token_of(&channel(), &"remote-token".to_string()), None);

    let action = app.reply(0, Ok(instantiated("wrapped", "42"))).unwrap();
    assert_eq!(
        action,
        Action::Execute { token: addr("wrapped"), call: Cw20Call::Mint { recipient: addr("relayer"), amount: 5 } }
    );
    assert_eq!(app.token_of(&channel(), &"remote-token".to_string()), Some(addr("wrapped")));
    assert_eq!(
        app.channel_of(&"wrapped".to_string()),
        Some((channel(), "remote-token".to_string()))
    );
    assert_eq!(app.channel_of(&"remote-token".to_string()), None);

    // the transfer is no longer pending
    assert_eq!(app.reply(0, Ok(instantiated("again", "42"))), Err(TransferError::NothingPending));
}

#[test]
fn a_later_arrival_is_minted_at_once() {
    let mut app = with_wrapped_token();
    let action =
        receive(&mut app, Some(transfer(9, native("remote-token"), Receiver::Address(addr("carol"))))).unwrap();
    assert_eq!(
        action,
        Action::Execute { token: addr("wrapped"), call: Cw20Call::Mint { recipient: addr("carol"), amount: 9 } }
    );
}

#[test]
fn a_token_that_comes_home_leaves_escrow() {
    let mut app = ready();
    let action =
        receive(&mut app, Some(transfer(4, bridged("their-wrapped", "token"), Receiver::Address(addr("dave")))))
            .unwrap();
    assert_eq!(
        action,
        Action::Execute { token: addr("token"), call: Cw20Call::Transfer { recipient: addr("dave"), amount: 4 } }
    );
}

#[test]
fn receive_refuses_in_the_order_of_its_checks() {
    let mut app = ready();
    let good = || Some(transfer(7, native("remote-token"), Receiver::Relayer));

    let not_tao =
        app.receive(&by("alice"), client("C1"), client("C2"), addr("peer"), 10, good(), addr("relayer"));
    assert_eq!(not_tao, Err(TransferError::NotTao(Handler::Receive)));
    assert_eq!(TransferError::NotTao(Handler::Receive).message(), "receive can only be called by tao");

    let wrong_channel =
        app.receive(&by("tao"), client("C2"), client("C1"), addr("peer"), 10, good(), addr("relayer"));
    assert_eq!(wrong_channel, Err(TransferError::ChannelNotAllowed));

    let too_large =
        app.receive(&by("tao"), client("C1"), client("C2"), addr("peer"), 2000, good(), addr("relayer"));
    assert_eq!(too_large, Err(TransferError::PacketTooLarge));

    assert_eq!(receive(&mut app, None), Err(TransferError::Malformed));

    // nothing of this left a transfer pending
    assert_eq!(app.reply(0, Ok(instantiated("wrapped", "42"))), Err(TransferError::NothingPending));
}

#[test]
fn a_reply_is_read_strictly() {
    let pending = || {
        let mut app = ready();
        receive(&mut app, Some(transfer(5, native("remote-token"), Receiver::Relayer))).unwrap();
        app
    };

    assert_eq!(pending().reply(1, Ok(instantiated("wrapped", "42"))), Err(TransferError::UnknownReply));
    assert_eq!(TransferError::UnknownReply.message(), "unknown reply id");

    assert_eq!(pending().reply(0, Err("out of gas".to_string())), Err(TransferError::ReplyFailed));

    assert_eq!(pending().reply(0, Ok(vec![])), Err(TransferError::UnexpectedEvents));

    let mut two = instantiated("wrapped", "42");
    two.extend(instantiated("wrapped", "42"));
    assert_eq!(pending().reply(0, Ok(two)), Err(TransferError::UnexpectedEvents));

    let mut wrong_type = instantiated("wrapped", "42");
    wrong_type[0].ty = "execute".to_string();
    assert_eq!(pending().reply(0, Ok(wrong_type)), Err(TransferError::UnexpectedEvents));

    let mut three_attributes = instantiated("wrapped", "42");
    three_attributes[0].attributes.push(("x".to_string(), "y".to_string()));
    assert_eq!(pending().reply(0, Ok(three_attributes)), Err(TransferError::UnexpectedEvents));

    // the code must be the application's own, written in decimal
    assert_eq!(pending().reply(0, Ok(instantiated("wrapped", "43"))), Err(TransferError::UnexpectedEvents));
    assert_eq!(pending().reply(0, Ok(instantiated("wrapped", "042"))), Err(TransferError::UnexpectedEvents));

    let mut swapped = instantiated("wrapped", "42");
    swapped[0].attributes.swap(0, 1);
    assert_eq!(pending().reply(0, Ok(swapped)), Err(TransferError::UnexpectedEvents));

    // a refused reply leaves the transfer pending
    let mut app = pending();
    assert_eq!(app.reply(0, Ok(vec![])), Err(TransferError::UnexpectedEvents));
    assert!(app.reply(0, Ok(instantiated("wrapped", "42"))).is_ok());
}

#[test]
fn an_application_that_was_not_set_up_cannot_ask_for_a_contract() {
    let mut app = Contract::new();
    assert!(!app.has_tao_contract());
    assert!(!app.has_allowed_channel());
    // no engine is set, so no caller is the engine
    assert_eq!(
        receive(&mut app, Some(transfer(5, native("remote-token"), Receiver::Relayer))),
        Err(TransferError::NotTao(Handler::Receive))
    );
    assert_eq!(app.reply(0, Ok(instantiated("wrapped", "42"))), Err(TransferError::NotInstantiated));
    assert_eq!(TransferError::TokenNotFound.message(), "cw20 token not found");
}

#[test]
fn only_the_owner_changes_the_settings_of_the_transfer_application() {
    let mut app = ready();
    assert_eq!(app.get_tao_contract(), addr("tao"));
    assert_eq!(app.get_allowed_channel(), channel());
    assert_eq!(app.set_tao_contract(&by("hacker"), addr("evil")), Err(TransferError::Unauthorized));
    assert_eq!(
        app.set_allowed_channel(&by("hacker"), client("X"), client("Y"), addr("Z")),
        Err(TransferError::Unauthorized)
    );
    assert_eq!(TransferError::Unauthorized.message(), "unauthorized");
    assert_eq!(app.get_tao_contract(), addr("tao"));
    assert_eq!(app.get_allowed_channel(), channel());

    assert_eq!(app.set_tao_contract(&by("owner"), addr("tao2")), Ok(()));
    assert_eq!(app.get_tao_contract(), addr("tao2"));
}

#[test]
fn an_application_without_token_code_cannot_ask_for_a_contract() {
    let mut app = Contract::from_settings(Some(addr("owner")), Some(addr("tao")), Some(channel()), None);
    assert_eq!(
        receive(&mut app, Some(transfer(5, native("remote-token"), Receiver::Relayer))),
        Err(TransferError::NotInstantiated)
    );
    assert_eq!(app.pending_packet(), None);
}

#[test]
fn a_state_is_made_of_its_parts() {
    let mut app = Contract::from_settings(Some(addr("owner")), Some(addr("tao")), Some(channel()), Some(42));
    assert_eq!(app.get_tao_contract(), addr("tao"));
    assert_eq!(app.get_allowed_channel(), channel());

    app.register_token(channel(), "remote-token".to_string(), addr("first"));
    app.register_token(channel(), "remote-token".to_string(), addr("second"));
    // the contract registered last stands for the token
    assert_eq!(app.token_of(&channel(), &"remote-token".to_string()), Some(addr("second")));
    assert_eq!(app.channel_of(&"first".to_string()), Some((channel(), "remote-token".to_string())));
    assert_eq!(app.channel_of(&"second".to_string()), Some((channel(), "remote-token".to_string())));

    let waiting = transfer(5, native("remote-token"), Receiver::Relayer);
    app.set_pending(channel(), addr("relayer"), "remote-token".to_string(), waiting.clone());
    assert_eq!(
        app.pending_packet(),
        Some((channel(), addr("relayer"), "remote-token".to_string(), waiting))
    );
}

#[test]
fn a_reply_for_another_token_than_the_transfer_needs_finds_no_contract() {
    let mut app = ready();
    app.set_pending(
        channel(),
        addr("relayer"),
        "one-token".to_string(),
        transfer(5, native("another-token"), Receiver::Relayer),
    );
    assert_eq!(app.reply(0, Ok(instantiated("wrapped", "42"))), Err(TransferError::TokenNotFound));
    // nothing was registered and the transfer still waits
    assert_eq!(app.token_of(&channel(), &"one-token".to_string()), None);
    assert!(app.pending_packet().is_some());
}

#[test]
fn a_reply_pays_a_pending_bridged_transfer_out_of_escrow() {
    let mut app = ready();
    app.set_pending(
        channel(),
        addr("relayer"),
        "remote-token".to_string(),
        transfer(5, bridged("their-wrapped", "token"), Receiver::Address(addr("erin"))),
    );
    assert_eq!(
        app.reply(0, Ok(instantiated("wrapped", "42"))),
        Ok(Action::Execute {
            token: addr("token"),
            call: Cw20Call::Transfer { recipient: addr("erin"), amount: 5 }
        })
    );
    assert_eq!(app.token_of(&channel(), &"remote-token".to_string()), Some(addr("wrapped")));
    assert_eq!(app.pending_packet(), None);
}

//! A sample application that moves CW20 tokens across a channel.
//!
//! A token that is native to this side is put in escrow when it leaves and
//! taken out of escrow when it comes back. A token that is native to the
//! other side is minted here, under a token contract that the application
//! brings into being on first arrival, and burnt when it goes back.
//!
//! The application decides; the host acts. Each handler takes the payload
//! as its length and, where it could be read, as the packet it holds, and
//! hands back the one action that the host is to carry out.

use vstd::prelude::*;
use vstd::string::StringExecFns;
use crate::application::{CallContext, CallView, Channel, ChannelView, Handler};
use crate::text::{decimal, decimal_string};
use crate::types::{slot_holds, slot_view, Addr, ClientRef};

verus! {

/// The tag of the reply that ends the instantiation of a token contract.
pub const REPLY_INSTANTIATE_ID: u64 = 0;

/// The largest payload that the application reads, in bytes.
pub const MAX_PACKET_SIZE: usize = 1024;

/// The number of decimals of a token contract that the application brings
/// into being.
pub const TOKEN_DECIMALS: u8 = 6;

/// Which token a transfer moves, seen from the side that sends it.
#[derive(Debug, PartialEq, Eq)]
pub enum TransferDenom {
    /// A token of the sending side, by its address there.
    Native(String),
    /// A token that the sending side minted for a token of the receiving
    /// side: `wrapped` is its address on the sending side, `origin` the
    /// address of the token it stands for.
    Bridged { wrapped: String, origin: String },
}

/// The mathematical value of a [`TransferDenom`].
pub enum TransferDenomView {
    Native(Seq<char>),
    Bridged { wrapped: Seq<char>, origin: Seq<char> },
}

impl View for TransferDenom {
    type V = TransferDenomView;

    open spec fn view(&self) -> TransferDenomView {
        match *self {
            TransferDenom::Native(origin) => TransferDenomView::Native(origin@),
            TransferDenom::Bridged { wrapped, origin } => TransferDenomView::Bridged {
                wrapped: wrapped@,
                origin: origin@,
            },
        }
    }
}

impl Clone for TransferDenom {
    fn clone(&self) -> (copy: TransferDenom)
        ensures
            copy@ == self@,
    {
        match self {
            TransferDenom::Native(origin) => TransferDenom::Native(origin.clone()),
            TransferDenom::Bridged { wrapped, origin } => TransferDenom::Bridged {
                wrapped: wrapped.clone(),
                origin: origin.clone(),
            },
        }
    }
}

/// An amount of one token.
#[derive(Debug, PartialEq, Eq)]
pub struct TransferCoin {
    pub amount: u128,
    pub denom: TransferDenom,
}

/// The mathematical value of a [`TransferCoin`].
pub struct TransferCoinView {
    pub amount: u128,
    pub denom: TransferDenomView,
}

impl View for TransferCoin {
    type V = TransferCoinView;

    open spec fn view(&self) -> TransferCoinView {
        TransferCoinView { amount: self.amount, denom: self.denom@ }
    }
}

impl Clone for TransferCoin {
    fn clone(&self) -> (copy: TransferCoin)
        ensures
            copy@ == self@,
    {
        TransferCoin { amount: self.amount, denom: self.denom.clone() }
    }
}

/// Who is to get the tokens on the receiving side.
#[derive(Debug, PartialEq, Eq)]
pub enum Receiver {
    /// Whoever relays the packet.
    Relayer,
    /// The given address.
    Address(Addr),
}

/// The mathematical value of a [`Receiver`].
pub enum ReceiverView {
    Relayer,
    Address(Seq<char>),
}

impl View for Receiver {
    type V = ReceiverView;

    open spec fn view(&self) -> ReceiverView {
        match *self {
            Receiver::Relayer => ReceiverView::Relayer,
            Receiver::Address(address) => ReceiverView::Address(address@),
        }
    }
}

impl Clone for Receiver {
    fn clone(&self) -> (copy: Receiver)
        ensures
            copy@ == self@,
    {
        match self {
            Receiver::Relayer => Receiver::Relayer,
            Receiver::Address(address) => Receiver::Address(address.clone()),
        }
    }
}

/// What a payload of this application holds.
#[derive(Debug, PartialEq, Eq)]
pub struct TransferPacket {
    pub sender: Addr,
    pub receiver: Receiver,
    pub fund: TransferCoin,
    pub memo: String,
}

/// The mathematical value of a [`TransferPacket`].
pub struct TransferPacketView {
    pub sender: Seq<char>,
    pub receiver: ReceiverView,
    pub fund: TransferCoinView,
    pub memo: Seq<char>,
}

impl View for TransferPacket {
    type V = TransferPacketView;

    open spec fn view(&self) -> TransferPacketView {
        TransferPacketView {
            sender: self.sender@,
            receiver: self.receiver@,
            fund: self.fund@,
            memo: self.memo@,
        }
    }
}

impl Clone for TransferPacket {
    fn clone(&self) -> (copy: TransferPacket)
        ensures
            copy@ == self@,
    {
        TransferPacket {
            sender: self.sender.clone(),
            receiver: self.receiver.clone(),
            fund: self.fund.clone(),
            memo: self.memo.clone(),
        }
    }
}

/// The value of a packet that may not have been readable.
pub open spec fn parsed_view(parsed: Option<TransferPacket>) -> Option<TransferPacketView> {
    match parsed {
        Some(packet) => Some(packet@),
        None => None,
    }
}

/// A call of a CW20 token contract.
#[derive(Debug, PartialEq, Eq)]
pub enum Cw20Call {
    TransferFrom { owner: Addr, recipient: Addr, amount: u128 },
    BurnFrom { owner: Addr, amount: u128 },
    Mint { recipient: Addr, amount: u128 },
    Transfer { recipient: Addr, amount: u128 },
}

/// The mathematical value of a [`Cw20Call`].
pub enum Cw20CallView {
    TransferFrom { owner: Seq<char>, recipient: Seq<char>, amount: u128 },
    BurnFrom { owner: Seq<char>, amount: u128 },
    Mint { recipient: Seq<char>, amount: u128 },
    Transfer { recipient: Seq<char>, amount: u128 },
}

impl View for Cw20Call {
    type V = Cw20CallView;

    open spec fn view(&self) -> Cw20CallView {
        match *self {
            Cw20Call::TransferFrom { owner, recipient, amount } => Cw20CallView::TransferFrom {
                owner: owner@,
                recipient: recipient@,
                amount,
            },
            Cw20Call::BurnFrom { owner, amount } => Cw20CallView::BurnFrom { owner: owner@, amount },
            Cw20Call::Mint { recipient, amount } => Cw20CallView::Mint {
                recipient: recipient@,
                amount,
            },
            Cw20Call::Transfer { recipient, amount } => Cw20CallView::Transfer {
                recipient: recipient@,
                amount,
            },
        }
    }
}

/// What the host is to do after a handler has returned.
#[derive(Debug, PartialEq, Eq)]
pub enum Action {
    /// Call a token contract.
    Execute { token: Addr, call: Cw20Call },
    /// Instantiate a token contract for the token `origin` of the other
    /// side of `channel`, with this application as its only minter, and
    /// report back with a reply that carries `reply_id`.
    Instantiate {
        code_id: u64,
        channel: Channel,
        origin: String,
        decimals: u8,
        minter: Addr,
        reply_id: u64,
    },
}

/// The mathematical value of an [`Action`].
pub enum ActionView {
    Execute { token: Seq<char>, call: Cw20CallView },
    Instantiate {
        code_id: u64,
        channel: ChannelView,
        origin: Seq<char>,
        decimals: u8,
        minter: Seq<char>,
        reply_id: u64,
    },
}

impl View for Action {
    type V = ActionView;

    open spec fn view(&self) -> ActionView {
        match *self {
            Action::Execute { token, call } => ActionView::Execute { token: token@, call: call@ },
            Action::Instantiate { code_id, channel, origin, decimals, minter, reply_id } =>
                ActionView::Instantiate {
                    code_id,
                    channel: channel@,
                    origin: origin@,
                    decimals,
                    minter: minter@,
                    reply_id,
                },
        }
    }
}

/// What the host reports of a step it carried out.
#[derive(Debug, PartialEq, Eq)]
pub struct Event {
    pub ty: String,
    pub attributes: Vec<(String, String)>,
}

/// Why the application refused a call.
#[derive(Debug, Clone, Copy, PartialEq, Eq, Structural)]
pub enum TransferError {
    /// A setting was changed by someone other than the owner.
    Unauthorized,
    /// A handler was called by someone other than the engine.
    NotTao(Handler),
    /// The call came over a channel other than the allowed one.
    ChannelNotAllowed,
    /// The payload is longer than the application reads.
    PacketTooLarge,
    /// The payload could not be read as a transfer.
    Malformed,
    /// The packet was submitted by someone other than the sender it names.
    SenderMismatch,
    /// The transfer moves nothing.
    ZeroAmount,
    /// The token was named as native though this application minted it
    /// for the channel.
    NativeIsWrapped,
    /// The token was named as bridged though this application did not
    /// mint it for the channel and the origin.
    BridgedUnknown,
    /// The application has not been set up.
    NotInstantiated,
    /// The host reports that the instantiation failed.
    ReplyFailed,
    /// The host's report of the instantiation is not of the expected form.
    UnexpectedEvents,
    /// A reply arrived though no packet is waiting for it.
    NothingPending,
    /// No token contract stands for the token on this side.
    TokenNotFound,
    /// A reply arrived with a tag that the application does not use.
    UnknownReply,
}

impl TransferError {
    /// The text of the message that `message` renders.
    pub open spec fn spec_message(self) -> Seq<char> {
        match self {
            TransferError::Unauthorized => "unauthorized"@,
            TransferError::NotTao(Handler::Send) => "send can only be called by tao"@,
            TransferError::NotTao(Handler::Receive) => "receive can only be called by tao"@,
            TransferError::NotTao(Handler::Timeout) => "timeout can only be called by tao"@,
            TransferError::ChannelNotAllowed => "not allowed channel"@,
            TransferError::PacketTooLarge =>
                "packet size must be less than or equal to 1024 bytes"@,
            TransferError::Malformed => "packet is not a transfer"@,
            TransferError::SenderMismatch =>
                "packet_sender must be equal to origin sender of the packet"@,
            TransferError::ZeroAmount => "amount must be greater than zero"@,
            TransferError::NativeIsWrapped => "native token is a wrapped token of the channel"@,
            TransferError::BridgedUnknown => "bridged token is not a wrapped token of the channel"@,
            TransferError::NotInstantiated => "contract is not instantiated"@,
            TransferError::ReplyFailed => "instantiation failed"@,
            TransferError::UnexpectedEvents => "unexpected instantiation events"@,
            TransferError::NothingPending => "no pending packet"@,
            TransferError::TokenNotFound => "cw20 token not found"@,
            TransferError::UnknownReply => "unknown reply id"@,
        }
    }

    /// The message for this error.
    pub fn message(&self) -> (text: String)
        ensures
            text@ == self.spec_message(),
    {
        match self {
            TransferError::Unauthorized => String::from_str("unauthorized"),
            TransferError::NotTao(Handler::Send) => String::from_str(
                "send can only be called by tao",
            ),
            TransferError::NotTao(Handler::Receive) => String::from_str(
                "receive can only be called by tao",
            ),
            TransferError::NotTao(Handler::Timeout) => String::from_str(
                "timeout can only be called by tao",
            ),
            TransferError::ChannelNotAllowed => String::from_str("not allowed channel"),
            TransferError::PacketTooLarge => String::from_str(
                "packet size must be less than or equal to 1024 bytes",
            ),
            TransferError::Malformed => String::from_str("packet is not a transfer"),
            TransferError::SenderMismatch => String::from_str(
                "packet_sender must be equal to origin sender of the packet",
            ),
            TransferError::ZeroAmount => String::from_str("amount must be greater than zero"),
            TransferError::NativeIsWrapped => String::from_str(
                "native token is a wrapped token of the channel",
            ),
            TransferError::BridgedUnknown => String::from_str(
                "bridged token is not a wrapped token of the channel",
            ),
            TransferError::NotInstantiated => String::from_str("contract is not instantiated"),
            TransferError::ReplyFailed => String::from_str("instantiation failed"),
            TransferError::UnexpectedEvents => String::from_str("unexpected instantiation events"),
            TransferError::NothingPending => String::from_str("no pending packet"),
            TransferError::TokenNotFound => String::from_str("cw20 token not found"),
            TransferError::UnknownReply => String::from_str("unknown reply id"),
        }
    }
}

/// The mathematical value of an [`Event`].
pub struct EventView {
    pub ty: Seq<char>,
    pub attributes: Seq<(Seq<char>, Seq<char>)>,
}

impl View for Event {
    type V = EventView;

    open spec fn view(&self) -> EventView {
        EventView {
            ty: self.ty@,
            attributes: self.attributes@.map_values(|pair: (String, String)| pair@),
        }
    }
}

/// The value of the host's report: the events of the instantiation, or
/// `None` where it failed.
pub open spec fn report_view(report: Result<Vec<Event>, String>) -> Option<Seq<EventView>> {
    match report {
        Ok(events) => Some(events@.map_values(|event: Event| event@)),
        Err(_) => None,
    }
}

/// A token contract that the application brought into being: it stands on
/// this side for the token `origin` of the other side of `channel`.
pub struct TokenView {
    pub channel: ChannelView,
    pub origin: Seq<char>,
    pub token: Seq<char>,
}

/// A received transfer that waits for its token contract.
pub struct PendingView {
    pub channel: ChannelView,
    pub relayer: Seq<char>,
    pub origin: Seq<char>,
    pub packet: TransferPacketView,
}

/// The mathematical value of a [`Contract`].
pub struct ContractView {
    /// Who set the application up.
    pub owner: Option<Seq<char>>,
    /// The engine whose calls the application takes.
    pub tao_contract: Option<Seq<char>>,
    /// The one channel over which the application works.
    pub allowed_channel: Option<ChannelView>,
    /// The code from which token contracts are instantiated.
    pub cw20_code_id: Option<u64>,
    /// The token contracts brought into being so far, oldest first.
    pub tokens: Seq<TokenView>,
    /// The transfer that waits for a reply, if any.
    pub pending: Option<PendingView>,
}

/// The token contract that stands on this side for `origin` over
/// `channel`: the one registered last, if any.
pub open spec fn token_for(tokens: Seq<TokenView>, channel: ChannelView, origin: Seq<char>)
    -> Option<Seq<char>>
    decreases tokens.len(),
{
    if tokens.len() == 0 {
        None
    } else if tokens.last().channel == channel && tokens.last().origin == origin {
        Some(tokens.last().token)
    } else {
        token_for(tokens.drop_last(), channel, origin)
    }
}

/// The channel and the token of the other side that the token contract
/// `token` stands for: as registered last, if at all.
pub open spec fn home_of(tokens: Seq<TokenView>, token: Seq<char>) -> Option<
    (ChannelView, Seq<char>),
>
    decreases tokens.len(),
{
    if tokens.len() == 0 {
        None
    } else if tokens.last().token == token {
        Some((tokens.last().channel, tokens.last().origin))
    } else {
        home_of(tokens.drop_last(), token)
    }
}

/// Who gets the tokens of a transfer that `relayer` relays.
pub open spec fn receiver_address(receiver: ReceiverView, relayer: Seq<char>) -> Seq<char> {
    match receiver {
        ReceiverView::Relayer => relayer,
        ReceiverView::Address(address) => address,
    }
}

/// Why a handler refuses a call before it looks into the packet, if it
/// does: the caller is not the engine, the channel is not the allowed
/// one, the payload is too long, or it could not be read. The checks run
/// in this order.
pub open spec fn envelope_refusal(
    state: ContractView,
    handler: Handler,
    ctx: CallView,
    channel: ChannelView,
    packet_len: usize,
    parsed: Option<TransferPacketView>,
) -> Option<TransferError> {
    if state.tao_contract != Some(ctx.sender) {
        Some(TransferError::NotTao(handler))
    } else if state.allowed_channel != Some(channel) {
        Some(TransferError::ChannelNotAllowed)
    } else if packet_len > MAX_PACKET_SIZE {
        Some(TransferError::PacketTooLarge)
    } else if parsed is None {
        Some(TransferError::Malformed)
    } else {
        None
    }
}

/// The application hears nobody but its engine: a handler that is called
/// by anyone else refuses, whatever the channel and the payload.
pub proof fn lemma_only_the_engine_is_heard(
    state: ContractView,
    handler: Handler,
    ctx: CallView,
    channel: ChannelView,
    packet_len: usize,
    parsed: Option<TransferPacketView>,
)
    requires
        state.tao_contract != Some(ctx.sender),
    ensures
        envelope_refusal(state, handler, ctx, channel, packet_len, parsed) == Some(
            TransferError::NotTao(handler),
        ),
{
}

/// What `send` returns. A native token goes into escrow with the
/// application; a bridged token is burnt.
pub open spec fn spec_send(
    state: ContractView,
    ctx: CallView,
    channel: ChannelView,
    packet_len: usize,
    parsed: Option<TransferPacketView>,
    packet_sender: Seq<char>,
) -> Result<ActionView, TransferError> {
    match envelope_refusal(state, Handler::Send, ctx, channel, packet_len, parsed) {
        Some(error) => Err(error),
        None => {
            let packet = parsed->Some_0;
            if packet_sender != packet.sender {
                Err(TransferError::SenderMismatch)
            } else if packet.fund.amount == 0 {
                Err(TransferError::ZeroAmount)
            } else {
                match packet.fund.denom {
                    TransferDenomView::Native(origin) => {
                        if home_of(state.tokens, origin) is Some && home_of(
                            state.tokens,
                            origin,
                        )->Some_0.0 == channel {
                            Err(TransferError::NativeIsWrapped)
                        } else {
                            Ok(
                                ActionView::Execute {
                                    token: origin,
                                    call: Cw20CallView::TransferFrom {
                                        owner: packet.sender,
                                        recipient: ctx.contract,
                                        amount: packet.fund.amount,
                                    },
                                },
                            )
                        }
                    },
                    TransferDenomView::Bridged { wrapped, origin } => {
                        if home_of(state.tokens, wrapped) == Some((channel, origin)) {
                            Ok(
                                ActionView::Execute {
                                    token: wrapped,
                                    call: Cw20CallView::BurnFrom {
                                        owner: packet.sender,
                                        amount: packet.fund.amount,
                                    },
                                },
                            )
                        } else {
                            Err(TransferError::BridgedUnknown)
                        }
                    },
                }
            }
        },
    }
}

/// What a handler returned and the state it left.
pub struct Turn {
    pub outcome: Result<ActionView, TransferError>,
    pub state: ContractView,
}

/// The action that hands the tokens of a received transfer to their
/// receiver: a token native to the other side is minted here, by the
/// token contract that stands for it; a token that was bridged from this
/// side is taken out of escrow.
pub open spec fn payout(
    tokens: Seq<TokenView>,
    channel: ChannelView,
    packet: TransferPacketView,
    relayer: Seq<char>,
) -> Result<ActionView, TransferError> {
    match packet.fund.denom {
        TransferDenomView::Native(origin) => match token_for(tokens, channel, origin) {
            Some(token) => Ok(
                ActionView::Execute {
                    token,
                    call: Cw20CallView::Mint {
                        recipient: receiver_address(packet.receiver, relayer),
                        amount: packet.fund.amount,
                    },
                },
            ),
            None => Err(TransferError::TokenNotFound),
        },
        TransferDenomView::Bridged { wrapped, origin } => Ok(
            ActionView::Execute {
                token: origin,
                call: Cw20CallView::Transfer {
                    recipient: receiver_address(packet.receiver, relayer),
                    amount: packet.fund.amount,
                },
            },
        ),
    }
}

/// Whether a received transfer needs a token contract that does not exist
/// yet.
pub open spec fn needs_token(tokens: Seq<TokenView>, channel: ChannelView, packet: TransferPacketView)
    -> bool {
    match packet.fund.denom {
        TransferDenomView::Native(origin) => token_for(tokens, channel, origin) is None,
        TransferDenomView::Bridged { wrapped, origin } => false,
    }
}

/// What `receive` does. Where the token contract is missing, the transfer
/// is put aside and the contract's instantiation is requested; otherwise
/// the tokens are paid out at once.
pub open spec fn spec_receive(
    state: ContractView,
    ctx: CallView,
    channel: ChannelView,
    packet_len: usize,
    parsed: Option<TransferPacketView>,
    relayer: Seq<char>,
) -> Turn {
    match envelope_refusal(state, Handler::Receive, ctx, channel, packet_len, parsed) {
        Some(error) => Turn { outcome: Err(error), state },
        None => {
            let packet = parsed->Some_0;
            if needs_token(state.tokens, channel, packet) {
                match state.cw20_code_id {
                    None => Turn { outcome: Err(TransferError::NotInstantiated), state },
                    Some(code_id) => Turn {
                        outcome: Ok(
                            ActionView::Instantiate {
                                code_id,
                                channel,
                                origin: packet.fund.denom->Native_0,
                                decimals: TOKEN_DECIMALS,
                                minter: ctx.contract,
                                reply_id: REPLY_INSTANTIATE_ID,
                            },
                        ),
                        state: ContractView {
                            pending: Some(
                                PendingView {
                                    channel,
                                    relayer,
                                    origin: packet.fund.denom->Native_0,
                                    packet,
                                },
                            ),
                            ..state
                        },
                    },
                }
            } else {
                Turn { outcome: payout(state.tokens, channel, packet, relayer), state }
            }
        },
    }
}

/// The address of the new token contract, as the host reports it; or why
/// the report is refused. The report must consist of one event of type
/// "instantiate" with two attributes: the contract's address, then the
/// code it was made from, which must be the application's token code.
pub open spec fn created_token(code_id: Option<u64>, events: Seq<EventView>) -> Result<
    Seq<char>,
    TransferError,
> {
    if events.len() != 1 || events[0].ty != "instantiate"@ || events[0].attributes.len() != 2
        || events[0].attributes[1].0 != "code_id"@ {
        Err(TransferError::UnexpectedEvents)
    } else if code_id is None {
        Err(TransferError::NotInstantiated)
    } else if events[0].attributes[1].1 != decimal(code_id->Some_0 as nat)
        || events[0].attributes[0].0 != "_contract_address"@ {
        Err(TransferError::UnexpectedEvents)
    } else {
        Ok(events[0].attributes[0].1)
    }
}

/// What `reply` does. Where the reply is the awaited one and reports a new
/// token contract, the contract is registered for the pending transfer's
/// channel and token, the transfer is no longer pending, and its tokens
/// are paid out. In every other case nothing changes.
pub open spec fn spec_reply(state: ContractView, reply_id: u64, report: Option<Seq<EventView>>)
    -> Turn {
    if reply_id != REPLY_INSTANTIATE_ID {
        Turn { outcome: Err(TransferError::UnknownReply), state }
    } else if report is None {
        Turn { outcome: Err(TransferError::ReplyFailed), state }
    } else {
        match created_token(state.cw20_code_id, report->Some_0) {
            Err(error) => Turn { outcome: Err(error), state },
            Ok(token) => match state.pending {
                None => Turn { outcome: Err(TransferError::NothingPending), state },
                Some(pending) => {
                    let tokens = state.tokens.push(
                        TokenView { channel: pending.channel, origin: pending.origin, token },
                    );
                    match payout(tokens, pending.channel, pending.packet, pending.relayer) {
                        Err(error) => Turn { outcome: Err(error), state },
                        Ok(action) => Turn {
                            outcome: Ok(action),
                            state: ContractView { tokens, pending: None, ..state },
                        },
                    }
                },
            },
        }
    }
}

struct Token {
    channel: Channel,
    origin: String,
    token: Addr,
}

impl View for Token {
    type V = TokenView;

    closed spec fn view(&self) -> TokenView {
        TokenView { channel: self.channel@, origin: self.origin@, token: self.token@ }
    }
}

struct Pending {
    channel: Channel,
    relayer: Addr,
    origin: String,
    packet: TransferPacket,
}

impl View for Pending {
    type V = PendingView;

    closed spec fn view(&self) -> PendingView {
        PendingView {
            channel: self.channel@,
            relayer: self.relayer@,
            origin: self.origin@,
            packet: self.packet@,
        }
    }
}

/// The state of the application. Each setting is unset until
/// `instantiate` or the matching setter has run.
pub struct Contract {
    owner: Option<Addr>,
    tao_contract: Option<Addr>,
    allowed_channel: Option<Channel>,
    cw20_code_id: Option<u64>,
    tokens: Vec<Token>,
    pending_packet: Option<Pending>,
}

impl View for Contract {
    type V = ContractView;

    closed spec fn view(&self) -> ContractView {
        ContractView {
            owner: slot_view(self.owner),
            tao_contract: slot_view(self.tao_contract),
            allowed_channel: match self.allowed_channel {
                Some(channel) => Some(channel@),
                None => None,
            },
            cw20_code_id: self.cw20_code_id,
            tokens: self.tokens@.map_values(|token: Token| token@),
            pending: match self.pending_packet {
                Some(pending) => Some(pending@),
                None => None,
            },
        }
    }
}

fn pay_to(receiver: &Receiver, relayer: &Addr) -> (address: Addr)
    ensures
        address@ == receiver_address(receiver@, relayer@),
{
    match receiver {
        Receiver::Relayer => relayer.clone(),
        Receiver::Address(address) => address.clone(),
    }
}

impl Contract {
    /// An application that has not been set up.
    pub fn new() -> (app: Contract)
        ensures
            app@ == (ContractView {
                owner: None,
                tao_contract: None,
                allowed_channel: None,
                cw20_code_id: None,
                tokens: Seq::empty(),
                pending: None,
            }),
    {
        let app = Contract {
            owner: None,
            tao_contract: None,
            allowed_channel: None,
            cw20_code_id: None,
            tokens: Vec::new(),
            pending_packet: None,
        };
        assert(app@.tokens =~= Seq::empty());
        app
    }

    /// An application with the given settings that has brought no token
    /// contract into being and waits for no reply.
    pub fn from_settings(
        owner: Option<Addr>,
        tao_contract: Option<Addr>,
        allowed_channel: Option<Channel>,
        cw20_code_id: Option<u64>,
    ) -> (app: Contract)
        ensures
            app@ == (ContractView {
                owner: slot_view(owner),
                tao_contract: slot_view(tao_contract),
                allowed_channel: match allowed_channel {
                    Some(channel) => Some(channel@),
                    None => None,
                },
                cw20_code_id,
                tokens: Seq::empty(),
                pending: None,
            }),
    {
        let app = Contract {
            owner,
            tao_contract,
            allowed_channel,
            cw20_code_id,
            tokens: Vec::new(),
            pending_packet: None,
        };
        assert(app@.tokens =~= Seq::empty());
        app
    }

    /// Registers `token` as the token contract that stands on this side
    /// for `origin` over `channel`.
    pub fn register_token(&mut self, channel: Channel, origin: String, token: Addr)
        ensures
            final(self)@ == (ContractView {
                tokens: old(self)@.tokens.push(
                    TokenView { channel: channel@, origin: origin@, token: token@ },
                ),
                ..old(self)@
            }),
    {
        self.tokens.push(Token { channel, origin, token });
        assert(self@.tokens =~= old(self)@.tokens.push(
            TokenView { channel: channel@, origin: origin@, token: token@ },
        ));
    }

    /// Puts a received transfer aside until its token contract exists,
    /// in place of any transfer that was waiting before.
    pub fn set_pending(
        &mut self,
        channel: Channel,
        relayer: Addr,
        origin: String,
        packet: TransferPacket,
    )
        ensures
            final(self)@ == (ContractView {
                pending: Some(
                    PendingView {
                        channel: channel@,
                        relayer: relayer@,
                        origin: origin@,
                        packet: packet@,
                    },
                ),
                ..old(self)@
            }),
    {
        self.pending_packet = Some(Pending { channel, relayer, origin, packet });
    }

    /// The transfer that waits for a reply, if any: its channel, its
    /// relayer, the token it needs and the transfer itself.
    pub fn pending_packet(&self) -> (pending: Option<(Channel, Addr, String, TransferPacket)>)
        ensures
            match pending {
                Some(waiting) => self@.pending == Some(
                    PendingView {
                        channel: waiting.0@,
                        relayer: waiting.1@,
                        origin: waiting.2@,
                        packet: waiting.3@,
                    },
                ),
                None => self@.pending is None,
            },
    {
        match &self.pending_packet {
            Some(waiting) => Some(
                (
                    waiting.channel.clone(),
                    waiting.relayer.clone(),
                    waiting.origin.clone(),
                    waiting.packet.clone(),
                ),
            ),
            None => None,
        }
    }

    /// Sets the application up: the caller becomes its owner, `tao_addr`
    /// the engine it takes calls from, and `cw20_code_id` the code from
    /// which it instantiates token contracts.
    pub fn instantiate(&mut self, ctx: &CallContext, cw20_code_id: u64, tao_addr: Addr)
        ensures
            final(self)@ == (ContractView {
                owner: Some(ctx@.sender),
                tao_contract: Some(tao_addr@),
                cw20_code_id: Some(cw20_code_id),
                ..old(self)@
            }),
    {
        self.owner = Some(ctx.sender.clone());
        self.tao_contract = Some(tao_addr);
        self.cw20_code_id = Some(cw20_code_id);
    }

    /// Whether an engine has been set.
    pub fn has_tao_contract(&self) -> (set: bool)
        ensures
            set == (self@.tao_contract is Some),
    {
        self.tao_contract.is_some()
    }

    /// The engine whose calls the application takes.
    pub fn get_tao_contract(&self) -> (tao: Addr)
        requires
            self@.tao_contract is Some,
        ensures
            Some(tao@) == self@.tao_contract,
    {
        self.tao_contract.as_ref().unwrap().clone()
    }

    /// Replaces the engine. Only the owner may do so.
    pub fn set_tao_contract(&mut self, ctx: &CallContext, tao_addr: Addr) -> (outcome: Result<
        (),
        TransferError,
    >)
        ensures
            old(self)@.owner == Some(ctx@.sender) ==> outcome is Ok && final(self)@ == (ContractView {
                tao_contract: Some(tao_addr@),
                ..old(self)@
            }),
            old(self)@.owner != Some(ctx@.sender) ==> outcome == Err::<(), TransferError>(
                TransferError::Unauthorized,
            ) && final(self)@ == old(self)@,
    {
        if !slot_holds(&self.owner, &ctx.sender) {
            return Err(TransferError::Unauthorized);
        }
        self.tao_contract = Some(tao_addr);
        Ok(())
    }

    /// Whether a channel has been allowed.
    pub fn has_allowed_channel(&self) -> (set: bool)
        ensures
            set == (self@.allowed_channel is Some),
    {
        self.allowed_channel.is_some()
    }

    /// The channel over which the application works.
    pub fn get_allowed_channel(&self) -> (channel: Channel)
        requires
            self@.allowed_channel is Some,
        ensures
            Some(channel@) == self@.allowed_channel,
    {
        self.allowed_channel.as_ref().unwrap().clone()
    }

    /// Replaces the allowed channel. Only the owner may do so.
    pub fn set_allowed_channel(
        &mut self,
        ctx: &CallContext,
        lightclient_local: ClientRef,
        lightclient_remote: ClientRef,
        application_remote: Addr,
    ) -> (outcome: Result<(), TransferError>)
        ensures
            old(self)@.owner == Some(ctx@.sender) ==> outcome is Ok && final(self)@ == (ContractView {
                allowed_channel: Some(
                    ChannelView {
                        lightclient_local: lightclient_local@,
                        lightclient_remote: lightclient_remote@,
                        application_remote: application_remote@,
                    },
                ),
                ..old(self)@
            }),
            old(self)@.owner != Some(ctx@.sender) ==> outcome == Err::<(), TransferError>(
                TransferError::Unauthorized,
            ) && final(self)@ == old(self)@,
    {
        if !slot_holds(&self.owner, &ctx.sender) {
            return Err(TransferError::Unauthorized);
        }
        self.allowed_channel = Some(
            Channel { lightclient_local, lightclient_remote, application_remote },
        );
        Ok(())
    }

    /// The token contract that stands on this side for `origin` over
    /// `channel`, if there is one.
    pub fn token_of(&self, channel: &Channel, origin: &String) -> (found: Option<Addr>)
        ensures
            slot_view(found) == token_for(self@.tokens, channel@, origin@),
    {
        let ghost all = self@.tokens;
        let mut i: usize = self.tokens.len();
        assert(all.subrange(0, i as int) =~= all);
        while i > 0
            invariant
                i <= self.tokens@.len(),
                all == self@.tokens,
                token_for(all, channel@, origin@) == token_for(
                    all.subrange(0, i as int),
                    channel@,
                    origin@,
                ),
            decreases i,
        {
            let ghost upto = all.subrange(0, i as int);
            i -= 1;
            let entry = &self.tokens[i];
            proof {
                assert(upto.drop_last() =~= all.subrange(0, i as int));
            }
            if entry.channel == *channel && entry.origin == *origin {
                return Some(entry.token.clone());
            }
        }
        None
    }

    /// The channel and the token of the other side that the token contract
    /// `token` stands for, if the application brought it into being.
    pub fn channel_of(&self, token: &String) -> (found: Option<(Channel, String)>)
        ensures
            match found {
                Some(home) => home_of(self@.tokens, token@) == Some((home.0@, home.1@)),
                None => home_of(self@.tokens, token@) is None,
            },
    {
        let ghost all = self@.tokens;
        let mut i: usize = self.tokens.len();
        assert(all.subrange(0, i as int) =~= all);
        while i > 0
            invariant
                i <= self.tokens@.len(),
                all == self@.tokens,
                home_of(all, token@) == home_of(all.subrange(0, i as int), token@),
            decreases i,
        {
            let ghost upto = all.subrange(0, i as int);
            i -= 1;
            let entry = &self.tokens[i];
            proof {
                assert(upto.drop_last() =~= all.subrange(0, i as int));
            }
            if entry.token.as_str().to_owned() == *token {
                return Some((entry.channel.clone(), entry.origin.clone()));
            }
        }
        None
    }

    fn refuses_envelope(
        &self,
        handler: Handler,
        ctx: &CallContext,
        channel: &Channel,
        packet_len: usize,
        parsed: &Option<TransferPacket>,
    ) -> (refusal: Option<TransferError>)
        ensures
            refusal == envelope_refusal(
                self@,
                handler,
                ctx@,
                channel@,
                packet_len,
                parsed_view(*parsed),
            ),
    {
        if !slot_holds(&self.tao_contract, &ctx.sender) {
            return Some(TransferError::NotTao(handler));
        }
        let allowed = match &self.allowed_channel {
            Some(held) => *held == *channel,
            None => false,
        };
        if !allowed {
            return Some(TransferError::ChannelNotAllowed);
        }
        if packet_len > MAX_PACKET_SIZE {
            return Some(TransferError::PacketTooLarge);
        }
        if parsed.is_none() {
            return Some(TransferError::Malformed);
        }
        None
    }

    fn pay_out(&self, channel: &Channel, packet: &TransferPacket, relayer: &Addr) -> (outcome:
        Result<Action, TransferError>)
        ensures
            action_view(outcome) == payout(self@.tokens, channel@, packet@, relayer@),
    {
        match &packet.fund.denom {
            TransferDenom::Native(origin) => match self.token_of(channel, origin) {
                Some(token) => Ok(
                    Action::Execute {
                        token,
                        call: Cw20Call::Mint {
                            recipient: pay_to(&packet.receiver, relayer),
                            amount: packet.fund.amount,
                        },
                    },
                ),
                None => Err(TransferError::TokenNotFound),
            },
            TransferDenom::Bridged { wrapped, origin } => Ok(
                Action::Execute {
                    token: Addr::unchecked(origin.as_str()),
                    call: Cw20Call::Transfer {
                        recipient: pay_to(&packet.receiver, relayer),
                        amount: packet.fund.amount,
                    },
                },
            ),
        }
    }

    /// Handles the sending of a transfer over the channel given by
    /// `lightclient_local`, `lightclient_remote` and `application_remote`.
    /// `packet_len` is the length of the payload and `parsed` the transfer
    /// that it holds, or `None` where it could not be read. Nothing is
    /// kept: the state stays as it is.
    pub fn send(
        &self,
        ctx: &CallContext,
        lightclient_local: ClientRef,
        lightclient_remote: ClientRef,
        application_remote: Addr,
        packet_len: usize,
        parsed: Option<TransferPacket>,
        packet_sender: Addr,
    ) -> (outcome: Result<Action, TransferError>)
        ensures
            action_view(outcome) == spec_send(
                self@,
                ctx@,
                ChannelView {
                    lightclient_local: lightclient_local@,
                    lightclient_remote: lightclient_remote@,
                    application_remote: application_remote@,
                },
                packet_len,
                parsed_view(parsed),
                packet_sender@,
            ),
    {
        let channel = Channel { lightclient_local, lightclient_remote, application_remote };
        match self.refuses_envelope(Handler::Send, ctx, &channel, packet_len, &parsed) {
            Some(error) => {
                return Err(error);
            },
            None => {},
        }
        let packet = parsed.unwrap();
        if !(packet_sender == packet.sender) {
            return Err(TransferError::SenderMismatch);
        }
        if packet.fund.amount == 0 {
            return Err(TransferError::ZeroAmount);
        }
        match packet.fund.denom {
            TransferDenom::Native(origin) => {
                let wrapped_here = match self.channel_of(&origin) {
                    Some(home) => home.0 == channel,
                    None => false,
                };
                if wrapped_here {
                    return Err(TransferError::NativeIsWrapped);
                }
                Ok(
                    Action::Execute {
                        token: Addr::unchecked(origin.as_str()),
                        call: Cw20Call::TransferFrom {
                            owner: packet.sender,
                            recipient: ctx.contract.clone(),
                            amount: packet.fund.amount,
                        },
                    },
                )
            },
            TransferDenom::Bridged { wrapped, origin } => {
                let minted_here = match self.channel_of(&wrapped) {
                    Some(home) => home.0 == channel && home.1 == origin,
                    None => false,
                };
                if !minted_here {
                    return Err(TransferError::BridgedUnknown);
                }
                Ok(
                    Action::Execute {
                        token: Addr::unchecked(wrapped.as_str()),
                        call: Cw20Call::BurnFrom {
                            owner: packet.sender,
                            amount: packet.fund.amount,
                        },
                    },
                )
            },
        }
    }

    /// Handles the arrival of a transfer over the channel given by
    /// `lightclient_local`, `lightclient_remote` and `application_remote`.
    /// `packet_len` is the length of the payload and `parsed` the transfer
    /// that it holds, or `None` where it could not be read.
    pub fn receive(
        &mut self,
        ctx: &CallContext,
        lightclient_local: ClientRef,
        lightclient_remote: ClientRef,
        application_remote: Addr,
        packet_len: usize,
        parsed: Option<TransferPacket>,
        relayer: Addr,
    ) -> (outcome: Result<Action, TransferError>)
        ensures
            ({
                let turn = spec_receive(
                    old(self)@,
                    ctx@,
                    ChannelView {
                        lightclient_local: lightclient_local@,
                        lightclient_remote: lightclient_remote@,
                        application_remote: application_remote@,
                    },
                    packet_len,
                    parsed_view(parsed),
                    relayer@,
                );
                action_view(outcome) == turn.outcome && final(self)@ == turn.state
            }),
    {
        let channel = Channel { lightclient_local, lightclient_remote, application_remote };
        match self.refuses_envelope(Handler::Receive, ctx, &channel, packet_len, &parsed) {
            Some(error) => {
                return Err(error);
            },
            None => {},
        }
        let packet = parsed.unwrap();
        let missing: Option<String> = match &packet.fund.denom {
            TransferDenom::Native(origin) => {
                if self.token_of(&channel, origin).is_none() {
                    Some(origin.clone())
                } else {
                    None
                }
            },
            TransferDenom::Bridged { wrapped, origin } => None,
        };
        match missing {
            Some(origin) => {
                let code_id = match self.cw20_code_id {
                    Some(code_id) => code_id,
                    None => {
                        return Err(TransferError::NotInstantiated);
                    },
                };
                let action = Action::Instantiate {
                    code_id,
                    channel: channel.clone(),
                    origin: origin.clone(),
                    decimals: TOKEN_DECIMALS,
                    minter: ctx.contract.clone(),
                    reply_id: REPLY_INSTANTIATE_ID,
                };
                self.pending_packet = Some(Pending { channel, relayer, origin, packet });
                Ok(action)
            },
            None => self.pay_out(&channel, &packet, &relayer),
        }
    }
}

/// The value of what a handler returned.
pub open spec fn action_view(outcome: Result<Action, TransferError>) -> Result<
    ActionView,
    TransferError,
> {
    match outcome {
        Ok(action) => Ok(action@),
        Err(error) => Err(error),
    }
}

impl Contract {
    fn read_created(&self, events: &Vec<Event>) -> (outcome: Result<Addr, TransferError>)
        ensures
            match outcome {
                Ok(token) => created_token(
                    self@.cw20_code_id,
                    events@.map_values(|event: Event| event@),
                ) == Ok::<Seq<char>, TransferError>(token@),
                Err(error) => created_token(
                    self@.cw20_code_id,
                    events@.map_values(|event: Event| event@),
                ) == Err::<Seq<char>, TransferError>(error),
            },
    {
        if events.len() != 1 {
            return Err(TransferError::UnexpectedEvents);
        }
        let event = &events[0];
        if !(event.ty == String::from_str("instantiate")) {
            return Err(TransferError::UnexpectedEvents);
        }
        if event.attributes.len() != 2 {
            return Err(TransferError::UnexpectedEvents);
        }
        let first = &event.attributes[0];
        let second = &event.attributes[1];
        if !(second.0 == String::from_str("code_id")) {
            return Err(TransferError::UnexpectedEvents);
        }
        let code_id = match self.cw20_code_id {
            Some(code_id) => code_id,
            None => {
                return Err(TransferError::NotInstantiated);
            },
        };
        if !(second.1 == decimal_string(code_id as u128)) {
            return Err(TransferError::UnexpectedEvents);
        }
        if !(first.0 == String::from_str("_contract_address")) {
            return Err(TransferError::UnexpectedEvents);
        }
        Ok(Addr::unchecked(first.1.as_str()))
    }

    /// Takes the host's reply to a request: `report` holds the events of
    /// the instantiation, or the host's message where it failed.
    pub fn reply(&mut self, reply_id: u64, report: Result<Vec<Event>, String>) -> (outcome: Result<
        Action,
        TransferError,
    >)
        ensures
            ({
                let turn = spec_reply(old(self)@, reply_id, report_view(report));
                action_view(outcome) == turn.outcome && final(self)@ == turn.state
            }),
    {
        if reply_id != REPLY_INSTANTIATE_ID {
            return Err(TransferError::UnknownReply);
        }
        let events = match report {
            Ok(events) => events,
            Err(_) => {
                return Err(TransferError::ReplyFailed);
            },
        };
        let token = match self.read_created(&events) {
            Ok(token) => token,
            Err(error) => {
                return Err(error);
            },
        };
        let ghost before = self@;
        let ghost added = TokenView {
            channel: before.pending->Some_0.channel,
            origin: before.pending->Some_0.origin,
            token: token@,
        };
        let (entry, action) = match &self.pending_packet {
            None => {
                return Err(TransferError::NothingPending);
            },
            Some(pending) => {
                let entry = Token {
                    channel: pending.channel.clone(),
                    origin: pending.origin.clone(),
                    token: token.clone(),
                };
                assert(before.tokens.push(added).drop_last() =~= before.tokens);
                let recipient = pay_to(&pending.packet.receiver, &pending.relayer);
                let action = match &pending.packet.fund.denom {
                    TransferDenom::Native(origin) => {
                        let found = if pending.origin == *origin {
                            Some(token)
                        } else {
                            self.token_of(&pending.channel, origin)
                        };
                        match found {
                            Some(minter) => Action::Execute {
                                token: minter,
                                call: Cw20Call::Mint { recipient, amount: pending.packet.fund.amount },
                            },
                            None => {
                                return Err(TransferError::TokenNotFound);
                            },
                        }
                    },
                    TransferDenom::Bridged { wrapped, origin } => Action::Execute {
                        token: Addr::unchecked(origin.as_str()),
                        call: Cw20Call::Transfer { recipient, amount: pending.packet.fund.amount },
                    },
                };
                (entry, action)
            },
        };
        self.tokens.push(entry);
        self.pending_packet = None;
        assert(self@.tokens =~= before.tokens.push(added));
        Ok(action)
    }
}

} // verus!

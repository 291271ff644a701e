//! A sample application that keeps a note of the last packet it sent and
//! of the last packet it received.
//!
//! It takes calls only from the engine it was set up with, only over the
//! one channel that its owner allowed, and sends only for its owner.

use vstd::prelude::*;
use vstd::string::StringExecFns;
use crate::application::{Application, CallContext, CallView, Channel, ChannelView, Handler};
use crate::text::{lossy_text, utf8_lossy};
use crate::types::{slot_holds, slot_view, Addr, ClientRef, Coin};

verus! {

/// Why the application refused a call.
#[derive(Debug, Clone, Copy, PartialEq, Eq, Structural)]
pub enum AppError {
    /// A setting was changed by someone other than the owner.
    Unauthorized,
    /// A handler was called by someone other than the engine.
    NotTao(Handler),
    /// The call came over a channel other than the allowed one.
    ChannelNotAllowed,
    /// A packet was submitted by someone other than the owner.
    NotOwner,
}

impl AppError {
    /// The text of the message that `message` renders.
    pub open spec fn spec_message(self) -> Seq<char> {
        match self {
            AppError::Unauthorized => "unauthorized"@,
            AppError::NotTao(Handler::Send) => "send can only be called by tao"@,
            AppError::NotTao(Handler::Receive) => "receive can only be called by tao"@,
            AppError::NotTao(Handler::Timeout) => "timeout can only be called by tao"@,
            AppError::ChannelNotAllowed => "not allowed channel"@,
            AppError::NotOwner => "only owner can submit packet"@,
        }
    }

    /// The message for this error.
    pub fn message(&self) -> (text: String)
        ensures
            text@ == self.spec_message(),
    {
        match self {
            AppError::Unauthorized => String::from_str("unauthorized"),
            AppError::NotTao(Handler::Send) => String::from_str("send can only be called by tao"),
            AppError::NotTao(Handler::Receive) => String::from_str(
                "receive can only be called by tao",
            ),
            AppError::NotTao(Handler::Timeout) => String::from_str(
                "timeout can only be called by tao",
            ),
            AppError::ChannelNotAllowed => String::from_str("not allowed channel"),
            AppError::NotOwner => String::from_str("only owner can submit packet"),
        }
    }
}

/// The state of the application. Each part is unset until `instantiate`
/// or the matching setter has run.
pub struct Contract {
    owner: Option<Addr>,
    tao_contract: Option<Addr>,
    allowed_channel: Option<Channel>,
    sent: Option<String>,
    received: Option<String>,
}

/// The mathematical value of a [`Contract`].
pub struct ContractView {
    /// Who set the application up.
    pub owner: Option<Seq<char>>,
    /// The engine whose calls the application takes.
    pub tao_contract: Option<Seq<char>>,
    /// The one channel over which the application works.
    pub allowed_channel: Option<ChannelView>,
    /// The note of the packet sent last.
    pub sent: Option<Seq<char>>,
    /// The note of the packet received last.
    pub received: Option<Seq<char>>,
}

/// The note that the application keeps of a packet it sent.
pub open spec fn sent_note(application_remote: Seq<char>, tao: Seq<char>, packet: Seq<u8>) -> Seq<
    char,
> {
    application_remote + "(via "@ + tao + ") receives "@ + utf8_lossy(packet)
}

/// The note that the application keeps of a packet it received.
pub open spec fn received_note(application_remote: Seq<char>, tao: Seq<char>, packet: Seq<u8>)
    -> Seq<char> {
    application_remote + "(via "@ + tao + ") sent "@ + utf8_lossy(packet)
}

/// Why the application refuses a call to `handler`, if it does: the caller
/// is not the engine, the channel is not the allowed one, or, on send, the
/// packet's sender is not the owner. The checks run in this order.
pub open spec fn handler_refusal(
    state: ContractView,
    handler: Handler,
    ctx: CallView,
    channel: ChannelView,
    packet_sender: Seq<char>,
) -> Option<AppError> {
    if state.tao_contract != Some(ctx.sender) {
        Some(AppError::NotTao(handler))
    } else if state.allowed_channel != Some(channel) {
        Some(AppError::ChannelNotAllowed)
    } else if handler == Handler::Send && state.owner != Some(packet_sender) {
        Some(AppError::NotOwner)
    } else {
        None
    }
}

/// The application hears nobody but its engine: a handler that is called
/// by anyone else refuses, whatever the channel and the packet.
pub proof fn lemma_only_the_engine_is_heard(
    state: ContractView,
    handler: Handler,
    ctx: CallView,
    channel: ChannelView,
    packet_sender: Seq<char>,
)
    requires
        state.tao_contract != Some(ctx.sender),
    ensures
        handler_refusal(state, handler, ctx, channel, packet_sender) == Some(
            AppError::NotTao(handler),
        ),
{
}

impl View for Contract {
    type V = ContractView;

    closed spec fn view(&self) -> ContractView {
        ContractView {
            owner: slot_view(self.owner),
            tao_contract: slot_view(self.tao_contract),
            allowed_channel: match self.allowed_channel {
                Some(channel) => Some(channel@),
                None => None,
            },
            sent: match self.sent {
                Some(note) => Some(note@),
                None => None,
            },
            received: match self.received {
                Some(note) => Some(note@),
                None => None,
            },
        }
    }
}

impl Contract {
    /// An application that has not been set up: every part is unset.
    pub fn new() -> (app: Contract)
        ensures
            app@ == (ContractView {
                owner: None,
                tao_contract: None,
                allowed_channel: None,
                sent: None,
                received: None,
            }),
    {
        Contract { owner: None, tao_contract: None, allowed_channel: None, sent: None, received: None }
    }

    /// The application in the state that the given parts make up, each
    /// part unset where it is `None`.
    pub fn from_parts(
        owner: Option<Addr>,
        tao_contract: Option<Addr>,
        allowed_channel: Option<Channel>,
        sent: Option<String>,
        received: Option<String>,
    ) -> (app: Contract)
        ensures
            app@ == (ContractView {
                owner: slot_view(owner),
                tao_contract: slot_view(tao_contract),
                allowed_channel: match allowed_channel {
                    Some(channel) => Some(channel@),
                    None => None,
                },
                sent: match sent {
                    Some(note) => Some(note@),
                    None => None,
                },
                received: match received {
                    Some(note) => Some(note@),
                    None => None,
                },
            }),
    {
        Contract { owner, tao_contract, allowed_channel, sent, received }
    }

    /// Who set the application up, if anyone did.
    pub fn owner(&self) -> (owner: Option<Addr>)
        ensures
            slot_view(owner) == self@.owner,
    {
        match &self.owner {
            Some(owner) => Some(owner.clone()),
            None => None,
        }
    }

    /// Sets the application up: the caller becomes its owner, `tao_addr`
    /// the engine it takes calls from, and both notes read "null".
    pub fn instantiate(&mut self, ctx: &CallContext, tao_addr: Addr)
        ensures
            final(self)@ == (ContractView {
                owner: Some(ctx@.sender),
                tao_contract: Some(tao_addr@),
                sent: Some("null"@),
                received: Some("null"@),
                ..old(self)@
            }),
    {
        self.owner = Some(ctx.sender.clone());
        self.tao_contract = Some(tao_addr);
        self.sent = Some(String::from_str("null"));
        self.received = Some(String::from_str("null"));
    }

    /// Whether an engine has been set.
    pub fn has_tao_contract(&self) -> (set: bool)
        ensures
            set == (self@.tao_contract is Some),
    {
        self.tao_contract.is_some()
    }

    /// The engine whose calls the application takes.
    pub fn get_tao_contract(&self) -> (tao: Addr)
        requires
            self@.tao_contract is Some,
        ensures
            Some(tao@) == self@.tao_contract,
    {
        self.tao_contract.as_ref().unwrap().clone()
    }

    /// Replaces the engine. Only the owner may do so.
    pub fn set_tao_contract(&mut self, ctx: &CallContext, tao_addr: Addr) -> (outcome: Result<
        (),
        AppError,
    >)
        ensures
            old(self)@.owner == Some(ctx@.sender) ==> outcome is Ok && final(self)@ == (ContractView {
                tao_contract: Some(tao_addr@),
                ..old(self)@
            }),
            old(self)@.owner != Some(ctx@.sender) ==> outcome == Err::<(), AppError>(
                AppError::Unauthorized,
            ) && final(self)@ == old(self)@,
    {
        if !slot_holds(&self.owner, &ctx.sender) {
            return Err(AppError::Unauthorized);
        }
        self.tao_contract = Some(tao_addr);
        Ok(())
    }

    /// Whether a channel has been allowed.
    pub fn has_allowed_channel(&self) -> (set: bool)
        ensures
            set == (self@.allowed_channel is Some),
    {
        self.allowed_channel.is_some()
    }

    /// The channel over which the application works.
    pub fn get_allowed_channel(&self) -> (channel: Channel)
        requires
            self@.allowed_channel is Some,
        ensures
            Some(channel@) == self@.allowed_channel,
    {
        self.allowed_channel.as_ref().unwrap().clone()
    }

    /// Replaces the allowed channel. Only the owner may do so.
    pub fn set_allowed_channel(
        &mut self,
        ctx: &CallContext,
        lightclient_local: ClientRef,
        lightclient_remote: ClientRef,
        application_remote: Addr,
    ) -> (outcome: Result<(), AppError>)
        ensures
            old(self)@.owner == Some(ctx@.sender) ==> outcome is Ok && final(self)@ == (ContractView {
                allowed_channel: Some(
                    ChannelView {
                        lightclient_local: lightclient_local@,
                        lightclient_remote: lightclient_remote@,
                        application_remote: application_remote@,
                    },
                ),
                ..old(self)@
            }),
            old(self)@.owner != Some(ctx@.sender) ==> outcome == Err::<(), AppError>(
                AppError::Unauthorized,
            ) && final(self)@ == old(self)@,
    {
        if !slot_holds(&self.owner, &ctx.sender) {
            return Err(AppError::Unauthorized);
        }
        self.allowed_channel = Some(
            Channel { lightclient_local, lightclient_remote, application_remote },
        );
        Ok(())
    }

    /// The note of the packet sent last; empty where none was ever set.
    pub fn sent_value(&self) -> (note: String)
        ensures
            note@ == (match self@.sent {
                Some(kept) => kept,
                None => Seq::<char>::empty(),
            }),
    {
        match &self.sent {
            Some(kept) => kept.clone(),
            None => String::new(),
        }
    }

    /// The note of the packet received last; empty where none was ever
    /// set.
    pub fn received_value(&self) -> (note: String)
        ensures
            note@ == (match self@.received {
                Some(kept) => kept,
                None => Seq::<char>::empty(),
            }),
    {
        match &self.received {
            Some(kept) => kept.clone(),
            None => String::new(),
        }
    }

    fn refuses(
        &self,
        handler: Handler,
        ctx: &CallContext,
        lightclient_local: ClientRef,
        lightclient_remote: ClientRef,
        application_remote: &Addr,
        packet_sender: &Addr,
    ) -> (refusal: Option<AppError>)
        ensures
            refusal == handler_refusal(
                self@,
                handler,
                ctx@,
                ChannelView {
                    lightclient_local: lightclient_local@,
                    lightclient_remote: lightclient_remote@,
                    application_remote: application_remote@,
                },
                packet_sender@,
            ),
    {
        if !slot_holds(&self.tao_contract, &ctx.sender) {
            return Some(AppError::NotTao(handler));
        }
        let channel = Channel {
            lightclient_local,
            lightclient_remote,
            application_remote: application_remote.clone(),
        };
        let allowed = match &self.allowed_channel {
            Some(held) => *held == channel,
            None => false,
        };
        if !allowed {
            return Some(AppError::ChannelNotAllowed);
        }
        let sending = match handler {
            Handler::Send => true,
            _ => false,
        };
        if sending && !slot_holds(&self.owner, packet_sender) {
            return Some(AppError::NotOwner);
        }
        None
    }
}

fn note(application_remote: &Addr, tao: &Addr, verb: &str, packet: &Vec<u8>) -> (text: String)
    ensures
        text@ == application_remote@ + "(via "@ + tao@ + verb@ + utf8_lossy(packet@),
{
    let mut text = application_remote.to_string();
    text.append("(via ");
    text.append(tao.as_str());
    text.append(verb);
    let data = lossy_text(packet);
    text.append(data.as_str());
    text
}

impl Application for Contract {
    type Error = AppError;

    type Response = ();

    /// Takes note of a packet that its owner sends over the allowed
    /// channel.
    fn send(
        &mut self,
        ctx: &CallContext,
        lightclient_local: ClientRef,
        lightclient_remote: ClientRef,
        application_remote: Addr,
        packet: Vec<u8>,
        packet_sender: Addr,
    ) -> (outcome: Result<(), AppError>)
        ensures
            ({
                let refusal = handler_refusal(
                    old(self)@,
                    Handler::Send,
                    ctx@,
                    ChannelView {
                        lightclient_local: lightclient_local@,
                        lightclient_remote: lightclient_remote@,
                        application_remote: application_remote@,
                    },
                    packet_sender@,
                );
                match refusal {
                    Some(error) => outcome == Err::<(), AppError>(error) && final(self)@ == old(
                        self,
                    )@,
                    None => outcome is Ok && final(self)@ == (ContractView {
                        sent: Some(sent_note(application_remote@, ctx@.sender, packet@)),
                        ..old(self)@
                    }),
                }
            }),
    {
        match self.refuses(
            Handler::Send,
            ctx,
            lightclient_local,
            lightclient_remote,
            &application_remote,
            &packet_sender,
        ) {
            Some(error) => {
                return Err(error);
            },
            None => {},
        }
        self.sent = Some(note(&application_remote, &ctx.sender, ") receives ", &packet));
        Ok(())
    }

    /// Takes note of a packet that arrives over the allowed channel.
    fn receive(
        &mut self,
        ctx: &CallContext,
        lightclient_local: ClientRef,
        lightclient_remote: ClientRef,
        application_remote: Addr,
        packet: Vec<u8>,
        relayer: Addr,
        sent_funds: Vec<Coin>,
    ) -> (outcome: Result<(), AppError>)
        ensures
            ({
                let refusal = handler_refusal(
                    old(self)@,
                    Handler::Receive,
                    ctx@,
                    ChannelView {
                        lightclient_local: lightclient_local@,
                        lightclient_remote: lightclient_remote@,
                        application_remote: application_remote@,
                    },
                    relayer@,
                );
                match refusal {
                    Some(error) => outcome == Err::<(), AppError>(error) && final(self)@ == old(
                        self,
                    )@,
                    None => outcome is Ok && final(self)@ == (ContractView {
                        received: Some(received_note(application_remote@, ctx@.sender, packet@)),
                        ..old(self)@
                    }),
                }
            }),
    {
        match self.refuses(
            Handler::Receive,
            ctx,
            lightclient_local,
            lightclient_remote,
            &application_remote,
            &relayer,
        ) {
            Some(error) => {
                return Err(error);
            },
            None => {},
        }
        self.received = Some(note(&application_remote, &ctx.sender, ") sent ", &packet));
        Ok(())
    }

    /// Accepts a timeout that arrives over the allowed channel, and keeps
    /// its notes as they are.
    fn timeout(
        &mut self,
        ctx: &CallContext,
        lightclient_local: ClientRef,
        lightclient_remote: ClientRef,
        application_remote: Addr,
        packet: Vec<u8>,
        caller: Addr,
        sent_funds: Vec<Coin>,
    ) -> (outcome: Result<(), AppError>)
        ensures
            final(self)@ == old(self)@,
            ({
                let refusal = handler_refusal(
                    old(self)@,
                    Handler::Timeout,
                    ctx@,
                    ChannelView {
                        lightclient_local: lightclient_local@,
                        lightclient_remote: lightclient_remote@,
                        application_remote: application_remote@,
                    },
                    caller@,
                );
                match refusal {
                    Some(error) => outcome == Err::<(), AppError>(error),
                    None => outcome is Ok,
                }
            }),
    {
        match self.refuses(
            Handler::Timeout,
            ctx,
            lightclient_local,
            lightclient_remote,
            &application_remote,
            &caller,
        ) {
            Some(error) => Err(error),
            None => Ok(()),
        }
    }
}

impl Clone for Contract {
    /// A copy in the same state.
    fn clone(&self) -> (copy: Contract)
        ensures
            copy@ == self@,
    {
        Contract {
            owner: match &self.owner {
                Some(owner) => Some(owner.clone()),
                None => None,
            },
            tao_contract: match &self.tao_contract {
                Some(tao) => Some(tao.clone()),
                None => None,
            },
            allowed_channel: match &self.allowed_channel {
                Some(channel) => Some(channel.clone()),
                None => None,
            },
            sent: match &self.sent {
                Some(note) => Some(note.clone()),
                None => None,
            },
            received: match &self.received {
                Some(note) => Some(note.clone()),
                None => None,
            },
        }
    }
}

} // verus!

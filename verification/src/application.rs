//! The application capability: the handlers that the engine invokes on the
//! applications at either end of a packet's route, and the queued form of
//! such an invocation.

use vstd::prelude::*;
use vstd::std_specs::cmp::PartialEqSpecImpl;
use crate::types::{
    bytes_equal, client_ref_equal, coins_equal, coins_view, copy_bytes, copy_client_ref,
    copy_coins, Addr, ClientRef, ClientRefView, Coin, CoinView,
};

verus! {

/// What the host tells a contract about the call in progress.
#[derive(Debug)]
pub struct CallContext {
    /// The immediate caller.
    pub sender: Addr,
    /// The funds attached to the call.
    pub funds: Vec<Coin>,
    /// The wall clock, in seconds.
    pub time: u64,
    /// The address of the contract that is being called.
    pub contract: Addr,
}

/// The mathematical value of a [`CallContext`].
pub struct CallView {
    pub sender: Seq<char>,
    pub funds: Seq<CoinView>,
    pub time: u64,
    pub contract: Seq<char>,
}

impl View for CallContext {
    type V = CallView;

    open spec fn view(&self) -> CallView {
        CallView {
            sender: self.sender@,
            funds: coins_view(self.funds@),
            time: self.time,
            contract: self.contract@,
        }
    }
}

impl CallContext {
    /// The context of a call by `sender` to `contract` at `time`, with
    /// `funds` attached.
    pub fn new(sender: Addr, funds: Vec<Coin>, time: u64, contract: Addr) -> (ctx: CallContext)
        ensures
            ctx@ == (CallView {
                sender: sender@,
                funds: coins_view(funds@),
                time,
                contract: contract@,
            }),
    {
        CallContext { sender, funds, time, contract }
    }
}

/// The addressing unit between two applications, seen from one of them:
/// its own light client, the remote light client and the remote
/// application.
#[derive(Debug)]
pub struct Channel {
    pub lightclient_local: ClientRef,
    pub lightclient_remote: ClientRef,
    pub application_remote: Addr,
}

/// The mathematical value of a [`Channel`].
pub struct ChannelView {
    pub lightclient_local: ClientRefView,
    pub lightclient_remote: ClientRefView,
    pub application_remote: Seq<char>,
}

impl View for Channel {
    type V = ChannelView;

    open spec fn view(&self) -> ChannelView {
        ChannelView {
            lightclient_local: self.lightclient_local@,
            lightclient_remote: self.lightclient_remote@,
            application_remote: self.application_remote@,
        }
    }
}

impl Clone for Channel {
    fn clone(&self) -> (copy: Channel)
        ensures
            copy@ == self@,
    {
        Channel {
            lightclient_local: copy_client_ref(&self.lightclient_local),
            lightclient_remote: copy_client_ref(&self.lightclient_remote),
            application_remote: self.application_remote.clone(),
        }
    }
}

impl PartialEq for Channel {
    fn eq(&self, other: &Channel) -> (same: bool) {
        client_ref_equal(&self.lightclient_local, &other.lightclient_local) && client_ref_equal(
            &self.lightclient_remote,
            &other.lightclient_remote,
        ) && self.application_remote == other.application_remote
    }
}

impl PartialEqSpecImpl for Channel {
    open spec fn obeys_eq_spec() -> bool {
        true
    }

    open spec fn eq_spec(&self, other: &Channel) -> bool {
        self@ == other@
    }
}

impl Eq for Channel {}

/// Which handler of an application an invocation is for.
#[derive(Debug, Clone, Copy, PartialEq, Eq, Structural)]
pub enum Handler {
    Send,
    Receive,
    Timeout,
}

/// One queued invocation of an application's handler. The engine hands
/// these back in payload order; the host runs them after the engine call
/// has returned.
#[derive(Debug)]
pub struct Dispatch {
    /// The application that is invoked.
    pub application: Addr,
    /// The handler that is invoked on it.
    pub handler: Handler,
    /// The light client on the invoked application's side.
    pub lightclient_local: ClientRef,
    /// The light client on the other side.
    pub lightclient_remote: ClientRef,
    /// The application at the other end of the channel.
    pub application_remote: Addr,
    /// The payload's data, as it was submitted.
    pub data: Vec<u8>,
    /// Who made the engine call: the packet's sender on send, the relayer
    /// on receive and on timeout.
    pub caller: Addr,
    /// The payload's funds.
    pub funds: Vec<Coin>,
}

/// The mathematical value of a [`Dispatch`].
pub struct DispatchView {
    pub application: Seq<char>,
    pub handler: Handler,
    pub lightclient_local: ClientRefView,
    pub lightclient_remote: ClientRefView,
    pub application_remote: Seq<char>,
    pub data: Seq<u8>,
    pub caller: Seq<char>,
    pub funds: Seq<CoinView>,
}

impl View for Dispatch {
    type V = DispatchView;

    open spec fn view(&self) -> DispatchView {
        DispatchView {
            application: self.application@,
            handler: self.handler,
            lightclient_local: self.lightclient_local@,
            lightclient_remote: self.lightclient_remote@,
            application_remote: self.application_remote@,
            data: self.data@,
            caller: self.caller@,
            funds: coins_view(self.funds@),
        }
    }
}

impl Clone for Dispatch {
    fn clone(&self) -> (copy: Dispatch)
        ensures
            copy@ == self@,
    {
        Dispatch {
            application: self.application.clone(),
            handler: self.handler,
            lightclient_local: copy_client_ref(&self.lightclient_local),
            lightclient_remote: copy_client_ref(&self.lightclient_remote),
            application_remote: self.application_remote.clone(),
            data: copy_bytes(&self.data),
            caller: self.caller.clone(),
            funds: copy_coins(&self.funds),
        }
    }
}

impl PartialEq for Dispatch {
    fn eq(&self, other: &Dispatch) -> (same: bool) {
        self.application == other.application && self.handler == other.handler
            && client_ref_equal(&self.lightclient_local, &other.lightclient_local)
            && client_ref_equal(&self.lightclient_remote, &other.lightclient_remote)
            && self.application_remote == other.application_remote && bytes_equal(
            &self.data,
            &other.data,
        ) && self.caller == other.caller && coins_equal(&self.funds, &other.funds)
    }
}

impl PartialEqSpecImpl for Dispatch {
    open spec fn obeys_eq_spec() -> bool {
        true
    }

    open spec fn eq_spec(&self, other: &Dispatch) -> bool {
        self@ == other@
    }
}

impl Eq for Dispatch {}

/// The values of a sequence of dispatches, in order.
pub open spec fn dispatches_view(dispatches: Seq<Dispatch>) -> Seq<DispatchView> {
    dispatches.map_values(|dispatch: Dispatch| dispatch@)
}

/// A consumer and producer of payloads.
///
/// An application must refuse a call whose `ctx.sender` is not the engine
/// it trusts. It may also restrict the channel and the packet's sender. A
/// failure of a handler aborts the engine call that queued it.
pub trait Application {
    type Error;

    type Response;

    /// Runs on the source side when a packet is sent.
    fn send(
        &mut self,
        ctx: &CallContext,
        lightclient_local: ClientRef,
        lightclient_remote: ClientRef,
        application_remote: Addr,
        packet: Vec<u8>,
        packet_sender: Addr,
    ) -> Result<Self::Response, Self::Error>;

    /// Runs on the destination side when a packet is received.
    fn receive(
        &mut self,
        ctx: &CallContext,
        lightclient_local: ClientRef,
        lightclient_remote: ClientRef,
        application_remote: Addr,
        packet: Vec<u8>,
        relayer: Addr,
        sent_funds: Vec<Coin>,
    ) -> Result<Self::Response, Self::Error>;

    /// Runs on the source side when a packet has timed out.
    fn timeout(
        &mut self,
        ctx: &CallContext,
        lightclient_local: ClientRef,
        lightclient_remote: ClientRef,
        application_remote: Addr,
        packet: Vec<u8>,
        caller: Addr,
        sent_funds: Vec<Coin>,
    ) -> Result<Self::Response, Self::Error>;
}

} // verus!

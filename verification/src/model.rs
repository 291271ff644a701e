//! The engine as a transition system over mathematical values: what each
//! operation returns and how it changes the state, for every input.

use vstd::prelude::*;
use crate::application::{CallView, DispatchView, Handler};
use crate::error::{EngineError, Side};
use crate::lightclient::Status;
use crate::packet::{PacketView, PayloadView};
use crate::store::{ledger_at, store_gapless, StoreView};
use crate::types::CoinView;

verus! {

/// Where the engine stands in bringing a child contract into being.
#[derive(Debug, Clone, Copy, PartialEq, Eq, Structural)]
pub enum DeployState {
    /// No instantiation is under way.
    Idle,
    /// An instantiation of the given code was issued and its reply is
    /// awaited.
    AwaitingInstantiate(u64),
}

/// The tag of the reply that ends an instantiation.
pub const REPLY_INSTANTIATE_ID: u64 = 0;

/// What decides whether an address is admitted as a local client or a
/// local application.
pub struct Admission {
    /// Whether clients and applications must be registered.
    pub registry_enabled: bool,
    /// The registered addresses.
    pub registry: Set<Seq<char>>,
}

impl Admission {
    /// Every address is admitted while the registry is not in force, and
    /// its members while it is.
    pub open spec fn admits(self, address: Seq<char>) -> bool {
        !self.registry_enabled || self.registry.contains(address)
    }
}

/// Everything that the engine keeps between calls.
pub struct EngineState {
    /// The commitments, by connection.
    pub store: StoreView,
    /// Whether clients and applications must be registered.
    pub registry_enabled: bool,
    /// The registered addresses.
    pub registry: Set<Seq<char>>,
    /// The state of the deployment helper.
    pub deploy: DeployState,
}

impl EngineState {
    /// The state of an engine that has just been set up.
    pub open spec fn initial(registry_enabled: bool) -> EngineState {
        EngineState {
            store: Map::empty(),
            registry_enabled,
            registry: Set::empty(),
            deploy: DeployState::Idle,
        }
    }

    /// What decides admission: whether the registry is in force, and its
    /// members.
    pub open spec fn admission(self) -> Admission {
        Admission { registry_enabled: self.registry_enabled, registry: self.registry }
    }

    /// Whether the engine accepts `address` as a local client or a local
    /// application.
    pub open spec fn admits(self, address: Seq<char>) -> bool {
        self.admission().admits(address)
    }

    /// In every ledger the nonces in use are exactly those from one up to
    /// the counter.
    pub open spec fn gapless(self) -> bool {
        store_gapless(self.store)
    }
}

/// What an operation returned and the state it left.
pub struct Step {
    pub outcome: Result<Seq<DispatchView>, EngineError>,
    pub state: EngineState,
}

/// The application of a payload at the given end of the route.
pub open spec fn endpoint(payload: PayloadView, side: Side) -> Seq<char> {
    match side {
        Side::Source => payload.header.application_source,
        Side::Destination => payload.header.application_destination,
    }
}

/// The application at `side` of every payload is admitted.
pub open spec fn applications_admitted(
    admission: Admission,
    payloads: Seq<PayloadView>,
    side: Side,
) -> bool {
    forall|i: int|
        0 <= i < payloads.len() ==> admission.admits(endpoint(#[trigger] payloads[i], side))
}

/// The sum of the amounts of `denom` among `coins`.
pub open spec fn coins_total(coins: Seq<CoinView>, denom: Seq<char>) -> nat
    decreases coins.len(),
{
    if coins.len() == 0 {
        0
    } else {
        coins_total(coins.drop_last(), denom) + if coins.last().denom == denom {
            coins.last().amount as nat
        } else {
            0
        }
    }
}

/// The sum of the amounts of `denom` among the funds of all `payloads`.
pub open spec fn funds_total(payloads: Seq<PayloadView>, denom: Seq<char>) -> nat
    decreases payloads.len(),
{
    if payloads.len() == 0 {
        0
    } else {
        funds_total(payloads.drop_last(), denom) + coins_total(payloads.last().header.funds, denom)
    }
}

/// For each coin attached to the call, the payloads together name no more
/// of its denomination than the coin holds.
pub open spec fn funds_covered(payloads: Seq<PayloadView>, attached: Seq<CoinView>) -> bool {
    forall|i: int|
        0 <= i < attached.len() ==> funds_total(payloads, (#[trigger] attached[i]).denom)
            <= attached[i].amount
}

/// The declared nonce is zero, which leaves the choice to the engine, or
/// it is the one that follows `last`; and that one still fits the counter.
pub open spec fn nonce_accepted(declared: u64, last: nat) -> bool {
    last < u64::MAX && (declared == 0 || declared == last + 1)
}

/// The invocation queued toward the source application of one payload when
/// its packet is sent.
pub open spec fn send_dispatch(sender: Seq<char>, packet: PacketView, payload: PayloadView)
    -> DispatchView {
    DispatchView {
        application: payload.header.application_source,
        handler: Handler::Send,
        lightclient_local: packet.header.lightclient_source,
        lightclient_remote: packet.header.lightclient_destination,
        application_remote: payload.header.application_destination,
        data: payload.data,
        caller: sender,
        funds: payload.header.funds,
    }
}

/// The invocation queued toward the destination application of one payload
/// when its packet is received.
pub open spec fn receive_dispatch(relayer: Seq<char>, packet: PacketView, payload: PayloadView)
    -> DispatchView {
    DispatchView {
        application: payload.header.application_destination,
        handler: Handler::Receive,
        lightclient_local: packet.header.lightclient_destination,
        lightclient_remote: packet.header.lightclient_source,
        application_remote: payload.header.application_source,
        data: payload.data,
        caller: relayer,
        funds: payload.header.funds,
    }
}

/// The invocation queued toward the source application of one payload when
/// its packet has timed out.
pub open spec fn timeout_dispatch(caller: Seq<char>, packet: PacketView, payload: PayloadView)
    -> DispatchView {
    DispatchView {
        application: payload.header.application_source,
        handler: Handler::Timeout,
        lightclient_local: packet.header.lightclient_source,
        lightclient_remote: packet.header.lightclient_destination,
        application_remote: payload.header.application_destination,
        data: payload.data,
        caller,
        funds: payload.header.funds,
    }
}

/// One invocation per payload, in payload order, for the given handler.
pub open spec fn dispatches_for(handler: Handler, caller: Seq<char>, packet: PacketView) -> Seq<
    DispatchView,
> {
    Seq::new(
        packet.payloads.len(),
        |i: int|
            match handler {
                Handler::Send => send_dispatch(caller, packet, packet.payloads[i]),
                Handler::Receive => receive_dispatch(caller, packet, packet.payloads[i]),
                Handler::Timeout => timeout_dispatch(caller, packet, packet.payloads[i]),
            },
    )
}

/// Why a packet is refused for sending, if it is, where `last` is the nonce
/// given to the packet sent last on its connection. The checks run in this
/// order: timing, registry, funds, nonce.
pub open spec fn send_refusal_at(
    admission: Admission,
    last: nat,
    ctx: CallView,
    packet: PacketView,
) -> Option<EngineError> {
    if packet.header.timeout < ctx.time {
        Some(EngineError::Timeout { now: ctx.time, timeout: packet.header.timeout })
    } else if !admission.admits(packet.header.lightclient_source.0) {
        Some(EngineError::UnauthorizedClient(Side::Source))
    } else if !applications_admitted(admission, packet.payloads, Side::Source) {
        Some(EngineError::UnauthorizedApplication(Side::Source))
    } else if !funds_covered(packet.payloads, ctx.funds) {
        Some(EngineError::FundsMismatch)
    } else if !nonce_accepted(packet.header.nonce, last) {
        Some(EngineError::NonceMismatch)
    } else {
        None
    }
}

/// Why `send_packet` refuses, if it does.
pub open spec fn send_refusal(state: EngineState, ctx: CallView, packet: PacketView) -> Option<
    EngineError,
> {
    send_refusal_at(
        state.admission(),
        ledger_at(state.store, packet.header.connection()).sent_next_nonce,
        ctx,
        packet,
    )
}

/// The state after `packet` was committed as sent.
pub open spec fn after_send(state: EngineState, packet: PacketView) -> EngineState {
    EngineState {
        store: state.store.insert(
            packet.header.connection(),
            ledger_at(state.store, packet.header.connection()).with_sent(packet),
        ),
        ..state
    }
}

/// What `send_packet` does.
pub open spec fn spec_send(state: EngineState, ctx: CallView, packet: PacketView) -> Step {
    match send_refusal(state, ctx, packet) {
        Some(error) => Step { outcome: Err(error), state },
        None => Step {
            outcome: Ok(dispatches_for(Handler::Send, ctx.sender, packet)),
            state: after_send(state, packet),
        },
    }
}

/// Why a packet is refused for receipt before the light client is asked,
/// if it is, where `last` is the nonce of the packet received last on its
/// connection. The checks run in this order: timing, registry, nonce.
pub open spec fn receive_refusal_early_at(
    admission: Admission,
    last: nat,
    ctx: CallView,
    packet: PacketView,
) -> Option<EngineError> {
    if packet.header.timeout < ctx.time {
        Some(EngineError::Timeout { now: ctx.time, timeout: packet.header.timeout })
    } else if !admission.admits(packet.header.lightclient_destination.0) {
        Some(EngineError::UnauthorizedClient(Side::Destination))
    } else if !applications_admitted(admission, packet.payloads, Side::Destination) {
        Some(EngineError::UnauthorizedApplication(Side::Destination))
    } else if !nonce_accepted(packet.header.nonce, last) {
        Some(EngineError::NonceMismatch)
    } else {
        None
    }
}

/// Why a packet is refused for receipt, if it is, given what the source
/// light client answered: its status, and its verdict on the proof of
/// membership. An answer is `None` where the query failed or was not made.
/// The early checks come first, then liveness, then the proof.
pub open spec fn receive_refusal_at(
    admission: Admission,
    last: nat,
    ctx: CallView,
    packet: PacketView,
    status: Option<Status>,
    membership: Option<bool>,
) -> Option<EngineError> {
    if receive_refusal_early_at(admission, last, ctx, packet) is Some {
        receive_refusal_early_at(admission, last, ctx, packet)
    } else if status != Some(Status::Active) {
        Some(EngineError::ClientInactive)
    } else if membership != Some(true) {
        Some(EngineError::ProofInvalid)
    } else {
        None
    }
}

/// Why `receive_packet` refuses before it asks the light client, if it
/// does.
pub open spec fn receive_refusal_early(state: EngineState, ctx: CallView, packet: PacketView)
    -> Option<EngineError> {
    receive_refusal_early_at(
        state.admission(),
        ledger_at(state.store, packet.header.connection()).received_next_nonce,
        ctx,
        packet,
    )
}

/// Why `receive_packet` refuses, if it does, given the light client's
/// answers.
pub open spec fn receive_refusal(
    state: EngineState,
    ctx: CallView,
    packet: PacketView,
    status: Option<Status>,
    membership: Option<bool>,
) -> Option<EngineError> {
    receive_refusal_at(
        state.admission(),
        ledger_at(state.store, packet.header.connection()).received_next_nonce,
        ctx,
        packet,
        status,
        membership,
    )
}

/// The state after `packet` was committed as received.
pub open spec fn after_receive(state: EngineState, packet: PacketView) -> EngineState {
    EngineState {
        store: state.store.insert(
            packet.header.connection(),
            ledger_at(state.store, packet.header.connection()).with_received(packet),
        ),
        ..state
    }
}

/// What `receive_packet` does, given the light client's answers.
pub open spec fn spec_receive(
    state: EngineState,
    ctx: CallView,
    packet: PacketView,
    status: Option<Status>,
    membership: Option<bool>,
) -> Step {
    match receive_refusal(state, ctx, packet, status, membership) {
        Some(error) => Step { outcome: Err(error), state },
        None => Step {
            outcome: Ok(dispatches_for(Handler::Receive, ctx.sender, packet)),
            state: after_receive(state, packet),
        },
    }
}

/// Why a packet is refused for timing out, if it is, given what the
/// destination light client answered: its status, the time at the proof
/// height, and its verdict on the proof of non-membership; and given
/// whether the engine itself holds a receipt of the packet. An answer is
/// `None` where the query failed or was not made. The checks run in this
/// order: liveness, time at the proof height, proof, earlier receipt.
pub open spec fn timeout_refusal_at(
    already_received: bool,
    packet: PacketView,
    status: Option<Status>,
    proof_time: Option<u64>,
    non_membership: Option<bool>,
) -> Option<EngineError> {
    if status != Some(Status::Active) {
        Some(EngineError::ClientInactive)
    } else if proof_time is None {
        Some(EngineError::ProofInvalid)
    } else if proof_time->Some_0 < packet.header.timeout {
        Some(
            EngineError::TimeoutNotReached {
                proof_time: proof_time->Some_0,
                timeout: packet.header.timeout,
            },
        )
    } else if non_membership != Some(true) {
        Some(EngineError::ProofInvalid)
    } else if already_received {
        Some(EngineError::AlreadyReceived)
    } else {
        None
    }
}

/// Why `timeout_packet` refuses, if it does, given the light client's
/// answers. The engine holds a receipt of the packet where its connection
/// has received a packet under the nonce that the packet names.
pub open spec fn timeout_refusal(
    state: EngineState,
    packet: PacketView,
    status: Option<Status>,
    proof_time: Option<u64>,
    non_membership: Option<bool>,
) -> Option<EngineError> {
    timeout_refusal_at(
        ledger_at(state.store, packet.header.connection()).received.contains_key(
            packet.header.nonce as nat,
        ),
        packet,
        status,
        proof_time,
        non_membership,
    )
}

/// What `timeout_packet` does, given the light client's answers. The state
/// stays as it is in every case.
pub open spec fn spec_timeout(
    state: EngineState,
    ctx: CallView,
    packet: PacketView,
    status: Option<Status>,
    proof_time: Option<u64>,
    non_membership: Option<bool>,
) -> Step {
    match timeout_refusal(state, packet, status, proof_time, non_membership) {
        Some(error) => Step { outcome: Err(error), state },
        None => Step { outcome: Ok(dispatches_for(Handler::Timeout, ctx.sender, packet)), state },
    }
}

/// The state after an instantiation of `code_id` was issued.
pub open spec fn after_deploy(state: EngineState, code_id: u64) -> EngineState {
    EngineState { deploy: DeployState::AwaitingInstantiate(code_id), ..state }
}

/// Whether the engine is waiting for the reply with tag `reply_id`.
pub open spec fn reply_awaited(state: EngineState, reply_id: u64) -> bool {
    reply_id == REPLY_INSTANTIATE_ID && state.deploy is AwaitingInstantiate
}

/// The state after the reply with tag `reply_id` announced `child`: where
/// the reply was awaited, the child is registered and the helper is idle
/// again; otherwise nothing changes.
pub open spec fn after_reply(state: EngineState, reply_id: u64, child: Seq<char>) -> EngineState {
    if reply_awaited(state, reply_id) {
        EngineState { registry: state.registry.insert(child), deploy: DeployState::Idle, ..state }
    } else {
        state
    }
}

} // verus!

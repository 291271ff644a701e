//! What holds of the engine in every state and for every input, proved
//! over the transition system of `model`.

use vstd::prelude::*;
use crate::application::{CallView, Handler};
use crate::lightclient::Status;
use crate::model::{
    after_deploy, after_reply, spec_receive, spec_send, spec_timeout, EngineState,
};
use crate::packet::PacketView;
use crate::store::ledger_at;
use crate::types::ConnectionView;

verus! {

/// In a gapless state the nonces under which a connection holds sent
/// packets are exactly those from one up to its counter, and likewise for
/// received packets.
pub proof fn lemma_keys_are_one_to_counter(state: EngineState, connection: ConnectionView, k: nat)
    requires
        state.gapless(),
    ensures
        ledger_at(state.store, connection).sent.contains_key(k) <==> 1 <= k <= ledger_at(
            state.store,
            connection,
        ).sent_next_nonce,
        ledger_at(state.store, connection).received.contains_key(k) <==> 1 <= k <= ledger_at(
            state.store,
            connection,
        ).received_next_nonce,
{
}

/// A fresh engine is gapless.
pub proof fn lemma_initial_is_gapless(registry_enabled: bool)
    ensures
        EngineState::initial(registry_enabled).gapless(),
{
}

/// Every operation keeps a gapless state gapless, whatever its input and
/// whatever the light client answers.
pub proof fn lemma_gapless_is_kept(
    state: EngineState,
    ctx: CallView,
    packet: PacketView,
    status: Option<Status>,
    proof_time: Option<u64>,
    verdict: Option<bool>,
    code_id: u64,
    reply_id: u64,
    child: Seq<char>,
)
    requires
        state.gapless(),
    ensures
        spec_send(state, ctx, packet).state.gapless(),
        spec_receive(state, ctx, packet, status, verdict).state.gapless(),
        spec_timeout(state, ctx, packet, status, proof_time, verdict).state.gapless(),
        after_deploy(state, code_id).gapless(),
        after_reply(state, reply_id, child).gapless(),
{
}

/// A send that succeeds advances the connection's counter by one and
/// records the packet under the new counter. Nothing else changes: not the
/// packets sent before, not what was received, not any other connection,
/// not the registry.
pub proof fn lemma_send_records_the_packet(state: EngineState, ctx: CallView, packet: PacketView)
    requires
        spec_send(state, ctx, packet).outcome is Ok,
    ensures
        ({
            let connection = packet.header.connection();
            let before = ledger_at(state.store, connection);
            let after = ledger_at(spec_send(state, ctx, packet).state.store, connection);
            &&& after.sent_next_nonce == before.sent_next_nonce + 1
            &&& after.sent.contains_key(after.sent_next_nonce)
            &&& after.sent[after.sent_next_nonce] == packet
            &&& forall|k: nat|
                k != after.sent_next_nonce && before.sent.contains_key(k) ==> after.sent.contains_key(
                    k,
                ) && after.sent[k] == before.sent[k]
            &&& after.received_next_nonce == before.received_next_nonce
            &&& after.received == before.received
        }),
        forall|other: ConnectionView|
            other != packet.header.connection() ==> ledger_at(
                spec_send(state, ctx, packet).state.store,
                other,
            ) == ledger_at(state.store, other),
        spec_send(state, ctx, packet).state.registry == state.registry,
        spec_send(state, ctx, packet).state.registry_enabled == state.registry_enabled,
        spec_send(state, ctx, packet).state.deploy == state.deploy,
{
}

/// A receive that succeeds advances the connection's counter by one and
/// records the packet under the new counter; and it succeeds only where
/// the light client was active and accepted the proof of membership.
/// Nothing else changes.
pub proof fn lemma_receive_records_the_packet(
    state: EngineState,
    ctx: CallView,
    packet: PacketView,
    status: Option<Status>,
    membership: Option<bool>,
)
    requires
        spec_receive(state, ctx, packet, status, membership).outcome is Ok,
    ensures
        status == Some(Status::Active),
        membership == Some(true),
        ({
            let connection = packet.header.connection();
            let before = ledger_at(state.store, connection);
            let after = ledger_at(
                spec_receive(state, ctx, packet, status, membership).state.store,
                connection,
            );
            &&& after.received_next_nonce == before.received_next_nonce + 1
            &&& after.received.contains_key(after.received_next_nonce)
            &&& after.received[after.received_next_nonce] == packet
            &&& forall|k: nat|
                k != after.received_next_nonce && before.received.contains_key(k)
                    ==> after.received.contains_key(k) && after.received[k] == before.received[k]
            &&& after.sent_next_nonce == before.sent_next_nonce
            &&& after.sent == before.sent
        }),
        forall|other: ConnectionView|
            other != packet.header.connection() ==> ledger_at(
                spec_receive(state, ctx, packet, status, membership).state.store,
                other,
            ) == ledger_at(state.store, other),
        spec_receive(state, ctx, packet, status, membership).state.registry == state.registry,
        spec_receive(state, ctx, packet, status, membership).state.registry_enabled
            == state.registry_enabled,
        spec_receive(state, ctx, packet, status, membership).state.deploy == state.deploy,
{
}

/// A packet is received only under the nonce that follows the one received
/// last: where the header names a nonce, it names that one.
pub proof fn lemma_receive_is_in_order(
    state: EngineState,
    ctx: CallView,
    packet: PacketView,
    status: Option<Status>,
    membership: Option<bool>,
)
    requires
        spec_receive(state, ctx, packet, status, membership).outcome is Ok,
    ensures
        packet.header.nonce == 0 || packet.header.nonce == ledger_at(
            state.store,
            packet.header.connection(),
        ).received_next_nonce + 1,
{
}

/// Two sends on one connection, the second right after the first, are
/// given consecutive nonces: the second is the first plus one, and each
/// packet stands under its own.
pub proof fn lemma_sends_take_consecutive_nonces(
    state: EngineState,
    first_ctx: CallView,
    first: PacketView,
    second_ctx: CallView,
    second: PacketView,
)
    requires
        first.header.connection() == second.header.connection(),
        spec_send(state, first_ctx, first).outcome is Ok,
        spec_send(spec_send(state, first_ctx, first).state, second_ctx, second).outcome is Ok,
    ensures
        ({
            let connection = first.header.connection();
            let middle = spec_send(state, first_ctx, first).state;
            let end = spec_send(middle, second_ctx, second).state;
            let first_nonce = ledger_at(middle.store, connection).sent_next_nonce;
            let second_nonce = ledger_at(end.store, connection).sent_next_nonce;
            &&& first_nonce >= 1
            &&& second_nonce == first_nonce + 1
            &&& ledger_at(end.store, connection).sent[first_nonce] == first
            &&& ledger_at(end.store, connection).sent[second_nonce] == second
        }),
{
}

/// An operation that fails leaves the state as it was.
pub proof fn lemma_failure_changes_nothing(
    state: EngineState,
    ctx: CallView,
    packet: PacketView,
    status: Option<Status>,
    proof_time: Option<u64>,
    verdict: Option<bool>,
    reply_id: u64,
    child: Seq<char>,
)
    ensures
        spec_send(state, ctx, packet).outcome is Err ==> spec_send(state, ctx, packet).state
            == state,
        spec_receive(state, ctx, packet, status, verdict).outcome is Err ==> spec_receive(
            state,
            ctx,
            packet,
            status,
            verdict,
        ).state == state,
        spec_timeout(state, ctx, packet, status, proof_time, verdict).outcome is Err
            ==> spec_timeout(state, ctx, packet, status, proof_time, verdict).state == state,
        !crate::model::reply_awaited(state, reply_id) ==> after_reply(state, reply_id, child)
            == state,
{
}

/// A timeout never changes the state, whether it succeeds or fails.
pub proof fn lemma_timeout_changes_nothing(
    state: EngineState,
    ctx: CallView,
    packet: PacketView,
    status: Option<Status>,
    proof_time: Option<u64>,
    non_membership: Option<bool>,
)
    ensures
        spec_timeout(state, ctx, packet, status, proof_time, non_membership).state == state,
{
}

/// A packet that was sent on one engine and received on another reaches
/// both applications with its data as it was submitted: payload by
/// payload, `send` is queued on the source application and `receive` on
/// the destination application, each with the payload's own data.
pub proof fn lemma_send_receive_round_trip(
    sender_state: EngineState,
    send_ctx: CallView,
    receiver_state: EngineState,
    receive_ctx: CallView,
    packet: PacketView,
    status: Option<Status>,
    membership: Option<bool>,
    i: int,
)
    requires
        spec_send(sender_state, send_ctx, packet).outcome is Ok,
        spec_receive(receiver_state, receive_ctx, packet, status, membership).outcome is Ok,
        0 <= i < packet.payloads.len(),
    ensures
        ({
            let sent = spec_send(sender_state, send_ctx, packet).outcome->Ok_0;
            let received = spec_receive(
                receiver_state,
                receive_ctx,
                packet,
                status,
                membership,
            ).outcome->Ok_0;
            &&& sent.len() == packet.payloads.len()
            &&& received.len() == packet.payloads.len()
            &&& sent[i].handler == Handler::Send
            &&& sent[i].application == packet.payloads[i].header.application_source
            &&& sent[i].data == packet.payloads[i].data
            &&& received[i].handler == Handler::Receive
            &&& received[i].application == packet.payloads[i].header.application_destination
            &&& received[i].data == packet.payloads[i].data
            &&& received[i].data == sent[i].data
        }),
{
}

/// A packet that was sent and has not been received by the engine that
/// sent it times out as soon as the destination light client is active,
/// puts the proof height at or past the packet's timeout and accepts the
/// proof of non-membership: `timeout` is then queued on the source
/// application of each payload, with the payload's own data.
pub proof fn lemma_send_timeout_round_trip(
    state: EngineState,
    send_ctx: CallView,
    timeout_ctx: CallView,
    packet: PacketView,
    proof_time: u64,
    i: int,
)
    requires
        spec_send(state, send_ctx, packet).outcome is Ok,
        proof_time >= packet.header.timeout,
        !ledger_at(state.store, packet.header.connection()).received.contains_key(
            packet.header.nonce as nat,
        ),
        0 <= i < packet.payloads.len(),
    ensures
        ({
            let later = spec_send(state, send_ctx, packet).state;
            let timed_out = spec_timeout(
                later,
                timeout_ctx,
                packet,
                Some(Status::Active),
                Some(proof_time),
                Some(true),
            ).outcome;
            &&& timed_out is Ok
            &&& timed_out->Ok_0.len() == packet.payloads.len()
            &&& timed_out->Ok_0[i].handler == Handler::Timeout
            &&& timed_out->Ok_0[i].application == packet.payloads[i].header.application_source
            &&& timed_out->Ok_0[i].data == packet.payloads[i].data
            &&& timed_out->Ok_0[i].caller == timeout_ctx.sender
        }),
{
}

} // verus!

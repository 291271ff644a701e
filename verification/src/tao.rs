//! The transport, authentication and ordering engine.
//!
//! The engine sequences packets per connection, records a commitment for
//! each packet that it lets through, and queues one handler invocation per
//! payload. Every operation is all or nothing: a refused call leaves the
//! state as it was and queues nothing.

use vstd::prelude::*;
use crate::application::{dispatches_view, CallContext, Dispatch, DispatchView, Handler};
use crate::encoding::{spec_commit_key, spec_commit_value};
use crate::error::EngineError;
use crate::lightclient::{answer_of, LightClient, Status};
use crate::model::{
    after_deploy, after_receive, after_reply, dispatches_for, receive_refusal_early,
    reply_awaited, spec_receive, spec_send, spec_timeout, DeployState, EngineState,
    REPLY_INSTANTIATE_ID,
};
use crate::packet::Packet;
use crate::registry::{distinct, listed, Registry};
use crate::step::{
    admits, receive_query, receive_step, send_step, timeout_query, timeout_step, MembershipQuery,
    NonMembershipQuery,
};
use crate::store::{ledger_at, CommitmentStore};
use crate::types::{Addr, ClientRef};

verus! {

/// The value of what an operation returned.
pub open spec fn outcome_view(outcome: Result<Vec<Dispatch>, EngineError>) -> Result<
    Seq<DispatchView>,
    EngineError,
> {
    match outcome {
        Ok(dispatches) => Ok(dispatches_view(dispatches@)),
        Err(error) => Err(error),
    }
}

/// The request to instantiate a child contract, for the host to carry out.
/// The host answers with a reply that carries `reply_id`.
#[derive(Debug)]
pub struct InstantiateRequest {
    pub code_id: u64,
    pub msg: Vec<u8>,
    pub reply_id: u64,
}

/// The engine's state.
pub struct Contract {
    store: CommitmentStore,
    registry: Registry,
    registry_enabled: bool,
    deploy: DeployState,
}

impl View for Contract {
    type V = EngineState;

    closed spec fn view(&self) -> EngineState {
        EngineState {
            store: self.store@,
            registry_enabled: self.registry_enabled,
            registry: self.registry@,
            deploy: self.deploy,
        }
    }
}

impl Contract {
    /// The engine's invariant. Every engine that this module hands out
    /// satisfies it.
    pub closed spec fn wf(&self) -> bool {
        &&& self.store.wf()
        &&& self.registry.wf()
    }

    /// A fresh engine that accepts every client and application.
    pub fn new() -> (engine: Contract)
        ensures
            engine.wf(),
            engine@ == EngineState::initial(false),
    {
        Contract::instantiate(false)
    }

    /// A fresh engine: no commitment, an empty registry, no deployment
    /// under way. With `registry_enabled` the engine accepts only the
    /// clients and applications that it deployed itself.
    pub fn instantiate(registry_enabled: bool) -> (engine: Contract)
        ensures
            engine.wf(),
            engine@ == EngineState::initial(registry_enabled),
    {
        Contract {
            store: CommitmentStore::new(),
            registry: Registry::new(),
            registry_enabled,
            deploy: DeployState::Idle,
        }
    }

    /// Whether the engine accepts `address` as a local client or a local
    /// application.
    pub fn admits(&self, address: &Addr) -> (admitted: bool)
        ensures
            admitted == self@.admits(address@),
    {
        admits(self.registry_enabled, &self.registry, address)
    }

    /// Sends `packet`: checks timing, registry, funds and nonce, in this
    /// order; then commits the packet under the next nonce of its
    /// connection and queues `send` on the source application of each
    /// payload.
    pub fn send_packet(&mut self, ctx: &CallContext, packet: Packet) -> (outcome: Result<
        Vec<Dispatch>,
        EngineError,
    >)
        requires
            old(self).wf(),
        ensures
            final(self).wf(),
            final(self)@ == spec_send(old(self)@, ctx@, packet@).state,
            outcome_view(outcome) == spec_send(old(self)@, ctx@, packet@).outcome,
    {
        let last = self.store.sent_next_nonce(
            &packet.header.lightclient_source,
            &packet.header.lightclient_destination,
        );
        match send_step(self.registry_enabled, &self.registry, last, ctx, &packet) {
            Ok((_, dispatches)) => {
                self.store.record_sent(packet);
                Ok(dispatches)
            },
            Err(error) => Err(error),
        }
    }

    /// What to ask the source light client about `packet` before it is
    /// received, or why the packet is refused without asking: for timing,
    /// registry or nonce, in this order.
    pub fn membership_query(&self, ctx: &CallContext, packet: &Packet) -> (query: Result<
        MembershipQuery,
        EngineError,
    >)
        requires
            self.wf(),
        ensures
            match query {
                Ok(asked) => {
                    &&& receive_refusal_early(self@, ctx@, packet@) is None
                    &&& asked.key@ == spec_commit_key(
                        packet@.header.connection(),
                        (ledger_at(self@.store, packet@.header.connection()).received_next_nonce
                            + 1) as u64,
                    )
                    &&& asked.value@ == spec_commit_value(packet@)
                    &&& asked.commitment_prefix@ == packet@.header.lightclient_source.1
                },
                Err(error) => receive_refusal_early(self@, ctx@, packet@) == Some(error),
            },
    {
        let last = self.store.received_next_nonce(
            &packet.header.lightclient_source,
            &packet.header.lightclient_destination,
        );
        receive_query(self.registry_enabled, &self.registry, last, ctx, packet)
    }

    /// Receives `packet`, given what the source light client answered:
    /// its status, and its verdict on the proof that the packet was
    /// committed. An answer is `None` where the query failed or was not
    /// made. Checks timing, registry, nonce, liveness and proof, in this
    /// order; then commits the packet under the next nonce of its
    /// connection and queues `receive` on the destination application of
    /// each payload.
    pub fn receive_packet_with(
        &mut self,
        ctx: &CallContext,
        packet: Packet,
        status: Option<Status>,
        membership: Option<bool>,
    ) -> (outcome: Result<Vec<Dispatch>, EngineError>)
        requires
            old(self).wf(),
        ensures
            final(self).wf(),
            final(self)@ == spec_receive(old(self)@, ctx@, packet@, status, membership).state,
            outcome_view(outcome) == spec_receive(
                old(self)@,
                ctx@,
                packet@,
                status,
                membership,
            ).outcome,
    {
        let last = self.store.received_next_nonce(
            &packet.header.lightclient_source,
            &packet.header.lightclient_destination,
        );
        match receive_step(
            self.registry_enabled,
            &self.registry,
            last,
            ctx,
            &packet,
            status,
            membership,
        ) {
            Ok((_, dispatches)) => {
                self.store.record_received(packet);
                Ok(dispatches)
            },
            Err(error) => Err(error),
        }
    }

    /// Receives `packet` with `proof` that it was committed at `height`,
    /// asking `client`, the light client for the packet's source, for its
    /// status and for its verdict on the proof. The client is asked only
    /// where the answer matters. Whatever the client answers, the engine
    /// does what `receive_packet_with` does on those answers.
    pub fn receive_packet<L: LightClient>(
        &mut self,
        ctx: &CallContext,
        client: &L,
        packet: Packet,
        height: u64,
        proof: Vec<u8>,
    ) -> (outcome: Result<Vec<Dispatch>, EngineError>)
        requires
            old(self).wf(),
        ensures
            final(self).wf(),
            exists|status: Option<Status>, membership: Option<bool>|
                {
                    &&& final(self)@ == (#[trigger] spec_receive(
                        old(self)@,
                        ctx@,
                        packet@,
                        status,
                        membership,
                    )).state
                    &&& outcome_view(outcome) == spec_receive(
                        old(self)@,
                        ctx@,
                        packet@,
                        status,
                        membership,
                    ).outcome
                },
            match receive_refusal_early(old(self)@, ctx@, packet@) {
                Some(error) => outcome == Err::<Vec<Dispatch>, EngineError>(error),
                None => outcome is Ok || outcome == Err::<Vec<Dispatch>, EngineError>(
                    EngineError::ClientInactive,
                ) || outcome == Err::<Vec<Dispatch>, EngineError>(EngineError::ProofInvalid),
            },
            match outcome {
                Ok(dispatches) => {
                    &&& final(self)@ == after_receive(old(self)@, packet@)
                    &&& dispatches_view(dispatches@) == dispatches_for(
                        Handler::Receive,
                        ctx@.sender,
                        packet@,
                    )
                },
                Err(_) => final(self)@ == old(self)@,
            },
    {
        let mut status: Option<Status> = None;
        let mut membership: Option<bool> = None;
        match self.membership_query(ctx, &packet) {
            Ok(asked) => {
                status = answer_of(client.status());
                match status {
                    Some(Status::Active) => {
                        membership =
                        answer_of(
                            client.check_membership(
                                asked.key,
                                asked.value,
                                asked.commitment_prefix,
                                height,
                                proof,
                            ),
                        );
                    },
                    _ => {},
                }
            },
            Err(_) => {},
        }
        self.receive_packet_with(ctx, packet, status, membership)
    }

    /// What to ask the destination light client about `packet` before it
    /// is timed out.
    pub fn non_membership_query(&self, packet: &Packet) -> (asked: NonMembershipQuery)
        ensures
            asked.key@ == spec_commit_key(packet@.header.connection(), packet@.header.nonce),
            asked.commitment_prefix@ == packet@.header.lightclient_destination.1,
    {
        timeout_query(packet)
    }

    /// Times `packet` out, given what the destination light client
    /// answered: its status, the time at the proof height, and its verdict
    /// on the proof that the packet was not received. An answer is `None`
    /// where the query failed or was not made. Checks liveness, the time at
    /// the proof height, the proof and that this engine holds no receipt of
    /// the packet, in this order; then queues `timeout` on the source
    /// application of each payload. The state is left as it is.
    pub fn timeout_packet_with(
        &self,
        ctx: &CallContext,
        packet: Packet,
        status: Option<Status>,
        proof_time: Option<u64>,
        non_membership: Option<bool>,
    ) -> (outcome: Result<Vec<Dispatch>, EngineError>)
        requires
            self.wf(),
        ensures
            outcome_view(outcome) == spec_timeout(
                self@,
                ctx@,
                packet@,
                status,
                proof_time,
                non_membership,
            ).outcome,
    {
        let already_received = self.store.has_received(
            &packet.header.lightclient_source,
            &packet.header.lightclient_destination,
            packet.header.nonce,
        );
        timeout_step(already_received, ctx, &packet, status, proof_time, non_membership)
    }

    /// Times `packet` out with `proof` that it was not received by
    /// `height`, asking `client`, the light client for the packet's
    /// destination, for its status, for the time at `height` and for its
    /// verdict on the proof. The client is asked only where the answer
    /// matters. Whatever the client answers, the engine does what
    /// `timeout_packet_with` does on those answers.
    pub fn timeout_packet<L: LightClient>(
        &self,
        ctx: &CallContext,
        client: &L,
        packet: Packet,
        height: u64,
        proof: Vec<u8>,
    ) -> (outcome: Result<Vec<Dispatch>, EngineError>)
        requires
            self.wf(),
        ensures
            exists|status: Option<Status>, proof_time: Option<u64>, non_membership: Option<bool>|
                outcome_view(outcome) == (#[trigger] spec_timeout(
                    self@,
                    ctx@,
                    packet@,
                    status,
                    proof_time,
                    non_membership,
                )).outcome,
            match outcome {
                Ok(dispatches) => {
                    &&& dispatches_view(dispatches@) == dispatches_for(
                        Handler::Timeout,
                        ctx@.sender,
                        packet@,
                    )
                    &&& !ledger_at(self@.store, packet@.header.connection()).received.contains_key(
                        packet@.header.nonce as nat,
                    )
                },
                Err(error) => {
                    ||| error == EngineError::ClientInactive
                    ||| error == EngineError::ProofInvalid
                    ||| error == EngineError::AlreadyReceived
                    ||| exists|proof_time: u64|
                        proof_time < packet@.header.timeout && error
                            == (EngineError::TimeoutNotReached {
                            proof_time,
                            timeout: packet@.header.timeout,
                        })
                },
            },
    {
        let status = answer_of(client.status());
        let mut proof_time: Option<u64> = None;
        let mut non_membership: Option<bool> = None;
        match status {
            Some(Status::Active) => {
                proof_time = answer_of(client.timestamp(height));
                let reached = match proof_time {
                    Some(time) => time >= packet.header.timeout,
                    None => false,
                };
                if reached {
                    let asked = self.non_membership_query(&packet);
                    non_membership =
                    answer_of(
                        client.check_non_membership(
                            asked.key,
                            asked.commitment_prefix,
                            height,
                            proof,
                        ),
                    );
                }
            },
            _ => {},
        }
        self.timeout_packet_with(ctx, packet, status, proof_time, non_membership)
    }
}

impl Contract {
    /// Whether no deployment is under way.
    pub fn is_idle(&self) -> (idle: bool)
        ensures
            idle == (self@.deploy is Idle),
    {
        match self.deploy {
            DeployState::Idle => true,
            DeployState::AwaitingInstantiate(_) => false,
        }
    }

    /// Starts to bring a child contract into being: hands back the request
    /// for the host to instantiate `code_id` with `instantiate_msg`, and
    /// waits for the reply. Only an idle engine can start a deployment.
    pub fn deploy(&mut self, code_id: u64, instantiate_msg: Vec<u8>) -> (request:
        InstantiateRequest)
        requires
            old(self).wf(),
            old(self)@.deploy is Idle,
        ensures
            final(self).wf(),
            final(self)@ == after_deploy(old(self)@, code_id),
            request.code_id == code_id,
            request.msg@ == instantiate_msg@,
            request.reply_id == REPLY_INSTANTIATE_ID,
    {
        self.deploy = DeployState::AwaitingInstantiate(code_id);
        InstantiateRequest { code_id, msg: instantiate_msg, reply_id: REPLY_INSTANTIATE_ID }
    }

    /// Takes the host's reply to a request: where the engine was waiting
    /// for the reply with this tag, registers `child`, the address of the
    /// contract that was created, and hands it back. Any other reply is
    /// refused as unknown and changes nothing.
    pub fn reply(&mut self, reply_id: u64, child: Addr) -> (outcome: Result<Addr, EngineError>)
        requires
            old(self).wf(),
        ensures
            final(self).wf(),
            final(self)@ == after_reply(old(self)@, reply_id, child@),
            match outcome {
                Ok(created) => reply_awaited(old(self)@, reply_id) && created@ == child@,
                Err(error) => !reply_awaited(old(self)@, reply_id) && error
                    == EngineError::UnknownReply,
            },
    {
        if reply_id != REPLY_INSTANTIATE_ID || self.is_idle() {
            return Err(EngineError::UnknownReply);
        }
        self.registry.insert(child.clone());
        self.deploy = DeployState::Idle;
        Ok(child)
    }

    /// The registered addresses, each once.
    pub fn owned_contracts(&self) -> (owned: Vec<Addr>)
        requires
            self.wf(),
        ensures
            distinct(owned@),
            forall|address: Seq<char>| self@.registry.contains(address) <==> listed(owned@, address),
    {
        self.registry.members()
    }

    /// Whether clients and applications must be registered.
    pub fn registry_enabled(&self) -> (enabled: bool)
        ensures
            enabled == self@.registry_enabled,
    {
        self.registry_enabled
    }

    /// The nonce given to the packet sent last on the connection; zero
    /// before the first.
    pub fn sent_next_nonce(&self, source: &ClientRef, destination: &ClientRef) -> (nonce: u64)
        requires
            self.wf(),
        ensures
            nonce == ledger_at(self@.store, (source@, destination@)).sent_next_nonce,
    {
        self.store.sent_next_nonce(source, destination)
    }

    /// The nonce of the packet received last on the connection; zero
    /// before the first.
    pub fn received_next_nonce(&self, source: &ClientRef, destination: &ClientRef) -> (nonce: u64)
        requires
            self.wf(),
        ensures
            nonce == ledger_at(self@.store, (source@, destination@)).received_next_nonce,
    {
        self.store.received_next_nonce(source, destination)
    }

    /// The packet sent on the connection under `nonce`, if there is one.
    pub fn sent_packet(&self, source: &ClientRef, destination: &ClientRef, nonce: u64) -> (found:
        Option<Packet>)
        requires
            self.wf(),
        ensures
            match found {
                Some(packet) => {
                    &&& ledger_at(self@.store, (source@, destination@)).sent.contains_key(
                        nonce as nat,
                    )
                    &&& packet@ == ledger_at(self@.store, (source@, destination@)).sent[nonce as nat]
                },
                None => !ledger_at(self@.store, (source@, destination@)).sent.contains_key(
                    nonce as nat,
                ),
            },
    {
        self.store.sent_packet(source, destination, nonce)
    }

    /// The packet received on the connection under `nonce`, if there is
    /// one.
    pub fn received_packet(
        &self,
        source: &ClientRef,
        destination: &ClientRef,
        nonce: u64,
    ) -> (found: Option<Packet>)
        requires
            self.wf(),
        ensures
            match found {
                Some(packet) => {
                    &&& ledger_at(self@.store, (source@, destination@)).received.contains_key(
                        nonce as nat,
                    )
                    &&& packet@ == ledger_at(
                        self@.store,
                        (source@, destination@),
                    ).received[nonce as nat]
                },
                None => !ledger_at(self@.store, (source@, destination@)).received.contains_key(
                    nonce as nat,
                ),
            },
    {
        self.store.received_packet(source, destination, nonce)
    }

    /// In a well-formed engine every ledger is gapless.
    pub proof fn lemma_gapless(&self)
        requires
            self.wf(),
        ensures
            self@.gapless(),
    {
        self.store.lemma_gapless();
    }
}

impl Clone for Contract {
    /// A copy in the same state: a snapshot that a host can go back to
    /// where a queued invocation fails after the engine call has returned.
    fn clone(&self) -> (copy: Contract)
        ensures
            self.wf() ==> copy.wf() && copy@ == self@,
    {
        Contract {
            store: self.store.clone(),
            registry: self.registry.clone(),
            registry_enabled: self.registry_enabled,
            deploy: self.deploy,
        }
    }
}

} // verus!

//! The engine's decisions as functions of plain values: what to do with a
//! packet, given the registry, the connection's counter and the light
//! client's answers. A host that keeps the engine's state in its own
//! storage reads what a decision needs, calls the function and writes back
//! what it returns.

use vstd::prelude::*;
use crate::application::{dispatches_view, CallContext, Dispatch, Handler};
use crate::encoding::{commit_key, commit_value, spec_commit_key, spec_commit_value};
use crate::error::{EngineError, Side};
use crate::funds::check_funds;
use crate::lightclient::Status;
use crate::model::{
    applications_admitted, dispatches_for, endpoint, receive_refusal_at,
    receive_refusal_early_at, send_refusal_at, timeout_refusal_at, Admission,
};
use crate::packet::{payloads_view, Packet, Payload};
use crate::registry::Registry;
use crate::types::{copy_bytes, copy_client_ref, copy_coins, Addr};

verus! {

/// What to ask the source light client before a packet is received.
#[derive(Debug)]
pub struct MembershipQuery {
    /// The key under which the sender committed the packet.
    pub key: Vec<u8>,
    /// The value that the sender committed.
    pub value: Vec<u8>,
    /// The commitment prefix of the source client.
    pub commitment_prefix: Vec<u8>,
}

/// What to ask the destination light client before a packet is timed out.
#[derive(Debug)]
pub struct NonMembershipQuery {
    /// The key under which the sender committed the packet.
    pub key: Vec<u8>,
    /// The commitment prefix of the destination client.
    pub commitment_prefix: Vec<u8>,
}

/// One invocation per payload of `packet`, in payload order, for `handler`.
pub fn build_dispatches(handler: Handler, caller: &Addr, packet: &Packet) -> (dispatches: Vec<
    Dispatch,
>)
    ensures
        dispatches_view(dispatches@) == dispatches_for(handler, caller@, packet@),
{
    let mut dispatches: Vec<Dispatch> = Vec::new();
    let mut i: usize = 0;
    while i < packet.payloads.len()
        invariant
            i <= packet.payloads@.len(),
            dispatches@.len() == i,
            forall|k: int|
                0 <= k < i ==> (#[trigger] dispatches@[k])@ == dispatches_for(
                    handler,
                    caller@,
                    packet@,
                )[k],
        decreases packet.payloads@.len() - i,
    {
        let payload = &packet.payloads[i];
        let toward_source = match handler {
            Handler::Send => true,
            Handler::Receive => false,
            Handler::Timeout => true,
        };
        let dispatch = if toward_source {
            Dispatch {
                application: payload.header.application_source.clone(),
                handler,
                lightclient_local: copy_client_ref(&packet.header.lightclient_source),
                lightclient_remote: copy_client_ref(&packet.header.lightclient_destination),
                application_remote: payload.header.application_destination.clone(),
                data: copy_bytes(&payload.data),
                caller: caller.clone(),
                funds: copy_coins(&payload.header.funds),
            }
        } else {
            Dispatch {
                application: payload.header.application_destination.clone(),
                handler,
                lightclient_local: copy_client_ref(&packet.header.lightclient_destination),
                lightclient_remote: copy_client_ref(&packet.header.lightclient_source),
                application_remote: payload.header.application_source.clone(),
                data: copy_bytes(&payload.data),
                caller: caller.clone(),
                funds: copy_coins(&payload.header.funds),
            }
        };
        dispatches.push(dispatch);
        i += 1;
    }
    dispatches
}

/// The rule of admission that a registry makes, in force or not.
pub open spec fn admission_of(registry_enabled: bool, registry: &Registry) -> Admission {
    Admission { registry_enabled, registry: registry@ }
}

/// Whether `address` is admitted as a local client or a local application.
pub fn admits(registry_enabled: bool, registry: &Registry, address: &Addr) -> (admitted: bool)
    ensures
        admitted == admission_of(registry_enabled, registry).admits(address@),
{
    !registry_enabled || registry.contains(address)
}

fn admits_applications(
    registry_enabled: bool,
    registry: &Registry,
    payloads: &Vec<Payload>,
    side: Side,
) -> (admitted: bool)
    ensures
        admitted == applications_admitted(
            admission_of(registry_enabled, registry),
            payloads_view(payloads@),
            side,
        ),
{
    let ghost all = payloads_view(payloads@);
    let ghost admission = admission_of(registry_enabled, registry);
    let mut i: usize = 0;
    while i < payloads.len()
        invariant
            i <= payloads@.len(),
            all == payloads_view(payloads@),
            admission == admission_of(registry_enabled, registry),
            forall|k: int| 0 <= k < i ==> admission.admits(endpoint(#[trigger] all[k], side)),
        decreases payloads@.len() - i,
    {
        let admitted = match side {
            Side::Source => admits(
                registry_enabled,
                registry,
                &payloads[i].header.application_source,
            ),
            Side::Destination => admits(
                registry_enabled,
                registry,
                &payloads[i].header.application_destination,
            ),
        };
        if !admitted {
            assert(!admission.admits(endpoint(all[i as int], side)));
            return false;
        }
        i += 1;
    }
    true
}

fn nonce_fits(declared: u64, last: u64) -> (accepted: bool)
    ensures
        accepted == crate::model::nonce_accepted(declared, last as nat),
{
    last < u64::MAX && (declared == 0 || declared == last + 1)
}

/// Decides on the sending of `packet`, where `last` is the nonce given to
/// the packet sent last on its connection: the reason for which it is
/// refused, or the nonce under which it is to be committed, with the
/// invocations to queue.
pub fn send_step(
    registry_enabled: bool,
    registry: &Registry,
    last: u64,
    ctx: &CallContext,
    packet: &Packet,
) -> (decision: Result<(u64, Vec<Dispatch>), EngineError>)
    ensures
        match send_refusal_at(admission_of(registry_enabled, registry), last as nat, ctx@, packet@) {
            Some(error) => decision == Err::<(u64, Vec<Dispatch>), EngineError>(error),
            None => decision is Ok && decision->Ok_0.0 == last + 1 && dispatches_view(
                decision->Ok_0.1@,
            ) == dispatches_for(Handler::Send, ctx@.sender, packet@),
        },
{
    if packet.header.timeout < ctx.time {
        return Err(EngineError::Timeout { now: ctx.time, timeout: packet.header.timeout });
    }
    if !admits(registry_enabled, registry, &packet.header.lightclient_source.0) {
        return Err(EngineError::UnauthorizedClient(Side::Source));
    }
    if !admits_applications(registry_enabled, registry, &packet.payloads, Side::Source) {
        return Err(EngineError::UnauthorizedApplication(Side::Source));
    }
    if !check_funds(&packet.payloads, &ctx.funds) {
        return Err(EngineError::FundsMismatch);
    }
    if !nonce_fits(packet.header.nonce, last) {
        return Err(EngineError::NonceMismatch);
    }
    Ok((last + 1, build_dispatches(Handler::Send, &ctx.sender, packet)))
}

/// What to ask the source light client about `packet` before it is
/// received, where `last` is the nonce of the packet received last on its
/// connection; or why the packet is refused without asking: for timing,
/// registry or nonce, in this order.
pub fn receive_query(
    registry_enabled: bool,
    registry: &Registry,
    last: u64,
    ctx: &CallContext,
    packet: &Packet,
) -> (query: Result<MembershipQuery, EngineError>)
    ensures
        match receive_refusal_early_at(
            admission_of(registry_enabled, registry),
            last as nat,
            ctx@,
            packet@,
        ) {
            Some(error) => query == Err::<MembershipQuery, EngineError>(error),
            None => {
                &&& query is Ok
                &&& query->Ok_0.key@ == spec_commit_key(
                    packet@.header.connection(),
                    (last + 1) as u64,
                )
                &&& query->Ok_0.value@ == spec_commit_value(packet@)
                &&& query->Ok_0.commitment_prefix@ == packet@.header.lightclient_source.1
            },
        },
{
    if packet.header.timeout < ctx.time {
        return Err(EngineError::Timeout { now: ctx.time, timeout: packet.header.timeout });
    }
    if !admits(registry_enabled, registry, &packet.header.lightclient_destination.0) {
        return Err(EngineError::UnauthorizedClient(Side::Destination));
    }
    if !admits_applications(registry_enabled, registry, &packet.payloads, Side::Destination) {
        return Err(EngineError::UnauthorizedApplication(Side::Destination));
    }
    if !nonce_fits(packet.header.nonce, last) {
        return Err(EngineError::NonceMismatch);
    }
    Ok(
        MembershipQuery {
            key: commit_key(
                &packet.header.lightclient_source,
                &packet.header.lightclient_destination,
                last + 1,
            ),
            value: commit_value(packet),
            commitment_prefix: copy_bytes(&packet.header.lightclient_source.1),
        },
    )
}

/// Decides on the receipt of `packet`, where `last` is the nonce of the
/// packet received last on its connection, given what the source light
/// client answered: the reason for which the packet is refused, or the
/// nonce under which it is to be committed, with the invocations to queue.
pub fn receive_step(
    registry_enabled: bool,
    registry: &Registry,
    last: u64,
    ctx: &CallContext,
    packet: &Packet,
    status: Option<Status>,
    membership: Option<bool>,
) -> (decision: Result<(u64, Vec<Dispatch>), EngineError>)
    ensures
        match receive_refusal_at(
            admission_of(registry_enabled, registry),
            last as nat,
            ctx@,
            packet@,
            status,
            membership,
        ) {
            Some(error) => decision == Err::<(u64, Vec<Dispatch>), EngineError>(error),
            None => decision is Ok && decision->Ok_0.0 == last + 1 && dispatches_view(
                decision->Ok_0.1@,
            ) == dispatches_for(Handler::Receive, ctx@.sender, packet@),
        },
{
    match receive_query(registry_enabled, registry, last, ctx, packet) {
        Err(error) => {
            return Err(error);
        },
        Ok(_) => {},
    }
    match status {
        Some(Status::Active) => {},
        _ => {
            return Err(EngineError::ClientInactive);
        },
    }
    match membership {
        Some(true) => {},
        _ => {
            return Err(EngineError::ProofInvalid);
        },
    }
    Ok((last + 1, build_dispatches(Handler::Receive, &ctx.sender, packet)))
}

/// What to ask the destination light client about `packet` before it is
/// timed out.
pub fn timeout_query(packet: &Packet) -> (asked: NonMembershipQuery)
    ensures
        asked.key@ == spec_commit_key(packet@.header.connection(), packet@.header.nonce),
        asked.commitment_prefix@ == packet@.header.lightclient_destination.1,
{
    NonMembershipQuery {
        key: commit_key(
            &packet.header.lightclient_source,
            &packet.header.lightclient_destination,
            packet.header.nonce,
        ),
        commitment_prefix: copy_bytes(&packet.header.lightclient_destination.1),
    }
}

/// Decides on the timing out of `packet`, given what the destination light
/// client answered and whether the engine itself holds a receipt of the
/// packet: the reason for which the timeout is refused, or the invocations
/// to queue.
pub fn timeout_step(
    already_received: bool,
    ctx: &CallContext,
    packet: &Packet,
    status: Option<Status>,
    proof_time: Option<u64>,
    non_membership: Option<bool>,
) -> (decision: Result<Vec<Dispatch>, EngineError>)
    ensures
        match timeout_refusal_at(already_received, packet@, status, proof_time, non_membership) {
            Some(error) => decision == Err::<Vec<Dispatch>, EngineError>(error),
            None => decision is Ok && dispatches_view(decision->Ok_0@) == dispatches_for(
                Handler::Timeout,
                ctx@.sender,
                packet@,
            ),
        },
{
    match status {
        Some(Status::Active) => {},
        _ => {
            return Err(EngineError::ClientInactive);
        },
    }
    let proof_time = match proof_time {
        Some(time) => time,
        None => {
            return Err(EngineError::ProofInvalid);
        },
    };
    if proof_time < packet.header.timeout {
        return Err(EngineError::TimeoutNotReached { proof_time, timeout: packet.header.timeout });
    }
    match non_membership {
        Some(true) => {},
        _ => {
            return Err(EngineError::ProofInvalid);
        },
    }
    if already_received {
        return Err(EngineError::AlreadyReceived);
    }
    Ok(build_dispatches(Handler::Timeout, &ctx.sender, packet))
}

} // verus!

//! The ways in which an engine call fails.

use vstd::prelude::*;
use vstd::string::StringExecFns;
use crate::text::{append_decimal, decimal};

verus! {

/// A failure that has only a message to show.
#[derive(Debug, PartialEq, Eq)]
pub struct GenericError {
    pub message: String,
}

/// Which end of a packet's route a refusal concerns.
#[derive(Debug, Clone, Copy, PartialEq, Eq, Structural)]
pub enum Side {
    Source,
    Destination,
}

/// Why the engine refused a call. A refused call changes nothing and
/// queues nothing.
#[derive(Debug, Clone, Copy, PartialEq, Eq, Structural)]
pub enum EngineError {
    /// The wall clock is past the declared timeout on send or receive.
    Timeout { now: u64, timeout: u64 },
    /// The time at the proof height is still before the declared timeout.
    TimeoutNotReached { proof_time: u64, timeout: u64 },
    /// The supplied nonce is not the next one expected on the connection.
    NonceMismatch,
    /// A client address is absent from the registry.
    UnauthorizedClient(Side),
    /// An application address is absent from the registry.
    UnauthorizedApplication(Side),
    /// The light client is not active.
    ClientInactive,
    /// The light client refused the proof, or could not be asked.
    ProofInvalid,
    /// The funds named in the payloads exceed the funds attached.
    FundsMismatch,
    /// A reply arrived that the engine was not waiting for.
    UnknownReply,
    /// A timeout was attempted for a packet that was already received.
    AlreadyReceived,
}

impl EngineError {
    /// The text of the message that `message` renders.
    pub open spec fn spec_message(self) -> Seq<char> {
        match self {
            EngineError::Timeout { now, timeout } => "timeout is in the past: current time: "@
                + decimal(now as nat) + ", timeout: "@ + decimal(timeout as nat),
            EngineError::TimeoutNotReached { proof_time, timeout } =>
                "timeout is in the future for proof height: current time: "@ + decimal(
                    proof_time as nat,
                ) + ", timeout: "@ + decimal(timeout as nat),
            EngineError::NonceMismatch => "nonce mismatch"@,
            EngineError::UnauthorizedClient(Side::Source) => "unauthorized source client"@,
            EngineError::UnauthorizedClient(Side::Destination) => "unauthorized destination client"@,
            EngineError::UnauthorizedApplication(Side::Source) => "unauthorized source application"@,
            EngineError::UnauthorizedApplication(Side::Destination) =>
                "unauthorized destination application"@,
            EngineError::ClientInactive => "light client is inactive"@,
            EngineError::ProofInvalid => "commitment proof is invalid"@,
            EngineError::FundsMismatch => "funds mismatch"@,
            EngineError::UnknownReply => "Unknown reply id"@,
            EngineError::AlreadyReceived => "packet was already received"@,
        }
    }

    /// The message for this error. The fixed part comes first, so that a
    /// caller can look for it whatever the numbers are.
    pub fn message(&self) -> (text: String)
        ensures
            text@ == self.spec_message(),
    {
        match self {
            EngineError::Timeout { now, timeout } => {
                let mut text = String::from_str("timeout is in the past: current time: ");
                append_decimal(&mut text, *now as u128);
                text.append(", timeout: ");
                append_decimal(&mut text, *timeout as u128);
                text
            },
            EngineError::TimeoutNotReached { proof_time, timeout } => {
                let mut text = String::from_str(
                    "timeout is in the future for proof height: current time: ",
                );
                append_decimal(&mut text, *proof_time as u128);
                text.append(", timeout: ");
                append_decimal(&mut text, *timeout as u128);
                text
            },
            EngineError::NonceMismatch => String::from_str("nonce mismatch"),
            EngineError::UnauthorizedClient(Side::Source) => String::from_str(
                "unauthorized source client",
            ),
            EngineError::UnauthorizedClient(Side::Destination) => String::from_str(
                "unauthorized destination client",
            ),
            EngineError::UnauthorizedApplication(Side::Source) => String::from_str(
                "unauthorized source application",
            ),
            EngineError::UnauthorizedApplication(Side::Destination) => String::from_str(
                "unauthorized destination application",
            ),
            EngineError::ClientInactive => String::from_str("light client is inactive"),
            EngineError::ProofInvalid => String::from_str("commitment proof is invalid"),
            EngineError::FundsMismatch => String::from_str("funds mismatch"),
            EngineError::UnknownReply => String::from_str("Unknown reply id"),
            EngineError::AlreadyReceived => String::from_str("packet was already received"),
        }
    }
}

/// The message of a timeout begins with the fixed text
/// "timeout is in the past", and that of a timeout that has not been
/// reached with "timeout is in the future for proof height", whatever the
/// numbers are.
pub proof fn lemma_messages_begin_with_fixed_text(first: u64, second: u64)
    ensures
        "timeout is in the past"@.is_prefix_of(
            (EngineError::Timeout { now: first, timeout: second }).spec_message(),
        ),
        "timeout is in the future for proof height"@.is_prefix_of(
            (EngineError::TimeoutNotReached { proof_time: first, timeout: second }).spec_message(),
        ),
{
    reveal_strlit("timeout is in the past");
    reveal_strlit("timeout is in the past: current time: ");
    reveal_strlit("timeout is in the future for proof height");
    reveal_strlit("timeout is in the future for proof height: current time: ");
}

} // verus!

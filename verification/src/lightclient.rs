//! The light-client capability: what the engine asks of a verifier of
//! commitments made on a remote chain.

use vstd::prelude::*;

verus! {

/// Liveness of a light client.
#[derive(Debug, Clone, Copy, PartialEq, Eq, Structural)]
pub enum Status {
    Active,
    Inactive,
}

/// What a query answered, with the failure of the query as `None`.
pub open spec fn answer<T, E>(outcome: Result<T, E>) -> Option<T> {
    match outcome {
        Ok(value) => Some(value),
        Err(_) => None,
    }
}

/// Turns the outcome of a query into its answer, dropping the error.
pub fn answer_of<T, E>(outcome: Result<T, E>) -> (given: Option<T>)
    ensures
        given == answer(outcome),
{
    match outcome {
        Ok(value) => Some(value),
        Err(_) => None,
    }
}

/// A verifier of commitments made on a remote chain.
///
/// The four queries take the client by shared reference and are expected to
/// be free of side effects; `update` and `prune` may change the client in
/// any way. The engine promises nothing about what an implementation
/// answers: it states its own behaviour for every possible answer.
pub trait LightClient {
    type Error;

    /// Advances the client with a new header.
    fn update(&mut self, header: Vec<u8>) -> Result<(), Self::Error>;

    /// Whether the client is live.
    fn status(&self) -> Result<Status, Self::Error>;

    /// The wall-clock seconds that belong to a proof height.
    fn timestamp(&self, height: u64) -> Result<u64, Self::Error>;

    /// Drops state that the client no longer needs.
    fn prune(&mut self) -> Result<(), Self::Error>;

    /// Whether `proof` shows that `key` holds `value` under
    /// `commitment_prefix` at `height`.
    fn check_membership(
        &self,
        key: Vec<u8>,
        value: Vec<u8>,
        commitment_prefix: Vec<u8>,
        height: u64,
        proof: Vec<u8>,
    ) -> Result<bool, Self::Error>;

    /// Whether `proof` shows that `key` is absent under
    /// `commitment_prefix` at `height`.
    fn check_non_membership(
        &self,
        key: Vec<u8>,
        commitment_prefix: Vec<u8>,
        height: u64,
        proof: Vec<u8>,
    ) -> Result<bool, Self::Error>;
}

} // verus!

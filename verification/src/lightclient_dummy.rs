//! A light client that is always active and accepts every proof. It keeps
//! the client state and the consensus state it was set up with and never
//! looks at them.

use vstd::prelude::*;
use crate::error::GenericError;
use crate::lightclient::{LightClient, Status};

verus! {

/// The state of the client.
pub struct Contract {
    pub lightclient_state: Vec<u8>,
    pub consensus_states: Vec<(u64, Vec<u8>)>,
}

impl Contract {
    /// A client that has not been set up: it holds nothing.
    pub fn new() -> (client: Contract)
        ensures
            client.lightclient_state@.len() == 0,
            client.consensus_states@.len() == 0,
    {
        Contract { lightclient_state: Vec::new(), consensus_states: Vec::new() }
    }

    /// Sets the client up with its state and with the consensus state at
    /// height zero.
    pub fn instantiate(&mut self, lightclient_state: Vec<u8>, consensus_state: Vec<u8>)
        ensures
            final(self).lightclient_state@ == lightclient_state@,
            final(self).consensus_states@.len() == 1,
            final(self).consensus_states@[0].0 == 0,
            final(self).consensus_states@[0].1@ == consensus_state@,
    {
        self.lightclient_state = lightclient_state;
        let mut states: Vec<(u64, Vec<u8>)> = Vec::new();
        states.push((0u64, consensus_state));
        self.consensus_states = states;
    }
}

impl LightClient for Contract {
    type Error = GenericError;

    /// Accepts any header and changes nothing.
    fn update(&mut self, header: Vec<u8>) -> (outcome: Result<(), GenericError>)
        ensures
            outcome is Ok,
            final(self).lightclient_state@ == old(self).lightclient_state@,
            final(self).consensus_states@ == old(self).consensus_states@,
    {
        Ok(())
    }

    /// Always active.
    fn status(&self) -> (outcome: Result<Status, GenericError>)
        ensures
            outcome == Ok::<Status, GenericError>(Status::Active),
    {
        Ok(Status::Active)
    }

    /// Every height is at the end of time, so that every timeout has been
    /// reached.
    fn timestamp(&self, height: u64) -> (outcome: Result<u64, GenericError>)
        ensures
            outcome == Ok::<u64, GenericError>(u64::MAX),
    {
        Ok(u64::MAX)
    }

    /// Has nothing to drop.
    fn prune(&mut self) -> (outcome: Result<(), GenericError>)
        ensures
            outcome is Ok,
            final(self).lightclient_state@ == old(self).lightclient_state@,
            final(self).consensus_states@ == old(self).consensus_states@,
    {
        Ok(())
    }

    /// Accepts every proof of membership.
    fn check_membership(
        &self,
        key: Vec<u8>,
        value: Vec<u8>,
        commitment_prefix: Vec<u8>,
        height: u64,
        proof: Vec<u8>,
    ) -> (outcome: Result<bool, GenericError>)
        ensures
            outcome == Ok::<bool, GenericError>(true),
    {
        Ok(true)
    }

    /// Accepts every proof of non-membership.
    fn check_non_membership(
        &self,
        key: Vec<u8>,
        commitment_prefix: Vec<u8>,
        height: u64,
        proof: Vec<u8>,
    ) -> (outcome: Result<bool, GenericError>)
        ensures
            outcome == Ok::<bool, GenericError>(true),
    {
        Ok(true)
    }
}

} // verus!

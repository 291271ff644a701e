//! Packets and payloads: the unit of the engine's pipeline and the unit
//! that applications process.

use vstd::prelude::*;
use vstd::std_specs::cmp::PartialEqSpecImpl;
use crate::types::{
    bytes_equal, client_ref_equal, coins_equal, coins_view, copy_bytes, copy_client_ref,
    copy_coins, Addr, ClientRef, ClientRefView, Coin, CoinView, ConnectionView,
};

verus! {

/// The application endpoints of a payload and the funds that travel with it.
#[derive(Debug)]
pub struct PayloadHeader {
    pub application_source: Addr,
    pub application_destination: Addr,
    pub funds: Vec<Coin>,
}

/// The mathematical value of a [`PayloadHeader`].
pub struct PayloadHeaderView {
    pub application_source: Seq<char>,
    pub application_destination: Seq<char>,
    pub funds: Seq<CoinView>,
}

impl View for PayloadHeader {
    type V = PayloadHeaderView;

    open spec fn view(&self) -> PayloadHeaderView {
        PayloadHeaderView {
            application_source: self.application_source@,
            application_destination: self.application_destination@,
            funds: coins_view(self.funds@),
        }
    }
}

impl Clone for PayloadHeader {
    fn clone(&self) -> (copy: PayloadHeader)
        ensures
            copy@ == self@,
    {
        PayloadHeader {
            application_source: self.application_source.clone(),
            application_destination: self.application_destination.clone(),
            funds: copy_coins(&self.funds),
        }
    }
}

impl PartialEq for PayloadHeader {
    fn eq(&self, other: &PayloadHeader) -> (same: bool) {
        self.application_source == other.application_source
            && self.application_destination == other.application_destination
            && coins_equal(&self.funds, &other.funds)
    }
}

impl PartialEqSpecImpl for PayloadHeader {
    open spec fn obeys_eq_spec() -> bool {
        true
    }

    open spec fn eq_spec(&self, other: &PayloadHeader) -> bool {
        self@ == other@
    }
}

impl Eq for PayloadHeader {}

/// A header and data that only the destination application interprets.
#[derive(Debug)]
pub struct Payload {
    pub header: PayloadHeader,
    pub data: Vec<u8>,
}

/// The mathematical value of a [`Payload`].
pub struct PayloadView {
    pub header: PayloadHeaderView,
    pub data: Seq<u8>,
}

impl View for Payload {
    type V = PayloadView;

    open spec fn view(&self) -> PayloadView {
        PayloadView { header: self.header@, data: self.data@ }
    }
}

impl Clone for Payload {
    fn clone(&self) -> (copy: Payload)
        ensures
            copy@ == self@,
    {
        Payload { header: self.header.clone(), data: copy_bytes(&self.data) }
    }
}

impl PartialEq for Payload {
    fn eq(&self, other: &Payload) -> (same: bool) {
        self.header == other.header && bytes_equal(&self.data, &other.data)
    }
}

impl PartialEqSpecImpl for Payload {
    open spec fn obeys_eq_spec() -> bool {
        true
    }

    open spec fn eq_spec(&self, other: &Payload) -> bool {
        self@ == other@
    }
}

impl Eq for Payload {}

/// The values of a sequence of payloads, in order.
pub open spec fn payloads_view(payloads: Seq<Payload>) -> Seq<PayloadView> {
    payloads.map_values(|payload: Payload| payload@)
}

/// Copies a list of payloads.
pub fn copy_payloads(source: &Vec<Payload>) -> (copy: Vec<Payload>)
    ensures
        payloads_view(copy@) == payloads_view(source@),
{
    let mut copy: Vec<Payload> = Vec::new();
    let mut i: usize = 0;
    while i < source.len()
        invariant
            i <= source.len(),
            copy@.len() == i,
            forall|k: int| 0 <= k < i ==> copy@[k]@ == source@[k]@,
        decreases source.len() - i,
    {
        copy.push(source[i].clone());
        i += 1;
    }
    copy
}

/// Compares two lists of payloads, entry by entry.
pub fn payloads_equal(left: &Vec<Payload>, right: &Vec<Payload>) -> (same: bool)
    ensures
        same == (payloads_view(left@) == payloads_view(right@)),
{
    if left.len() != right.len() {
        return false;
    }
    let mut i: usize = 0;
    while i < left.len()
        invariant
            i <= left.len(),
            left.len() == right.len(),
            forall|k: int| 0 <= k < i ==> left@[k]@ == right@[k]@,
        decreases left.len() - i,
    {
        if !(left[i] == right[i]) {
            assert(payloads_view(left@)[i as int] != payloads_view(right@)[i as int]);
            return false;
        }
        i += 1;
    }
    assert(payloads_view(left@) =~= payloads_view(right@));
    true
}

/// The client endpoints of a packet, its nonce and its timeout.
///
/// `timeout` is an absolute wall-clock value in seconds. A `nonce` of zero
/// leaves the choice to the engine; any other value must be the next one
/// expected on the connection.
#[derive(Debug)]
pub struct PacketHeader {
    pub lightclient_source: ClientRef,
    pub lightclient_destination: ClientRef,
    pub nonce: u64,
    pub timeout: u64,
}

/// The mathematical value of a [`PacketHeader`].
pub struct PacketHeaderView {
    pub lightclient_source: ClientRefView,
    pub lightclient_destination: ClientRefView,
    pub nonce: u64,
    pub timeout: u64,
}

impl PacketHeaderView {
    /// The connection that the header names.
    pub open spec fn connection(self) -> ConnectionView {
        (self.lightclient_source, self.lightclient_destination)
    }
}

impl View for PacketHeader {
    type V = PacketHeaderView;

    open spec fn view(&self) -> PacketHeaderView {
        PacketHeaderView {
            lightclient_source: self.lightclient_source@,
            lightclient_destination: self.lightclient_destination@,
            nonce: self.nonce,
            timeout: self.timeout,
        }
    }
}

impl Clone for PacketHeader {
    fn clone(&self) -> (copy: PacketHeader)
        ensures
            copy@ == self@,
    {
        PacketHeader {
            lightclient_source: copy_client_ref(&self.lightclient_source),
            lightclient_destination: copy_client_ref(&self.lightclient_destination),
            nonce: self.nonce,
            timeout: self.timeout,
        }
    }
}

impl PartialEq for PacketHeader {
    fn eq(&self, other: &PacketHeader) -> (same: bool) {
        client_ref_equal(&self.lightclient_source, &other.lightclient_source)
            && client_ref_equal(&self.lightclient_destination, &other.lightclient_destination)
            && self.nonce == other.nonce && self.timeout == other.timeout
    }
}

impl PartialEqSpecImpl for PacketHeader {
    open spec fn obeys_eq_spec() -> bool {
        true
    }

    open spec fn eq_spec(&self, other: &PacketHeader) -> bool {
        self@ == other@
    }
}

impl Eq for PacketHeader {}

/// A header and an ordered sequence of payloads.
#[derive(Debug)]
pub struct Packet {
    pub header: PacketHeader,
    pub payloads: Vec<Payload>,
}

/// The mathematical value of a [`Packet`].
pub struct PacketView {
    pub header: PacketHeaderView,
    pub payloads: Seq<PayloadView>,
}

impl View for Packet {
    type V = PacketView;

    open spec fn view(&self) -> PacketView {
        PacketView { header: self.header@, payloads: payloads_view(self.payloads@) }
    }
}

impl Clone for Packet {
    fn clone(&self) -> (copy: Packet)
        ensures
            copy@ == self@,
    {
        Packet { header: self.header.clone(), payloads: copy_payloads(&self.payloads) }
    }
}

impl PartialEq for Packet {
    fn eq(&self, other: &Packet) -> (same: bool) {
        self.header == other.header && payloads_equal(&self.payloads, &other.payloads)
    }
}

impl PartialEqSpecImpl for Packet {
    open spec fn obeys_eq_spec() -> bool {
        true
    }

    open spec fn eq_spec(&self, other: &Packet) -> bool {
        self@ == other@
    }
}

impl Eq for Packet {}

} // verus!

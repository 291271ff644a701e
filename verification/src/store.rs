//! The commitment store: for each connection, the packets sent and received
//! so far, each under the nonce it was given.

use vstd::prelude::*;
use crate::packet::{Packet, PacketView};
use crate::types::{client_ref_equal, copy_client_ref, ClientRef, ConnectionView};

verus! {

/// What the store holds for one connection.
pub struct LedgerView {
    /// The nonce given to the packet sent last; zero before the first.
    pub sent_next_nonce: nat,
    /// The packets sent, by nonce.
    pub sent: Map<nat, PacketView>,
    /// The nonce of the packet received last; zero before the first.
    pub received_next_nonce: nat,
    /// The packets received, by nonce.
    pub received: Map<nat, PacketView>,
}

impl LedgerView {
    /// The ledger of a connection that has seen no packet.
    pub open spec fn empty() -> LedgerView {
        LedgerView {
            sent_next_nonce: 0,
            sent: Map::empty(),
            received_next_nonce: 0,
            received: Map::empty(),
        }
    }

    /// This ledger after one more packet was sent.
    pub open spec fn with_sent(self, packet: PacketView) -> LedgerView {
        LedgerView {
            sent_next_nonce: self.sent_next_nonce + 1,
            sent: self.sent.insert(self.sent_next_nonce + 1, packet),
            ..self
        }
    }

    /// This ledger after one more packet was received.
    pub open spec fn with_received(self, packet: PacketView) -> LedgerView {
        LedgerView {
            received_next_nonce: self.received_next_nonce + 1,
            received: self.received.insert(self.received_next_nonce + 1, packet),
            ..self
        }
    }

    /// In each direction the nonces in use are exactly those from one up to
    /// the counter.
    pub open spec fn gapless(self) -> bool {
        &&& forall|k: nat| self.sent.contains_key(k) <==> 1 <= k <= self.sent_next_nonce
        &&& forall|k: nat| self.received.contains_key(k) <==> 1 <= k <= self.received_next_nonce
    }
}

/// The mathematical value of a [`CommitmentStore`]: a ledger for each
/// connection that has seen a packet.
pub type StoreView = Map<ConnectionView, LedgerView>;

/// The ledger of `connection`, empty where the store has none.
pub open spec fn ledger_at(store: StoreView, connection: ConnectionView) -> LedgerView {
    if store.contains_key(connection) {
        store[connection]
    } else {
        LedgerView::empty()
    }
}

/// Every ledger of the store is gapless.
pub open spec fn store_gapless(store: StoreView) -> bool {
    forall|connection: ConnectionView| #[trigger]
        store.contains_key(connection) ==> store[connection].gapless()
}

struct Ledger {
    source: ClientRef,
    destination: ClientRef,
    sent_nonce: u64,
    sent_packets: Vec<Packet>,
    received_nonce: u64,
    received_packets: Vec<Packet>,
}

/// The packets of one direction, keyed by nonce: the first has nonce one.
spec fn by_nonce(packets: Seq<Packet>) -> Map<nat, PacketView> {
    Map::new(|k: nat| 1 <= k <= packets.len(), |k: nat| packets[k - 1]@)
}

impl Ledger {
    spec fn connection(&self) -> ConnectionView {
        (self.source@, self.destination@)
    }

    spec fn wf(&self) -> bool {
        &&& self.sent_packets@.len() == self.sent_nonce
        &&& self.received_packets@.len() == self.received_nonce
    }

    spec fn view(&self) -> LedgerView {
        LedgerView {
            sent_next_nonce: self.sent_nonce as nat,
            sent: by_nonce(self.sent_packets@),
            received_next_nonce: self.received_nonce as nat,
            received: by_nonce(self.received_packets@),
        }
    }
}

/// The persistent record of every packet that the engine committed to.
/// Entries are only ever added.
pub struct CommitmentStore {
    ledgers: Vec<Ledger>,
}

impl View for CommitmentStore {
    type V = StoreView;

    closed spec fn view(&self) -> StoreView {
        Map::new(
            |connection: ConnectionView| self.holds(connection),
            |connection: ConnectionView| self.ledgers@[self.place(connection)].view(),
        )
    }
}

impl CommitmentStore {
    spec fn holds(&self, connection: ConnectionView) -> bool {
        exists|i: int| 0 <= i < self.ledgers@.len() && self.ledgers@[i].connection() == connection
    }

    spec fn place(&self, connection: ConnectionView) -> int {
        choose|i: int| 0 <= i < self.ledgers@.len() && self.ledgers@[i].connection() == connection
    }

    /// The store's invariant: one ledger per connection, and in each ledger
    /// as many packets as its counter says.
    pub closed spec fn wf(&self) -> bool {
        &&& forall|i: int| 0 <= i < self.ledgers@.len() ==> (#[trigger] self.ledgers@[i]).wf()
        &&& forall|i: int, j: int|
            0 <= i < j < self.ledgers@.len() ==> (#[trigger] self.ledgers@[i]).connection() != (
            #[trigger] self.ledgers@[j]).connection()
    }

    proof fn lemma_place(&self, i: int)
        requires
            self.wf(),
            0 <= i < self.ledgers@.len(),
        ensures
            self.holds(self.ledgers@[i].connection()),
            self.place(self.ledgers@[i].connection()) == i,
            self@.contains_key(self.ledgers@[i].connection()),
            self@[self.ledgers@[i].connection()] == self.ledgers@[i].view(),
    {
        let connection = self.ledgers@[i].connection();
        let j = self.place(connection);
        assert(0 <= j < self.ledgers@.len() && self.ledgers@[j].connection() == connection);
        if j < i {
            assert(self.ledgers@[j].connection() != self.ledgers@[i].connection());
        } else if i < j {
            assert(self.ledgers@[i].connection() != self.ledgers@[j].connection());
        }
    }

    /// In a well-formed store every ledger is gapless.
    pub proof fn lemma_gapless(&self)
        requires
            self.wf(),
        ensures
            store_gapless(self@),
            forall|connection: ConnectionView| #[trigger] ledger_at(self@, connection).gapless(),
    {
        assert forall|connection: ConnectionView| #[trigger]
            self@.contains_key(connection) implies self@[connection].gapless() by {
            let i = self.place(connection);
            assert(self.ledgers@[i].wf());
        }
    }

    proof fn lemma_replaced(&self, after: &CommitmentStore, i: int)
        requires
            self.wf(),
            0 <= i < self.ledgers@.len(),
            after.ledgers@.len() == self.ledgers@.len(),
            forall|k: int|
                0 <= k < self.ledgers@.len() && k != i ==> after.ledgers@[k] == self.ledgers@[k],
            after.ledgers@[i].connection() == self.ledgers@[i].connection(),
            after.ledgers@[i].wf(),
        ensures
            after.wf(),
            after@ == self@.insert(self.ledgers@[i].connection(), after.ledgers@[i].view()),
    {
        assert forall|k: int| 0 <= k < after.ledgers@.len() implies (
        #[trigger] after.ledgers@[k]).wf() by {
            if k != i {
                assert(self.ledgers@[k].wf());
            }
        }
        assert forall|k: int| 0 <= k < after.ledgers@.len() implies (
        #[trigger] after.ledgers@[k]).connection() == self.ledgers@[k].connection() by {}
        assert forall|a: int, b: int| 0 <= a < b < after.ledgers@.len() implies (
        #[trigger] after.ledgers@[a]).connection() != (#[trigger] after.ledgers@[b]).connection() by {
            assert(self.ledgers@[a].connection() != self.ledgers@[b].connection());
        }
        let target = self@.insert(self.ledgers@[i].connection(), after.ledgers@[i].view());
        assert forall|connection: ConnectionView| after@.contains_key(connection) implies #[trigger]
            target.contains_key(connection) && after@[connection] == target[connection] by {
            let k = after.place(connection);
            after.lemma_place(k);
            self.lemma_place(k);
        }
        assert forall|connection: ConnectionView| #[trigger]
            target.contains_key(connection) implies after@.contains_key(connection) by {
            if connection == self.ledgers@[i].connection() {
                after.lemma_place(i);
            } else {
                let k = self.place(connection);
                self.lemma_place(k);
                after.lemma_place(k);
            }
        }
        assert(after@ =~= target);
    }

    proof fn lemma_appended(&self, after: &CommitmentStore, ledger: Ledger)
        requires
            self.wf(),
            after.ledgers@ == self.ledgers@.push(ledger),
            ledger.wf(),
            !self.holds(ledger.connection()),
        ensures
            after.wf(),
            after@ == self@.insert(ledger.connection(), ledger.view()),
    {
        let n = self.ledgers@.len() as int;
        assert forall|k: int| 0 <= k < after.ledgers@.len() implies (
        #[trigger] after.ledgers@[k]).wf() by {
            if k < n {
                assert(self.ledgers@[k].wf());
            }
        }
        assert forall|a: int, b: int| 0 <= a < b < after.ledgers@.len() implies (
        #[trigger] after.ledgers@[a]).connection() != (#[trigger] after.ledgers@[b]).connection() by {
            if b < n {
                assert(self.ledgers@[a].connection() != self.ledgers@[b].connection());
            } else {
                assert(after.ledgers@[a] == self.ledgers@[a]);
            }
        }
        let target = self@.insert(ledger.connection(), ledger.view());
        assert forall|connection: ConnectionView| after@.contains_key(connection) implies #[trigger]
            target.contains_key(connection) && after@[connection] == target[connection] by {
            let k = after.place(connection);
            after.lemma_place(k);
            if k < n {
                assert(after.ledgers@[k] == self.ledgers@[k]);
                self.lemma_place(k);
            }
        }
        assert forall|connection: ConnectionView| #[trigger]
            target.contains_key(connection) implies after@.contains_key(connection) by {
            if connection == ledger.connection() {
                after.lemma_place(n);
            } else {
                let k = self.place(connection);
                self.lemma_place(k);
                assert(after.ledgers@[k] == self.ledgers@[k]);
                after.lemma_place(k);
            }
        }
        assert(after@ =~= target);
    }

    /// A store with no ledger.
    pub fn new() -> (store: CommitmentStore)
        ensures
            store.wf(),
            store@ == Map::<ConnectionView, LedgerView>::empty(),
    {
        let store = CommitmentStore { ledgers: Vec::new() };
        assert(store@ =~= Map::<ConnectionView, LedgerView>::empty());
        store
    }

    fn find(&self, source: &ClientRef, destination: &ClientRef) -> (found: Option<usize>)
        requires
            self.wf(),
        ensures
            match found {
                Some(i) => {
                    &&& i < self.ledgers@.len()
                    &&& self.ledgers@[i as int].connection() == (source@, destination@)
                    &&& self@.contains_key((source@, destination@))
                    &&& self@[(source@, destination@)] == self.ledgers@[i as int].view()
                },
                None => !self.holds((source@, destination@)) && !self@.contains_key(
                    (source@, destination@),
                ),
            },
    {
        let mut i: usize = 0;
        while i < self.ledgers.len()
            invariant
                self.wf(),
                i <= self.ledgers@.len(),
                forall|k: int| 0 <= k < i ==> self.ledgers@[k].connection() != (source@, destination@),
            decreases self.ledgers@.len() - i,
        {
            if client_ref_equal(&self.ledgers[i].source, source) && client_ref_equal(
                &self.ledgers[i].destination,
                destination,
            ) {
                proof {
                    self.lemma_place(i as int);
                }
                return Some(i);
            }
            i += 1;
        }
        None
    }

    /// The nonce given to the packet sent last on the connection.
    pub fn sent_next_nonce(&self, source: &ClientRef, destination: &ClientRef) -> (nonce: u64)
        requires
            self.wf(),
        ensures
            nonce == ledger_at(self@, (source@, destination@)).sent_next_nonce,
    {
        match self.find(source, destination) {
            Some(i) => self.ledgers[i].sent_nonce,
            None => 0,
        }
    }

    /// The nonce of the packet received last on the connection.
    pub fn received_next_nonce(&self, source: &ClientRef, destination: &ClientRef) -> (nonce: u64)
        requires
            self.wf(),
        ensures
            nonce == ledger_at(self@, (source@, destination@)).received_next_nonce,
    {
        match self.find(source, destination) {
            Some(i) => self.ledgers[i].received_nonce,
            None => 0,
        }
    }

    /// The packet sent on the connection under `nonce`, if there is one.
    pub fn sent_packet(&self, source: &ClientRef, destination: &ClientRef, nonce: u64) -> (found:
        Option<Packet>)
        requires
            self.wf(),
        ensures
            match found {
                Some(packet) => {
                    &&& ledger_at(self@, (source@, destination@)).sent.contains_key(nonce as nat)
                    &&& packet@ == ledger_at(self@, (source@, destination@)).sent[nonce as nat]
                },
                None => !ledger_at(self@, (source@, destination@)).sent.contains_key(nonce as nat),
            },
    {
        match self.find(source, destination) {
            Some(i) => {
                let ledger = &self.ledgers[i];
                assert(self.ledgers@[i as int].wf());
                if 1 <= nonce && nonce <= ledger.sent_nonce {
                    let count: usize = ledger.sent_packets.len();
                    assert(nonce - 1 < count);
                    let index: usize = (nonce - 1) as usize;
                    let packet = ledger.sent_packets[index].clone();
                    assert(by_nonce(ledger.sent_packets@).contains_key(nonce as nat));
                    assert(by_nonce(ledger.sent_packets@)[nonce as nat] == packet@);
                    Some(packet)
                } else {
                    None
                }
            },
            None => None,
        }
    }

    /// The packet received on the connection under `nonce`, if there is one.
    pub fn received_packet(
        &self,
        source: &ClientRef,
        destination: &ClientRef,
        nonce: u64,
    ) -> (found: Option<Packet>)
        requires
            self.wf(),
        ensures
            match found {
                Some(packet) => {
                    &&& ledger_at(self@, (source@, destination@)).received.contains_key(nonce as nat)
                    &&& packet@ == ledger_at(self@, (source@, destination@)).received[nonce as nat]
                },
                None => !ledger_at(self@, (source@, destination@)).received.contains_key(
                    nonce as nat,
                ),
            },
    {
        match self.find(source, destination) {
            Some(i) => {
                let ledger = &self.ledgers[i];
                assert(self.ledgers@[i as int].wf());
                if 1 <= nonce && nonce <= ledger.received_nonce {
                    let count: usize = ledger.received_packets.len();
                    assert(nonce - 1 < count);
                    let index: usize = (nonce - 1) as usize;
                    let packet = ledger.received_packets[index].clone();
                    assert(by_nonce(ledger.received_packets@).contains_key(nonce as nat));
                    assert(by_nonce(ledger.received_packets@)[nonce as nat] == packet@);
                    Some(packet)
                } else {
                    None
                }
            },
            None => None,
        }
    }

    /// Whether a packet was received on the connection under `nonce`.
    pub fn has_received(&self, source: &ClientRef, destination: &ClientRef, nonce: u64) -> (found:
        bool)
        requires
            self.wf(),
        ensures
            found == ledger_at(self@, (source@, destination@)).received.contains_key(nonce as nat),
    {
        match self.find(source, destination) {
            Some(i) => {
                assert(self.ledgers@[i as int].wf());
                1 <= nonce && nonce <= self.ledgers[i].received_nonce
            },
            None => false,
        }
    }
}

impl CommitmentStore {
    /// Records `packet` as sent on its connection, under the next nonce.
    pub fn record_sent(&mut self, packet: Packet)
        requires
            old(self).wf(),
            ledger_at(old(self)@, packet@.header.connection()).sent_next_nonce < u64::MAX,
        ensures
            final(self).wf(),
            final(self)@ == old(self)@.insert(
                packet@.header.connection(),
                ledger_at(old(self)@, packet@.header.connection()).with_sent(packet@),
            ),
    {
        let ghost before = *self;
        let ghost value = packet@;
        match self.find(&packet.header.lightclient_source, &packet.header.lightclient_destination) {
            Some(i) => {
                let ledger = &mut self.ledgers[i];
                assert(ledger.wf());
                ledger.sent_nonce = ledger.sent_nonce + 1;
                ledger.sent_packets.push(packet);
                proof {
                    let was = before.ledgers@[i as int];
                    let now = self.ledgers@[i as int];
                    assert(now.view().sent =~= was.view().sent.insert(was.view().sent_next_nonce + 1, value));
                    assert(now.view() == was.view().with_sent(value));
                    before.lemma_replaced(&*self, i as int);
                }
            },
            None => {
                let source = copy_client_ref(&packet.header.lightclient_source);
                let destination = copy_client_ref(&packet.header.lightclient_destination);
                let mut sent_packets: Vec<Packet> = Vec::new();
                sent_packets.push(packet);
                let ledger = Ledger {
                    source,
                    destination,
                    sent_nonce: 1,
                    sent_packets,
                    received_nonce: 0,
                    received_packets: Vec::new(),
                };
                proof {
                    assert(ledger.view().sent =~= LedgerView::empty().sent.insert(1, value));
                    assert(ledger.view().received =~= LedgerView::empty().received);
                    assert(ledger.view() == LedgerView::empty().with_sent(value));
                }
                let ghost added = ledger;
                self.ledgers.push(ledger);
                proof {
                    before.lemma_appended(&*self, added);
                }
            },
        }
    }

    /// Records `packet` as received on its connection, under the next nonce.
    pub fn record_received(&mut self, packet: Packet)
        requires
            old(self).wf(),
            ledger_at(old(self)@, packet@.header.connection()).received_next_nonce < u64::MAX,
        ensures
            final(self).wf(),
            final(self)@ == old(self)@.insert(
                packet@.header.connection(),
                ledger_at(old(self)@, packet@.header.connection()).with_received(packet@),
            ),
    {
        let ghost before = *self;
        let ghost value = packet@;
        match self.find(&packet.header.lightclient_source, &packet.header.lightclient_destination) {
            Some(i) => {
                let ledger = &mut self.ledgers[i];
                assert(ledger.wf());
                ledger.received_nonce = ledger.received_nonce + 1;
                ledger.received_packets.push(packet);
                proof {
                    let was = before.ledgers@[i as int];
                    let now = self.ledgers@[i as int];
                    assert(now.view().received =~= was.view().received.insert(
                        was.view().received_next_nonce + 1,
                        value,
                    ));
                    assert(now.view() == was.view().with_received(value));
                    before.lemma_replaced(&*self, i as int);
                }
            },
            None => {
                let source = copy_client_ref(&packet.header.lightclient_source);
                let destination = copy_client_ref(&packet.header.lightclient_destination);
                let mut received_packets: Vec<Packet> = Vec::new();
                received_packets.push(packet);
                let ledger = Ledger {
                    source,
                    destination,
                    sent_nonce: 0,
                    sent_packets: Vec::new(),
                    received_nonce: 1,
                    received_packets,
                };
                proof {
                    assert(ledger.view().received =~= LedgerView::empty().received.insert(1, value));
                    assert(ledger.view().sent =~= LedgerView::empty().sent);
                    assert(ledger.view() == LedgerView::empty().with_received(value));
                }
                let ghost added = ledger;
                self.ledgers.push(ledger);
                proof {
                    before.lemma_appended(&*self, added);
                }
            },
        }
    }
}

fn copy_packets(source: &Vec<Packet>) -> (copy: Vec<Packet>)
    ensures
        copy@.len() == source@.len(),
        forall|k: int| 0 <= k < source@.len() ==> (#[trigger] copy@[k])@ == source@[k]@,
{
    let mut copy: Vec<Packet> = Vec::new();
    let mut i: usize = 0;
    while i < source.len()
        invariant
            i <= source@.len(),
            copy@.len() == i,
            forall|k: int| 0 <= k < i ==> (#[trigger] copy@[k])@ == source@[k]@,
        decreases source@.len() - i,
    {
        copy.push(source[i].clone());
        i += 1;
    }
    copy
}

impl Ledger {
    fn duplicate(&self) -> (copy: Ledger)
        ensures
            copy.connection() == self.connection(),
            copy.view() == self.view(),
            self.wf() ==> copy.wf(),
    {
        let copy = Ledger {
            source: copy_client_ref(&self.source),
            destination: copy_client_ref(&self.destination),
            sent_nonce: self.sent_nonce,
            sent_packets: copy_packets(&self.sent_packets),
            received_nonce: self.received_nonce,
            received_packets: copy_packets(&self.received_packets),
        };
        assert(by_nonce(copy.sent_packets@) =~= by_nonce(self.sent_packets@));
        assert(by_nonce(copy.received_packets@) =~= by_nonce(self.received_packets@));
        copy
    }
}

impl Clone for CommitmentStore {
    /// A copy that holds the same commitments.
    fn clone(&self) -> (copy: CommitmentStore)
        ensures
            self.wf() ==> copy.wf() && copy@ == self@,
    {
        let mut ledgers: Vec<Ledger> = Vec::new();
        let mut i: usize = 0;
        while i < self.ledgers.len()
            invariant
                i <= self.ledgers@.len(),
                ledgers@.len() == i,
                forall|k: int|
                    0 <= k < i ==> {
                        &&& (#[trigger] ledgers@[k]).connection() == self.ledgers@[k].connection()
                        &&& ledgers@[k].view() == self.ledgers@[k].view()
                        &&& self.ledgers@[k].wf() ==> ledgers@[k].wf()
                    },
            decreases self.ledgers@.len() - i,
        {
            ledgers.push(self.ledgers[i].duplicate());
            i += 1;
        }
        let copy = CommitmentStore { ledgers };
        proof {
            if self.wf() {
                assert forall|k: int| 0 <= k < copy.ledgers@.len() implies (
                #[trigger] copy.ledgers@[k]).wf() by {
                    assert(self.ledgers@[k].wf());
                }
                assert forall|a: int, b: int| 0 <= a < b < copy.ledgers@.len() implies (
                #[trigger] copy.ledgers@[a]).connection() != (
                #[trigger] copy.ledgers@[b]).connection() by {
                    assert(self.ledgers@[a].connection() != self.ledgers@[b].connection());
                }
                assert(copy.wf());
                assert forall|connection: ConnectionView| copy@.contains_key(connection) implies #[trigger]
                    self@.contains_key(connection) && copy@[connection] == self@[connection] by {
                    let k = copy.place(connection);
                    copy.lemma_place(k);
                    self.lemma_place(k);
                }
                assert forall|connection: ConnectionView| #[trigger]
                    self@.contains_key(connection) implies copy@.contains_key(connection) by {
                    let k = self.place(connection);
                    self.lemma_place(k);
                    copy.lemma_place(k);
                }
                assert(copy@ =~= self@);
            }
        }
        copy
    }
}

} // verus!

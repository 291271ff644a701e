//! The registry: the addresses that the engine itself brought into being
//! and therefore trusts to act as local clients and local applications.

use vstd::prelude::*;
use crate::types::Addr;

verus! {

/// A set of addresses.
pub struct Registry {
    members: Vec<Addr>,
}

impl View for Registry {
    type V = Set<Seq<char>>;

    closed spec fn view(&self) -> Set<Seq<char>> {
        Set::new(|address: Seq<char>| self.lists(address))
    }
}

/// No address stands twice in `addresses`.
pub open spec fn distinct(addresses: Seq<Addr>) -> bool {
    forall|i: int, j: int|
        0 <= i < j < addresses.len() ==> (#[trigger] addresses[i])@ != (#[trigger] addresses[j])@
}

/// `address` stands somewhere in `addresses`.
pub open spec fn listed(addresses: Seq<Addr>, address: Seq<char>) -> bool {
    exists|i: int| 0 <= i < addresses.len() && (#[trigger] addresses[i])@ == address
}

impl Registry {
    spec fn lists(&self, address: Seq<char>) -> bool {
        listed(self.members@, address)
    }

    /// The registry's invariant: no member is held twice.
    pub closed spec fn wf(&self) -> bool {
        distinct(self.members@)
    }

    /// The empty registry.
    pub fn new() -> (registry: Registry)
        ensures
            registry.wf(),
            registry@ == Set::<Seq<char>>::empty(),
    {
        let registry = Registry { members: Vec::new() };
        assert(registry@ =~= Set::<Seq<char>>::empty());
        registry
    }

    /// Whether `address` is a member.
    pub fn contains(&self, address: &Addr) -> (found: bool)
        ensures
            found == self@.contains(address@),
    {
        let mut i: usize = 0;
        while i < self.members.len()
            invariant
                i <= self.members@.len(),
                forall|k: int| 0 <= k < i ==> (#[trigger] self.members@[k])@ != address@,
            decreases self.members@.len() - i,
        {
            if self.members[i] == *address {
                assert(self.lists(address@));
                return true;
            }
            i += 1;
        }
        assert(!self.lists(address@));
        false
    }

    /// Makes `address` a member. Inserting a member again changes nothing.
    pub fn insert(&mut self, address: Addr)
        requires
            old(self).wf(),
        ensures
            final(self).wf(),
            final(self)@ == old(self)@.insert(address@),
    {
        if self.contains(&address) {
            assert(self@ =~= old(self)@.insert(address@));
            return ;
        }
        let ghost before = self.members@;
        let ghost added = address@;
        self.members.push(address);
        proof {
            assert forall|a: Seq<char>| self@.contains(a) <==> old(self)@.insert(added).contains(
                a,
            ) by {
                if self@.contains(a) {
                    let i = choose|i: int|
                        0 <= i < self.members@.len() && (#[trigger] self.members@[i])@ == a;
                    if i < before.len() {
                        assert(before[i]@ == a);
                        assert(listed(before, a));
                    }
                }
                if old(self)@.insert(added).contains(a) {
                    if a == added {
                        assert(self.members@[before.len() as int]@ == a);
                    } else {
                        let i = choose|i: int| 0 <= i < before.len() && (#[trigger] before[i])@ == a;
                        assert(self.members@[i]@ == a);
                    }
                }
            }
            assert(self@ =~= old(self)@.insert(added));
            assert forall|i: int, j: int| 0 <= i < j < self.members@.len() implies (
            #[trigger] self.members@[i])@ != (#[trigger] self.members@[j])@ by {
                if j < before.len() {
                    assert(before[i]@ != before[j]@);
                } else {
                    assert(before[i]@ != added) by {
                        if before[i]@ == added {
                            assert(listed(before, added));
                        }
                    }
                }
            }
        }
    }

    /// The members, each once.
    pub fn members(&self) -> (all: Vec<Addr>)
        requires
            self.wf(),
        ensures
            distinct(all@),
            forall|address: Seq<char>| self@.contains(address) <==> listed(all@, address),
    {
        let mut all: Vec<Addr> = Vec::new();
        let mut i: usize = 0;
        while i < self.members.len()
            invariant
                i <= self.members@.len(),
                all@.len() == i,
                forall|k: int| 0 <= k < i ==> (#[trigger] all@[k])@ == self.members@[k]@,
            decreases self.members@.len() - i,
        {
            all.push(self.members[i].clone());
            i += 1;
        }
        proof {
            assert forall|a: int, b: int| 0 <= a < b < all@.len() implies (#[trigger] all@[a])@ != (
            #[trigger] all@[b])@ by {
                assert(self.members@[a]@ != self.members@[b]@);
            }
            assert forall|address: Seq<char>| self@.contains(address) <==> listed(
                all@,
                address,
            ) by {
                if self@.contains(address) {
                    let k = choose|k: int|
                        0 <= k < self.members@.len() && (#[trigger] self.members@[k])@ == address;
                    assert(all@[k]@ == address);
                }
                if listed(all@, address) {
                    let k = choose|k: int| 0 <= k < all@.len() && (#[trigger] all@[k])@ == address;
                    assert(self.members@[k]@ == address);
                }
            }
        }
        all
    }
}

impl Clone for Registry {
    /// A copy with the same members.
    fn clone(&self) -> (copy: Registry)
        ensures
            copy@ == self@,
            self.wf() ==> copy.wf(),
    {
        let mut members: Vec<Addr> = Vec::new();
        let mut i: usize = 0;
        while i < self.members.len()
            invariant
                i <= self.members@.len(),
                members@.len() == i,
                forall|k: int| 0 <= k < i ==> (#[trigger] members@[k])@ == self.members@[k]@,
            decreases self.members@.len() - i,
        {
            members.push(self.members[i].clone());
            i += 1;
        }
        let copy = Registry { members };
        proof {
            assert forall|address: Seq<char>| copy@.contains(address) == self@.contains(
                address,
            ) by {
                if copy@.contains(address) {
                    let k = choose|k: int|
                        0 <= k < copy.members@.len() && (#[trigger] copy.members@[k])@ == address;
                    assert(self.members@[k]@ == address);
                }
                if self@.contains(address) {
                    let k = choose|k: int|
                        0 <= k < self.members@.len() && (#[trigger] self.members@[k])@ == address;
                    assert(copy.members@[k]@ == address);
                }
            }
            assert(copy@ =~= self@);
            if self.wf() {
                assert forall|a: int, b: int| 0 <= a < b < copy.members@.len() implies (
                #[trigger] copy.members@[a])@ != (#[trigger] copy.members@[b])@ by {
                    assert(self.members@[a]@ != self.members@[b]@);
                }
            }
        }
        copy
    }
}

} // verus!

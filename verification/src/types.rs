//! Plain data carried through the engine: addresses, client references,
//! connections, coins and packets, each with its mathematical view.

use vstd::prelude::*;
use vstd::std_specs::cmp::PartialEqSpecImpl;

verus! {

/// Copies a byte vector.
pub fn copy_bytes(source: &Vec<u8>) -> (copy: Vec<u8>)
    ensures
        copy@ == source@,
{
    let mut copy: Vec<u8> = Vec::new();
    let mut i: usize = 0;
    while i < source.len()
        invariant
            i <= source.len(),
            copy@ == source@.subrange(0, i as int),
        decreases source.len() - i,
    {
        copy.push(source[i]);
        i += 1;
    }
    copy
}

/// Byte-wise comparison of two byte vectors.
pub fn bytes_equal(left: &Vec<u8>, right: &Vec<u8>) -> (same: bool)
    ensures
        same == (left@ == right@),
{
    if left.len() != right.len() {
        return false;
    }
    let mut i: usize = 0;
    while i < left.len()
        invariant
            i <= left.len(),
            left.len() == right.len(),
            left@.subrange(0, i as int) == right@.subrange(0, i as int),
        decreases left.len() - i,
    {
        if left[i] != right[i] {
            return false;
        }
        i += 1;
    }
    assert(left@.subrange(0, left.len() as int) =~= left@);
    assert(right@.subrange(0, right.len() as int) =~= right@);
    true
}

/// Opaque stable identifier of a participant: an application, a light
/// client or a user. Two addresses are equal when their text is equal.
#[derive(Debug)]
pub struct Addr {
    text: String,
}

impl View for Addr {
    type V = Seq<char>;

    closed spec fn view(&self) -> Seq<char> {
        self.text@
    }
}

impl Addr {
    /// Wraps a text as an address without validating it.
    pub fn unchecked(input: &str) -> (addr: Addr)
        ensures
            addr@ == input@,
    {
        Addr { text: input.to_owned() }
    }

    /// The text of the address.
    pub fn as_str(&self) -> (text: &str)
        ensures
            text@ == self@,
    {
        self.text.as_str()
    }

    /// The text of the address as an owned string.
    pub fn to_string(&self) -> (text: String)
        ensures
            text@ == self@,
    {
        self.text.clone()
    }
}

impl Clone for Addr {
    fn clone(&self) -> (copy: Addr)
        ensures
            copy@ == self@,
    {
        Addr { text: self.text.clone() }
    }
}

impl PartialEq for Addr {
    fn eq(&self, other: &Addr) -> (same: bool) {
        self.text == other.text
    }
}

impl PartialEqSpecImpl for Addr {
    open spec fn obeys_eq_spec() -> bool {
        true
    }

    open spec fn eq_spec(&self, other: &Addr) -> bool {
        self@ == other@
    }
}

impl Eq for Addr {}

/// The value of an address that may be unset.
pub open spec fn slot_view(slot: Option<Addr>) -> Option<Seq<char>> {
    match slot {
        Some(held) => Some(held@),
        None => None,
    }
}

/// Whether `slot` is set to `address`.
pub fn slot_holds(slot: &Option<Addr>, address: &Addr) -> (same: bool)
    ensures
        same == (slot_view(*slot) == Some(address@)),
{
    match slot {
        Some(held) => *held == *address,
        None => false,
    }
}

/// A light-client instance and its commitment prefix, which scopes keys
/// within the remote storage space.
pub type ClientRef = (Addr, Vec<u8>);

/// The mathematical value of a [`ClientRef`].
pub type ClientRefView = (Seq<char>, Seq<u8>);

/// The ordered pair of source and destination client references.
pub type ConnectionView = (ClientRefView, ClientRefView);

/// Copies a client reference.
pub fn copy_client_ref(source: &ClientRef) -> (copy: ClientRef)
    ensures
        copy@ == source@,
{
    (source.0.clone(), copy_bytes(&source.1))
}

/// Compares two client references: address and prefix.
pub fn client_ref_equal(left: &ClientRef, right: &ClientRef) -> (same: bool)
    ensures
        same == (left@ == right@),
{
    left.0 == right.0 && bytes_equal(&left.1, &right.1)
}

/// An amount of one denomination.
#[derive(Debug)]
pub struct Coin {
    pub denom: String,
    pub amount: u128,
}

/// The mathematical value of a [`Coin`].
pub struct CoinView {
    pub denom: Seq<char>,
    pub amount: u128,
}

impl View for Coin {
    type V = CoinView;

    open spec fn view(&self) -> CoinView {
        CoinView { denom: self.denom@, amount: self.amount }
    }
}

impl Coin {
    /// A coin of `amount` units of `denom`.
    pub fn new(amount: u128, denom: &str) -> (coin: Coin)
        ensures
            coin@ == (CoinView { denom: denom@, amount }),
    {
        Coin { denom: denom.to_owned(), amount }
    }
}

impl Clone for Coin {
    fn clone(&self) -> (copy: Coin)
        ensures
            copy@ == self@,
    {
        Coin { denom: self.denom.clone(), amount: self.amount }
    }
}

impl PartialEq for Coin {
    fn eq(&self, other: &Coin) -> (same: bool) {
        self.denom == other.denom && self.amount == other.amount
    }
}

impl PartialEqSpecImpl for Coin {
    open spec fn obeys_eq_spec() -> bool {
        true
    }

    open spec fn eq_spec(&self, other: &Coin) -> bool {
        self@ == other@
    }
}

impl Eq for Coin {}

/// The values of a sequence of coins, in order.
pub open spec fn coins_view(coins: Seq<Coin>) -> Seq<CoinView> {
    coins.map_values(|coin: Coin| coin@)
}

/// Copies a list of coins.
pub fn copy_coins(source: &Vec<Coin>) -> (copy: Vec<Coin>)
    ensures
        coins_view(copy@) == coins_view(source@),
{
    let mut copy: Vec<Coin> = Vec::new();
    let mut i: usize = 0;
    while i < source.len()
        invariant
            i <= source.len(),
            copy@.len() == i,
            forall|k: int| 0 <= k < i ==> copy@[k]@ == source@[k]@,
        decreases source.len() - i,
    {
        copy.push(source[i].clone());
        i += 1;
    }
    copy
}

/// Compares two lists of coins, entry by entry.
pub fn coins_equal(left: &Vec<Coin>, right: &Vec<Coin>) -> (same: bool)
    ensures
        same == (coins_view(left@) == coins_view(right@)),
{
    if left.len() != right.len() {
        assert(coins_view(left@).len() != coins_view(right@).len());
        return false;
    }
    let mut i: usize = 0;
    while i < left.len()
        invariant
            i <= left.len(),
            left.len() == right.len(),
            forall|k: int| 0 <= k < i ==> left@[k]@ == right@[k]@,
        decreases left.len() - i,
    {
        if !(left[i] == right[i]) {
            assert(coins_view(left@)[i as int] != coins_view(right@)[i as int]);
            return false;
        }
        i += 1;
    }
    assert(coins_view(left@) =~= coins_view(right@));
    true
}

} // verus!

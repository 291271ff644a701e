//! The canonical byte form of connections and packets.
//!
//! Every variable-length part carries its length in front, so that the form
//! of a value never runs into the form of what follows it. The engine hands
//! these bytes to light clients as the key and the value of a commitment.

use vstd::prelude::*;
use vstd::bytes::{spec_u128_to_le_bytes, spec_u64_to_le_bytes, u128_to_le_bytes, u64_to_le_bytes};
use vstd::utf8::encode_utf8;
use crate::packet::{Packet, PacketView, Payload, PayloadView};
use crate::types::{ClientRef, ClientRefView, Coin, CoinView, ConnectionView};

verus! {

/// Eight bytes, least significant first.
pub open spec fn encode_u64(n: u64) -> Seq<u8> {
    spec_u64_to_le_bytes(n)
}

/// Sixteen bytes, least significant first.
pub open spec fn encode_u128(n: u128) -> Seq<u8> {
    spec_u128_to_le_bytes(n)
}

/// The length, then the bytes.
pub open spec fn encode_bytes(bytes: Seq<u8>) -> Seq<u8> {
    encode_u64(bytes.len() as u64) + bytes
}

/// The UTF-8 form of the text, as bytes with their length.
pub open spec fn encode_text(text: Seq<char>) -> Seq<u8> {
    encode_bytes(encode_utf8(text))
}

/// The address, then the commitment prefix.
pub open spec fn encode_client_ref(client: ClientRefView) -> Seq<u8> {
    encode_text(client.0) + encode_bytes(client.1)
}

/// The source client, then the destination client.
pub open spec fn encode_connection(connection: ConnectionView) -> Seq<u8> {
    encode_client_ref(connection.0) + encode_client_ref(connection.1)
}

/// The denomination, then the amount.
pub open spec fn encode_coin(coin: CoinView) -> Seq<u8> {
    encode_text(coin.denom) + encode_u128(coin.amount)
}

/// The forms of the coins, one after the other.
pub open spec fn encode_each_coin(coins: Seq<CoinView>) -> Seq<u8>
    decreases coins.len(),
{
    if coins.len() == 0 {
        Seq::empty()
    } else {
        encode_coin(coins.first()) + encode_each_coin(coins.drop_first())
    }
}

/// The number of coins, then their forms.
pub open spec fn encode_coins(coins: Seq<CoinView>) -> Seq<u8> {
    encode_u64(coins.len() as u64) + encode_each_coin(coins)
}

/// Source application, destination application, funds, data.
pub open spec fn encode_payload(payload: PayloadView) -> Seq<u8> {
    encode_text(payload.header.application_source) + encode_text(
        payload.header.application_destination,
    ) + encode_coins(payload.header.funds) + encode_bytes(payload.data)
}

/// The forms of the payloads, one after the other.
pub open spec fn encode_each_payload(payloads: Seq<PayloadView>) -> Seq<u8>
    decreases payloads.len(),
{
    if payloads.len() == 0 {
        Seq::empty()
    } else {
        encode_payload(payloads.first()) + encode_each_payload(payloads.drop_first())
    }
}

/// The number of payloads, then their forms.
pub open spec fn encode_payloads(payloads: Seq<PayloadView>) -> Seq<u8> {
    encode_u64(payloads.len() as u64) + encode_each_payload(payloads)
}

/// Connection, nonce, timeout, payloads.
pub open spec fn encode_packet(packet: PacketView) -> Seq<u8> {
    encode_connection(packet.header.connection()) + encode_u64(packet.header.nonce) + encode_u64(
        packet.header.timeout,
    ) + encode_payloads(packet.payloads)
}

/// The mark that sets the keys of sent packets apart: the letters of "sent".
pub open spec fn sent_mark() -> Seq<u8> {
    seq![115u8, 101u8, 110u8, 116u8]
}

/// The key under which the packet sent on `connection` with `nonce` is
/// committed.
pub open spec fn spec_commit_key(connection: ConnectionView, nonce: u64) -> Seq<u8> {
    encode_connection(connection) + sent_mark() + encode_u64(nonce)
}

/// The value that is committed for `packet`.
pub open spec fn spec_commit_value(packet: PacketView) -> Seq<u8> {
    encode_packet(packet)
}

proof fn lemma_each_coin_snoc(coins: Seq<CoinView>, coin: CoinView)
    ensures
        encode_each_coin(coins.push(coin)) == encode_each_coin(coins) + encode_coin(coin),
    decreases coins.len(),
{
    if coins.len() == 0 {
        assert(coins.push(coin).drop_first() =~= Seq::<CoinView>::empty());
        assert(coins =~= Seq::<CoinView>::empty());
    } else {
        assert(coins.push(coin).drop_first() =~= coins.drop_first().push(coin));
        lemma_each_coin_snoc(coins.drop_first(), coin);
    }
}

proof fn lemma_each_payload_snoc(payloads: Seq<PayloadView>, payload: PayloadView)
    ensures
        encode_each_payload(payloads.push(payload)) == encode_each_payload(payloads)
            + encode_payload(payload),
    decreases payloads.len(),
{
    if payloads.len() == 0 {
        assert(payloads.push(payload).drop_first() =~= Seq::<PayloadView>::empty());
        assert(payloads =~= Seq::<PayloadView>::empty());
    } else {
        assert(payloads.push(payload).drop_first() =~= payloads.drop_first().push(payload));
        lemma_each_payload_snoc(payloads.drop_first(), payload);
    }
}

fn put_all(out: &mut Vec<u8>, bytes: &[u8])
    ensures
        final(out)@ == old(out)@ + bytes@,
{
    let mut i: usize = 0;
    while i < bytes.len()
        invariant
            i <= bytes@.len(),
            out@ == old(out)@ + bytes@.subrange(0, i as int),
        decreases bytes@.len() - i,
    {
        out.push(bytes[i]);
        i += 1;
    }
}

fn put_u64(out: &mut Vec<u8>, n: u64)
    ensures
        final(out)@ == old(out)@ + encode_u64(n),
{
    let bytes = u64_to_le_bytes(n);
    put_all(out, bytes.as_slice());
}

fn put_u128(out: &mut Vec<u8>, n: u128)
    ensures
        final(out)@ == old(out)@ + encode_u128(n),
{
    let bytes = u128_to_le_bytes(n);
    put_all(out, bytes.as_slice());
}

fn put_bytes(out: &mut Vec<u8>, bytes: &[u8])
    ensures
        final(out)@ == old(out)@ + encode_bytes(bytes@),
{
    put_u64(out, bytes.len() as u64);
    put_all(out, bytes);
}

fn put_text(out: &mut Vec<u8>, text: &str)
    ensures
        final(out)@ == old(out)@ + encode_text(text@),
{
    put_bytes(out, text.as_bytes());
}

fn put_client_ref(out: &mut Vec<u8>, client: &ClientRef)
    ensures
        final(out)@ == old(out)@ + encode_client_ref(client@),
{
    put_text(out, client.0.as_str());
    put_bytes(out, client.1.as_slice());
}

fn put_connection(out: &mut Vec<u8>, source: &ClientRef, destination: &ClientRef)
    ensures
        final(out)@ == old(out)@ + encode_connection((source@, destination@)),
{
    put_client_ref(out, source);
    put_client_ref(out, destination);
}

fn put_coin(out: &mut Vec<u8>, coin: &Coin)
    ensures
        final(out)@ == old(out)@ + encode_coin(coin@),
{
    put_text(out, coin.denom.as_str());
    put_u128(out, coin.amount);
}

fn put_coins(out: &mut Vec<u8>, coins: &Vec<Coin>)
    ensures
        final(out)@ == old(out)@ + encode_coins(crate::types::coins_view(coins@)),
{
    let ghost all = crate::types::coins_view(coins@);
    put_u64(out, coins.len() as u64);
    let mut i: usize = 0;
    while i < coins.len()
        invariant
            i <= coins@.len(),
            all == crate::types::coins_view(coins@),
            out@ == old(out)@ + encode_u64(coins@.len() as u64) + encode_each_coin(
                all.subrange(0, i as int),
            ),
        decreases coins@.len() - i,
    {
        put_coin(out, &coins[i]);
        proof {
            lemma_each_coin_snoc(all.subrange(0, i as int), all[i as int]);
            assert(all.subrange(0, i + 1) =~= all.subrange(0, i as int).push(all[i as int]));
        }
        i += 1;
    }
    assert(all.subrange(0, coins@.len() as int) =~= all);
}

fn put_payload(out: &mut Vec<u8>, payload: &Payload)
    ensures
        final(out)@ == old(out)@ + encode_payload(payload@),
{
    put_text(out, payload.header.application_source.as_str());
    put_text(out, payload.header.application_destination.as_str());
    put_coins(out, &payload.header.funds);
    put_bytes(out, payload.data.as_slice());
}

fn put_payloads(out: &mut Vec<u8>, payloads: &Vec<Payload>)
    ensures
        final(out)@ == old(out)@ + encode_payloads(crate::packet::payloads_view(payloads@)),
{
    let ghost all = crate::packet::payloads_view(payloads@);
    put_u64(out, payloads.len() as u64);
    let mut i: usize = 0;
    while i < payloads.len()
        invariant
            i <= payloads@.len(),
            all == crate::packet::payloads_view(payloads@),
            out@ == old(out)@ + encode_u64(payloads@.len() as u64) + encode_each_payload(
                all.subrange(0, i as int),
            ),
        decreases payloads@.len() - i,
    {
        put_payload(out, &payloads[i]);
        proof {
            lemma_each_payload_snoc(all.subrange(0, i as int), all[i as int]);
            assert(all.subrange(0, i + 1) =~= all.subrange(0, i as int).push(all[i as int]));
        }
        i += 1;
    }
    assert(all.subrange(0, payloads@.len() as int) =~= all);
}

/// The canonical form of the connection from `source` to `destination`:
/// the key under which a host keeps what belongs to the connection.
pub fn connection_key(source: &ClientRef, destination: &ClientRef) -> (key: Vec<u8>)
    ensures
        key@ == encode_connection((source@, destination@)),
{
    let mut key: Vec<u8> = Vec::new();
    put_connection(&mut key, source, destination);
    key
}

/// The key under which the packet sent from `source` to `destination` with
/// `nonce` is committed.
pub fn commit_key(source: &ClientRef, destination: &ClientRef, nonce: u64) -> (key: Vec<u8>)
    ensures
        key@ == spec_commit_key((source@, destination@), nonce),
{
    let mut key: Vec<u8> = Vec::new();
    put_connection(&mut key, source, destination);
    key.push(115u8);
    key.push(101u8);
    key.push(110u8);
    key.push(116u8);
    put_u64(&mut key, nonce);
    key
}

/// The value that is committed for `packet`.
pub fn commit_value(packet: &Packet) -> (value: Vec<u8>)
    ensures
        value@ == spec_commit_value(packet@),
{
    let mut value: Vec<u8> = Vec::new();
    put_connection(
        &mut value,
        &packet.header.lightclient_source,
        &packet.header.lightclient_destination,
    );
    put_u64(&mut value, packet.header.nonce);
    put_u64(&mut value, packet.header.timeout);
    put_payloads(&mut value, &packet.payloads);
    value
}

} // verus!

//! The canonical byte form is injective: two values with the same bytes
//! are the same value. Each lemma is stated for a form followed by
//! arbitrary bytes, which is what lets the forms be chained.

use vstd::prelude::*;
use vstd::bytes::{
    lemma_auto_spec_u128_to_from_le_bytes, lemma_auto_spec_u64_to_from_le_bytes,
    spec_u128_from_le_bytes, spec_u64_from_le_bytes,
};
use vstd::utf8::{decode_utf8, encode_utf8, encode_utf8_decode_utf8};
use crate::encoding::{
    encode_bytes, encode_client_ref, encode_coin, encode_coins, encode_connection,
    encode_each_coin, encode_each_payload, encode_packet, encode_payload, encode_payloads,
    encode_text, encode_u128, encode_u64, sent_mark, spec_commit_key, spec_commit_value,
};
use crate::packet::{PacketView, PayloadView};
use crate::types::{ClientRefView, CoinView, ConnectionView};

verus! {

/// The UTF-8 form of the text is short enough for its length to be
/// written in eight bytes.
pub open spec fn text_fits(text: Seq<char>) -> bool {
    encode_utf8(text).len() <= u64::MAX
}

/// Address and prefix are short enough for their lengths to be written.
pub open spec fn client_ref_fits(client: ClientRefView) -> bool {
    text_fits(client.0) && client.1.len() <= u64::MAX
}

/// Both client references fit.
pub open spec fn connection_fits(connection: ConnectionView) -> bool {
    client_ref_fits(connection.0) && client_ref_fits(connection.1)
}

/// The list and each denomination in it are short enough.
pub open spec fn coins_fit(coins: Seq<CoinView>) -> bool {
    &&& coins.len() <= u64::MAX
    &&& forall|i: int| 0 <= i < coins.len() ==> text_fits((#[trigger] coins[i]).denom)
}

/// Every part of the payload is short enough.
pub open spec fn payload_fits(payload: PayloadView) -> bool {
    &&& text_fits(payload.header.application_source)
    &&& text_fits(payload.header.application_destination)
    &&& coins_fit(payload.header.funds)
    &&& payload.data.len() <= u64::MAX
}

/// The list and each payload in it are short enough.
pub open spec fn payloads_fit(payloads: Seq<PayloadView>) -> bool {
    &&& payloads.len() <= u64::MAX
    &&& forall|i: int| 0 <= i < payloads.len() ==> payload_fits(#[trigger] payloads[i])
}

/// Every part of the packet is short enough. This holds of every packet
/// that a machine with 64-bit lengths can hold.
pub open spec fn packet_fits(packet: PacketView) -> bool {
    connection_fits(packet.header.connection()) && payloads_fit(packet.payloads)
}

proof fn lemma_split(a: Seq<u8>, ra: Seq<u8>, b: Seq<u8>, rb: Seq<u8>)
    requires
        a + ra == b + rb,
        a.len() == b.len(),
    ensures
        a == b,
        ra == rb,
{
    let whole = a + ra;
    assert(whole.subrange(0, a.len() as int) =~= a);
    assert((b + rb).subrange(0, b.len() as int) =~= b);
    assert(whole.subrange(a.len() as int, whole.len() as int) =~= ra);
    assert((b + rb).subrange(b.len() as int, (b + rb).len() as int) =~= rb);
}

/// Two numbers whose forms, each followed by more bytes, agree are the
/// same number, and what follows is the same.
pub proof fn lemma_u64_unique(a: u64, ra: Seq<u8>, b: u64, rb: Seq<u8>)
    requires
        encode_u64(a) + ra == encode_u64(b) + rb,
    ensures
        a == b,
        ra == rb,
{
    lemma_auto_spec_u64_to_from_le_bytes();
    lemma_split(encode_u64(a), ra, encode_u64(b), rb);
    assert(spec_u64_from_le_bytes(encode_u64(a)) == a);
    assert(spec_u64_from_le_bytes(encode_u64(b)) == b);
}

/// The same for 128-bit numbers.
pub proof fn lemma_u128_unique(a: u128, ra: Seq<u8>, b: u128, rb: Seq<u8>)
    requires
        encode_u128(a) + ra == encode_u128(b) + rb,
    ensures
        a == b,
        ra == rb,
{
    lemma_auto_spec_u128_to_from_le_bytes();
    lemma_split(encode_u128(a), ra, encode_u128(b), rb);
    assert(spec_u128_from_le_bytes(encode_u128(a)) == a);
    assert(spec_u128_from_le_bytes(encode_u128(b)) == b);
}

/// The same for byte strings.
pub proof fn lemma_bytes_unique(a: Seq<u8>, ra: Seq<u8>, b: Seq<u8>, rb: Seq<u8>)
    requires
        a.len() <= u64::MAX,
        b.len() <= u64::MAX,
        encode_bytes(a) + ra == encode_bytes(b) + rb,
    ensures
        a == b,
        ra == rb,
{
    assert(encode_bytes(a) + ra =~= encode_u64(a.len() as u64) + (a + ra));
    assert(encode_bytes(b) + rb =~= encode_u64(b.len() as u64) + (b + rb));
    lemma_u64_unique(a.len() as u64, a + ra, b.len() as u64, b + rb);
    lemma_split(a, ra, b, rb);
}

/// The same for texts.
pub proof fn lemma_text_unique(a: Seq<char>, ra: Seq<u8>, b: Seq<char>, rb: Seq<u8>)
    requires
        text_fits(a),
        text_fits(b),
        encode_text(a) + ra == encode_text(b) + rb,
    ensures
        a == b,
        ra == rb,
{
    lemma_bytes_unique(encode_utf8(a), ra, encode_utf8(b), rb);
    encode_utf8_decode_utf8(a);
    encode_utf8_decode_utf8(b);
    assert(decode_utf8(encode_utf8(a)) == a);
    assert(decode_utf8(encode_utf8(b)) == b);
}

/// The same for client references.
pub proof fn lemma_client_ref_unique(
    a: ClientRefView,
    ra: Seq<u8>,
    b: ClientRefView,
    rb: Seq<u8>,
)
    requires
        client_ref_fits(a),
        client_ref_fits(b),
        encode_client_ref(a) + ra == encode_client_ref(b) + rb,
    ensures
        a == b,
        ra == rb,
{
    assert(encode_client_ref(a) + ra =~= encode_text(a.0) + (encode_bytes(a.1) + ra));
    assert(encode_client_ref(b) + rb =~= encode_text(b.0) + (encode_bytes(b.1) + rb));
    lemma_text_unique(a.0, encode_bytes(a.1) + ra, b.0, encode_bytes(b.1) + rb);
    lemma_bytes_unique(a.1, ra, b.1, rb);
}

/// The same for connections.
pub proof fn lemma_connection_unique(
    a: ConnectionView,
    ra: Seq<u8>,
    b: ConnectionView,
    rb: Seq<u8>,
)
    requires
        connection_fits(a),
        connection_fits(b),
        encode_connection(a) + ra == encode_connection(b) + rb,
    ensures
        a == b,
        ra == rb,
{
    assert(encode_connection(a) + ra =~= encode_client_ref(a.0) + (encode_client_ref(a.1) + ra));
    assert(encode_connection(b) + rb =~= encode_client_ref(b.0) + (encode_client_ref(b.1) + rb));
    lemma_client_ref_unique(a.0, encode_client_ref(a.1) + ra, b.0, encode_client_ref(b.1) + rb);
    lemma_client_ref_unique(a.1, ra, b.1, rb);
}

/// The same for coins.
pub proof fn lemma_coin_unique(a: CoinView, ra: Seq<u8>, b: CoinView, rb: Seq<u8>)
    requires
        text_fits(a.denom),
        text_fits(b.denom),
        encode_coin(a) + ra == encode_coin(b) + rb,
    ensures
        a == b,
        ra == rb,
{
    assert(encode_coin(a) + ra =~= encode_text(a.denom) + (encode_u128(a.amount) + ra));
    assert(encode_coin(b) + rb =~= encode_text(b.denom) + (encode_u128(b.amount) + rb));
    lemma_text_unique(a.denom, encode_u128(a.amount) + ra, b.denom, encode_u128(b.amount) + rb);
    lemma_u128_unique(a.amount, ra, b.amount, rb);
}

proof fn lemma_each_coin_unique(a: Seq<CoinView>, ra: Seq<u8>, b: Seq<CoinView>, rb: Seq<u8>)
    requires
        coins_fit(a),
        coins_fit(b),
        a.len() == b.len(),
        encode_each_coin(a) + ra == encode_each_coin(b) + rb,
    ensures
        a == b,
        ra == rb,
    decreases a.len(),
{
    if a.len() == 0 {
        assert(a =~= b);
        assert(encode_each_coin(a) + ra =~= ra);
        assert(encode_each_coin(b) + rb =~= rb);
    } else {
        let ta = a.drop_first();
        let tb = b.drop_first();
        assert(encode_each_coin(a) + ra =~= encode_coin(a.first()) + (encode_each_coin(ta) + ra));
        assert(encode_each_coin(b) + rb =~= encode_coin(b.first()) + (encode_each_coin(tb) + rb));
        assert(text_fits(a[0].denom));
        assert(text_fits(b[0].denom));
        lemma_coin_unique(
            a.first(),
            encode_each_coin(ta) + ra,
            b.first(),
            encode_each_coin(tb) + rb,
        );
        assert forall|i: int| 0 <= i < ta.len() implies text_fits((#[trigger] ta[i]).denom) by {
            assert(ta[i] == a[i + 1]);
        }
        assert forall|i: int| 0 <= i < tb.len() implies text_fits((#[trigger] tb[i]).denom) by {
            assert(tb[i] == b[i + 1]);
        }
        lemma_each_coin_unique(ta, ra, tb, rb);
        assert(a =~= seq![a.first()] + ta);
        assert(b =~= seq![b.first()] + tb);
    }
}

/// The same for lists of coins.
pub proof fn lemma_coins_unique(a: Seq<CoinView>, ra: Seq<u8>, b: Seq<CoinView>, rb: Seq<u8>)
    requires
        coins_fit(a),
        coins_fit(b),
        encode_coins(a) + ra == encode_coins(b) + rb,
    ensures
        a == b,
        ra == rb,
{
    assert(encode_coins(a) + ra =~= encode_u64(a.len() as u64) + (encode_each_coin(a) + ra));
    assert(encode_coins(b) + rb =~= encode_u64(b.len() as u64) + (encode_each_coin(b) + rb));
    lemma_u64_unique(
        a.len() as u64,
        encode_each_coin(a) + ra,
        b.len() as u64,
        encode_each_coin(b) + rb,
    );
    lemma_each_coin_unique(a, ra, b, rb);
}

/// The same for payloads.
pub proof fn lemma_payload_unique(a: PayloadView, ra: Seq<u8>, b: PayloadView, rb: Seq<u8>)
    requires
        payload_fits(a),
        payload_fits(b),
        encode_payload(a) + ra == encode_payload(b) + rb,
    ensures
        a == b,
        ra == rb,
{
    let a3 = encode_bytes(a.data) + ra;
    let b3 = encode_bytes(b.data) + rb;
    let a2 = encode_coins(a.header.funds) + a3;
    let b2 = encode_coins(b.header.funds) + b3;
    let a1 = encode_text(a.header.application_destination) + a2;
    let b1 = encode_text(b.header.application_destination) + b2;
    assert(encode_payload(a) + ra =~= encode_text(a.header.application_source) + a1);
    assert(encode_payload(b) + rb =~= encode_text(b.header.application_source) + b1);
    lemma_text_unique(a.header.application_source, a1, b.header.application_source, b1);
    lemma_text_unique(a.header.application_destination, a2, b.header.application_destination, b2);
    lemma_coins_unique(a.header.funds, a3, b.header.funds, b3);
    lemma_bytes_unique(a.data, ra, b.data, rb);
}

proof fn lemma_each_payload_unique(
    a: Seq<PayloadView>,
    ra: Seq<u8>,
    b: Seq<PayloadView>,
    rb: Seq<u8>,
)
    requires
        payloads_fit(a),
        payloads_fit(b),
        a.len() == b.len(),
        encode_each_payload(a) + ra == encode_each_payload(b) + rb,
    ensures
        a == b,
        ra == rb,
    decreases a.len(),
{
    if a.len() == 0 {
        assert(a =~= b);
        assert(encode_each_payload(a) + ra =~= ra);
        assert(encode_each_payload(b) + rb =~= rb);
    } else {
        let ta = a.drop_first();
        let tb = b.drop_first();
        assert(encode_each_payload(a) + ra =~= encode_payload(a.first()) + (encode_each_payload(ta)
            + ra));
        assert(encode_each_payload(b) + rb =~= encode_payload(b.first()) + (encode_each_payload(tb)
            + rb));
        assert(payload_fits(a[0]));
        assert(payload_fits(b[0]));
        lemma_payload_unique(
            a.first(),
            encode_each_payload(ta) + ra,
            b.first(),
            encode_each_payload(tb) + rb,
        );
        assert forall|i: int| 0 <= i < ta.len() implies payload_fits(#[trigger] ta[i]) by {
            assert(ta[i] == a[i + 1]);
        }
        assert forall|i: int| 0 <= i < tb.len() implies payload_fits(#[trigger] tb[i]) by {
            assert(tb[i] == b[i + 1]);
        }
        lemma_each_payload_unique(ta, ra, tb, rb);
        assert(a =~= seq![a.first()] + ta);
        assert(b =~= seq![b.first()] + tb);
    }
}

/// The same for lists of payloads.
pub proof fn lemma_payloads_unique(
    a: Seq<PayloadView>,
    ra: Seq<u8>,
    b: Seq<PayloadView>,
    rb: Seq<u8>,
)
    requires
        payloads_fit(a),
        payloads_fit(b),
        encode_payloads(a) + ra == encode_payloads(b) + rb,
    ensures
        a == b,
        ra == rb,
{
    assert(encode_payloads(a) + ra =~= encode_u64(a.len() as u64) + (encode_each_payload(a) + ra));
    assert(encode_payloads(b) + rb =~= encode_u64(b.len() as u64) + (encode_each_payload(b) + rb));
    lemma_u64_unique(
        a.len() as u64,
        encode_each_payload(a) + ra,
        b.len() as u64,
        encode_each_payload(b) + rb,
    );
    lemma_each_payload_unique(a, ra, b, rb);
}

/// Two connections with the same canonical form are the same connection.
pub proof fn lemma_connection_form_is_injective(a: ConnectionView, b: ConnectionView)
    requires
        connection_fits(a),
        connection_fits(b),
        encode_connection(a) == encode_connection(b),
    ensures
        a == b,
{
    lemma_connection_unique(a, Seq::empty(), b, Seq::empty());
}

/// Two commitment keys are equal only for the same connection and nonce.
pub proof fn lemma_commit_key_is_injective(
    a: ConnectionView,
    a_nonce: u64,
    b: ConnectionView,
    b_nonce: u64,
)
    requires
        connection_fits(a),
        connection_fits(b),
        spec_commit_key(a, a_nonce) == spec_commit_key(b, b_nonce),
    ensures
        a == b,
        a_nonce == b_nonce,
{
    let ra = sent_mark() + encode_u64(a_nonce);
    let rb = sent_mark() + encode_u64(b_nonce);
    assert(spec_commit_key(a, a_nonce) =~= encode_connection(a) + ra);
    assert(spec_commit_key(b, b_nonce) =~= encode_connection(b) + rb);
    lemma_connection_unique(a, ra, b, rb);
    lemma_split(sent_mark(), encode_u64(a_nonce), sent_mark(), encode_u64(b_nonce));
    assert(encode_u64(a_nonce) + Seq::<u8>::empty() =~= encode_u64(a_nonce));
    assert(encode_u64(b_nonce) + Seq::<u8>::empty() =~= encode_u64(b_nonce));
    lemma_u64_unique(a_nonce, Seq::empty(), b_nonce, Seq::empty());
}

/// Two packets with the same committed value are the same packet.
pub proof fn lemma_commit_value_is_injective(a: PacketView, b: PacketView)
    requires
        packet_fits(a),
        packet_fits(b),
        spec_commit_value(a) == spec_commit_value(b),
    ensures
        a == b,
{
    let a3 = encode_payloads(a.payloads);
    let b3 = encode_payloads(b.payloads);
    let a2 = encode_u64(a.header.timeout) + a3;
    let b2 = encode_u64(b.header.timeout) + b3;
    let a1 = encode_u64(a.header.nonce) + a2;
    let b1 = encode_u64(b.header.nonce) + b2;
    assert(encode_packet(a) =~= encode_connection(a.header.connection()) + a1);
    assert(encode_packet(b) =~= encode_connection(b.header.connection()) + b1);
    lemma_connection_unique(a.header.connection(), a1, b.header.connection(), b1);
    lemma_u64_unique(a.header.nonce, a2, b.header.nonce, b2);
    lemma_u64_unique(a.header.timeout, a3, b.header.timeout, b3);
    assert(a3 + Seq::<u8>::empty() =~= a3);
    assert(b3 + Seq::<u8>::empty() =~= b3);
    lemma_payloads_unique(a.payloads, Seq::empty(), b.payloads, Seq::empty());
}

} // verus!

use eureka::encoding::{commit_key, commit_value};
use eureka::packet::{Packet, PacketHeader, Payload, PayloadHeader};
use eureka::types::{Addr, ClientRef, Coin};

fn client(name: &str, prefix: &[u8]) -> ClientRef {
    (Addr::unchecked(name), prefix.to_vec())
}

fn sample() -> Packet {
    Packet {
        header: PacketHeader {
            lightclient_source: client("a", &[]),
            lightclient_destination: client("b", &[7]),
            nonce: 2,
            timeout: 258,
        },
        payloads: vec![Payload {
            header: PayloadHeader {
                application_source: Addr::unchecked("x"),
                application_destination: Addr::unchecked("yz"),
                funds: vec![Coin::new(5, "u")],
            },
            data: vec![9, 8],
        }],
    }
}

fn len(n: u8) -> Vec<u8> {
    vec![n, 0, 0, 0, 0, 0, 0, 0]
}

#[test]
fn a_commit_key_is_connection_then_mark_then_nonce() {
    let mut expected = vec![];
    expected.extend(len(1));
    expected.extend(b"a");
    expected.extend(len(0));
    expected.extend(len(1));
    expected.extend(b"b");
    expected.extend(len(1));
    expected.push(7);
    expected.extend(b"sent");
    expected.extend([2, 1, 0, 0, 0, 0, 0, 0]);
    assert_eq!(commit_key(&client("a", &[]), &client("b", &[7]), 258), expected);
}

#[test]
fn a_commit_value_is_the_packet_field_by_field() {
    let mut expected = vec![];
    // connection
    expected.extend(len(1));
    expected.extend(b"a");
    expected.extend(len(0));
    expected.extend(len(1));
    expected.extend(b"b");
    expected.extend(len(1));
    expected.push(7);
    // nonce, timeout
    expected.extend(len(2));
    expected.extend([2, 1, 0, 0, 0, 0, 0, 0]);
    // one payload
    expected.extend(len(1));
    expected.extend(len(1));
    expected.extend(b"x");
    expected.extend(len(2));
    expected.extend(b"yz");
    // one coin: denomination, then sixteen bytes of amount
    expected.extend(len(1));
    expected.extend(len(1));
    expected.extend(b"u");
    expected.extend([5, 0, 0, 0, 0, 0, 0, 0, 0, 0, 0, 0, 0, 0, 0, 0]);
    // data
    expected.extend(len(2));
    expected.extend([9, 8]);
    assert_eq!(commit_value(&sample()), expected);
}

#[test]
fn text_is_written_as_utf8() {
    let key = commit_key(&client("é", &[]), &client("", &[]), 0);
    let mut expected = vec![];
    expected.extend(len(2));
    expected.extend([0xc3, 0xa9]);
    expected.extend(len(0));
    expected.extend(len(0));
    expected.extend(len(0));
    expected.extend(b"sent");
    expected.extend(len(0));
    assert_eq!(key, expected);
}

#[test]
fn keys_that_would_collide_without_lengths_differ() {
    // the same letters, split differently between address and prefix
    assert_ne!(
        commit_key(&client("ab", b""), &client("c", b""), 1),
        commit_key(&client("a", b"b"), &client("c", b""), 1)
    );
    assert_ne!(
        commit_key(&client("a", b""), &client("bc", b""), 1),
        commit_key(&client("ab", b""), &client("c", b""), 1)
    );
    assert_ne!(
        commit_key(&client("a", b""), &client("b", b""), 1),
        commit_key(&client("a", b""), &client("b", b""), 2)
    );
    assert_ne!(
        commit_key(&client("a", b""), &client("b", b""), 1),
        commit_key(&client("b", b""), &client("a", b""), 1)
    );
}

#[test]
fn values_of_different_packets_differ() {
    let base = commit_value(&sample());

    let mut other = sample();
    other.payloads[0].data = vec![9, 8, 0];
    assert_ne!(commit_value(&other), base);

    let mut other = sample();
    other.payloads[0].header.funds[0].amount = 6;
    assert_ne!(commit_value(&other), base);

    let mut other = sample();
    other.payloads.push(other.payloads[0].clone());
    assert_ne!(commit_value(&other), base);

    let mut other = sample();
    other.header.timeout = 259;
    assert_ne!(commit_value(&other), base);

    assert_eq!(commit_value(&sample().clone()), base);
}

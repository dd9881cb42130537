use tangle_transport::codec::{make_bundle, msg_from_tangle_message, msg_to_tangle, MAX_BODY_BYTES};
use tangle_transport::errors::TransportError;
use tangle_transport::link::TangleAddress;
use tangle_transport::message::{BinaryMessage, Indexation, Message, MessageId, Payload};

fn mid(b: &[u8]) -> MessageId {
    MessageId { bytes: b.to_vec() }
}

#[test]
fn index_key_is_hex_of_concat() {
    let addr = TangleAddress::new(vec![0x01], vec![0xab]);
    assert_eq!(addr.to_index(), b"01ab".to_vec());
}

#[test]
fn index_key_matches_hex_crate() {
    let addr = TangleAddress::new(vec![0xde, 0xad], vec![0xbe, 0xef, 0x00]);
    let expected = hex::encode([0xde, 0xad, 0xbe, 0xef, 0x00]).into_bytes();
    assert_eq!(addr.to_index(), expected);
}

#[test]
fn index_key_is_deterministic() {
    let addr = TangleAddress::new(vec![9, 8, 7], vec![1, 2]);
    assert_eq!(addr.to_index(), addr.to_index());
}

#[test]
fn distinct_links_get_distinct_keys() {
    let a = TangleAddress::new(vec![1, 2], vec![3]);
    let b = TangleAddress::new(vec![1, 2], vec![4]);
    assert_ne!(a.to_index(), b.to_index());
}

#[test]
fn link_equality_is_bytewise() {
    let a = TangleAddress::new(vec![1, 2], vec![3]);
    let b = TangleAddress::new(vec![1, 2], vec![3]);
    let c = TangleAddress::new(vec![1], vec![2, 3]);
    assert!(a == b);
    assert!(a != c);
}

#[test]
fn bundle_wraps_body_under_index_key() {
    let trunk = mid(&[0x11; 32]);
    let branch = mid(&[0x22; 32]);
    let msgs = make_bundle(&[0x0a], &[0x0b], &[0x01, 0x02], 0, trunk, branch).unwrap();
    assert_eq!(msgs.len(), 1);
    match &msgs[0].payload {
        Some(Payload::Indexation(ix)) => {
            assert_eq!(ix.index, b"0a0b".to_vec());
            assert_eq!(ix.data, b"0102".to_vec());
        }
        _ => panic!("expected an indexation payload"),
    }
    assert_eq!(msgs[0].parent1.bytes, vec![0x11; 32]);
    assert_eq!(msgs[0].parent2.bytes, vec![0x22; 32]);
}

#[test]
fn codec_round_trip() {
    let link = TangleAddress::new(vec![0x0a, 0x0b], vec![0x0c]);
    let body = vec![0x01, 0x02, 0xff, 0x00, 0x7f];
    let outbound = BinaryMessage::new(link, body.clone());
    let msgs = msg_to_tangle(&outbound, 42, mid(&[0u8]), mid(&[1u8])).unwrap();
    assert_eq!(msgs.len(), 1);
    let link_again = TangleAddress::new(vec![0x0a, 0x0b], vec![0x0c]);
    let inbound = msg_from_tangle_message(&msgs[0], &link_again).unwrap();
    assert_eq!(inbound.binary.body, body);
    assert_eq!(inbound.binary.link.appinst, vec![0x0a, 0x0b]);
    assert_eq!(inbound.binary.link.msgid, vec![0x0c]);
    // the ledger does not return a timestamp; decode fills the default
    assert_eq!(inbound.timestamp, 0);
}

#[test]
fn decode_rejects_other_payload() {
    let link = TangleAddress::new(vec![1], vec![2]);
    let msg = Message { payload: Some(Payload::Other), parent1: mid(&[0]), parent2: mid(&[1]) };
    assert_eq!(
        msg_from_tangle_message(&msg, &link).unwrap_err(),
        TransportError::UnexpectedPayloadType
    );
}

#[test]
fn decode_rejects_missing_payload() {
    let link = TangleAddress::new(vec![1], vec![2]);
    let msg = Message { payload: None, parent1: mid(&[0]), parent2: mid(&[1]) };
    assert_eq!(
        msg_from_tangle_message(&msg, &link).unwrap_err(),
        TransportError::UnexpectedPayloadType
    );
}

#[test]
fn decode_rejects_bad_hex_data() {
    let link = TangleAddress::new(vec![1], vec![2]);
    let ix = Indexation { index: b"0102".to_vec(), data: b"zz".to_vec() };
    let msg = Message {
        payload: Some(Payload::Indexation(ix)),
        parent1: mid(&[0]),
        parent2: mid(&[1]),
    };
    assert_eq!(msg_from_tangle_message(&msg, &link).unwrap_err(), TransportError::BadHexEncoding);
}

#[test]
fn decode_rejects_odd_length_hex_data() {
    let link = TangleAddress::new(vec![1], vec![2]);
    let ix = Indexation { index: b"0102".to_vec(), data: b"abc".to_vec() };
    let msg = Message {
        payload: Some(Payload::Indexation(ix)),
        parent1: mid(&[0]),
        parent2: mid(&[1]),
    };
    assert_eq!(msg_from_tangle_message(&msg, &link).unwrap_err(), TransportError::BadHexEncoding);
}

#[test]
fn decode_accepts_upper_case_hex_data() {
    let link = TangleAddress::new(vec![1], vec![2]);
    let ix = Indexation { index: b"0102".to_vec(), data: b"01FF".to_vec() };
    let msg = Message {
        payload: Some(Payload::Indexation(ix)),
        parent1: mid(&[0]),
        parent2: mid(&[1]),
    };
    let inbound = msg_from_tangle_message(&msg, &link).unwrap();
    assert_eq!(inbound.binary.body, vec![0x01, 0xff]);
}

#[test]
fn empty_body_round_trips() {
    let link = TangleAddress::new(vec![], vec![]);
    let outbound = BinaryMessage::new(link, vec![]);
    let msgs = msg_to_tangle(&outbound, 0, mid(&[]), mid(&[])).unwrap();
    let link_again = TangleAddress::new(vec![], vec![]);
    let inbound = msg_from_tangle_message(&msgs[0], &link_again).unwrap();
    assert_eq!(inbound.binary.body, Vec::<u8>::new());
}

#[test]
fn largest_body_is_accepted() {
    let body = vec![0x55u8; MAX_BODY_BYTES];
    let msgs = make_bundle(&[1], &[2], &body, 0, mid(&[0]), mid(&[1])).unwrap();
    assert_eq!(msgs.len(), 1);
}

#[test]
fn oversized_body_is_rejected() {
    let body = vec![0x55u8; MAX_BODY_BYTES + 1];
    assert_eq!(
        make_bundle(&[1], &[2], &body, 0, mid(&[0]), mid(&[1])).unwrap_err(),
        TransportError::PayloadSizeExceeded
    );
}

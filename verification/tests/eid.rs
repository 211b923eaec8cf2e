use noise::discovery::cbor::{cbor_decode, cbor_encode_packed, CborValue};
use noise::discovery::eid::Eid;
use noise::discovery::params::{TRANSPORT_L2CAP, TRANSPORT_WEBSOCKETS};
use noise::discovery::suffix::Suffix;
use noise::discovery::{hex, KeyPurpose, SharedSecret};
use noise::Error;

const NONCE: [u8; 10] = [1, 2, 3, 4, 5, 6, 7, 8, 9, 10];

#[test]
fn eid_unknown_tunnel_server() {
    assert!(Eid::new(2, [1, 2, 3], TRANSPORT_WEBSOCKETS, NONCE).is_none());
    assert!(Eid::new(255, [1, 2, 3], TRANSPORT_WEBSOCKETS, NONCE).is_none());
    assert!(Eid::new(256, [1, 2, 3], TRANSPORT_WEBSOCKETS, NONCE).is_some());
}

#[test]
fn eid_bytes_websocket() {
    let eid = Eid::new(256, [0xc0, 0xff, 0xee], TRANSPORT_WEBSOCKETS, NONCE).unwrap();
    let b = eid.to_decrypted_bytes().unwrap();
    assert_eq!(vec![0, 1, 2, 3, 4, 5, 6, 7, 8, 9, 10, 0xc0, 0xff, 0xee, 0, 1], b);
    let block: [u8; 16] = b.try_into().unwrap();
    assert_eq!(Some(eid), Eid::from_decrypted_bytes(&block, None));
}

#[test]
fn eid_bytes_l2cap() {
    let eid = Eid::new(1, [0xca, 0xfe, 0x42], TRANSPORT_L2CAP, NONCE).unwrap();
    let b = eid.to_decrypted_bytes().unwrap();
    // The block, then the suffix {0: 1}.
    assert_eq!(19, b.len());
    assert_eq!(&[0xa1, 0x00, 0x01], &b[16..]);
    let block: [u8; 16] = b[..16].try_into().unwrap();
    assert_eq!(Some(eid), Eid::from_decrypted_bytes(&block, Some(&b[16..])));
    // Without the suffix, the transport is WebSockets.
    let ws = Eid::from_decrypted_bytes(&block, None).unwrap();
    assert_eq!(TRANSPORT_WEBSOCKETS, ws.transport());
    assert_eq!([0xca, 0xfe, 0x42], ws.routing_id());
    assert_eq!(1, ws.tunnel_server_id());
}

#[test]
fn eid_bad_blocks() {
    let mut block = [0u8; 16];
    block[0] = 1;
    assert_eq!(None, Eid::from_decrypted_bytes(&block, None));
    block[0] = 0;
    // A suffix that is not a map.
    assert_eq!(None, Eid::from_decrypted_bytes(&block, Some(&[0x01])));
    // A suffix that is not CBOR.
    assert_eq!(None, Eid::from_decrypted_bytes(&block, Some(&[0xff, 0xff])));
    // An empty map gives WebSockets.
    assert_eq!(TRANSPORT_WEBSOCKETS, Eid::from_decrypted_bytes(&block, Some(&[0xa0])).unwrap().transport());
}

#[test]
fn suffix_cbor() {
    assert_eq!(Ok(None), Suffix { transport_channel_identifier: None }.as_cbor());
    let s = Suffix { transport_channel_identifier: Some(1) };
    let c = s.as_cbor().unwrap().unwrap();
    assert_eq!(vec![0xa1, 0x00, 0x01], c);
    assert_eq!(Ok(s), Suffix::from_cbor(&c));
    assert_eq!(Ok(Suffix::default()), Suffix::from_cbor(&[0xa0]));
    // A value that does not fit in 32 bits is ignored.
    assert_eq!(Ok(Suffix::default()), Suffix::from_cbor(&[0xa1, 0x00, 0x20]));
    assert_eq!(Err(Error::InvalidArgument), Suffix::from_cbor(&[0x80]));
    assert_eq!(Err(Error::InvalidArgument), Suffix::from_cbor(&[]));
}

#[test]
fn cbor_wrappers() {
    let v = CborValue::Entries(vec![(CborValue::Integer(0), CborValue::Text("mc".to_string()))]);
    let b = cbor_encode_packed(&v).unwrap();
    assert_eq!(vec![0xa1, 0x00, 0x62, b'm', b'c'], b);
    match cbor_decode(&b) {
        Some(CborValue::Entries(m)) => {
            assert_eq!(1, m.len());
            assert!(matches!(m[0].0, CborValue::Integer(0)));
            assert!(matches!(&m[0].1, CborValue::Text(t) if t == "mc"));
        }
        other => panic!("unexpected {other:?}"),
    }
    assert!(cbor_decode(&[0xa1]).is_none());
}

#[test]
fn hex_values() {
    assert_eq!("", hex(&[]));
    assert_eq!("00FF0A", hex(&[0, 0xff, 0x0a]));
}

#[test]
fn key_derivation() {
    // Deriving more than HKDF-SHA-256 can produce fails.
    assert_eq!(Err(Error::Failure), KeyPurpose::Psk.derive(&[1], &[2], 8161));
    let k = KeyPurpose::Psk.derive(&[1], &[2], 32).unwrap();
    assert_eq!(32, k.len());
    // The purposes give different keys.
    assert_ne!(k, KeyPurpose::TunnelId.derive(&[1], &[2], 32).unwrap());
    // Same inputs, same output.
    assert_eq!(k, KeyPurpose::Psk.derive(&[1], &[2], 32).unwrap());

    let secret = SharedSecret([7; 16]);
    let t = secret.to_tunnel_id();
    assert_eq!(KeyPurpose::TunnelId.derive(&[7; 16], &[], 16).unwrap(), t.as_slice());
    let e = secret.to_eid_key();
    let both = KeyPurpose::EidKey.derive(&[7; 16], &[], 64).unwrap();
    assert_eq!(&both[..32], e.encryption_key.as_slice());
    assert_eq!(&both[32..], e.signing_key.as_slice());
}

#[test]
fn eid_from_routing_id_bytes() {
    let e = Eid::new_with_routing_id_bytes(1, &[0xca, 0xfe, 0x42], TRANSPORT_L2CAP, NONCE).unwrap();
    assert_eq!(Eid::new(1, [0xca, 0xfe, 0x42], TRANSPORT_L2CAP, NONCE).unwrap(), e);
    assert_eq!(Err(Error::InvalidArgument), Eid::new_with_routing_id_bytes(1, &[0xca, 0xfe], TRANSPORT_L2CAP, NONCE));
    assert_eq!(Err(Error::InvalidArgument), Eid::new_with_routing_id_bytes(7, &[0xca, 0xfe, 0x42], TRANSPORT_L2CAP, NONCE));
}

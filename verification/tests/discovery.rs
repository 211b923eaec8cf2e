use noise::base10::encode;
use noise::discovery::cbor::{cbor_encode_packed, CborValue};
use noise::discovery::AuthenticatorSession;

#[test]
fn chromium() {
    let u = "FIDO:/162870791865632382552704231438327900152302540348097243854039966655366469794954476199158014113179232779520163209900691930075274801398564434658077048963842109321447142660";
    let session = start_authenticator(u.as_bytes()).expect("new_with_qr_url");

    assert_eq!("mc", session.params().request_type());
    assert_eq!(2, session.params().known_domain_count());
    assert_eq!(1666589051, session.params().timestamp());
    assert!(session.params().supports_websocket_transport());
    assert!(!session.params().supports_l2cap_transport());
    assert!(session.params().supports_state_assisted_transactions());
    assert_eq!(
        "88EA778BEF7FEF7474BBCE36A2EFA282",
        session.params().tunnel_id().encode_hex()
    );

    // Chromium 145
    let u = "FIDO:/258473327900755586143665566879417871127860505704909541444130070144141296274130454836270492384743490254202060441129710420074451564345311200244582987727618109321447142404";
    let session = start_authenticator(u.as_bytes()).expect("new_with_qr_url");

    assert_eq!("mc", session.params().request_type());
    assert_eq!(2, session.params().known_domain_count());
    assert_eq!(1785912832, session.params().timestamp());
    assert!(session.params().supports_websocket_transport());
    assert!(!session.params().supports_l2cap_transport());
    assert!(!session.params().supports_state_assisted_transactions());
    assert_eq!(
        "7ADA6999389F52D8EE291DF0E83337C9",
        session.params().tunnel_id().encode_hex()
    );
}

#[test]
fn safari_ios() {
    let u = "FIDO:/089962132878132862898875319509818655951233947060166026934941652203853844930597225184066237811614893181300344014421205790072080843938838513707157859599106109321447142404";
    let session = start_authenticator(u.as_bytes()).expect("new_with_qr_url");

    assert_eq!("mc", session.params().request_type());
    assert_eq!(2, session.params().known_domain_count());
    assert_eq!(1670820400, session.params().timestamp());
    assert!(session.params().supports_websocket_transport());
    assert!(!session.params().supports_l2cap_transport());
    assert!(!session.params().supports_state_assisted_transactions());
    assert_eq!(
        "0E3C01B56A36DA8997401413E3F7A783",
        session.params().tunnel_id().encode_hex()
    );
}

use aes::cipher::generic_array::GenericArray;
use aes::cipher::{BlockDecrypt, BlockEncrypt, KeyInit as BlockKeyInit};
use aes::Aes256;
use aes_gcm::aead::{Aead, Payload};
use aes_gcm::{Aes256Gcm, Nonce};
use noise::channel::Channel;
use noise::cipher::AeadRequest;
use noise::discovery::authenticator_session::EidPlaintext;
use noise::discovery::eid::Eid;
use noise::discovery::initiator_session::InitiatorSession;
use noise::discovery::params::{Params, TRANSPORT_L2CAP, TRANSPORT_WEBSOCKETS};
use noise::discovery::SharedSecret;
use noise::handshake::HandshakeState;
use noise::Error;
use p256::elliptic_curve::sec1::ToEncodedPoint;
use p256::pkcs8::DecodePublicKey;
use p256::{PublicKey, SecretKey};

/// Reads a QR code URL, imports its identity key as a P-256 point, and starts the session.
fn start_authenticator(url: &[u8]) -> Result<AuthenticatorSession, Error> {
    let qr = AuthenticatorSession::read_qr_url(url)?;
    let imported = PublicKey::from_sec1_bytes(&qr.peer_identity()).is_ok();
    AuthenticatorSession::new_with_qr_url(qr, imported)
}

/// Deterministic test bytes.
fn test_bytes<const N: usize>(seed: u8) -> [u8; N] {
    let mut out = [0u8; N];
    let mut x: u32 = 0x9e37_79b9 ^ seed as u32;
    for b in out.iter_mut() {
        x ^= x << 13;
        x ^= x >> 17;
        x ^= x << 5;
        *b = (x >> 8) as u8;
    }
    out
}

fn key_pair(seed: u8) -> (SecretKey, [u8; 65], [u8; 33]) {
    let sk = SecretKey::from_slice(&test_bytes::<32>(seed)).unwrap();
    let pk = sk.public_key();
    let full: [u8; 65] = pk.to_encoded_point(false).as_bytes().try_into().unwrap();
    let compressed: [u8; 33] = pk.to_encoded_point(true).as_bytes().try_into().unwrap();
    (sk, full, compressed)
}

fn decompress(compressed: &[u8]) -> [u8; 65] {
    let pk = PublicKey::from_sec1_bytes(compressed).unwrap();
    pk.to_encoded_point(false).as_bytes().try_into().unwrap()
}

fn dh(sk: &SecretKey, point: &[u8]) -> Vec<u8> {
    let pk = PublicKey::from_sec1_bytes(point).unwrap();
    p256::ecdh::diffie_hellman(sk.to_nonzero_scalar(), pk.as_affine())
        .raw_secret_bytes()
        .to_vec()
}

fn seal(req: &AeadRequest) -> Option<Vec<u8>> {
    let cipher = Aes256Gcm::new_from_slice(&req.key).ok()?;
    cipher
        .encrypt(Nonce::from_slice(&req.nonce), Payload { msg: &req.data, aad: &req.aad })
        .ok()
}

fn open(req: &AeadRequest) -> Option<Vec<u8>> {
    let cipher = Aes256Gcm::new_from_slice(&req.key).ok()?;
    cipher
        .decrypt(Nonce::from_slice(&req.nonce), Payload { msg: &req.data, aad: &req.aad })
        .ok()
}

fn channel_encrypt(c: &mut Channel, pt: &[u8]) -> Result<Vec<u8>, Error> {
    let req = c.prepare_encrypt(pt)?;
    c.complete_encrypt(seal(&req))
}

fn channel_decrypt(c: &mut Channel, ct: &[u8]) -> Result<Vec<u8>, Error> {
    let req = c.prepare_decrypt(ct)?;
    c.complete_decrypt(open(&req))
}

fn aes_block(key: &[u8; 32], block: &[u8; 16], encrypt: bool) -> [u8; 16] {
    let cipher = Aes256::new(GenericArray::from_slice(key));
    let mut b = GenericArray::clone_from_slice(block);
    if encrypt {
        cipher.encrypt_block(&mut b);
    } else {
        cipher.decrypt_block(&mut b);
    }
    b.into()
}

fn encrypt_eid(authenticator: &mut AuthenticatorSession, eid: Eid) -> Result<Vec<u8>, Error> {
    let pt: EidPlaintext = authenticator.prepare_encrypt_eid(&eid)?;
    let encrypted = aes_block(&authenticator.params().eid_key().encryption_key, &pt.block, true);
    authenticator.complete_encrypt_eid(eid, &pt, Some(encrypted))
}

fn try_decrypt_eid(initiator: &mut InitiatorSession, encrypted_eid: &[u8; 20], suffix: Option<&[u8]>) -> bool {
    let block: [u8; 16] = encrypted_eid[..16].try_into().unwrap();
    let decrypted = aes_block(&initiator.params().eid_key().encryption_key, &block, false);
    initiator.try_decrypt_eid(encrypted_eid, suffix, Some(decrypted))
}

fn new_initiator(seed: u8) -> (InitiatorSession, SecretKey, [u8; 65]) {
    let (sk, full, compressed) = key_pair(seed);
    let params = Params::new(SharedSecret(test_bytes::<16>(seed.wrapping_add(100))), 1_700_000_000).unwrap();
    let initiator = InitiatorSession::new_with_params(params, compressed).unwrap();
    (initiator, sk, full)
}

/// Start an initiator session, and attempt to "discover" it.
#[test]
fn discovery() {
    let (mut initiator, identity, identity_pub) = new_initiator(1);
    initiator.set_request_type("mc".to_string());
    assert_eq!(2, initiator.params().known_domain_count());
    assert!(initiator.params().supports_websocket_transport());
    assert!(!initiator.params().supports_l2cap_transport());
    assert!(!initiator.params().supports_state_assisted_transactions());
    assert!(!initiator.found_authenticator());
    assert!(initiator.websocket_url().is_empty());
    assert_ne!([0u8; 16].as_slice(), initiator.params().tunnel_id().as_slice());
    assert_ne!(0, initiator.params().timestamp());

    let qr = initiator.qr_url().expect("InitiatorSession::qr_url");
    assert!(qr.starts_with("FIDO:/"), "should start with FIDO:/ : {qr:?}");

    // Create random BLE beacon, it shouldn't be decrypted.
    let other_encrypted_eid = test_bytes::<20>(7);
    let r = try_decrypt_eid(&mut initiator, &other_encrypted_eid, None);
    assert!(!r, "shouldn't be able to decrypt the other EID");
    assert!(!initiator.found_authenticator());
    assert!(initiator.eid().is_none());

    // "scan" the QR code with the actual authenticator
    let mut authenticator = start_authenticator(qr.as_bytes())
        .expect("AuthenticatorSession::new_with_qr_url");

    // Request parameters should be propagated
    assert_eq!(initiator.params().request_type(), authenticator.params().request_type());
    assert_eq!(initiator.params().known_domain_count(), authenticator.params().known_domain_count());
    assert_eq!(
        initiator.params().supports_websocket_transport(),
        authenticator.params().supports_websocket_transport()
    );
    assert_eq!(
        initiator.params().supports_l2cap_transport(),
        authenticator.params().supports_l2cap_transport()
    );
    assert_eq!(
        initiator.params().supports_state_assisted_transactions(),
        authenticator.params().supports_state_assisted_transactions()
    );
    assert_eq!(initiator.params().timestamp(), authenticator.params().timestamp());

    // Should get the same tunnel metadata
    assert_eq!(initiator.params().tunnel_id(), authenticator.params().tunnel_id());

    // Prepare a BLE beacon to respond
    let eid = Eid::new(0, [0xc0, 0xff, 0xee], TRANSPORT_WEBSOCKETS, test_bytes::<10>(2)).expect("Eid::new");
    let encrypted_eid = encrypt_eid(&mut authenticator, eid).expect("AuthenticatorSession::encrypt_eid");
    let authenticator_eid = *authenticator.eid().expect("AuthenticatorSession::eid");

    // We didn't pick a transport, so this should be exactly 20 bytes
    assert_eq!(20, encrypted_eid.len());

    // Receive the BLE beacon
    let r = try_decrypt_eid(&mut initiator, encrypted_eid.as_slice().try_into().unwrap(), None);
    assert!(r, "should be able to decrypt the EID");

    assert!(initiator.found_authenticator());

    // Our settings should propagate
    let initiator_eid = *initiator.eid().expect("InitiatorSession::eid");
    assert_eq!(authenticator_eid.tunnel_server_id(), initiator_eid.tunnel_server_id());
    assert_eq!(authenticator_eid.routing_id(), initiator_eid.routing_id());
    assert_eq!(authenticator_eid.transport(), initiator_eid.transport());

    assert_eq!(
        format!(
            "wss://cable.ua5v.com/cable/connect/C0FFEE/{}",
            initiator.params().tunnel_id().encode_hex()
        ),
        initiator.websocket_url()
    );

    // A wild iPhone appears!
    let mut authenticator = start_authenticator(qr.as_bytes())
        .expect("AuthenticatorSession::new_with_qr_url");
    // iPhone uses new key material!
    let eid = Eid::new(1, [0xca, 0xfe, 0x42], TRANSPORT_WEBSOCKETS, test_bytes::<10>(3)).expect("Eid::new");
    let encrypted_eid = encrypt_eid(&mut authenticator, eid).expect("AuthenticatorSession::encrypt_eid");
    assert_eq!(20, encrypted_eid.len());
    let authenticator_eid = *authenticator.eid().expect("AuthenticatorSession::eid");

    // Receive the iPhone's BLE beacon
    let r = try_decrypt_eid(&mut initiator, encrypted_eid.as_slice().try_into().unwrap(), None);
    assert!(r, "should be able to decrypt the EID");
    assert!(initiator.found_authenticator());

    // We should now be talking to the iPhone.
    let initiator_eid = *initiator.eid().expect("InitiatorSession::eid");
    assert_eq!(authenticator_eid.tunnel_server_id(), initiator_eid.tunnel_server_id());
    assert_eq!(authenticator_eid.routing_id(), initiator_eid.routing_id());
    assert_eq!(authenticator_eid.transport(), initiator_eid.transport());
    let authenticator_ws = format!(
        "wss://cable.auth.com/cable/connect/CAFE42/{}",
        initiator.params().tunnel_id().encode_hex()
    );
    assert_eq!(authenticator_ws, initiator.websocket_url());

    // Create another random BLE beacon, it shouldn't be decrypted.
    let other_encrypted_eid = test_bytes::<20>(9);
    let r = try_decrypt_eid(&mut initiator, &other_encrypted_eid, None);
    assert!(!r, "shouldn't be able to decrypt the other EID");

    // Should still be set up for the iPhone.
    assert!(initiator.found_authenticator());
    assert_eq!(authenticator_ws, initiator.websocket_url());

    // Establish a Noise channel: the initiator starts a KNpsk0 handshake with its identity.
    let psk = initiator.handshake_psk().expect("InitiatorSession::into_handshake");
    let hs = HandshakeState::initiator_start(&psk, true, Some(identity_pub.as_slice()), None)
        .expect("InitiatorSession::into_handshake");
    let (ie_sk, ie_pub, _) = key_pair(10);
    let (hs, req) = hs.initiator_message_request(&ie_pub, None).unwrap();
    let (hs, initial_message) = hs.initiator_message_complete(seal(&req)).unwrap();
    assert_eq!(65 + 32 + 16, initial_message.len());

    // The authenticator answers as the responder, knowing the initiator's identity.
    let rpsk = authenticator.responder_psk().expect("AuthenticatorSession::into_responder");
    assert_eq!(psk, rpsk);
    let peer = decompress(&authenticator.peer_identity());
    assert_eq!(identity_pub, peer);
    let (rs, req) =
        HandshakeState::responder_request(&rpsk, false, None, Some(&peer), &initial_message, None)
            .expect("AuthenticatorSession::into_responder");
    let rs = rs.responder_decrypted(open(&req)).expect("AuthenticatorSession::into_responder");
    let (re_sk, re_pub, _) = key_pair(11);
    let dh_ee = dh(&re_sk, &initial_message[..65]);
    let dh_se = dh(&re_sk, &peer);
    let (rs, req) = rs.responder_response_request(&re_pub, &dh_ee, Some(&dh_se)).unwrap();
    let (mut authenticator, response_message) =
        rs.build_responder(seal(&req)).expect("AuthenticatorSession::into_responder");

    let dh_ee = dh(&ie_sk, &response_message[..65]);
    let dh_se = dh(&identity, &response_message[..65]);
    let (hs, req) = hs.response_request(&response_message, &dh_ee, Some(&dh_se)).unwrap();
    let (mut initiator, _hash) = hs
        .process_handshake_response(open(&req))
        .expect("InitiatorHandshake::process_handshake_response");
    assert!(initiator.is_counterparty(&authenticator));

    // authenticator -> initiator
    let msg = b"Hi initiator!";
    let ct = channel_encrypt(&mut authenticator, msg).unwrap();
    assert_ne!(msg, ct.as_slice());

    let pt = channel_decrypt(&mut initiator, &ct).unwrap();
    assert_eq!(msg, pt.as_slice());

    // Decrypting the authenticator's message again should fail
    assert!(channel_decrypt(&mut initiator, &ct).is_err());

    // initiator -> authenticator
    let msg = b"G'day, authenticator!";
    let ct = channel_encrypt(&mut initiator, msg).unwrap();
    assert_ne!(msg, ct.as_slice());

    let pt = channel_decrypt(&mut authenticator, &ct).unwrap();
    assert_eq!(msg, pt.as_slice());

    // Decrypting the initiator's message again should fail
    assert!(channel_decrypt(&mut authenticator, &ct).is_err());
}

/// Bad initiator parameters
#[test]
fn bad_params() {
    let (mut initiator, _, _) = new_initiator(2);

    assert_eq!(
        Error::InvalidArgument,
        initiator.qr_url().expect_err("no request type should fail")
    );

    initiator.set_request_type("mc".to_string());
    initiator.set_supports_websocket_transport(false);
    assert_eq!(
        Error::InvalidArgument,
        initiator.qr_url().expect_err("no transports should fail")
    );

    initiator.set_supports_l2cap_transport(true);
    let qr = initiator.qr_url().expect("only L2CAP transport should succeed");

    let mut authenticator = start_authenticator(qr.as_bytes())
        .expect("AuthenticatorSession::new_with_qr_url");

    let eid = Eid::new(1, [0xca, 0xfe, 0x42], TRANSPORT_WEBSOCKETS, test_bytes::<10>(4)).expect("Eid::new");
    assert_eq!(
        Error::InvalidArgument,
        encrypt_eid(&mut authenticator, eid).expect_err("unsupported transport should fail")
    );

    let eid = Eid::new(1, [0xca, 0xfe, 0x42], TRANSPORT_L2CAP, test_bytes::<10>(4)).expect("Eid::new");
    let encrypted_eid = encrypt_eid(&mut authenticator, eid).expect("supported transport should succeed");
    assert_eq!(23, encrypted_eid.len());

    let (encrypted_eid, suffix) = encrypted_eid.as_slice().split_at(20);
    let r = try_decrypt_eid(&mut initiator, encrypted_eid.try_into().unwrap(), Some(suffix));
    assert!(r, "should be able to decrypt the EID");
    assert!(initiator.found_authenticator());
    assert_eq!("", initiator.websocket_url());
}

/// The key of the identity in a QR code is the compressed form of the initiator's.
#[test]
fn qr_identity_key() {
    let (initiator, _, full) = new_initiator(3);
    let mut initiator = initiator;
    initiator.set_request_type("ga".to_string());
    let qr = initiator.qr_url().unwrap();
    let authenticator = start_authenticator(qr.as_bytes()).unwrap();
    assert_eq!(initiator.local_identity_public(), authenticator.peer_identity());
    assert_eq!(full, decompress(&authenticator.peer_identity()));
    assert_eq!(
        Ok(authenticator.peer_identity()),
        noise::ec::ec2_pubkey_to_compressed_sec1(&full)
    );
}

#[test]
fn trial_decrypt_lengths() {
    let (mut initiator, _, _) = new_initiator(4);
    let before = initiator.websocket_url().to_string();
    assert!(!initiator.try_decrypt_eid_bytes(&[0; 19], None, None));
    assert!(!initiator.try_decrypt_eid_bytes(&[0; 20], None, None));
    assert!(!initiator.found_authenticator());
    assert_eq!(before, initiator.websocket_url());
    // Without the decrypted block nothing is accepted, even with a valid signature.
    initiator.set_request_type("mc".to_string());
    let qr = initiator.qr_url().unwrap();
    let mut authenticator = start_authenticator(qr.as_bytes()).unwrap();
    let eid = Eid::new(0, [1, 2, 3], TRANSPORT_WEBSOCKETS, test_bytes::<10>(5)).unwrap();
    let adv = encrypt_eid(&mut authenticator, eid).unwrap();
    assert!(!initiator.try_decrypt_eid_bytes(&adv, None, None));
    let decrypted = aes_block(&initiator.params().eid_key().encryption_key, adv[..16].try_into().unwrap(), false);
    assert!(!initiator.try_decrypt_eid_bytes(&adv[..19], None, Some(decrypted)));
    assert!(initiator.try_decrypt_eid_bytes(&adv, None, Some(decrypted)));
    assert_eq!(Some(&eid), initiator.eid());
    // The pre-shared keys agree.
    assert_eq!(authenticator.responder_psk(), initiator.handshake_psk());
}

/// The DER forms of both point encodings import as the same key.
#[test]
fn identity_key_der() {
    let (_, full, compressed) = key_pair(6);
    let a = PublicKey::from_public_key_der(&noise::ec::sec1_ec2_key_to_der(&full).unwrap()).unwrap();
    let b = PublicKey::from_public_key_der(&noise::ec::compressed_sec1_to_der(&compressed).unwrap()).unwrap();
    assert_eq!(a, b);
    assert_eq!(full, <[u8; 65]>::try_from(a.to_encoded_point(false).as_bytes()).unwrap());
    let mut bad = compressed;
    bad[0] = 4;
    assert_eq!(Err(Error::InvalidArgument), noise::ec::compressed_sec1_to_der(&bad));
}

/// A QR code whose identity key is not a compressed point is refused.
#[test]
fn qr_rejects_invalid_identity_key() {
    let qr = |key: Vec<u8>| {
        let m = CborValue::Entries(vec![
            (CborValue::Integer(0), CborValue::Bytes(key)),
            (CborValue::Integer(1), CborValue::Bytes(vec![7; 16])),
            (CborValue::Integer(2), CborValue::Integer(2)),
            (CborValue::Integer(5), CborValue::Text("mc".to_string())),
        ]);
        let mut url = b"FIDO:/".to_vec();
        url.extend(encode(&cbor_encode_packed(&m).unwrap()));
        url
    };
    let (_, _, compressed) = key_pair(7);
    let ok = start_authenticator(&qr(compressed.to_vec())).unwrap();
    assert_eq!(compressed, ok.peer_identity());
    assert!(ok.params().supports_websocket_transport());
    let mut bad = compressed;
    bad[0] = 5;
    assert_eq!(Err(Error::InvalidArgument), start_authenticator(&qr(bad.to_vec())).map(|_| ()));
    bad[0] = 4;
    assert_eq!(Err(Error::InvalidArgument), start_authenticator(&qr(bad.to_vec())).map(|_| ()));
    assert_eq!(Err(Error::InvalidArgument), start_authenticator(&qr(vec![2; 32])).map(|_| ()));
    // A compressed key whose x-coordinate is not below the field prime is no point.
    let mut off_curve = [0xffu8; 33];
    off_curve[0] = 2;
    assert!(AuthenticatorSession::read_qr_url(&qr(off_curve.to_vec())).is_ok());
    assert_eq!(Err(Error::InvalidArgument), start_authenticator(&qr(off_curve.to_vec())).map(|_| ()));
    // A session needs the import to have succeeded.
    let read = AuthenticatorSession::read_qr_url(&qr(compressed.to_vec())).unwrap();
    assert_eq!(Err(Error::InvalidArgument), AuthenticatorSession::new_with_qr_url(read, false).map(|_| ()));

    // An initiator needs a compressed identity key too.
    let params = Params::new(SharedSecret([1; 16]), 0).unwrap();
    assert_eq!(Err(Error::InvalidArgument), InitiatorSession::new_with_params(params, [4; 33]).map(|_| ()));
}

/// Parameters are cloned whole, and their derived keys follow the secret alone.
#[test]
fn params_clone_and_derived_keys() {
    let mut p = Params::new(SharedSecret([9; 16]), 5).unwrap();
    let t = p.tunnel_id();
    p.set_request_type("ga".to_string());
    p.set_known_domain_count(7);
    p.set_timestamp(0);
    let q = p.clone();
    assert_eq!(t, p.tunnel_id());
    assert_eq!(t, q.tunnel_id());
    assert_eq!("ga", q.request_type());
    assert_eq!(7, q.known_domain_count());
    assert_eq!(SharedSecret([9; 16]).to_tunnel_id(), t);
    assert_eq!(q.eid_key().signing_key, p.eid_key().signing_key);
}

/// A responder can only be built after an EID was encrypted.
#[test]
fn responder_needs_an_eid() {
    let (mut initiator, _, _) = new_initiator(8);
    initiator.set_request_type("mc".to_string());
    let qr = initiator.qr_url().unwrap();
    let mut authenticator = start_authenticator(qr.as_bytes()).unwrap();
    assert_eq!(Err(Error::InvalidState), authenticator.responder_psk());
    // An unsupported transport fails, and a failed encryption records nothing.
    let eid = Eid::new(0, [1, 2, 3], TRANSPORT_L2CAP, test_bytes::<10>(8)).unwrap();
    assert_eq!(Err(Error::InvalidArgument), encrypt_eid(&mut authenticator, eid).map(|_| ()));
    let eid = Eid::new(0, [1, 2, 3], TRANSPORT_WEBSOCKETS, test_bytes::<10>(8)).unwrap();
    let pt = authenticator.prepare_encrypt_eid(&eid).unwrap();
    assert_eq!(Err(Error::Failure), authenticator.complete_encrypt_eid(eid, &pt, None));
    assert_eq!(Err(Error::InvalidState), authenticator.responder_psk());
    assert!(authenticator.eid().is_none());
    assert!(encrypt_eid(&mut authenticator, eid).is_ok());
    assert!(authenticator.responder_psk().is_ok());
}

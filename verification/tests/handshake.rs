use noise::handshake::NoiseHandshakeState;
use noise::handshake::{check_initial_knpsk0_args, check_knpsk0_responder_args};
use aes_gcm::aead::{Aead, Payload};
use aes_gcm::{Aes256Gcm, KeyInit, Nonce};
use noise::channel::Channel;
use noise::cipher::AeadRequest;
use noise::handshake::{split_handshake_message, DhRequest, HandshakeState, LocalKey};
use noise::Error;
use p256::elliptic_curve::sec1::ToEncodedPoint;
use p256::{PublicKey, SecretKey};

fn key_pair(seed: u8) -> (SecretKey, [u8; 65]) {
    let mut bytes = [0u8; 32];
    let mut x: u32 = 0x1234_5678 ^ ((seed as u32) << 8);
    for b in bytes.iter_mut() {
        x ^= x << 13;
        x ^= x >> 17;
        x ^= x << 5;
        *b = (x >> 3) as u8;
    }
    let sk = SecretKey::from_slice(&bytes).unwrap();
    let pk: [u8; 65] = sk.public_key().to_encoded_point(false).as_bytes().try_into().unwrap();
    (sk, pk)
}

fn dh(sk: &SecretKey, point: &[u8]) -> Vec<u8> {
    let pk = PublicKey::from_sec1_bytes(point).unwrap();
    p256::ecdh::diffie_hellman(sk.to_nonzero_scalar(), pk.as_affine())
        .raw_secret_bytes()
        .to_vec()
}

fn seal(req: &AeadRequest) -> Option<Vec<u8>> {
    let cipher = Aes256Gcm::new_from_slice(&req.key).ok()?;
    cipher
        .encrypt(Nonce::from_slice(&req.nonce), Payload { msg: &req.data, aad: &req.aad })
        .ok()
}

fn open(req: &AeadRequest) -> Option<Vec<u8>> {
    let cipher = Aes256Gcm::new_from_slice(&req.key).ok()?;
    cipher
        .decrypt(Nonce::from_slice(&req.nonce), Payload { msg: &req.data, aad: &req.aad })
        .ok()
}

fn encrypt(c: &mut Channel, pt: &[u8]) -> Result<Vec<u8>, Error> {
    let req = c.prepare_encrypt(pt)?;
    c.complete_encrypt(seal(&req))
}

fn decrypt(c: &mut Channel, ct: &[u8]) -> Result<Vec<u8>, Error> {
    let req = c.prepare_decrypt(ct)?;
    c.complete_decrypt(open(&req))
}

/// The initiator's state after its first message, with its key pairs.
struct Initiator {
    hs: HandshakeState,
    ephemeral: SecretKey,
    identity: Option<SecretKey>,
}

/// Performs a Diffie-Hellman operation that the handshake asked for.
fn perform(req: &DhRequest, ephemeral: Option<&SecretKey>, identity: Option<&SecretKey>) -> Vec<u8> {
    let sk = match req.local {
        LocalKey::Ephemeral => ephemeral,
        LocalKey::Static => identity,
    };
    dh(sk.unwrap(), &req.peer)
}

fn initial_handshake_message(
    psk: &[u8; 32],
    identity: Option<(SecretKey, [u8; 65])>,
    peer_pub: Option<&[u8; 65]>,
    seed: u8,
) -> Result<(Initiator, Vec<u8>), Error> {
    let local_pub = identity.as_ref().map(|(_, p)| *p);
    let hs = HandshakeState::initiator_start(psk, identity.is_some(), local_pub.as_ref().map(|p| p.as_slice()), peer_pub)?;
    let (ephemeral, e_pub) = key_pair(seed);
    let identity_key = identity.map(|(s, _)| s);
    let dh_es = hs.initiator_dh_request().map(|r| perform(&r, Some(&ephemeral), identity_key.as_ref()));
    let (hs, req) = hs.initiator_message_request(&e_pub, dh_es.as_deref())?;
    let (hs, msg) = hs.initiator_message_complete(seal(&req))?;
    Ok((Initiator { hs, ephemeral, identity: identity_key }, msg))
}

fn build_responder(
    psk: &[u8; 32],
    identity: Option<(SecretKey, [u8; 65])>,
    peer_pub: Option<&[u8; 65]>,
    message: &[u8],
    seed: u8,
) -> Result<(Channel, Vec<u8>), Error> {
    let local_pub = identity.as_ref().map(|(_, p)| *p);
    let identity_key = identity.map(|(s, _)| s);
    let dh_es = HandshakeState::responder_dh_request(identity_key.is_some(), message)?
        .map(|r| perform(&r, None, identity_key.as_ref()));
    let (rs, req) = HandshakeState::responder_request(
        psk,
        identity_key.is_some(),
        local_pub.as_ref().map(|p| p.as_slice()),
        peer_pub,
        message,
        dh_es.as_deref(),
    )?;
    let rs = rs.responder_decrypted(open(&req))?;
    let (ephemeral, e_pub) = key_pair(seed);
    let (ee, se) = rs.responder_response_dh_requests()?;
    let dh_ee = perform(&ee, Some(&ephemeral), identity_key.as_ref());
    let dh_se = se.map(|r| perform(&r, Some(&ephemeral), identity_key.as_ref()));
    let (rs, req) = rs.responder_response_request(&e_pub, &dh_ee, dh_se.as_deref())?;
    rs.build_responder(seal(&req))
}

fn process_handshake_response(i: Initiator, response: &[u8]) -> Result<Channel, Error> {
    let (ee, se) = i.hs.response_dh_requests(response)?;
    let dh_ee = perform(&ee, Some(&i.ephemeral), i.identity.as_ref());
    let dh_se = se.map(|r| perform(&r, Some(&i.ephemeral), i.identity.as_ref()));
    let (hs, req) = i.hs.response_request(response, &dh_ee, dh_se.as_deref())?;
    let (channel, _) = hs.process_handshake_response(open(&req))?;
    Ok(channel)
}

fn exchange(initiator: &mut Channel, responder: &mut Channel) {
    assert!(initiator.is_counterparty(responder), "initiator and responder must be counterparties");

    let msg = b"Hi initiator!";
    let ct = encrypt(responder, msg).unwrap();
    assert_ne!(msg, ct.as_slice());
    let pt = decrypt(initiator, &ct).unwrap();
    assert_eq!(msg, pt.as_slice());
    assert!(decrypt(initiator, &ct).is_err());

    let msg = b"G'day, responder!";
    let ct = encrypt(initiator, msg).unwrap();
    assert_ne!(msg, ct.as_slice());
    let pt = decrypt(responder, &ct).unwrap();
    assert_eq!(msg, pt.as_slice());
    assert!(decrypt(responder, &ct).is_err());
}

/// KNpsk0 (QR-initiated transaction).
#[test]
fn noise_handshake_knpsk0() {
    let (isk, ipub) = key_pair(1);
    let psk = [0x5a; 32];
    let (ihs, imsg) = initial_handshake_message(&psk, Some((isk, ipub)), None, 2).unwrap();
    assert_eq!(65 + 32 + 16, imsg.len());
    let (mut responder, rmsg) = build_responder(&psk, None, Some(&ipub), &imsg, 3).unwrap();
    assert_eq!(65 + 32 + 16, rmsg.len());
    let mut initiator = process_handshake_response(ihs, &rmsg).unwrap();
    exchange(&mut initiator, &mut responder);
}

/// NKpsk0 (state-assisted transaction).
#[test]
fn noise_handshake_nkpsk0() {
    let (isk, ipub) = key_pair(4);
    let (rsk, rpub) = key_pair(5);
    let psk = [0x17; 32];
    let (ihs, imsg) = initial_handshake_message(&psk, Some((isk, ipub)), Some(&rpub), 6).unwrap();
    let (mut responder, rmsg) = build_responder(&psk, Some((rsk, rpub)), Some(&ipub), &imsg, 7).unwrap();
    let mut initiator = process_handshake_response(ihs, &rmsg).unwrap();
    exchange(&mut initiator, &mut responder);
}

/// NKpsk0 with no initiator identity.
#[test]
fn noise_handshake_nkpsk0_no_initiator_identity() {
    let (rsk, rpub) = key_pair(8);
    let psk = [0x99; 32];
    let (ihs, imsg) = initial_handshake_message(&psk, None, Some(&rpub), 9).unwrap();
    let (mut responder, rmsg) = build_responder(&psk, Some((rsk, rpub)), None, &imsg, 10).unwrap();
    let mut initiator = process_handshake_response(ihs, &rmsg).unwrap();
    exchange(&mut initiator, &mut responder);
}

/// A wrong pre-shared key is detected by the responder.
#[test]
fn noise_handshake_wrong_psk() {
    let (isk, ipub) = key_pair(11);
    let (_ihs, imsg) = initial_handshake_message(&[1; 32], Some((isk, ipub)), None, 12).unwrap();
    assert_eq!(Err(Error::Failure), build_responder(&[2; 32], None, Some(&ipub), &imsg, 13).map(|_| ()));
}

/// Incorrect arguments and messages.
#[test]
fn noise_handshake_errors() {
    let (isk, ipub) = key_pair(14);
    let psk = [3; 32];

    // Missing key arguments
    assert_eq!(Err(Error::InvalidArgument), HandshakeState::initiator_start(&psk, false, None, None).map(|_| ()));
    let fake = [0x42u8; 128];
    assert!(build_responder(&psk, None, None, &fake, 15).is_err());
    let mut fake4 = fake;
    fake4[0] = 4;
    assert_eq!(
        Err(Error::InvalidArgument),
        HandshakeState::responder_request(&psk, false, None, None, &fake4, None).map(|_| ())
    );
    // A local identity whose public key could not be read.
    assert_eq!(Err(Error::Failure), HandshakeState::initiator_start(&psk, true, None, None).map(|_| ()));
    // A local public key that is not an uncompressed point.
    assert_eq!(
        Err(Error::InvalidArgument),
        HandshakeState::initiator_start(&psk, true, Some(&ipub[..33]), None).map(|_| ())
    );

    let (ihs, mut imsg) = initial_handshake_message(&psk, Some((isk, ipub)), None, 16).unwrap();

    // Invalid initiator message
    assert_eq!(Err(Error::InvalidArgument), build_responder(&psk, None, Some(&ipub), &imsg[..64], 17).map(|_| ()));

    // Set invalid point form
    assert_eq!(4, imsg[0]);
    imsg[0] = 1;
    assert_eq!(Err(Error::InvalidArgument), build_responder(&psk, None, Some(&ipub), &imsg, 17).map(|_| ()));

    // Reset point form
    imsg[0] = 4;
    let (_, mut rmsg) = build_responder(&psk, None, Some(&ipub), &imsg, 17).unwrap();

    // An incorrect responder message.
    assert_eq!(4, rmsg[0]);
    rmsg[0] = 1;
    assert_eq!(Err(Error::InvalidArgument), process_handshake_response(ihs, &rmsg).map(|_| ()));
}

#[test]
fn handshake_message_split() {
    assert_eq!(Err(Error::InvalidArgument), split_handshake_message(&[4; 64]).map(|_| ()));
    assert_eq!(Err(Error::InvalidArgument), split_handshake_message(&[3; 70]).map(|_| ()));
    let mut m = vec![4u8; 65];
    m.extend_from_slice(&[9, 8, 7]);
    let p = split_handshake_message(&m).unwrap();
    assert_eq!(&m[..65], p.point.as_slice());
    assert_eq!(vec![9, 8, 7], p.ciphertext);
    assert_eq!(91, p.der.len());
    assert_eq!(&m[..65], &p.der[26..]);
}

/// The handshake hash is the same on both sides, and changes with the pre-shared key.
#[test]
fn handshake_initial_state() {
    let (_, ipub) = key_pair(20);
    let a = HandshakeState::initiator_start(&[1; 32], true, Some(&ipub), None).unwrap();
    let b = HandshakeState::initiator_start(&[1; 32], true, Some(&ipub), None).unwrap();
    let c = HandshakeState::initiator_start(&[2; 32], true, Some(&ipub), None).unwrap();
    assert_eq!(a.handshake_hash(), b.handshake_hash());
    assert_ne!(a.handshake_hash(), c.handshake_hash());
    assert!(a.has_local_identity());
    assert!(a.ephemeral_public().is_empty());
    assert!(a.peer_public_der().is_none());
    assert!(a.initiator_dh_request().is_none());
    assert_eq!(Err(Error::InvalidState), a.responder_response_dh_requests().map(|_| ()));
    let (ee, se) = a.response_dh_requests(&[&ipub[..], &[0u8; 48][..]].concat()).unwrap();
    assert_eq!((LocalKey::Ephemeral, ipub), (ee.local, ee.peer));
    assert_eq!(LocalKey::Static, se.unwrap().local);
    assert!(HandshakeState::responder_dh_request(false, &ipub).unwrap().is_none());
    assert_eq!(LocalKey::Static, HandshakeState::responder_dh_request(true, &ipub).unwrap().unwrap().local);
    let d = HandshakeState::initiator_start(&[1; 32], false, None, Some(&ipub)).unwrap();
    assert_eq!(91, d.peer_public_der().unwrap().unwrap().len());
    let es = d.initiator_dh_request().unwrap();
    assert_eq!((LocalKey::Ephemeral, ipub), (es.local, es.peer));
}

#[test]
fn handshake_service_arguments() {
    assert_eq!(Ok([7u8; 32]), check_initial_knpsk0_args(&[7; 32], &[1; 100]));
    assert_eq!(Err(Error::InvalidArgument), check_initial_knpsk0_args(&[7; 31], &[1; 100]));
    assert_eq!(Err(Error::InvalidArgument), check_initial_knpsk0_args(&[7; 32], &[]));
    assert_eq!(Err(Error::InvalidArgument), check_initial_knpsk0_args(&[7; 32], &vec![1; 0x10000]));
    assert!(check_initial_knpsk0_args(&[7; 32], &vec![1; 0xffff]).is_ok());

    let (_, ipub) = key_pair(30);
    assert_eq!(Ok(([7u8; 32], ipub)), check_knpsk0_responder_args(&[7; 32], &ipub, &[4; 65]));
    assert_eq!(Err(Error::InvalidArgument), check_knpsk0_responder_args(&[7; 33], &ipub, &[4; 65]));
    assert_eq!(Err(Error::InvalidArgument), check_knpsk0_responder_args(&[7; 32], &ipub[..64], &[4; 65]));
    assert_eq!(Err(Error::InvalidArgument), check_knpsk0_responder_args(&[7; 32], &ipub, &[4; 64]));
}

#[test]
fn handshake_state_is_used_once() {
    let (_, ipub) = key_pair(31);
    let hs = HandshakeState::initiator_start(&[1; 32], true, Some(&ipub), None).unwrap();
    let hash = hs.handshake_hash();
    let mut state = NoiseHandshakeState::new(hs);
    assert!(!state.is_consumed());
    let taken = state.take().unwrap();
    assert_eq!(hash, taken.handshake_hash());
    assert!(state.is_consumed());
    assert_eq!(Err(Error::InvalidState), state.take().map(|_| ()));
}

use aes_gcm::aead::{Aead, Payload};
use aes_gcm::{Aes256Gcm, KeyInit, Nonce};
use noise::channel::Channel;
use noise::cipher::AeadRequest;
use noise::Error;

fn seal(req: &AeadRequest) -> Option<Vec<u8>> {
    let cipher = Aes256Gcm::new_from_slice(&req.key).ok()?;
    cipher
        .encrypt(Nonce::from_slice(&req.nonce), Payload { msg: &req.data, aad: &req.aad })
        .ok()
}

fn open(req: &AeadRequest) -> Option<Vec<u8>> {
    let cipher = Aes256Gcm::new_from_slice(&req.key).ok()?;
    cipher
        .decrypt(Nonce::from_slice(&req.nonce), Payload { msg: &req.data, aad: &req.aad })
        .ok()
}

fn encrypt(c: &mut Channel, pt: &[u8]) -> Result<Vec<u8>, Error> {
    let req = c.prepare_encrypt(pt)?;
    c.complete_encrypt(seal(&req))
}

fn decrypt(c: &mut Channel, ct: &[u8]) -> Result<Vec<u8>, Error> {
    let req = c.prepare_decrypt(ct)?;
    c.complete_decrypt(open(&req))
}

/// Test encryption and decryption with a pair of channels.
#[test]
fn noise_channel_encrypt_decrypt() {
    let key0 = [42u8; 32];
    let key1 = [67u8; 32];

    let mut alice = Channel::new_with_key_bytes(&key0, &key1).unwrap();
    let mut bob = Channel::new_with_key_bytes(&key1, &key0).unwrap();
    let mut corrupted = Channel::new_with_key_bytes(&key1, &key0).unwrap();

    assert!(alice.is_counterparty(&bob), "alice and bob must be counterparties");
    assert!(alice.is_counterparty(&corrupted), "alice and corrupted must be counterparties");

    for l in 0..512 {
        let msg = vec![0xff; l];

        // Synchronise the "corrupted" channel with "bob".
        corrupted.set_reader_nonce(bob.get_reader_nonce());

        let mut crypted = encrypt(&mut alice, &msg).unwrap();
        assert_eq!(false, alice.is_counterparty(&bob));
        let decrypted = decrypt(&mut bob, &crypted).unwrap();
        assert_eq!(true, alice.is_counterparty(&bob));
        assert_eq!(msg.as_slice(), decrypted.as_slice());
        assert_ne!(msg.as_slice(), crypted.as_slice());

        // Output should have lengthened due to the AEAD tag (16 bytes) and at least 1 byte
        // of padding.
        assert!(crypted.len() > l + 16);

        if l > 0 {
            // Corrupt the message
            crypted[(l * 3) % l] ^= 1;
            assert_eq!(true, decrypt(&mut corrupted, &crypted).is_err());
        }
    }
}

/// Test that a channel encrypts with consistent, known results.
#[test]
fn noise_channel_consistency() {
    let key0 = [42u8; 32];
    let key1 = [67u8; 32];

    let mut alice = Channel::new_with_key_bytes(&key0, &key1).unwrap();
    let mut bob = Channel::new_with_key_bytes(&key1, &key0).unwrap();
    assert!(alice.is_counterparty(&bob), "alice and bob must be counterparties");

    let msg = b"The quick brown fox jumps over the lazy dog.";
    let expected_crypted = [
        0xa4, 0x22, 0x1b, 0xbd, 0x65, 0xac, 0x9b, 0xd6, 0xda, 0x47, 0x2f, 0x1c, 0x4a, 0x93, 0x95,
        0x0d, 0xa1, 0x9e, 0xda, 0xcc, 0xbf, 0x61, 0xcd, 0x8e, 0x2f, 0xeb, 0xb6, 0x0d, 0xf5, 0xb2,
        0xae, 0x33, 0x4c, 0xab, 0xad, 0x4d, 0x74, 0x32, 0x1e, 0x56, 0x7b, 0x0d, 0x0c, 0x47, 0x04,
        0x29, 0xe0, 0xcb, 0xa7, 0x9c, 0x29, 0xa7, 0x9f, 0x61, 0x48, 0x77, 0x7c, 0xd0, 0x00, 0xe3,
        0x1d, 0xaa, 0x6e, 0xb7, 0x1d, 0xfe, 0x23, 0xc5, 0x9a, 0x96, 0xb2, 0xfe, 0x48, 0xc6, 0x2a,
        0x21, 0x20, 0x88, 0x21, 0xec,
    ];

    let crypted = encrypt(&mut alice, msg).unwrap();
    assert_eq!(expected_crypted, crypted.as_slice());
    assert_eq!(false, alice.is_counterparty(&bob));

    let decrypted = decrypt(&mut bob, &crypted).unwrap();
    assert_eq!(msg, decrypted.as_slice());
    assert_eq!(true, alice.is_counterparty(&bob));

    // Encrypting the same value again should use a different nonce.
    let expected_crypted2 = [
        0x15, 0xad, 0x06, 0x40, 0x3f, 0x68, 0xfc, 0xed, 0x80, 0x2b, 0x37, 0x09, 0xac, 0x2e, 0x9a,
        0xb5, 0xed, 0x40, 0x91, 0x71, 0xc7, 0xfc, 0x23, 0xc0, 0xc0, 0xad, 0x53, 0x72, 0x97, 0xb7,
        0x00, 0x19, 0x04, 0x2e, 0x73, 0x32, 0x1b, 0xdd, 0x4d, 0x03, 0x8f, 0xe0, 0x23, 0x74, 0x19,
        0x60, 0xfc, 0x82, 0x43, 0x82, 0xda, 0x53, 0x87, 0xd9, 0x3b, 0x42, 0x32, 0x72, 0x7b, 0x89,
        0xfc, 0x86, 0xac, 0x08, 0x9b, 0xc2, 0x95, 0xba, 0x14, 0x3a, 0x86, 0x79, 0x68, 0x44, 0x3b,
        0xe8, 0x54, 0x06, 0x73, 0xda,
    ];
    let crypted = encrypt(&mut alice, msg).unwrap();
    assert_eq!(expected_crypted2, crypted.as_slice());
    assert_eq!(false, alice.is_counterparty(&bob));

    let decrypted = decrypt(&mut bob, &crypted).unwrap();
    assert_eq!(msg, decrypted.as_slice());
    assert_eq!(true, alice.is_counterparty(&bob));
}

#[test]
fn channel_without_keys_is_invalid_state() {
    let mut c = Channel::new();
    assert!(!c.has_keys());
    assert_eq!(Err(Error::InvalidState), c.prepare_encrypt(b"x").map(|_| ()));
    assert_eq!(Err(Error::InvalidState), c.prepare_decrypt(b"x").map(|_| ()));
    assert_eq!(Err(Error::InvalidState), c.complete_encrypt(Some(vec![1, 2])));
    assert_eq!(Err(Error::InvalidState), c.complete_decrypt(Some(vec![0])));
    assert_eq!(0, c.get_writer_nonce());
}

#[test]
fn exhausted_nonce_fails() {
    let mut c = Channel::new_with_key_bytes(&[1; 32], &[2; 32]).unwrap();
    c.set_writer_nonce(u64::MAX);
    assert_eq!(Err(Error::Failure), c.prepare_encrypt(b"x").map(|_| ()));
    assert_eq!(Err(Error::Failure), c.complete_encrypt(Some(vec![9])));
    assert_eq!(u64::MAX, c.get_writer_nonce());
    c.set_writer_nonce(u64::MAX - 1);
    assert_eq!(Ok(vec![9]), c.complete_encrypt(Some(vec![9])));
    assert_eq!(u64::MAX, c.get_writer_nonce());
}

#[test]
fn failed_seal_keeps_nonce() {
    let mut c = Channel::new_with_key_bytes(&[1; 32], &[2; 32]).unwrap();
    assert_eq!(Err(Error::Failure), c.complete_encrypt(None));
    assert_eq!(0, c.get_writer_nonce());
    assert_eq!(Err(Error::Failure), c.complete_decrypt(None));
    assert_eq!(0, c.get_reader_nonce());
}

#[test]
fn channel_keys_from_slices() {
    let mut c = Channel::new();
    assert!(!c.has_keys());
    assert_eq!(Err(Error::InvalidArgument), c.initialize_keys_from_slices(&[1; 31], &[2; 32]));
    assert_eq!(Err(Error::InvalidArgument), c.initialize_keys_from_slices(&[1; 32], &[2; 33]));
    assert!(!c.has_keys());
    c.set_writer_nonce(5);
    assert_eq!(Ok(()), c.initialize_keys_from_slices(&[1; 32], &[2; 32]));
    assert!(c.has_keys());
    assert_eq!(0, c.get_writer_nonce());
    let other = Channel::new_with_key_bytes(&[2; 32], &[1; 32]).unwrap();
    assert!(c.is_counterparty(&other));
}

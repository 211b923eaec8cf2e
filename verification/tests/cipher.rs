use noise::cipher::{
    decrypt_request, decrypt_result, encrypt_request, nonce_bytes, pad, pad_len, unpad,
};
use noise::cipher_state::CipherState;
use noise::Error;

#[test]
fn pad_len_values() {
    assert_eq!(32, pad_len(0));
    assert_eq!(32, pad_len(31));
    assert_eq!(64, pad_len(32));
    assert_eq!(64, pad_len(44));
    assert_eq!(512, pad_len(511));
    assert_eq!(544, pad_len(512));
}

#[test]
fn pad_and_unpad() {
    let p = pad(b"abc");
    assert_eq!(32, p.len());
    assert_eq!(b"abc", &p[..3]);
    assert!(p[3..31].iter().all(|&b| b == 0));
    assert_eq!(28, p[31]);
    assert_eq!(Some(b"abc".to_vec()), unpad(p));

    let p = pad(&[]);
    assert_eq!(31, p[31]);
    assert_eq!(Some(vec![]), unpad(p));

    let p = pad(&[7u8; 32]);
    assert_eq!(64, p.len());
    assert_eq!(31, p[63]);
    assert_eq!(Some(vec![7u8; 32]), unpad(p));
}

#[test]
fn unpad_rejects_bad_padding() {
    assert_eq!(None, unpad(vec![]));
    // Padding longer than the buffer.
    assert_eq!(None, unpad(vec![0, 5]));
    // Padding longer than 32 bytes.
    let mut v = vec![0u8; 64];
    v[63] = 32;
    assert_eq!(None, unpad(v));
    // Exactly 32 bytes of padding is fine.
    let mut v = vec![0u8; 40];
    v[39] = 31;
    assert_eq!(Some(vec![0u8; 8]), unpad(v));
}

#[test]
fn nonce_is_big_endian_counter() {
    assert_eq!([0u8; 12], nonce_bytes(0));
    assert_eq!([0, 0, 0, 0, 0, 0, 0, 0, 0, 0, 1, 2], nonce_bytes(0x102));
    assert_eq!(
        [0, 0, 0, 0, 0x01, 0x23, 0x45, 0x67, 0x89, 0xab, 0xcd, 0xef],
        nonce_bytes(0x0123_4567_89ab_cdef)
    );
    // Distinct counters give distinct nonces.
    for (a, b) in [(0u64, 1u64), (1, 0x100), (0xff, 0xff00), (u64::MAX - 1, u64::MAX)] {
        assert_ne!(nonce_bytes(a), nonce_bytes(b));
    }
}

#[test]
fn requests() {
    let k = [5u8; 32];
    let r = encrypt_request(&k, 3, b"ad", b"hi");
    assert_eq!(k, r.key);
    assert_eq!(nonce_bytes(3), r.nonce);
    assert_eq!(b"ad".to_vec(), r.aad);
    assert_eq!(pad(b"hi"), r.data);
    let r = decrypt_request(&k, 4, b"", b"ct");
    assert_eq!(nonce_bytes(4), r.nonce);
    assert_eq!(b"ct".to_vec(), r.data);
}

#[test]
fn decrypt_result_errors() {
    assert_eq!(Err(Error::Failure), decrypt_result(None));
    assert_eq!(Err(Error::Failure), decrypt_result(Some(vec![0, 9])));
    assert_eq!(Ok(vec![1]), decrypt_result(Some(vec![1, 0])));
}

#[test]
fn cipher_state_basics() {
    let mut cs = CipherState::new();
    assert!(!cs.has_key());
    assert_eq!(Err(Error::InvalidState), cs.prepare_encrypt_with_ad(b"", b"").map(|_| ()));
    cs.initialize_key_bytes(&[3; 32]).unwrap();
    assert!(cs.has_key());
    assert_eq!(0, cs.get_nonce());
    let req = cs.prepare_encrypt_with_ad(b"a", b"b").unwrap();
    assert_eq!([3; 32], req.key);
    assert_eq!(Ok(vec![1, 2, 3]), cs.complete_encrypt_with_ad(Some(vec![1, 2, 3])));
    assert_eq!(1, cs.get_nonce());
    // A malformed padding does not advance the nonce.
    assert_eq!(Err(Error::Failure), cs.complete_decrypt_with_ad(Some(vec![0, 40])));
    assert_eq!(1, cs.get_nonce());
    assert_eq!(Ok(vec![]), cs.complete_decrypt_with_ad(Some(vec![0])));
    assert_eq!(2, cs.get_nonce());

    let other = CipherState::new_with_key_bytes(&[3; 32]).unwrap();
    assert!(cs != other);
    let mut other = other;
    other.set_nonce(2);
    assert!(cs == other);
    assert!(CipherState::new() == CipherState::default());
}

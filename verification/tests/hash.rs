use noise::hash::{hkdf, hmac, sha256};

fn unhex(s: &str) -> Vec<u8> {
    (0..s.len())
        .step_by(2)
        .map(|i| u8::from_str_radix(&s[i..i + 2], 16).unwrap())
        .collect()
}

#[test]
fn sha256_abc() {
    assert_eq!(
        unhex("ba7816bf8f01cfea414140de5dae2223b00361a396177a9cb410ff61f20015ad"),
        sha256(b"abc").to_vec()
    );
}

/// RFC 4231, test case 2.
#[test]
fn hmac_rfc4231_case2() {
    let r = hmac(b"Jefe", b"what do ya want for nothing?");
    assert_eq!(
        unhex("5bdcc146bf60754e6a042426089575c75a003f089d2739839dec58b964ec3843"),
        r.to_vec()
    );
}

/// RFC 4231, test case 6: a key longer than a block is hashed first.
#[test]
fn hmac_rfc4231_case6_long_key() {
    let key = vec![0xaau8; 131];
    let r = hmac(&key, b"Test Using Larger Than Block-Size Key - Hash Key First");
    assert_eq!(
        unhex("60e431591ee0b67f0d8a26aacbf5b77f8e0bc6213728c5140546040f0ee37f54"),
        r.to_vec()
    );
}

/// RFC 5869, test case 1.
#[test]
fn hkdf_rfc5869_case1() {
    let ikm = vec![0x0bu8; 22];
    let salt = unhex("000102030405060708090a0b0c");
    let info = unhex("f0f1f2f3f4f5f6f7f8f9");
    let okm = hkdf(&salt, &ikm, &info, 42);
    assert_eq!(
        unhex("3cb25f25faacd57a90434f64d0362f2a2d2d0a90cf1a5a4c5db02d56ecc4c5bf34007208d5b887185865"),
        okm
    );
}

/// RFC 5869, test case 3: empty salt and info.
#[test]
fn hkdf_rfc5869_case3() {
    let ikm = vec![0x0bu8; 22];
    let okm = hkdf(&[], &ikm, &[], 42);
    assert_eq!(
        unhex("8da4e775a563c18f715f802a063c5a31b8a11f5c5ee1879ec3454e5f3c738d2d9d201395faa4b61a96c8"),
        okm
    );
}

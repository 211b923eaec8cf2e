use noise::ec::ec2_pubkey_to_compressed_sec1;
use noise::cable::{classify_response, frame_request, CableMessage, MSG_TYPE_CTAP};
use noise::ec::{
    classify_key_data, sec1_ec2_key_to_der, uncompressed_from_key_data_alt, KeyDataForm,
    P256_X962_DER_LENGTH,
};
use noise::Error;

#[test]
fn cable_framing() {
    assert_eq!(vec![MSG_TYPE_CTAP, 0xa1, 0x01], frame_request(vec![0xa1, 0x01]));
    assert_eq!(vec![1], frame_request(vec![]));

    assert_eq!(CableMessage::Empty, classify_response(&[]));
    assert_eq!(CableMessage::Shutdown, classify_response(&[0, 9]));
    assert_eq!(CableMessage::Ctap(vec![0xa1, 0x01]), classify_response(&[1, 0xa1, 0x01]));
    assert_eq!(CableMessage::Ctap(vec![]), classify_response(&[1]));
    assert_eq!(CableMessage::LinkingInfo, classify_response(&[2, 5, 6]));
    assert_eq!(CableMessage::Unexpected(7), classify_response(&[7]));

    // A framed request classifies back to its payload.
    let framed = frame_request(vec![4, 5, 6]);
    assert_eq!(CableMessage::Ctap(vec![4, 5, 6]), classify_response(&framed));
}

#[test]
fn ec_der_conversion() {
    let mut point = [7u8; 65];
    point[0] = 4;
    let der = sec1_ec2_key_to_der(&point).unwrap();
    assert_eq!(P256_X962_DER_LENGTH, der.len());
    assert_eq!(
        [
            0x30, 0x59, 0x30, 0x13, 0x06, 0x07, 0x2a, 0x86, 0x48, 0xce, 0x3d, 0x02, 0x01, 0x06,
            0x08, 0x2a, 0x86, 0x48, 0xce, 0x3d, 0x03, 0x01, 0x07, 0x03, 0x42, 0x00
        ]
        .as_slice(),
        &der[..26]
    );
    assert_eq!(point.as_slice(), &der[26..]);

    point[0] = 2;
    assert_eq!(Err(Error::InvalidArgument), sec1_ec2_key_to_der(&point));
}

#[test]
fn ec_key_data_forms() {
    let mut point = [9u8; 65];
    point[0] = 4;
    assert!(matches!(classify_key_data(&point), KeyDataForm::Uncompressed(p) if p == point));
    let mut compressed = [9u8; 33];
    compressed[0] = 3;
    assert!(matches!(classify_key_data(&compressed), KeyDataForm::Compressed));
    compressed[0] = 4;
    assert!(matches!(classify_key_data(&compressed), KeyDataForm::Invalid));
    assert!(matches!(classify_key_data(&point[..64]), KeyDataForm::Invalid));

    let mut alt = vec![0x04, 0x41];
    alt.extend_from_slice(&point);
    assert_eq!(Ok(point), uncompressed_from_key_data_alt(&alt));
    alt[1] = 0x40;
    assert_eq!(Err(Error::InvalidArgument), uncompressed_from_key_data_alt(&alt));
    assert_eq!(Err(Error::InvalidArgument), uncompressed_from_key_data_alt(&point));
}

#[test]
fn ec_compress() {
    let mut point = [0u8; 65];
    for (i, b) in point.iter_mut().enumerate() {
        *b = i as u8;
    }
    point[0] = 4;
    // y ends in 64, even.
    let c = ec2_pubkey_to_compressed_sec1(&point).unwrap();
    assert_eq!(2, c[0]);
    assert_eq!(&point[1..33], &c[1..]);
    point[64] = 65;
    assert_eq!(3, ec2_pubkey_to_compressed_sec1(&point).unwrap()[0]);
    point[0] = 3;
    assert_eq!(Err(Error::InvalidArgument), ec2_pubkey_to_compressed_sec1(&point));
}

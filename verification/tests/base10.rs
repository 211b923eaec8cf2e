use noise::base10::{decode, decoded_size, encode, encoded_size};
use noise::Error;

#[test]
fn base10_sizes() {
    let sizes = [0, 3, 5, 8, 10, 13, 15, 17, 20];
    for (len, digits) in sizes.iter().enumerate() {
        assert_eq!(*digits, encoded_size(len));
        assert_eq!(Some(len), decoded_size(*digits));
    }
    assert_eq!(34, encoded_size(14));
    assert_eq!(Some(14), decoded_size(34));
    for bad in [1, 2, 4, 6, 7, 9, 11, 12, 14, 16, 18] {
        assert_eq!(None, decoded_size(bad), "{bad} digits");
    }
}

#[test]
fn base10_encode_values() {
    assert_eq!(b"".to_vec(), encode(&[]));
    assert_eq!(b"255".to_vec(), encode(&[0xff]));
    assert_eq!(b"001".to_vec(), encode(&[1]));
    assert_eq!(b"00197121".to_vec(), encode(&[1, 2, 3]));
    assert_eq!(b"72057594037927935".to_vec(), encode(&[0xff; 7]));
    assert_eq!(b"00000000000000001255".to_vec(), encode(&[1, 0, 0, 0, 0, 0, 0, 0xff]));
}

#[test]
fn base10_round_trip() {
    for len in 0..40usize {
        let data: Vec<u8> = (0..len).map(|i| (i * 37 + 11) as u8).collect();
        let digits = encode(&data);
        assert_eq!(encoded_size(len), digits.len());
        assert!(digits.iter().all(|d| d.is_ascii_digit()));
        assert_eq!(Ok(data), decode(&digits));
    }
}

#[test]
fn base10_decode_rejects() {
    // Invalid length.
    assert_eq!(Err(Error::InvalidArgument), decode(b"1"));
    assert_eq!(Err(Error::InvalidArgument), decode(b"1234"));
    // Not a digit.
    assert_eq!(Err(Error::InvalidArgument), decode(b"2a5"));
    // Too large for one byte.
    assert_eq!(Err(Error::InvalidArgument), decode(b"256"));
    // Too large for seven bytes.
    assert_eq!(Err(Error::InvalidArgument), decode(b"72057594037927936"));
    assert_eq!(Ok(vec![0xff; 7]), decode(b"72057594037927935"));
    assert_eq!(Ok(vec![]), decode(b""));
}

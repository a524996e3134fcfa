use rcli::{process_decode, process_encode, B64Format, CryptoError};

#[test]
fn test_encode() {
    assert_eq!(
        process_encode(b"hello world", B64Format::Standard),
        b"aGVsbG8gd29ybGQ=".to_vec()
    );
    assert_eq!(
        process_encode(b"hello world", B64Format::UrlSafe),
        b"aGVsbG8gd29ybGQ".to_vec()
    );
}

#[test]
fn test_decode() {
    assert_eq!(
        process_decode(b"aGVsbG8gd29ybGQ=", B64Format::Standard).unwrap(),
        b"hello world".to_vec()
    );
    assert_eq!(
        process_decode(b"aGVsbG8gd29ybGQ", B64Format::UrlSafe).unwrap(),
        b"hello world".to_vec()
    );
}

#[test]
fn test_decode_trims_trailing_whitespace() {
    assert_eq!(
        process_decode(b"aGVsbG8gd29ybGQ=\n", B64Format::Standard).unwrap(),
        b"hello world".to_vec()
    );
}

#[test]
fn test_decode_rejects_bad_text() {
    assert_eq!(
        process_decode(b"!!!", B64Format::Standard),
        Err(CryptoError::EncodingError)
    );
    assert_eq!(
        process_decode(b"aGVsbG8gd29ybGQ=", B64Format::UrlSafe),
        Err(CryptoError::EncodingError)
    );
}

#[test]
fn test_encode_decode_round_trip() {
    let mut data: Vec<u8> = Vec::new();
    for i in 0..=255u8 {
        data.push(i);
    }
    let std_text = process_encode(&data, B64Format::Standard);
    assert_eq!(process_decode(&std_text, B64Format::Standard).unwrap(), data);
    let url_text = process_encode(&data, B64Format::UrlSafe);
    assert_eq!(process_decode(&url_text, B64Format::UrlSafe).unwrap(), data);
    // the two alphabets really differ on these bytes
    assert_ne!(std_text, url_text);
}

#[test]
fn test_encode_empty() {
    assert_eq!(process_encode(b"", B64Format::Standard), Vec::<u8>::new());
    assert_eq!(process_decode(b"", B64Format::UrlSafe).unwrap(), Vec::<u8>::new());
}

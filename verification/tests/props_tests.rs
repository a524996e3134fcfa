use rcli::{
    process_text_decrypt, process_text_encrypt, process_text_generate_key, process_text_sign,
    process_text_verify, CryptoError, TextFormat,
};

#[test]
fn test_short_key_fails_every_variant() {
    let short = [0u8; 31];
    let msg = b"hello world";
    assert_eq!(
        process_text_sign(&short, msg, TextFormat::Blake3),
        Err(CryptoError::KeyLoadError)
    );
    assert_eq!(
        process_text_sign(&short, msg, TextFormat::Ed25519),
        Err(CryptoError::KeyLoadError)
    );
    assert_eq!(
        process_text_verify(&short, msg, TextFormat::Blake3, &[0u8; 32]),
        Err(CryptoError::KeyLoadError)
    );
    assert_eq!(
        process_text_verify(&short, msg, TextFormat::Ed25519, &[0u8; 64]),
        Err(CryptoError::KeyLoadError)
    );
    assert_eq!(
        process_text_encrypt(&short, msg, TextFormat::ChaCha20),
        Err(CryptoError::KeyLoadError)
    );
    assert_eq!(
        process_text_decrypt(&short, msg, TextFormat::ChaCha20),
        Err(CryptoError::KeyLoadError)
    );
}

#[test]
fn test_unsupported_capabilities() {
    let key = [0u8; 32];
    let msg = b"hello world";
    assert_eq!(
        process_text_encrypt(&key, msg, TextFormat::Blake3),
        Err(CryptoError::UnsupportedOperation)
    );
    assert_eq!(
        process_text_encrypt(&key, msg, TextFormat::Ed25519),
        Err(CryptoError::UnsupportedOperation)
    );
    assert_eq!(
        process_text_sign(&key, msg, TextFormat::ChaCha20),
        Err(CryptoError::UnsupportedOperation)
    );
    assert_eq!(
        process_text_verify(&key, msg, TextFormat::ChaCha20, &[0u8; 32]),
        Err(CryptoError::UnsupportedOperation)
    );
    assert_eq!(
        process_text_decrypt(&key, msg, TextFormat::Blake3),
        Err(CryptoError::UnsupportedOperation)
    );
    assert_eq!(
        process_text_decrypt(&key, msg, TextFormat::Ed25519),
        Err(CryptoError::UnsupportedOperation)
    );
}

#[test]
fn test_keyed_hash_zero_key_scenario() {
    let key = [0u8; 32];
    let msg = b"hello world";
    let digest = process_text_sign(&key, msg, TextFormat::Blake3).unwrap();
    assert_eq!(digest.len(), 32);
    assert_ne!(digest.as_slice(), &msg[..]);

    assert_eq!(
        process_text_verify(&key, msg, TextFormat::Blake3, &digest),
        Ok(true)
    );

    let mut flipped = digest.clone();
    flipped[0] ^= 1;
    assert_eq!(
        process_text_verify(&key, msg, TextFormat::Blake3, &flipped),
        Ok(false)
    );
}

#[test]
fn test_keyed_hash_depends_on_key() {
    let msg = b"hello world";
    let d0 = process_text_sign(&[0u8; 32], msg, TextFormat::Blake3).unwrap();
    let d1 = process_text_sign(&[1u8; 32], msg, TextFormat::Blake3).unwrap();
    assert_ne!(d0, d1);
}

#[test]
fn test_asymmetric_keypair_scenario() {
    let keys = process_text_generate_key(TextFormat::Ed25519).unwrap();
    assert_eq!(keys.len(), 2);
    assert_eq!(keys[0].len(), 32);
    assert_eq!(keys[1].len(), 32);
    assert_ne!(keys[0], keys[1]);

    let msg = b"hello world";
    let sig = process_text_sign(&keys[0], msg, TextFormat::Ed25519).unwrap();
    assert_eq!(sig.len(), 64);
    assert_eq!(
        process_text_verify(&keys[1], msg, TextFormat::Ed25519, &sig),
        Ok(true)
    );

    let other = process_text_generate_key(TextFormat::Ed25519).unwrap();
    assert_ne!(other[1], keys[1]);
    assert_eq!(
        process_text_verify(&other[1], msg, TextFormat::Ed25519, &sig),
        Ok(false)
    );
}

#[test]
fn test_asymmetric_signature_bit_flip() {
    let keys = process_text_generate_key(TextFormat::Ed25519).unwrap();
    let msg = b"hello world";
    let sig = process_text_sign(&keys[0], msg, TextFormat::Ed25519).unwrap();

    // a length-preserving flip is a mismatch, not an error
    let mut flipped = sig.clone();
    flipped[0] ^= 1;
    assert_eq!(
        process_text_verify(&keys[1], msg, TextFormat::Ed25519, &flipped),
        Ok(false)
    );

    // wrong-length signature bytes are malformed
    assert_eq!(
        process_text_verify(&keys[1], msg, TextFormat::Ed25519, &sig[..63]),
        Err(CryptoError::CryptoFailure)
    );
}

#[test]
fn test_generate_key_shapes() {
    let one = process_text_generate_key(TextFormat::Blake3).unwrap();
    assert_eq!(one.len(), 1);
    assert_eq!(one[0].len(), 32);

    let two = process_text_generate_key(TextFormat::ChaCha20).unwrap();
    assert_eq!(two.len(), 1);
    assert_eq!(two[0].len(), 32);

    // fresh draws differ
    let again = process_text_generate_key(TextFormat::Blake3).unwrap();
    assert_ne!(one[0], again[0]);
}

#[test]
fn test_encrypt_decrypt_round_trip() {
    let key = [3u8; 32];
    let plain = b"a rather longer message, with punctuation -- and trailing space ";
    let wire = process_text_encrypt(&key, plain, TextFormat::ChaCha20).unwrap();
    let text = rcli::process_encode(&wire, rcli::B64Format::UrlSafe);
    let back = process_text_decrypt(&key, &text, TextFormat::ChaCha20).unwrap();
    // trailing whitespace is trimmed before encryption
    assert_eq!(back, b"a rather longer message, with punctuation -- and trailing space");
}

#[test]
fn test_decrypt_rejects_bad_encoding() {
    let key = [3u8; 32];
    assert_eq!(
        process_text_decrypt(&key, b"!!!not/base64!!!", TextFormat::ChaCha20),
        Err(CryptoError::EncodingError)
    );
}

#[test]
fn test_error_messages() {
    assert_eq!(
        CryptoError::KeyLoadError.message(),
        "key source too short or malformed"
    );
    assert_eq!(
        CryptoError::UnsupportedOperation.message(),
        "operation not supported by this format"
    );
}

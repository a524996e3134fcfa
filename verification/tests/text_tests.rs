use rcli::{
    Blake3, Chacha20, CryptoError, Ed25519Singer, Ed25519Verifier, KeyLoader, TextDecrypt,
    TextEncrypt, TextFormat, TextSign, TextVerify, B64Format,
};

#[test]
fn test_blake3_sign_verify() {
    let key = [7u8; 32];
    let signer = Blake3::try_new(&key).unwrap();
    let data = b"hello world";
    let sig = signer.sign(&data[..]).unwrap();

    assert!(signer.verify(&data[..], &sig).unwrap());
}

#[test]
fn test_ed25519_sign_verify() {
    let keys = rcli::process_text_generate_key(TextFormat::Ed25519).unwrap();
    let signer = Ed25519Singer::try_new(keys[0].as_slice()).unwrap();
    let data = b"hello world";
    let sig = signer.sign(&data[..]).unwrap();

    let verifier = Ed25519Verifier::try_new(keys[1].as_slice()).unwrap();
    assert!(verifier.verify(&data[..], &sig).unwrap());
}

#[test]
fn test_chacha20_encrypt_decrypt() {
    let key = [42u8; 32];
    let data = b"Cargo.toml";
    let encryptor: Chacha20 = Chacha20::load_key(&key).unwrap();
    let cipher_text = encryptor.encrypt(&data[..]).unwrap();

    let cipher_text = rcli::process_encode(&cipher_text, B64Format::UrlSafe);

    let res = rcli::process_text_decrypt(&key, &cipher_text, TextFormat::ChaCha20).unwrap();
    assert_eq!(res, data);
}

#[test]
fn test_chacha20_wire_layout() {
    let key = [42u8; 32];
    let data = b"Cargo.toml";
    let cipher = Chacha20::try_new(&key).unwrap();
    let wire = cipher.encrypt(&data[..]).unwrap();

    // nonce (12 bytes), then ciphertext with its 16-byte tag
    assert_eq!(wire.len(), data.len() + 28);
    assert_ne!(&wire[12..12 + data.len()], &data[..]);

    let back = cipher.decrypt(&wire).unwrap();
    assert_eq!(back, data);
}

#[test]
fn test_chacha20_trims_trailing_whitespace() {
    let key = [5u8; 32];
    let cipher = Chacha20::try_new(&key).unwrap();
    let wire = cipher.encrypt(&b"Cargo.toml\n"[..]).unwrap();
    assert_eq!(cipher.decrypt(&wire).unwrap(), b"Cargo.toml");
}

#[test]
fn test_chacha20_rejects_tampering() {
    let key = [9u8; 32];
    let cipher = Chacha20::try_new(&key).unwrap();
    let mut wire = cipher.encrypt(&b"hello world"[..]).unwrap();
    let last = wire.len() - 1;
    wire[last] ^= 1;
    assert_eq!(cipher.decrypt(&wire), Err(CryptoError::CryptoFailure));
}

#[test]
fn test_chacha20_rejects_wrong_key() {
    let cipher = Chacha20::try_new(&[1u8; 32]).unwrap();
    let wire = cipher.encrypt(&b"hello world"[..]).unwrap();
    let other = Chacha20::try_new(&[2u8; 32]).unwrap();
    assert_eq!(other.decrypt(&wire), Err(CryptoError::CryptoFailure));
}

#[test]
fn test_chacha20_rejects_short_wire() {
    let cipher = Chacha20::try_new(&[1u8; 32]).unwrap();
    assert_eq!(cipher.decrypt(&[1u8, 2u8, 3u8]), Err(CryptoError::CryptoFailure));
}

#[test]
fn test_blake3_verify_any_signature_length() {
    let signer = Blake3::try_new(&[0u8; 32]).unwrap();
    // a wrong-length signature is a mismatch, not an error
    assert!(!signer.verify(&b"hello"[..], &b"too short"[..]).unwrap());
}

#[test]
fn test_constructors_agree() {
    let key = [11u8; 32];
    let a = Blake3::new(key);
    let b = Blake3::try_new(&key).unwrap();
    let msg = b"the same key signs the same way";
    assert_eq!(a.sign(&msg[..]).unwrap(), b.sign(&msg[..]).unwrap());

    let signer = Ed25519Singer::new(key);
    let same = Ed25519Singer::try_new(&key).unwrap();
    assert_eq!(signer.sign(&msg[..]).unwrap(), same.sign(&msg[..]).unwrap());

    let cipher = Chacha20::new(key);
    let wire = cipher.encrypt(&msg[..]).unwrap();
    assert_eq!(Chacha20::try_new(&key).unwrap().decrypt(&wire).unwrap(), msg);
}

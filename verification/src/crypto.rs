use vstd::prelude::*;

use chacha20poly1305::aead::{Aead, AeadCore, KeyInit, OsRng};
use chacha20poly1305::ChaCha20Poly1305;
use ed25519_dalek::{Signer, Verifier};
use rand::RngCore;

verus! {

/// The keyed digest of a message under a 32-byte key, 32 bytes long.
pub uninterp spec fn blake3_keyed(key: Seq<u8>, msg: Seq<u8>) -> Seq<u8>;

/// The deterministic signature of a message under a 32-byte private key,
/// 64 bytes long.
pub uninterp spec fn ed25519_signature(key: Seq<u8>, msg: Seq<u8>) -> Seq<u8>;

/// The 32-byte public key belonging to a 32-byte private key.
pub uninterp spec fn ed25519_public(key: Seq<u8>) -> Seq<u8>;

/// Whether 32 bytes decompress to a point of the curve, that is, form a
/// usable public key.
pub uninterp spec fn ed25519_valid_public(key: Seq<u8>) -> bool;

/// Whether a signature checks out under a public key; false whenever the
/// key bytes are not a usable public key.
pub uninterp spec fn ed25519_verifies(key: Seq<u8>, msg: Seq<u8>, sig: Seq<u8>) -> bool;

/// The ciphertext, authentication tag appended, of a plaintext under a
/// 32-byte key and a 12-byte nonce.
pub uninterp spec fn chacha_seal(key: Seq<u8>, nonce: Seq<u8>, msg: Seq<u8>) -> Seq<u8>;

/// What opening a tagged ciphertext under a key and nonce yields: the
/// plaintext, or nothing when the tag does not verify.
pub uninterp spec fn chacha_open(key: Seq<u8>, nonce: Seq<u8>, ct: Seq<u8>) -> Option<Seq<u8>>;

/// Relies on blake3::keyed_hash: a 32-byte digest that depends on the key
/// and message bytes alone.
#[verifier::external_body]
pub(crate) fn keyed_hash(key: &[u8; 32], msg: &[u8]) -> (r: Vec<u8>)
    ensures
        r@ == blake3_keyed(key@, msg@),
        r@.len() == 32,
{
    blake3::keyed_hash(key, msg).as_bytes().to_vec()
}

/// Relies on ed25519_dalek's SigningKey::sign: deterministic in key and
/// message, 64 bytes, and checked successfully by the matching public key.
#[verifier::external_body]
pub(crate) fn ed25519_sign_bytes(key: &[u8; 32], msg: &[u8]) -> (r: Vec<u8>)
    ensures
        r@ == ed25519_signature(key@, msg@),
        r@.len() == 64,
        ed25519_verifies(ed25519_public(key@), msg@, r@),
{
    let signing_key = ed25519_dalek::SigningKey::from_bytes(key);
    signing_key.sign(msg).to_bytes().to_vec()
}

/// Relies on ed25519_dalek's SigningKey::verifying_key: the public key is a
/// function of the private key bytes, and is always a usable public key.
#[verifier::external_body]
pub(crate) fn ed25519_public_bytes(key: &[u8; 32]) -> (r: [u8; 32])
    ensures
        r@ == ed25519_public(key@),
        ed25519_valid_public(r@),
{
    ed25519_dalek::SigningKey::from_bytes(key).verifying_key().to_bytes()
}

/// Relies on ed25519_dalek's VerifyingKey::from_bytes: it succeeds exactly
/// when the bytes decompress to a point of the curve.
#[verifier::external_body]
pub(crate) fn ed25519_check_public(key: &[u8; 32]) -> (r: bool)
    ensures
        r == ed25519_valid_public(key@),
{
    ed25519_dalek::VerifyingKey::from_bytes(key).is_ok()
}

/// Relies on ed25519_dalek's VerifyingKey::verify: deterministic in key,
/// message and signature; unusable key bytes never check out.
#[verifier::external_body]
pub(crate) fn ed25519_verify_bytes(key: &[u8; 32], msg: &[u8], sig: &[u8; 64]) -> (r: bool)
    ensures
        r == ed25519_verifies(key@, msg@, sig@),
{
    match ed25519_dalek::VerifyingKey::from_bytes(key) {
        Ok(verifying_key) => {
            let signature = ed25519_dalek::Signature::from_bytes(sig);
            verifying_key.verify(msg, &signature).is_ok()
        },
        Err(_) => false,
    }
}

/// Relies on ed25519_dalek's SigningKey::generate over the operating
/// system's secure randomness; nothing is promised of the drawn bytes.
#[verifier::external_body]
pub(crate) fn ed25519_generate_secret() -> [u8; 32] {
    ed25519_dalek::SigningKey::generate(&mut OsRng).to_bytes()
}

/// Relies on chacha20poly1305's encryption: deterministic in key, nonce and
/// plaintext; the tag makes the result 16 bytes longer; opening it under
/// the same key and nonce gives the plaintext back. The primitive refuses
/// only a plaintext of 2^38 - 64 bytes or more.
#[verifier::external_body]
pub(crate) fn aead_seal(key: &[u8; 32], nonce: &[u8; 12], msg: &[u8]) -> (r: Option<Vec<u8>>)
    ensures
        r matches Some(c) ==> c@ == chacha_seal(key@, nonce@, msg@),
        r matches Some(c) ==> c@.len() == msg@.len() + 16,
        r matches Some(c) ==> chacha_open(key@, nonce@, c@) == Some(msg@),
        msg@.len() < 0x3fffffffc0 ==> r is Some,
{
    let cipher = ChaCha20Poly1305::new(chacha20poly1305::Key::from_slice(key));
    cipher.encrypt(chacha20poly1305::Nonce::from_slice(nonce), msg).ok()
}

/// Relies on chacha20poly1305's decryption: deterministic in key, nonce and
/// ciphertext; it yields the plaintext, 16 bytes shorter, exactly when the
/// tag verifies.
#[verifier::external_body]
pub(crate) fn aead_open(key: &[u8; 32], nonce: &[u8; 12], ct: &[u8]) -> (r: Option<Vec<u8>>)
    ensures
        r matches Some(p) ==> chacha_open(key@, nonce@, ct@) == Some(p@),
        r matches Some(p) ==> p@.len() + 16 == ct@.len(),
        r is None ==> chacha_open(key@, nonce@, ct@) is None,
{
    let cipher = ChaCha20Poly1305::new(chacha20poly1305::Key::from_slice(key));
    cipher.decrypt(chacha20poly1305::Nonce::from_slice(nonce), ct).ok()
}

/// Relies on chacha20poly1305's generate_key over the operating system's
/// secure randomness; nothing is promised of the drawn bytes.
#[verifier::external_body]
pub(crate) fn chacha_generate_key() -> [u8; 32] {
    ChaCha20Poly1305::generate_key(&mut OsRng).into()
}

/// Relies on chacha20poly1305's generate_nonce over the operating system's
/// secure randomness; nothing is promised of the drawn bytes.
#[verifier::external_body]
pub(crate) fn chacha_generate_nonce() -> [u8; 12] {
    ChaCha20Poly1305::generate_nonce(&mut OsRng).into()
}

/// Relies on rand's OsRng: 32 bytes from the operating system's secure
/// randomness; nothing is promised of the drawn bytes.
#[verifier::external_body]
pub(crate) fn random_bytes_32() -> [u8; 32] {
    let mut bytes = [0u8; 32];
    rand::rngs::OsRng.fill_bytes(&mut bytes);
    bytes
}

} // verus!

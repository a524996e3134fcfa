use vstd::prelude::*;

use crate::crypto::{
    aead_open, aead_seal, blake3_keyed, chacha_generate_key, chacha_generate_nonce, chacha_open,
    chacha_seal, ed25519_check_public, ed25519_generate_secret, ed25519_public,
    ed25519_public_bytes, ed25519_sign_bytes, ed25519_signature, ed25519_valid_public,
    ed25519_verifies, ed25519_verify_bytes, keyed_hash, random_bytes_32,
};
use crate::encoding::{b64_url_decode, process_decode};
use crate::errors::{fails_with, CryptoError};
use crate::format::{B64Format, TextFormat};
use crate::trim::{lemma_trim_is_prefix, spec_trim, trim_trailing};

verus! {

/// Whether two byte slices hold the same bytes.
fn bytes_eq(a: &[u8], b: &[u8]) -> (r: bool)
    ensures
        r == (a@ == b@),
{
    if a.len() != b.len() {
        return false;
    }
    let n = a.len();
    let mut i: usize = 0;
    while i < n
        invariant
            n == a@.len() == b@.len(),
            0 <= i <= n,
            forall|j: int| 0 <= j < i ==> a@[j] == b@[j],
        decreases n - i,
    {
        if a[i] != b[i] {
            return false;
        }
        i = i + 1;
    }
    proof {
        assert(a@ =~= b@);
    }
    true
}

/// The first `N` bytes of a slice, as an array.
fn copy_bytes<const N: usize>(s: &[u8]) -> (r: [u8; N])
    requires
        s@.len() >= N,
    ensures
        r@ == s@.take(N as int),
{
    let mut out: [u8; N] = [0u8; N];
    let mut i: usize = 0;
    while i < N
        invariant
            0 <= i <= N,
            s@.len() >= N,
            forall|j: int| 0 <= j < i ==> out@[j] == s@[j],
        decreases N - i,
    {
        out[i] = s[i];
        i = i + 1;
    }
    proof {
        assert(out@ =~= s@.take(N as int));
    }
    out
}

/// A slice copied into an owned vector.
fn bytes_to_vec(s: &[u8]) -> (r: Vec<u8>)
    ensures
        r@ == s@,
{
    let mut out: Vec<u8> = Vec::new();
    let n = s.len();
    let mut i: usize = 0;
    while i < n
        invariant
            n == s@.len(),
            0 <= i <= n,
            out@ == s@.take(i as int),
        decreases n - i,
    {
        out.push(s[i]);
        proof {
            assert(s@.take(i + 1) =~= s@.take(i as int).push(s@[i as int]));
        }
        i = i + 1;
    }
    proof {
        assert(s@.take(n as int) =~= s@);
    }
    out
}

/// What the keyed-hash check of a signature means: an exact byte-for-byte
/// match with the recomputed digest.
pub open spec fn spec_blake3_verify(key: Seq<u8>, msg: Seq<u8>, sig: Seq<u8>) -> bool {
    sig == blake3_keyed(key, msg)
}

/// What decrypting a wire buffer means: the first 12 bytes are the nonce,
/// the rest the tagged ciphertext; a buffer too short for a nonce never
/// decrypts.
pub open spec fn spec_decrypt_wire(key: Seq<u8>, wire: Seq<u8>) -> Option<Seq<u8>> {
    if wire.len() >= 12 {
        chacha_open(key, wire.take(12), wire.skip(12))
    } else {
        None
    }
}

/// The capability of producing a signature over a message.
pub trait TextSign {
    fn sign(&self, msg: &[u8]) -> (r: Result<Vec<u8>, CryptoError>);
}

/// The capability of checking a signature over a message. A mismatch is a
/// normal `false` result; only structural problems are errors.
pub trait TextVerify {
    fn verify(&self, msg: &[u8], sig: &[u8]) -> (r: Result<bool, CryptoError>);
}

/// The capability of building key material from the bytes of a key source.
/// Every variant needs at least 32 bytes; fewer fail to load.
pub trait KeyLoader: Sized {
    fn load_key(key: &[u8]) -> (r: Result<Self, CryptoError>)
        ensures
            key@.len() < 32 ==> fails_with(r, CryptoError::KeyLoadError),
    ;
}

/// The capability of generating fresh key material: one or more 32-byte
/// sequences, drawn from a secure randomness source.
pub trait KeyGenerate {
    fn generate_key() -> (r: Result<Vec<Vec<u8>>, CryptoError>)
        ensures
            r matches Ok(ks) ==> ks@.len() >= 1 && (forall|i: int|
                0 <= i < ks@.len() ==> (#[trigger] ks@[i])@.len() == 32),
    ;
}

/// The capability of authenticated encryption.
pub trait TextEncrypt {
    fn encrypt(&self, data: &[u8]) -> (r: Result<Vec<u8>, CryptoError>);
}

/// The capability of authenticated decryption.
pub trait TextDecrypt {
    fn decrypt(&self, wire: &[u8]) -> (r: Result<Vec<u8>, CryptoError>);
}

/// The keyed-hash variant: a 32-byte symmetric key, signing by keyed
/// digest and verifying by recomputation.
#[derive(Debug)]
pub struct Blake3 {
    key: [u8; 32],
}

impl Blake3 {
    /// The key bytes this instance signs and verifies with.
    pub closed spec fn key_spec(&self) -> Seq<u8> {
        self.key@
    }

    /// Wrap a key already of the right length.
    pub fn new(key: [u8; 32]) -> (r: Self)
        ensures
            r.key_spec() == key@,
    {
        Blake3 { key }
    }

    /// Build from a byte slice that must hold exactly 32 bytes.
    pub fn try_new(key: &[u8]) -> (r: Result<Self, CryptoError>)
        ensures
            key@.len() == 32 ==> (r matches Ok(s) && s.key_spec() == key@),
            key@.len() != 32 ==> fails_with(r, CryptoError::KeyLoadError),
    {
        if key.len() != 32 {
            return Err(CryptoError::KeyLoadError);
        }
        let arr: [u8; 32] = copy_bytes::<32>(key);
        proof {
            assert(key@.take(32) =~= key@);
        }
        Ok(Blake3 { key: arr })
    }
}

impl KeyLoader for Blake3 {
    /// Take the first 32 bytes of the source; fewer fail to load, more are
    /// truncated.
    fn load_key(key: &[u8]) -> (r: Result<Self, CryptoError>)
        ensures
            key@.len() >= 32 ==> (r matches Ok(s) && s.key_spec() == key@.take(32)),
            key@.len() < 32 ==> fails_with(r, CryptoError::KeyLoadError),
    {
        if key.len() < 32 {
            return Err(CryptoError::KeyLoadError);
        }
        let arr: [u8; 32] = copy_bytes::<32>(key);
        Ok(Blake3 { key: arr })
    }
}

impl KeyGenerate for Blake3 {
    /// One fresh 32-byte key.
    fn generate_key() -> (r: Result<Vec<Vec<u8>>, CryptoError>)
        ensures
            r matches Ok(ks) && ks@.len() == 1 && (forall|i: int|
                0 <= i < ks@.len() ==> (#[trigger] ks@[i])@.len() == 32),
    {
        let key = random_bytes_32();
        let mut ks: Vec<Vec<u8>> = Vec::new();
        ks.push(bytes_to_vec(key.as_slice()));
        Ok(ks)
    }
}

impl TextSign for Blake3 {
    /// The signature is the keyed digest of the message: 32 bytes,
    /// depending on key and message alone.
    fn sign(&self, msg: &[u8]) -> (r: Result<Vec<u8>, CryptoError>)
        ensures
            r matches Ok(v) && v@ == blake3_keyed(self.key_spec(), msg@) && v@.len() == 32,
    {
        Ok(keyed_hash(&self.key, msg))
    }
}

impl TextVerify for Blake3 {
    /// Recompute the digest and compare byte for byte; a mismatch is a
    /// `false` result, never an error.
    fn verify(&self, msg: &[u8], sig: &[u8]) -> (r: Result<bool, CryptoError>)
        ensures
            r matches Ok(b) && b == spec_blake3_verify(self.key_spec(), msg@, sig@),
    {
        let digest = keyed_hash(&self.key, msg);
        Ok(bytes_eq(digest.as_slice(), sig))
    }
}

/// The signing half of the asymmetric-signature variant: a 32-byte private
/// key.
#[derive(Debug)]
pub struct Ed25519Singer {
    key: [u8; 32],
}

impl Ed25519Singer {
    /// The private-key bytes this instance signs with.
    pub closed spec fn key_spec(&self) -> Seq<u8> {
        self.key@
    }

    /// Wrap a private key already of the right length.
    pub fn new(key: [u8; 32]) -> (r: Self)
        ensures
            r.key_spec() == key@,
    {
        Ed25519Singer { key }
    }

    /// Build from a byte slice that must hold exactly 32 bytes.
    pub fn try_new(key: &[u8]) -> (r: Result<Self, CryptoError>)
        ensures
            key@.len() == 32 ==> (r matches Ok(s) && s.key_spec() == key@),
            key@.len() != 32 ==> fails_with(r, CryptoError::KeyLoadError),
    {
        if key.len() != 32 {
            return Err(CryptoError::KeyLoadError);
        }
        let arr: [u8; 32] = copy_bytes::<32>(key);
        proof {
            assert(key@.take(32) =~= key@);
        }
        Ok(Ed25519Singer { key: arr })
    }
}

impl KeyLoader for Ed25519Singer {
    /// The source must hold exactly the 32 private-key bytes.
    fn load_key(key: &[u8]) -> (r: Result<Self, CryptoError>)
        ensures
            key@.len() == 32 ==> (r matches Ok(s) && s.key_spec() == key@),
            key@.len() != 32 ==> fails_with(r, CryptoError::KeyLoadError),
    {
        Ed25519Singer::try_new(key)
    }
}

impl KeyGenerate for Ed25519Singer {
    /// A fresh keypair: the private key first, then the public key that
    /// belongs to it, each 32 bytes.
    fn generate_key() -> (r: Result<Vec<Vec<u8>>, CryptoError>)
        ensures
            r matches Ok(ks) && ks@.len() == 2 && (forall|i: int|
                0 <= i < ks@.len() ==> (#[trigger] ks@[i])@.len() == 32),
            r matches Ok(ks) ==> ks@[1]@ == ed25519_public(ks@[0]@) && ed25519_valid_public(
                ks@[1]@,
            ),
    {
        let secret = ed25519_generate_secret();
        let public = ed25519_public_bytes(&secret);
        let mut ks: Vec<Vec<u8>> = Vec::new();
        ks.push(bytes_to_vec(secret.as_slice()));
        ks.push(bytes_to_vec(public.as_slice()));
        Ok(ks)
    }
}

impl TextSign for Ed25519Singer {
    /// A deterministic 64-byte signature that the matching public key
    /// accepts.
    fn sign(&self, msg: &[u8]) -> (r: Result<Vec<u8>, CryptoError>)
        ensures
            r matches Ok(v) && v@ == ed25519_signature(self.key_spec(), msg@) && v@.len() == 64,
            r matches Ok(v) ==> ed25519_verifies(ed25519_public(self.key_spec()), msg@, v@),
    {
        Ok(ed25519_sign_bytes(&self.key, msg))
    }
}

/// The verifying half of the asymmetric-signature variant: a 32-byte
/// public key, checked for usability when loaded.
#[derive(Debug)]
pub struct Ed25519Verifier {
    key: [u8; 32],
}

impl Ed25519Verifier {
    /// The public-key bytes this instance verifies with.
    pub closed spec fn key_spec(&self) -> Seq<u8> {
        self.key@
    }

    /// Build from a byte slice: it must hold exactly 32 bytes that form a
    /// usable public key.
    pub fn try_new(key: &[u8]) -> (r: Result<Self, CryptoError>)
        ensures
            r matches Ok(v) ==> v.key_spec() == key@ && key@.len() == 32 && ed25519_valid_public(
                key@,
            ),
            key@.len() == 32 && ed25519_valid_public(key@) ==> r is Ok,
            r is Err ==> fails_with(r, CryptoError::KeyLoadError),
    {
        if key.len() != 32 {
            return Err(CryptoError::KeyLoadError);
        }
        let arr: [u8; 32] = copy_bytes::<32>(key);
        proof {
            assert(key@.take(32) =~= key@);
        }
        if ed25519_check_public(&arr) {
            Ok(Ed25519Verifier { key: arr })
        } else {
            Err(CryptoError::KeyLoadError)
        }
    }
}

impl KeyLoader for Ed25519Verifier {
    /// The source must hold exactly the 32 public-key bytes, and they must
    /// form a usable public key.
    fn load_key(key: &[u8]) -> (r: Result<Self, CryptoError>)
        ensures
            r matches Ok(v) ==> v.key_spec() == key@ && key@.len() == 32 && ed25519_valid_public(
                key@,
            ),
            key@.len() == 32 && ed25519_valid_public(key@) ==> r is Ok,
            r is Err ==> fails_with(r, CryptoError::KeyLoadError),
    {
        Ed25519Verifier::try_new(key)
    }
}

impl TextVerify for Ed25519Verifier {
    /// Deterministic verification; signature bytes of the wrong length are
    /// malformed and an error, while a mere mismatch is `false`.
    fn verify(&self, msg: &[u8], sig: &[u8]) -> (r: Result<bool, CryptoError>)
        ensures
            sig@.len() == 64 ==> (r matches Ok(b) && b == ed25519_verifies(
                self.key_spec(),
                msg@,
                sig@,
            )),
            sig@.len() != 64 ==> fails_with(r, CryptoError::CryptoFailure),
    {
        if sig.len() != 64 {
            return Err(CryptoError::CryptoFailure);
        }
        let arr: [u8; 64] = copy_bytes::<64>(sig);
        proof {
            assert(sig@.take(64) =~= sig@);
        }
        Ok(ed25519_verify_bytes(&self.key, msg, &arr))
    }
}

/// The authenticated-cipher variant: a 32-byte symmetric key and a fresh
/// 12-byte nonce for every message.
#[derive(Debug)]
pub struct Chacha20 {
    key: [u8; 32],
}

impl Chacha20 {
    /// The key bytes this instance encrypts and decrypts with.
    pub closed spec fn key_spec(&self) -> Seq<u8> {
        self.key@
    }

    /// Wrap a key already of the right length.
    pub fn new(key: [u8; 32]) -> (r: Self)
        ensures
            r.key_spec() == key@,
    {
        Chacha20 { key }
    }

    /// Build from a byte slice that must hold exactly 32 bytes.
    pub fn try_new(key: &[u8]) -> (r: Result<Self, CryptoError>)
        ensures
            key@.len() == 32 ==> (r matches Ok(s) && s.key_spec() == key@),
            key@.len() != 32 ==> fails_with(r, CryptoError::KeyLoadError),
    {
        if key.len() != 32 {
            return Err(CryptoError::KeyLoadError);
        }
        let arr: [u8; 32] = copy_bytes::<32>(key);
        proof {
            assert(key@.take(32) =~= key@);
        }
        Ok(Chacha20 { key: arr })
    }
}

impl KeyLoader for Chacha20 {
    /// Take the first 32 bytes of the source; fewer fail to load, more are
    /// truncated.
    fn load_key(key: &[u8]) -> (r: Result<Self, CryptoError>)
        ensures
            key@.len() >= 32 ==> (r matches Ok(s) && s.key_spec() == key@.take(32)),
            key@.len() < 32 ==> fails_with(r, CryptoError::KeyLoadError),
    {
        if key.len() < 32 {
            return Err(CryptoError::KeyLoadError);
        }
        let arr: [u8; 32] = copy_bytes::<32>(key);
        Ok(Chacha20 { key: arr })
    }
}

impl KeyGenerate for Chacha20 {
    /// One fresh 32-byte key.
    fn generate_key() -> (r: Result<Vec<Vec<u8>>, CryptoError>)
        ensures
            r matches Ok(ks) && ks@.len() == 1 && (forall|i: int|
                0 <= i < ks@.len() ==> (#[trigger] ks@[i])@.len() == 32),
    {
        let key = chacha_generate_key();
        let mut ks: Vec<Vec<u8>> = Vec::new();
        ks.push(bytes_to_vec(key.as_slice()));
        Ok(ks)
    }
}

impl TextEncrypt for Chacha20 {
    /// Trim trailing whitespace from the input, draw a fresh nonce, seal
    /// the trimmed plaintext, and return nonce followed by tagged
    /// ciphertext — a wire buffer that decrypts back to the trimmed
    /// plaintext under the same key.
    fn encrypt(&self, data: &[u8]) -> (r: Result<Vec<u8>, CryptoError>)
        ensures
            r matches Ok(c) ==> c@.len() == spec_trim(data@).len() + 28,
            r matches Ok(c) ==> spec_decrypt_wire(self.key_spec(), c@) == Some(spec_trim(data@)),
            r matches Ok(c) ==> c@.skip(12) == chacha_seal(
                self.key_spec(),
                c@.take(12),
                spec_trim(data@),
            ),
            spec_trim(data@).len() < 0x3fffffffc0 ==> r is Ok,
            data@.len() < 0x3fffffffc0 ==> r is Ok,
            r is Err ==> fails_with(r, CryptoError::CryptoFailure),
    {
        proof {
            lemma_trim_is_prefix(data@);
        }
        let plain = trim_trailing(data);
        let nonce = chacha_generate_nonce();
        match aead_seal(&self.key, &nonce, plain.as_slice()) {
            Some(sealed) => {
                let mut out: Vec<u8> = Vec::new();
                let mut i: usize = 0;
                while i < 12
                    invariant
                        0 <= i <= 12,
                        out@ == nonce@.take(i as int),
                    decreases 12 - i,
                {
                    out.push(nonce[i]);
                    proof {
                        assert(nonce@.take(i + 1) =~= nonce@.take(i as int).push(
                            nonce@[i as int],
                        ));
                    }
                    i = i + 1;
                }
                proof {
                    assert(nonce@.take(12) =~= nonce@);
                }
                let n = sealed.len();
                let mut j: usize = 0;
                while j < n
                    invariant
                        n == sealed@.len(),
                        0 <= j <= n,
                        out@ == nonce@ + sealed@.take(j as int),
                    decreases n - j,
                {
                    out.push(sealed[j]);
                    proof {
                        assert(sealed@.take(j + 1) =~= sealed@.take(j as int).push(
                            sealed@[j as int],
                        ));
                    }
                    j = j + 1;
                }
                proof {
                    assert(sealed@.take(n as int) =~= sealed@);
                    assert(out@.take(12) =~= nonce@);
                    assert(out@.skip(12) =~= sealed@);
                }
                Ok(out)
            },
            None => Err(CryptoError::CryptoFailure),
        }
    }
}

impl TextDecrypt for Chacha20 {
    /// Split the wire buffer into its leading 12-byte nonce and the tagged
    /// ciphertext, and open it; a buffer too short or a tag that does not
    /// verify fails.
    fn decrypt(&self, wire: &[u8]) -> (r: Result<Vec<u8>, CryptoError>)
        ensures
            r matches Ok(p) ==> spec_decrypt_wire(self.key_spec(), wire@) == Some(p@),
            r is Err ==> spec_decrypt_wire(self.key_spec(), wire@) is None,
            r is Err ==> fails_with(r, CryptoError::CryptoFailure),
    {
        if wire.len() < 12 {
            return Err(CryptoError::CryptoFailure);
        }
        let nonce: [u8; 12] = copy_bytes::<12>(wire);
        let ct = &wire[12..wire.len()];
        proof {
            assert(ct@ =~= wire@.skip(12));
        }
        match aead_open(&self.key, &nonce, ct) {
            Some(plain) => Ok(plain),
            None => Err(CryptoError::CryptoFailure),
        }
    }
}

/// Sign an input under the selected variant: resolve the variant, check
/// the capability, load the key from the source bytes, and sign.
pub fn process_text_sign(key: &[u8], input: &[u8], format: TextFormat) -> (r: Result<
    Vec<u8>,
    CryptoError,
>)
    ensures
        format is Blake3 && key@.len() >= 32 ==> (r matches Ok(v) && v@ == blake3_keyed(
            key@.take(32),
            input@,
        ) && v@.len() == 32),
        format is Blake3 && key@.len() < 32 ==> fails_with(r, CryptoError::KeyLoadError),
        format is Ed25519 && key@.len() == 32 ==> (r matches Ok(v) && v@ == ed25519_signature(
            key@,
            input@,
        ) && v@.len() == 64 && ed25519_verifies(ed25519_public(key@), input@, v@)),
        format is Ed25519 && key@.len() != 32 ==> fails_with(r, CryptoError::KeyLoadError),
        format is ChaCha20 ==> fails_with(r, CryptoError::UnsupportedOperation),
{
    match format {
        TextFormat::Blake3 => {
            let signer = Blake3::load_key(key)?;
            signer.sign(input)
        },
        TextFormat::Ed25519 => {
            let signer = Ed25519Singer::load_key(key)?;
            signer.sign(input)
        },
        TextFormat::ChaCha20 => Err(CryptoError::UnsupportedOperation),
    }
}

/// Check a signature under the selected variant: resolve the variant,
/// check the capability, load the key, and verify. A mismatch is `false`;
/// malformed keys or signatures are errors.
pub fn process_text_verify(key: &[u8], input: &[u8], format: TextFormat, sig: &[u8]) -> (r: Result<
    bool,
    CryptoError,
>)
    ensures
        format is Blake3 && key@.len() >= 32 ==> (r matches Ok(b) && b == spec_blake3_verify(
            key@.take(32),
            input@,
            sig@,
        )),
        format is Blake3 && key@.len() < 32 ==> fails_with(r, CryptoError::KeyLoadError),
        format is Ed25519 && key@.len() == 32 && ed25519_valid_public(key@) && sig@.len() == 64
            ==> (r matches Ok(b) && b == ed25519_verifies(key@, input@, sig@)),
        format is Ed25519 && key@.len() == 32 && ed25519_valid_public(key@) && sig@.len() != 64
            ==> fails_with(r, CryptoError::CryptoFailure),
        format is Ed25519 && (key@.len() != 32 || !ed25519_valid_public(key@)) ==> fails_with(r, CryptoError::KeyLoadError),
        format is ChaCha20 ==> fails_with(r, CryptoError::UnsupportedOperation),
{
    match format {
        TextFormat::Blake3 => {
            let verifier = Blake3::load_key(key)?;
            verifier.verify(input, sig)
        },
        TextFormat::Ed25519 => {
            let verifier = Ed25519Verifier::load_key(key)?;
            verifier.verify(input, sig)
        },
        TextFormat::ChaCha20 => Err(CryptoError::UnsupportedOperation),
    }
}

/// Generate fresh key material for the selected variant. The keyed-hash
/// and authenticated-cipher variants yield one 32-byte key; the
/// asymmetric-signature variant yields the private key first, then the
/// matching public key.
pub fn process_text_generate_key(format: TextFormat) -> (r: Result<Vec<Vec<u8>>, CryptoError>)
    ensures
        r matches Ok(ks) && (forall|i: int|
            0 <= i < ks@.len() ==> (#[trigger] ks@[i])@.len() == 32),
        r matches Ok(ks) ==> ks@.len() == (if format is Ed25519 {
            2int
        } else {
            1int
        }),
        format is Ed25519 ==> (r matches Ok(ks) && ks@[1]@ == ed25519_public(ks@[0]@)
            && ed25519_valid_public(ks@[1]@)),
{
    match format {
        TextFormat::Blake3 => Blake3::generate_key(),
        TextFormat::Ed25519 => Ed25519Singer::generate_key(),
        TextFormat::ChaCha20 => Chacha20::generate_key(),
    }
}

/// Encrypt an input under the selected variant. Only the
/// authenticated-cipher variant offers this capability; its result is the
/// nonce followed by the tagged ciphertext of the trimmed input.
pub fn process_text_encrypt(key: &[u8], input: &[u8], format: TextFormat) -> (r: Result<
    Vec<u8>,
    CryptoError,
>)
    ensures
        !(format is ChaCha20) ==> fails_with(r, CryptoError::UnsupportedOperation),
        format is ChaCha20 && key@.len() < 32 ==> fails_with(r, CryptoError::KeyLoadError),
        format is ChaCha20 && key@.len() >= 32 ==> {
            &&& r matches Ok(c) ==> c@.len() == spec_trim(input@).len() + 28
            &&& r matches Ok(c) ==> spec_decrypt_wire(key@.take(32), c@) == Some(
                spec_trim(input@),
            )
            &&& spec_trim(input@).len() < 0x3fffffffc0 ==> r is Ok
            &&& input@.len() < 0x3fffffffc0 ==> r is Ok
            &&& r is Err ==> fails_with(r, CryptoError::CryptoFailure)
        },
{
    match format {
        TextFormat::ChaCha20 => {
            let encryptor = Chacha20::load_key(key)?;
            encryptor.encrypt(input)
        },
        _ => Err(CryptoError::UnsupportedOperation),
    }
}

/// Decrypt an input under the selected variant. The input is base64 text
/// over the URL-safe unpadded alphabet; it is trimmed of trailing
/// whitespace, decoded, split into nonce and tagged ciphertext, and
/// opened.
pub fn process_text_decrypt(key: &[u8], input: &[u8], format: TextFormat) -> (r: Result<
    Vec<u8>,
    CryptoError,
>)
    ensures
        !(format is ChaCha20) ==> fails_with(r, CryptoError::UnsupportedOperation),
        format is ChaCha20 && key@.len() < 32 ==> fails_with(r, CryptoError::KeyLoadError),
        format is ChaCha20 && key@.len() >= 32 ==> match b64_url_decode(spec_trim(input@)) {
            Option::None => fails_with(r, CryptoError::EncodingError),
            Option::Some(wire) => {
                &&& r matches Ok(p) ==> spec_decrypt_wire(key@.take(32), wire) == Some(p@)
                &&& r is Err ==> spec_decrypt_wire(key@.take(32), wire) is None
                &&& r is Err ==> fails_with(r, CryptoError::CryptoFailure)
            },
        },
{
    match format {
        TextFormat::ChaCha20 => {
            let decrypter = Chacha20::load_key(key)?;
            let wire = process_decode(input, B64Format::UrlSafe)?;
            decrypter.decrypt(wire.as_slice())
        },
        _ => Err(CryptoError::UnsupportedOperation),
    }
}

/// A signature fresh from the keyed-hash signer always verifies: checking
/// `Sign(k, m)` against key `k` and message `m` recomputes the very same
/// digest.
pub proof fn lemma_keyed_hash_round_trip(key: Seq<u8>, msg: Seq<u8>)
    ensures
        spec_blake3_verify(key, msg, blake3_keyed(key, msg)),
{
}

/// A keyed-hash signature with any single bit flipped no longer verifies:
/// the flipped byte differs from the digest's byte, so the byte-for-byte
/// comparison fails.
pub proof fn lemma_keyed_hash_flip_rejects(key: Seq<u8>, msg: Seq<u8>, i: int, bit: u8)
    requires
        0 <= i < blake3_keyed(key, msg).len(),
        bit < 8,
    ensures
        !spec_blake3_verify(
            key,
            msg,
            blake3_keyed(key, msg).update(i, (blake3_keyed(key, msg)[i] ^ (1u8 << bit)) as u8),
        ),
{
    let digest = blake3_keyed(key, msg);
    let b = digest[i];
    assert((b ^ (1u8 << bit)) != b) by (bit_vector)
        requires
            bit < 8,
    ;
    assert(digest.update(i, (b ^ (1u8 << bit)) as u8)[i] != digest[i]);
}

/// Decrypting what encryption produced gives the trimmed plaintext back:
/// the wire buffer opens under its own leading nonce to the plaintext, and
/// that is exactly what decryption computes.
pub proof fn lemma_encrypt_then_decrypt(key: Seq<u8>, wire: Seq<u8>, plain: Seq<u8>)
    requires
        wire.len() >= 12,
        chacha_open(key, wire.take(12), wire.skip(12)) == Some(plain),
    ensures
        spec_decrypt_wire(key, wire) == Some(plain),
{
}

} // verus!

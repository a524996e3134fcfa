use vstd::prelude::*;

use crate::errors::CryptoError;

verus! {

/// The format selector: which algorithm variant a request targets.
#[derive(Clone, Copy, Debug, PartialEq, Eq, Structural)]
pub enum TextFormat {
    /// Keyed-hash variant: sign and verify with a 32-byte symmetric key.
    Blake3,
    /// Asymmetric-signature variant: sign with a private key, verify
    /// with the matching public key.
    Ed25519,
    /// Authenticated-cipher variant: encrypt and decrypt with a
    /// 32-byte symmetric key and a random nonce per message.
    ChaCha20,
}

/// The alphabets offered by the binary-to-text boundary.
#[derive(Clone, Copy, Debug, PartialEq, Eq, Structural)]
pub enum B64Format {
    /// The standard alphabet, with padding.
    Standard,
    /// The URL-safe alphabet, without padding.
    UrlSafe,
}

/// The output formats of the tabular-data converter.
#[derive(Clone, Copy, Debug, PartialEq, Eq, Structural)]
pub enum OutputFormat {
    Json,
    Yaml,
    Toml,
}

/// An upper-case ASCII letter mapped to lower case; any other byte unchanged.
pub open spec fn lower_byte(b: u8) -> u8 {
    if 65 <= b && b <= 90 {
        (b + 32) as u8
    } else {
        b
    }
}

/// A byte sequence with every upper-case ASCII letter mapped to lower case.
pub open spec fn lower_bytes(s: Seq<u8>) -> Seq<u8> {
    s.map_values(|b: u8| lower_byte(b))
}

/// The bytes of "blake3".
pub open spec fn blake3_name() -> Seq<u8> {
    seq![98u8, 108u8, 97u8, 107u8, 101u8, 51u8]
}

/// The bytes of "ed25519".
pub open spec fn ed25519_name() -> Seq<u8> {
    seq![101u8, 100u8, 50u8, 53u8, 53u8, 49u8, 57u8]
}

/// The bytes of "chacha20".
pub open spec fn chacha20_name() -> Seq<u8> {
    seq![99u8, 104u8, 97u8, 99u8, 104u8, 97u8, 50u8, 48u8]
}

/// The bytes of "json".
pub open spec fn json_name() -> Seq<u8> {
    seq![106u8, 115u8, 111u8, 110u8]
}

/// The bytes of "yaml".
pub open spec fn yaml_name() -> Seq<u8> {
    seq![121u8, 97u8, 109u8, 108u8]
}

/// The bytes of "toml".
pub open spec fn toml_name() -> Seq<u8> {
    seq![116u8, 111u8, 109u8, 108u8]
}

/// The bytes of "standard".
pub open spec fn standard_name() -> Seq<u8> {
    seq![115u8, 116u8, 97u8, 110u8, 100u8, 97u8, 114u8, 100u8]
}

/// The bytes of "urlsafe".
pub open spec fn urlsafe_name() -> Seq<u8> {
    seq![117u8, 114u8, 108u8, 115u8, 97u8, 102u8, 101u8]
}

/// What a selector string denotes, compared without regard to ASCII case.
pub open spec fn spec_parse_text_format(s: Seq<u8>) -> Option<TextFormat> {
    if lower_bytes(s) == blake3_name() {
        Some(TextFormat::Blake3)
    } else if lower_bytes(s) == ed25519_name() {
        Some(TextFormat::Ed25519)
    } else if lower_bytes(s) == chacha20_name() {
        Some(TextFormat::ChaCha20)
    } else {
        None
    }
}

/// What an alphabet name denotes, compared without regard to ASCII case.
pub open spec fn spec_parse_b64_format(s: Seq<u8>) -> Option<B64Format> {
    if lower_bytes(s) == standard_name() {
        Some(B64Format::Standard)
    } else if lower_bytes(s) == urlsafe_name() {
        Some(B64Format::UrlSafe)
    } else {
        None
    }
}

/// What an output-format name denotes, compared without regard to ASCII case.
pub open spec fn spec_parse_output_format(s: Seq<u8>) -> Option<OutputFormat> {
    if lower_bytes(s) == json_name() {
        Some(OutputFormat::Json)
    } else if lower_bytes(s) == yaml_name() {
        Some(OutputFormat::Yaml)
    } else if lower_bytes(s) == toml_name() {
        Some(OutputFormat::Toml)
    } else {
        None
    }
}

/// Whether `s`, lowered, equals `pat`.
fn eq_lower(s: &[u8], pat: &[u8]) -> (r: bool)
    ensures
        r == (lower_bytes(s@) == pat@),
{
    if s.len() != pat.len() {
        assert(lower_bytes(s@).len() != pat@.len());
        return false;
    }
    let n = s.len();
    let mut i: usize = 0;
    while i < n
        invariant
            n == s@.len() == pat@.len(),
            0 <= i <= n,
            forall|j: int| 0 <= j < i ==> lower_bytes(s@)[j] == pat@[j],
        decreases n - i,
    {
        let b = s[i];
        let low: u8 = if 65 <= b && b <= 90 {
            b + 32
        } else {
            b
        };
        if low != pat[i] {
            assert(lower_bytes(s@)[i as int] != pat@[i as int]);
            return false;
        }
        i = i + 1;
    }
    assert(lower_bytes(s@) =~= pat@);
    true
}

impl TextFormat {
    /// Resolve a selector string, given as bytes, without regard to ASCII
    /// case; unknown selectors yield `None` and never reach the dispatcher.
    pub fn parse(s: &[u8]) -> (r: Option<TextFormat>)
        ensures
            r == spec_parse_text_format(s@),
    {
        let pat_blake3: Vec<u8> = vec![98u8, 108u8, 97u8, 107u8, 101u8, 51u8];
        let pat_ed25519: Vec<u8> = vec![101u8, 100u8, 50u8, 53u8, 53u8, 49u8, 57u8];
        let pat_chacha20: Vec<u8> = vec![99u8, 104u8, 97u8, 99u8, 104u8, 97u8, 50u8, 48u8];
        assert(pat_blake3@ =~= blake3_name());
        assert(pat_ed25519@ =~= ed25519_name());
        assert(pat_chacha20@ =~= chacha20_name());
        if eq_lower(s, pat_blake3.as_slice()) {
            Some(TextFormat::Blake3)
        } else if eq_lower(s, pat_ed25519.as_slice()) {
            Some(TextFormat::Ed25519)
        } else if eq_lower(s, pat_chacha20.as_slice()) {
            Some(TextFormat::ChaCha20)
        } else {
            None
        }
    }

    /// The canonical lower-case name of the selector.
    pub fn as_str(self) -> (r: &'static str)
        ensures
            self is Blake3 ==> r@ == "blake3"@,
            self is Ed25519 ==> r@ == "ed25519"@,
            self is ChaCha20 ==> r@ == "chacha20"@,
    {
        match self {
            TextFormat::Blake3 => "blake3",
            TextFormat::Ed25519 => "ed25519",
            TextFormat::ChaCha20 => "chacha20",
        }
    }
}

impl B64Format {
    /// Resolve an alphabet name, given as bytes, without regard to ASCII case.
    pub fn parse(s: &[u8]) -> (r: Option<B64Format>)
        ensures
            r == spec_parse_b64_format(s@),
    {
        let pat_standard: Vec<u8> = vec![
            115u8,
            116u8,
            97u8,
            110u8,
            100u8,
            97u8,
            114u8,
            100u8,
        ];
        let pat_urlsafe: Vec<u8> = vec![117u8, 114u8, 108u8, 115u8, 97u8, 102u8, 101u8];
        assert(pat_standard@ =~= standard_name());
        assert(pat_urlsafe@ =~= urlsafe_name());
        if eq_lower(s, pat_standard.as_slice()) {
            Some(B64Format::Standard)
        } else if eq_lower(s, pat_urlsafe.as_slice()) {
            Some(B64Format::UrlSafe)
        } else {
            None
        }
    }

    /// The canonical lower-case name of the alphabet.
    pub fn as_str(self) -> (r: &'static str)
        ensures
            self is Standard ==> r@ == "standard"@,
            self is UrlSafe ==> r@ == "urlsafe"@,
    {
        match self {
            B64Format::Standard => "standard",
            B64Format::UrlSafe => "urlsafe",
        }
    }
}

impl OutputFormat {
    /// The canonical lower-case name of the output format.
    pub fn as_str(self) -> (r: &'static str)
        ensures
            self is Json ==> r@ == "json"@,
            self is Yaml ==> r@ == "yaml"@,
            self is Toml ==> r@ == "toml"@,
    {
        match self {
            OutputFormat::Json => "json",
            OutputFormat::Yaml => "yaml",
            OutputFormat::Toml => "toml",
        }
    }
}

/// Resolve an output-format name, given as bytes, without regard to ASCII
/// case; unknown names are rejected before any conversion starts.
pub fn parse_output_format(format: &[u8]) -> (r: Result<OutputFormat, CryptoError>)
    ensures
        r matches Ok(f) ==> spec_parse_output_format(format@) == Some(f),
        r is Err ==> spec_parse_output_format(format@) is None && r == Err::<
            OutputFormat,
            CryptoError,
        >(CryptoError::EncodingError),
{
    let pat_json: Vec<u8> = vec![106u8, 115u8, 111u8, 110u8];
    let pat_yaml: Vec<u8> = vec![121u8, 97u8, 109u8, 108u8];
    let pat_toml: Vec<u8> = vec![116u8, 111u8, 109u8, 108u8];
    assert(pat_json@ =~= json_name());
    assert(pat_yaml@ =~= yaml_name());
    assert(pat_toml@ =~= toml_name());
    if eq_lower(format, pat_json.as_slice()) {
        Ok(OutputFormat::Json)
    } else if eq_lower(format, pat_yaml.as_slice()) {
        Ok(OutputFormat::Yaml)
    } else if eq_lower(format, pat_toml.as_slice()) {
        Ok(OutputFormat::Toml)
    } else {
        Err(CryptoError::EncodingError)
    }
}

} // verus!

use vstd::prelude::*;

use crate::format::{B64Format, OutputFormat, TextFormat};
use vstd::string::StringSliceAdditionalSpecFns;

verus! {

/// An error of command-argument validation.
#[derive(Clone, Copy, Debug, PartialEq, Eq, Structural)]
pub enum ArgError {
    /// The named input is neither a readable file nor `-`.
    FileNotFound,
    /// The named path is missing or not a directory.
    DirNotFound,
}

impl ArgError {
    /// A short description, for callers that render errors as text.
    pub fn message(self) -> (r: &'static str)
        ensures
            self is FileNotFound ==> r@ == "File Not Exists"@,
            self is DirNotFound ==> r@ == "Path Not Exists or Not Directory"@,
    {
        match self {
            ArgError::FileNotFound => "File Not Exists",
            ArgError::DirNotFound => "Path Not Exists or Not Directory",
        }
    }
}

/// The application's command line: one subcommand per invocation.
#[derive(Debug, Clone)]
pub struct Opts {
    pub command: SubCommand,
}

/// The subcommands the application offers.
#[derive(Debug, Clone)]
pub enum SubCommand {
    /// Convert tabular data to another format.
    Csv(CsvOpts),
    /// Generate a random password.
    GenPass(GenPassOpts),
    /// Encode or decode base64 text.
    Base64(B64SubCommand),
    /// Sign, verify, encrypt or decrypt text.
    Text(TextSubCommand),
    /// Serve static files.
    Http(HttpSubCommand),
    /// Sign or verify a web token.
    Jwt(JwtSubCommand),
}

/// Options of the tabular-data converter.
#[derive(Debug, Clone)]
pub struct CsvOpts {
    /// The input file.
    pub input: String,
    /// The output path, if any; a default is derived from the format.
    pub output: Option<String>,
    /// The output format.
    pub format: OutputFormat,
    /// The field delimiter.
    pub delimiter: char,
    /// Whether the first row is a header.
    pub header: bool,
}

/// Options of the password generator.
#[derive(Debug, Clone)]
pub struct GenPassOpts {
    /// The password length.
    pub length: u8,
    /// Leave digits out.
    pub no_number: bool,
    /// Leave special characters out.
    pub no_special: bool,
    /// Leave upper-case letters out.
    pub no_upper: bool,
    /// Leave lower-case letters out.
    pub no_lower: bool,
}

/// The base64 subcommands.
#[derive(Debug, Clone)]
pub enum B64SubCommand {
    Encode(B64EncodeOpts),
    Decode(B64DecodeOpts),
}

/// Options of base64 encoding.
#[derive(Debug, Clone)]
pub struct B64EncodeOpts {
    /// The input file, or `-` for the standard input.
    pub input: String,
    /// The alphabet to use.
    pub format: B64Format,
}

/// Options of base64 decoding.
#[derive(Debug, Clone)]
pub struct B64DecodeOpts {
    /// The input file, or `-` for the standard input.
    pub input: String,
    /// The alphabet to use.
    pub format: B64Format,
}

/// The text subcommands.
#[derive(Debug, Clone)]
pub enum TextSubCommand {
    Sign(TextSignOpts),
    Verify(TextVerifyOpts),
    Generate(TextKeyGenerateOpts),
    Encrypt(TextEncryptOpts),
    Decrypt(TextDecryptOpts),
}

/// Options of text signing.
#[derive(Debug, Clone)]
pub struct TextSignOpts {
    /// The input file, or `-` for the standard input.
    pub input: String,
    /// The key file.
    pub key: String,
    /// The algorithm variant.
    pub format: TextFormat,
}

/// Options of signature checking.
#[derive(Debug, Clone)]
pub struct TextVerifyOpts {
    /// The input file, or `-` for the standard input.
    pub input: String,
    /// The key file.
    pub key: String,
    /// The algorithm variant.
    pub format: TextFormat,
    /// The signature, as base64 text over the URL-safe unpadded alphabet.
    pub sig: String,
}

/// Options of key generation.
#[derive(Debug, Clone)]
pub struct TextKeyGenerateOpts {
    /// The directory the key files are written to.
    pub output: String,
    /// The algorithm variant.
    pub format: TextFormat,
}

/// Options of text encryption.
#[derive(Debug, Clone)]
pub struct TextEncryptOpts {
    /// The input file, or `-` for the standard input.
    pub input: String,
    /// The key file.
    pub key: String,
    /// The algorithm variant.
    pub format: TextFormat,
}

/// Options of text decryption.
#[derive(Debug, Clone)]
pub struct TextDecryptOpts {
    /// The input file, or `-` for the standard input.
    pub input: String,
    /// The key file.
    pub key: String,
    /// The algorithm variant.
    pub format: TextFormat,
}

/// The static-file server subcommands.
#[derive(Debug, Clone)]
pub enum HttpSubCommand {
    Serve(HttpServeOpts),
}

/// Options of the static-file server.
#[derive(Debug, Clone)]
pub struct HttpServeOpts {
    /// The directory to serve.
    pub dir: String,
    /// The port to listen on.
    pub port: u16,
}

/// The web-token subcommands.
#[derive(Debug, Clone)]
pub enum JwtSubCommand {
    Sign(JwtSignOpts),
    Verify(JwtVerifyOpts),
}

/// Options of web-token signing.
#[derive(Debug, Clone)]
pub struct JwtSignOpts {
    /// The signing secret.
    pub key: String,
    /// The subject claim.
    pub sub: String,
    /// The audience claim.
    pub aud: String,
    /// The validity span, in seconds.
    pub exp: usize,
}

/// Options of web-token checking.
#[derive(Debug, Clone)]
pub struct JwtVerifyOpts {
    /// The signing secret.
    pub key: String,
    /// The token to check.
    pub token: String,
}

/// Accept an input argument that is `-`, the standard input, or the name
/// of a file that exists; the caller answers the file-system question and
/// hands it in as `exists`. What is accepted is handed back unchanged.
pub fn validate_file(input: &str, exists: bool) -> (r: Result<String, ArgError>)
    ensures
        r matches Ok(s) ==> s@ == input@,
        r is Ok <==> (input.spec_bytes() == seq![45u8] || exists),
        r matches Err(e) ==> e == ArgError::FileNotFound,
{
    let bytes = input.as_bytes();
    if bytes.len() == 1 && bytes[0] == 45 {
        proof {
            assert(input.spec_bytes() =~= seq![45u8]);
        }
        return Ok(input.to_owned());
    }
    proof {
        if input.spec_bytes() == seq![45u8] {
            assert(input.spec_bytes().len() == 1);
            assert(input.spec_bytes()[0] == 45u8);
        }
    }
    if exists {
        Ok(input.to_owned())
    } else {
        Err(ArgError::FileNotFound)
    }
}

/// Accept an input argument that names a file that exists; the caller
/// answers the file-system question and hands it in as `exists`. What is
/// accepted is handed back unchanged.
pub fn validate_input_file(input: &str, exists: bool) -> (r: Result<String, ArgError>)
    ensures
        r matches Ok(s) ==> s@ == input@,
        r is Ok <==> exists,
        r matches Err(e) ==> e == ArgError::FileNotFound,
{
    if exists {
        Ok(input.to_owned())
    } else {
        Err(ArgError::FileNotFound)
    }
}

/// Accept a path argument that names a directory that exists; the caller
/// answers the file-system question and hands it in as `is_dir`. What is
/// accepted is handed back unchanged.
pub fn validate_path(input: &str, is_dir: bool) -> (r: Result<String, ArgError>)
    ensures
        r matches Ok(s) ==> s@ == input@,
        r is Ok <==> is_dir,
        r matches Err(e) ==> e == ArgError::DirNotFound,
{
    if is_dir {
        Ok(input.to_owned())
    } else {
        Err(ArgError::DirNotFound)
    }
}

} // verus!

pub mod crypto;
pub mod encoding;
pub mod errors;
pub mod format;
pub mod jwt;
pub mod opts;
pub mod text;
pub mod trim;

pub use encoding::{process_decode, process_encode};
pub use errors::CryptoError;
pub use format::{parse_output_format, B64Format, OutputFormat, TextFormat};
pub use jwt::Claims;
pub use opts::{
    validate_file, validate_input_file, validate_path, ArgError, B64DecodeOpts, B64EncodeOpts,
    B64SubCommand, CsvOpts, GenPassOpts, HttpServeOpts, HttpSubCommand, JwtSignOpts,
    JwtSubCommand, JwtVerifyOpts, Opts, SubCommand, TextDecryptOpts, TextEncryptOpts,
    TextKeyGenerateOpts, TextSignOpts, TextSubCommand, TextVerifyOpts,
};
pub use text::{
    process_text_decrypt, process_text_encrypt, process_text_generate_key, process_text_sign,
    process_text_verify, Blake3, Chacha20, Ed25519Singer, Ed25519Verifier, KeyGenerate, KeyLoader,
    TextDecrypt, TextEncrypt, TextSign, TextVerify,
};

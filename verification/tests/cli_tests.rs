use rcli::{
    parse_output_format, validate_file, validate_path, ArgError, B64Format, Claims, CryptoError,
    OutputFormat, TextFormat,
};

#[test]
fn test_validate_input() -> Result<(), ArgError> {
    assert!(validate_file("Cargo.toml", true)? == *"Cargo.toml");
    assert!(validate_file("-", false)? == *"-");
    assert!(validate_file("not_exists", false).is_err());
    Ok(())
}

#[test]
fn test_validate_path_dir() {
    assert!(validate_path("src", true).is_ok());
    assert!(validate_path("Cargo.toml", false).is_err());
    assert!(validate_path("not_exists", false).is_err());
    assert!(rcli::validate_input_file("Cargo.toml", true).is_ok());
    assert!(rcli::validate_input_file("not_exists", false).is_err());
}

#[test]
fn test_text_format_parse() {
    assert_eq!(TextFormat::parse(b"blake3"), Some(TextFormat::Blake3));
    assert_eq!(TextFormat::parse(b"ed25519"), Some(TextFormat::Ed25519));
    assert_eq!(TextFormat::parse(b"chacha20"), Some(TextFormat::ChaCha20));
    // the selector is read without regard to ASCII case
    assert_eq!(TextFormat::parse(b"Blake3"), Some(TextFormat::Blake3));
    assert_eq!(TextFormat::parse(b"CHACHA20"), Some(TextFormat::ChaCha20));
    assert_eq!(TextFormat::parse(b"sha256"), None);
    assert_eq!(TextFormat::parse(b""), None);
    assert_eq!(TextFormat::parse(b"blake3 "), None);
}

#[test]
fn test_b64_format_parse() {
    assert_eq!(B64Format::parse(b"standard"), Some(B64Format::Standard));
    assert_eq!(B64Format::parse(b"UrlSafe"), Some(B64Format::UrlSafe));
    assert_eq!(B64Format::parse(b"hex"), None);
}

#[test]
fn test_parse_output_format() {
    assert_eq!(parse_output_format(b"json"), Ok(OutputFormat::Json));
    assert_eq!(parse_output_format(b"YAML"), Ok(OutputFormat::Yaml));
    assert_eq!(parse_output_format(b"toml"), Ok(OutputFormat::Toml));
    assert_eq!(parse_output_format(b"xml"), Err(CryptoError::EncodingError));
}

#[test]
fn test_format_names() {
    assert_eq!(TextFormat::Blake3.as_str(), "blake3");
    assert_eq!(TextFormat::Ed25519.as_str(), "ed25519");
    assert_eq!(TextFormat::ChaCha20.as_str(), "chacha20");
    assert_eq!(B64Format::Standard.as_str(), "standard");
    assert_eq!(OutputFormat::Yaml.as_str(), "yaml");
}

#[test]
fn test_claims_construction() {
    let claims = Claims::new("testAud".to_string(), "testSub".to_string(), 1000, 60).unwrap();
    assert_eq!(claims.aud(), "testAud");
    assert_eq!(claims.sub(), "testSub");
    assert_eq!(claims.iat(), 1000);
    assert_eq!(claims.exp(), 1060);

    assert!(Claims::new("a".to_string(), "s".to_string(), usize::MAX, 1).is_none());
}

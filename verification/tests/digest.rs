use registry_cache::api::blob;
use registry_cache::api::BlobRequest;
use registry_cache::api::ManifestQueryString;
use registry_cache::api::RequestConfig;
use registry_cache::digest::BlobDigest;
use registry_cache::error::Error;

const EMPTY: &str = "sha256:e3b0c44298fc1c149afbf4c8996fb92427ae41e4649b934ca495991b7852b855";

#[test]
fn parse_reads_the_hash_bytes() {
    let d = BlobDigest::parse(EMPTY).unwrap();
    let bytes = d.as_bytes();
    assert_eq!(bytes[0], 0xe3);
    assert_eq!(bytes[1], 0xb0);
    assert_eq!(bytes[2], 0xc4);
    assert_eq!(bytes[31], 0x55);
    assert_eq!(
        bytes.to_vec(),
        vec![
            0xe3, 0xb0, 0xc4, 0x42, 0x98, 0xfc, 0x1c, 0x14, 0x9a, 0xfb, 0xf4, 0xc8, 0x99, 0x6f,
            0xb9, 0x24, 0x27, 0xae, 0x41, 0xe4, 0x64, 0x9b, 0x93, 0x4c, 0xa4, 0x95, 0x99, 0x1b,
            0x78, 0x52, 0xb8, 0x55
        ]
    );
}

#[test]
fn parse_accepts_all_lowercase_digits() {
    let text = "sha256:0123456789abcdef0123456789abcdef0123456789abcdef0123456789abcdef";
    let d = BlobDigest::parse(text).unwrap();
    assert_eq!(d.as_bytes()[0], 0x01);
    assert_eq!(d.as_bytes()[7], 0xef);
    assert_eq!(d.text(), text);
}

#[test]
fn parse_rejects_wrong_prefix() {
    let hex = "e3b0c44298fc1c149afbf4c8996fb92427ae41e4649b934ca495991b7852b855";
    assert!(matches!(BlobDigest::parse(hex), Err(Error::InvalidDigest)));
    assert!(matches!(BlobDigest::parse(&format!("sha512:{}", hex)), Err(Error::InvalidDigest)));
    assert!(matches!(BlobDigest::parse(&format!("SHA256:{}", hex)), Err(Error::InvalidDigest)));
    assert!(matches!(BlobDigest::parse(&format!("sha256{}", hex)), Err(Error::InvalidDigest)));
    assert!(matches!(BlobDigest::parse(&format!(" sha256:{}", hex)), Err(Error::InvalidDigest)));
}

#[test]
fn parse_rejects_wrong_length() {
    assert!(matches!(BlobDigest::parse(""), Err(Error::InvalidDigest)));
    assert!(matches!(BlobDigest::parse("sha256"), Err(Error::InvalidDigest)));
    assert!(matches!(BlobDigest::parse("sha256:"), Err(Error::InvalidDigest)));
    assert!(matches!(BlobDigest::parse("sha256:deadbeef"), Err(Error::InvalidDigest)));
    let short = format!("sha256:{}", "a".repeat(63));
    assert!(matches!(BlobDigest::parse(&short), Err(Error::InvalidDigest)));
    let long = format!("sha256:{}", "a".repeat(65));
    assert!(matches!(BlobDigest::parse(&long), Err(Error::InvalidDigest)));
    let longer = format!("sha256:{}", "a".repeat(66));
    assert!(matches!(BlobDigest::parse(&longer), Err(Error::InvalidDigest)));
}

#[test]
fn parse_rejects_non_hex_characters() {
    let bad = format!("sha256:{}g", "a".repeat(63));
    assert!(matches!(BlobDigest::parse(&bad), Err(Error::InvalidDigest)));
    let bad = format!("sha256:{} ", "a".repeat(63));
    assert!(matches!(BlobDigest::parse(&bad), Err(Error::InvalidDigest)));
    let bad = format!("sha256:{}\u{e9}", "a".repeat(62));
    assert!(matches!(BlobDigest::parse(&bad), Err(Error::InvalidDigest)));
    let bad = format!("sha256:{}\u{e9}", "a".repeat(63));
    assert!(matches!(BlobDigest::parse(&bad), Err(Error::InvalidDigest)));
}

#[test]
fn parse_rejects_uppercase_hex() {
    let upper = "sha256:E3B0C44298FC1C149AFBF4C8996FB92427AE41E4649B934CA495991B7852B855";
    assert!(matches!(BlobDigest::parse(upper), Err(Error::InvalidDigest)));
    let mixed = "sha256:E3b0c44298fc1c149afbf4c8996fb92427ae41e4649b934ca495991b7852b855";
    assert!(matches!(BlobDigest::parse(mixed), Err(Error::InvalidDigest)));
}

#[test]
fn hex_and_text_write_the_hash() {
    let mut bytes = [0u8; 32];
    bytes[0] = 0x0f;
    bytes[1] = 0xa0;
    bytes[31] = 0xff;
    let d = BlobDigest::new(bytes);
    let hex = d.hex();
    assert_eq!(hex.len(), 64);
    assert_eq!(&hex[..4], "0fa0");
    assert_eq!(&hex[62..], "ff");
    assert_eq!(d.text(), format!("sha256:{}", hex));
    assert_eq!(hex, hex::encode(bytes));
}

#[test]
fn text_round_trips_through_parse() {
    let mut bytes = [0u8; 32];
    for (i, b) in bytes.iter_mut().enumerate() {
        *b = (i * 8 + 3) as u8;
    }
    let d = BlobDigest::new(bytes);
    let back = BlobDigest::parse(&d.text()).unwrap();
    assert_eq!(back.as_bytes(), &bytes);
    assert!(back.matches(&bytes));
}

#[test]
fn matches_compares_every_byte() {
    let d = BlobDigest::parse(EMPTY).unwrap();
    let mut other = *d.as_bytes();
    assert!(d.matches(&other));
    other[31] ^= 1;
    assert!(!d.matches(&other));
    other[31] ^= 1;
    other[0] ^= 0x80;
    assert!(!d.matches(&other));
}

#[test]
fn blob_request_with_invalid_digest_fails_before_any_action() {
    let config = RequestConfig::new("docker.io".to_string());
    let q = ManifestQueryString::new(None);
    let req = BlobRequest::new("library/busybox".to_string(), "sha256:xyz".to_string());
    assert!(matches!(blob(req, &q, &config), Err(Error::InvalidDigest)));
    let req = BlobRequest::new("library/busybox".to_string(), "latest".to_string());
    assert!(matches!(blob(req, &q, &config), Err(Error::InvalidDigest)));
}

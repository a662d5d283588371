use frost::errors::Error;
use frost::hexcodec::{hex_decode, hex_encode};
use frost::identifier::{to_hex_string, Identifier};

#[test]
fn hex_encode_matches_reference() {
    let bytes = vec![0x00u8, 0x01, 0x7f, 0x80, 0xab, 0xff];
    let ours = hex_encode(&bytes);
    assert_eq!(ours, hex::encode(&bytes).into_bytes());
    assert_eq!(to_hex_string(&bytes), hex::encode(&bytes));
}

#[test]
fn hex_round_trip() {
    let bytes: Vec<u8> = (0u8..=255).collect();
    let encoded = hex_encode(&bytes);
    let decoded = hex_decode(&encoded).unwrap();
    assert_eq!(decoded, bytes);
}

#[test]
fn hex_decode_accepts_upper_case() {
    assert_eq!(hex_decode(b"DEADBEEF").unwrap(), vec![0xde, 0xad, 0xbe, 0xef]);
}

#[test]
fn hex_decode_rejects_bad_input() {
    assert_eq!(hex_decode(b"abc").unwrap_err(), Error::MalformedEncoding);
    assert_eq!(hex_decode(b"zz").unwrap_err(), Error::MalformedEncoding);
    assert_eq!(hex_decode(b"0g").unwrap_err(), Error::MalformedEncoding);
}

#[test]
fn derive_identifier_is_deterministic_and_nonzero() {
    let a = Identifier::derive(&[1]).unwrap();
    let b = Identifier::derive(&[1]).unwrap();
    assert_eq!(a.encode(), b.encode());
    let decoded = hex::decode(a.encode()).unwrap();
    assert_eq!(decoded.len(), 32);
    assert!(decoded.iter().any(|&x| x != 0));
    let c = Identifier::derive(b"another seed").unwrap();
    assert_ne!(a.encode(), c.encode());
}

#[test]
fn identifier_encode_decode_round_trip() {
    let id = Identifier::derive(b"round trip seed").unwrap();
    let encoded = id.encode();
    assert_eq!(encoded.len(), 64);
    assert!(encoded.chars().all(|c| c.is_ascii_hexdigit() && !c.is_ascii_uppercase()));
    let back = Identifier::decode(&encoded).unwrap();
    assert_eq!(back.as_bytes(), id.as_bytes());
}

#[test]
fn identifier_decode_rejects_bad_input() {
    assert_eq!(Identifier::decode("abcd").unwrap_err(), Error::MalformedEncoding);
    let long = "a".repeat(66);
    assert_eq!(Identifier::decode(&long).unwrap_err(), Error::MalformedEncoding);
    let nonhex = "g".repeat(64);
    assert_eq!(Identifier::decode(&nonhex).unwrap_err(), Error::MalformedEncoding);
    let zero = "0".repeat(64);
    assert_eq!(Identifier::decode(&zero).unwrap_err(), Error::MalformedEncoding);
}

#[test]
fn identifier_from_bytes_checks_length_and_zero() {
    assert_eq!(Identifier::from_bytes(vec![1; 31]).unwrap_err(), Error::MalformedEncoding);
    assert_eq!(Identifier::from_bytes(vec![0; 32]).unwrap_err(), Error::MalformedEncoding);
    let id = Identifier::from_bytes(vec![7; 32]).unwrap();
    assert_eq!(id.as_bytes(), &[7u8; 32][..]);
}

#[test]
fn error_kinds_describe_themselves() {
    assert_eq!(Error::MalformedEncoding.describe(), "malformed encoding");
    assert_eq!(Error::InvalidHandle.describe(), "unknown or consumed secret handle");
    assert_eq!(Error::ThresholdInvalid.describe(), "invalid signing threshold");
}

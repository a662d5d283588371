use frost::key::{get_schnorr_pubkey, XYEncodedPublicKey};
use k256::elliptic_curve::sec1::FromEncodedPoint;
use k256::{AffinePoint, EncodedPoint};

#[test]
fn test_extract_public_key_xy() {
    let serialized_package = hex::decode("00230f8ab3050000000000000000000000000000000000000000000000000000000000000001022b488f018eb9f8fe239cd02a170cd4a45af404093a6a61177521735329149a72000000000000000000000000000000000000000000000000000000000000000203f0abcae4cfde3b3ca2117b48444e2a65eb968a08e55990c83e60571219a9ceb4000000000000000000000000000000000000000000000000000000000000000302094a1eae34d12c8f0af74137ed7701e810fc804b94e5fa82145081f5027eecb200000000000000000000000000000000000000000000000000000000000000040275a17147af0a090ef1ea7d8505aa415a0d3b21a2cd8ca3116aeed4eccf26e69c000000000000000000000000000000000000000000000000000000000000000502dc748673b0e10ccff2044e10987a6371c623a30d35e6913eead74309756c09d903a971b7d228f7764f69f4b6da48b98203ed6cfa841771d14b94e09405fd3fef05").unwrap();
    let pubkey_package =
        frost_secp256k1_tr::keys::PublicKeyPackage::deserialize(&serialized_package).unwrap();
    let key = XYEncodedPublicKey::from_public_key_package(&serialized_package).unwrap();
    let expected_pubkey = &pubkey_package.verifying_key().serialize().unwrap()[1..];
    let received_pubkey = &key.bytes[1..33];
    assert_eq!(expected_pubkey, received_pubkey);

    let encoded_point = EncodedPoint::from_bytes(&key.bytes).unwrap();
    let _ = Option::<AffinePoint>::from(AffinePoint::from_encoded_point(&encoded_point)).unwrap();
}

#[test]
fn xy_even_encoding_has_even_y_and_x_only_prefix() {
    let serialized_package = hex::decode("00230f8ab3050000000000000000000000000000000000000000000000000000000000000001022b488f018eb9f8fe239cd02a170cd4a45af404093a6a61177521735329149a72000000000000000000000000000000000000000000000000000000000000000203f0abcae4cfde3b3ca2117b48444e2a65eb968a08e55990c83e60571219a9ceb4000000000000000000000000000000000000000000000000000000000000000302094a1eae34d12c8f0af74137ed7701e810fc804b94e5fa82145081f5027eecb200000000000000000000000000000000000000000000000000000000000000040275a17147af0a090ef1ea7d8505aa415a0d3b21a2cd8ca3116aeed4eccf26e69c000000000000000000000000000000000000000000000000000000000000000502dc748673b0e10ccff2044e10987a6371c623a30d35e6913eead74309756c09d903a971b7d228f7764f69f4b6da48b98203ed6cfa841771d14b94e09405fd3fef05").unwrap();
    let key = XYEncodedPublicKey::from_public_key_package(&serialized_package).unwrap();
    assert_eq!(key.bytes.len(), 65);
    assert_eq!(key.bytes[0], 4);
    assert_eq!(key.bytes[64] % 2, 0);
    let x_only = get_schnorr_pubkey(&serialized_package).unwrap();
    assert_eq!(x_only.len(), 32);
    assert_eq!(&key.bytes[1..33], x_only.as_slice());
}

#[test]
fn malformed_public_key_package_is_rejected() {
    let err = XYEncodedPublicKey::from_public_key_package(&[1, 2, 3]).unwrap_err();
    assert_eq!(err, frost::errors::Error::MalformedEncoding);
    let err = get_schnorr_pubkey(&[]).unwrap_err();
    assert_eq!(err, frost::errors::Error::MalformedEncoding);
}

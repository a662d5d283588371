//! Alternate encodings of the group verification key: the 32-byte Taproot
//! x-only form, and the 65-byte uncompressed affine form normalized to an
//! even Y coordinate.

use core::ops::Neg;
use k256::elliptic_curve::point::AffineCoordinates;
use k256::elliptic_curve::sec1::ToEncodedPoint;
use vstd::prelude::*;

use crate::errors::Error;

verus! {

/// The x coordinate of the group verifying key's affine point, as the
/// outside library's `AffineCoordinates::x` returns it: 32 big-endian bytes,
/// a function of the serialized public key package alone.
pub uninterp spec fn vk_x_of(pubkeys: Seq<u8>) -> Seq<u8>;

/// The y coordinate of the same affine point, 32 big-endian bytes.
pub uninterp spec fn vk_y_of(pubkeys: Seq<u8>) -> Seq<u8>;

/// Whether that y coordinate is odd, as `y_is_odd` returns it.
pub uninterp spec fn vk_y_odd_of(pubkeys: Seq<u8>) -> bool;

/// The y coordinate of the negated affine point, 32 big-endian bytes.
pub uninterp spec fn vk_neg_y_of(pubkeys: Seq<u8>) -> Seq<u8>;

/// Whether a byte string is a valid `PublicKeyPackage` serialization: the
/// deterministic success condition of `PublicKeyPackage::deserialize`. A
/// parsed package's group key is a valid non-identity point, so its affine
/// coordinates, SEC1 encodings and x-only form can always be produced.
pub uninterp spec fn vk_parses(pubkeys: Seq<u8>) -> bool;

/// Relies on `PublicKeyPackage::deserialize`, `VerifyingKey::to_element`,
/// `to_affine`, `y_is_odd` and `ToEncodedPoint::to_encoded_point(false)` of
/// the outside curve library: returns the uncompressed SEC1 encoding of the
/// group key's affine point (tag byte 4, then x, then y, 65 bytes in all —
/// the deserialized group key is never the identity) together with the y
/// parity, which equals the low bit of the last y byte of the canonical
/// big-endian encoding.
#[verifier::external_body]
fn affine_call(pubkeys: &[u8]) -> (r: Result<(Vec<u8>, bool), Error>)
    ensures
        r is Ok <==> vk_parses(pubkeys@),
        r is Ok ==> r.unwrap().0@.len() == 65 && r.unwrap().0@[0] == 4,
        r is Ok ==> r.unwrap().0@.subrange(1, 33) == vk_x_of(pubkeys@),
        r is Ok ==> r.unwrap().0@.subrange(33, 65) == vk_y_of(pubkeys@),
        r is Ok ==> r.unwrap().1 == vk_y_odd_of(pubkeys@),
        r is Ok ==> r.unwrap().1 == (r.unwrap().0@[64] % 2 == 1),
        r is Err ==> r->Err_0 == Error::MalformedEncoding,
{
    let pkp = frost_secp256k1_tr::keys::PublicKeyPackage::deserialize(pubkeys)
        .map_err(|_| Error::MalformedEncoding)?;
    let point = pkp.verifying_key().to_element().to_affine();
    let odd: bool = point.y_is_odd().into();
    let enc = point.to_encoded_point(false);
    Ok((enc.as_bytes().to_vec(), odd))
}

/// Relies on the same calls with `Neg::neg` on the affine point before
/// encoding: point negation keeps x and negates y in the coordinate field, so
/// the x half equals `vk_x_of`. The field's modulus is odd and no point of
/// the prime-order secp256k1 group has y = 0, so negation flips the parity
/// of y: where the original y is odd, the negated y is even.
#[verifier::external_body]
fn negated_affine_call(pubkeys: &[u8]) -> (r: Result<Vec<u8>, Error>)
    ensures
        r is Ok <==> vk_parses(pubkeys@),
        r is Ok ==> r.unwrap()@.len() == 65 && r.unwrap()@[0] == 4,
        r is Ok ==> r.unwrap()@.subrange(1, 33) == vk_x_of(pubkeys@),
        r is Ok ==> r.unwrap()@.subrange(33, 65) == vk_neg_y_of(pubkeys@),
        r is Ok ==> (vk_y_odd_of(pubkeys@) ==> r.unwrap()@[64] % 2 == 0),
        r is Err ==> r->Err_0 == Error::MalformedEncoding,
{
    let pkp = frost_secp256k1_tr::keys::PublicKeyPackage::deserialize(pubkeys)
        .map_err(|_| Error::MalformedEncoding)?;
    let point = pkp.verifying_key().to_element().to_affine().neg();
    let enc = point.to_encoded_point(false);
    Ok(enc.as_bytes().to_vec())
}

/// Relies on `bitcoin::key::PublicKey::from_slice` and
/// `XOnlyPublicKey::from(...).serialize()` (with `VerifyingKey::serialize`):
/// the BIP-340 x-only form of the group key is the 32-byte big-endian x
/// coordinate of its affine point, the same bytes `AffineCoordinates::x`
/// yields. A parsed package's group key is valid and non-identity, so its
/// compressed serialization and the conversion through the bitcoin key types
/// always succeed: the call fails exactly where the package does not parse.
#[verifier::external_body]
fn x_only_call(pubkeys: &[u8]) -> (r: Result<Vec<u8>, Error>)
    ensures
        r is Ok <==> vk_parses(pubkeys@),
        r is Ok ==> r.unwrap()@ == vk_x_of(pubkeys@) && r.unwrap()@.len() == 32,
        r is Err ==> r->Err_0 == Error::MalformedEncoding || r->Err_0 == Error::CryptoFailure,
{
    let pkp = frost_secp256k1_tr::keys::PublicKeyPackage::deserialize(pubkeys)
        .map_err(|_| Error::MalformedEncoding)?;
    let vk = pkp.verifying_key().serialize().map_err(|_| Error::CryptoFailure)?;
    let pk = bitcoin::key::PublicKey::from_slice(&vk).map_err(|_| Error::MalformedEncoding)?;
    Ok(bitcoin::key::XOnlyPublicKey::from(pk.inner).serialize().to_vec())
}

/// What the even-Y encoding of a public key package must look like: 65
/// bytes, uncompressed tag, the x-only key as the x half, an even y, and the
/// y half taken from the original or the negated point by the original
/// parity.
pub open spec fn xy_even_ok(b: Seq<u8>, pubkeys: Seq<u8>) -> bool {
    &&& b.len() == 65
    &&& b[0] == 4
    &&& b.subrange(1, 33) == vk_x_of(pubkeys)
    &&& b[64] % 2 == 0
    &&& (vk_y_odd_of(pubkeys) ==> b.subrange(33, 65) == vk_neg_y_of(pubkeys))
    &&& (!vk_y_odd_of(pubkeys) ==> b.subrange(33, 65) == vk_y_of(pubkeys))
}

/// The group verification key in uncompressed affine form, normalized so
/// that the encoded point's Y coordinate is even.
#[derive(Debug)]
pub struct XYEncodedPublicKey {
    pub bytes: Vec<u8>,
}

impl XYEncodedPublicKey {
    /// Extracts the affine point of the group verification key from a
    /// serialized public key package; where its Y coordinate is odd, the
    /// point is negated (the equivalent point with even Y) before encoding
    /// as tag, x, then y. The x half always equals the x-only key.
    pub fn from_public_key_package(pubkey_package: &[u8]) -> (r: Result<XYEncodedPublicKey, Error>)
        ensures
            r is Ok <==> vk_parses(pubkey_package@),
            r is Ok ==> xy_even_ok(r.unwrap().bytes@, pubkey_package@),
            r is Err ==> r->Err_0 == Error::MalformedEncoding,
    {
        let (enc, odd) = match affine_call(pubkey_package) {
            Ok(v) => v,
            Err(e) => {
                return Err(e);
            },
        };
        if !odd {
            return Ok(XYEncodedPublicKey { bytes: enc });
        }
        match negated_affine_call(pubkey_package) {
            Ok(neg) => Ok(XYEncodedPublicKey { bytes: neg }),
            Err(e) => Err(e),
        }
    }
}

/// The Taproot x-only form of the group verification key: 32 bytes.
pub fn get_schnorr_pubkey(pubkey_package: &[u8]) -> (r: Result<Vec<u8>, Error>)
    ensures
        r is Ok <==> vk_parses(pubkey_package@),
        r is Ok ==> r.unwrap()@ == vk_x_of(pubkey_package@) && r.unwrap()@.len() == 32,
        r is Err ==> r->Err_0 == Error::MalformedEncoding || r->Err_0 == Error::CryptoFailure,
{
    x_only_call(pubkey_package)
}

/// The even-Y invariant: for any valid public key package, bytes 1..33 of
/// the even-Y encoding are exactly the x-only key, and the y half is even,
/// whatever the original key's parity was.
pub proof fn lemma_xy_even_matches_x_only(b: Seq<u8>, pubkeys: Seq<u8>, x_only: Seq<u8>)
    requires
        xy_even_ok(b, pubkeys),
        x_only == vk_x_of(pubkeys),
    ensures
        b.subrange(1, 33) == x_only,
        b[64] % 2 == 0,
{
}

} // verus!

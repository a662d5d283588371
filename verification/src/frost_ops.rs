//! The trusted boundary to the outside FROST library.
//!
//! Everything here either declares an outside type or wraps exactly one
//! protocol operation of `frost_secp256k1_tr`, converting between the plain
//! byte encodings that the verified coordination layer works on and the
//! library's own types. Each wrapper's contract states only what the outside
//! library's source shows.

use std::collections::BTreeMap;
use vstd::prelude::*;

use crate::errors::Error;
use crate::errors::Error::{CryptoFailure, MalformedEncoding};
use crate::key::vk_parses;
use frost_secp256k1_tr::keys::dkg::round1::Package as Round1Package;
use frost_secp256k1_tr::keys::dkg::round2::Package as Round2Package;
use frost_secp256k1_tr::keys::{KeyPackage, PublicKeyPackage, Tweak};
use frost_secp256k1_tr::round1::SigningCommitments;
use frost_secp256k1_tr::round2::SignatureShare;
use frost_secp256k1_tr::Error as FrostError;
use frost_secp256k1_tr::Identifier as FrostIdentifier;
use frost_secp256k1_tr::{Signature, SigningPackage};

verus! {

/// The ephemeral secret state a participant holds between DKG rounds 1 and
/// 2, as an opaque holder for the outside library's round-1 secret package
/// (whose generic ciphersuite parameter the verifier cannot declare). Hidden
/// from the verifier; only the DKG wrappers look inside.
#[verifier::external_body]
pub struct Round1Secret {
    inner: frost_secp256k1_tr::keys::dkg::round1::SecretPackage,
}

/// The ephemeral secret state a participant holds between DKG rounds 2 and
/// 3, held opaquely in the same way as `Round1Secret`.
#[verifier::external_body]
pub struct Round2Secret {
    inner: frost_secp256k1_tr::keys::dkg::round2::SecretPackage,
}

/// The identifier bytes of a list of (identifier bytes, package bytes) pairs.
pub open spec fn firsts(s: Seq<(Seq<u8>, Seq<u8>)>) -> Seq<Seq<u8>> {
    s.map_values(|p: (Seq<u8>, Seq<u8>)| p.0)
}

/// The package bytes of a list of (identifier bytes, package bytes) pairs.
pub open spec fn seconds(s: Seq<(Seq<u8>, Seq<u8>)>) -> Seq<Seq<u8>> {
    s.map_values(|p: (Seq<u8>, Seq<u8>)| p.1)
}

/// The identifier a round-1 secret package was created for, in canonical
/// 32-byte serialization: the outside library stores the identifier given to
/// `part1` inside the secret package.
pub uninterp spec fn secret_id_of(s: Round1Secret) -> Seq<u8>;

/// The group size a round-1 secret package was created for: the outside
/// library stores `max_signers` inside the secret package and checks the
/// received round-1 package count against it in round 2.
pub uninterp spec fn expected_signers_of(s: Round1Secret) -> int;

/// Whether a byte string is a canonical nonzero scalar that
/// `Identifier::deserialize` accepts: its deterministic success condition.
pub uninterp spec fn id_parses(b: Seq<u8>) -> bool;

/// Relies on `frost_secp256k1_tr::keys::dkg::part1` (with
/// `Identifier::deserialize` and `Package::serialize`): runs round 1 of the
/// distributed key generation for one participant, drawing fresh randomness
/// from the thread's CSPRNG, and hands back the opaque round-1 secret package
/// beside the serialized broadcast package. The identifier bytes are decoded
/// first, so an undecodable identifier is `MalformedEncoding`; the library
/// then validates the thresholds before anything else (it requires
/// `2 <= min_signers <= max_signers` and `max_signers >= 2`), so exactly a
/// violated threshold is `ThresholdInvalid`.
#[verifier::external_body]
pub(crate) fn part1_call(id_bytes: &[u8], max_signers: u16, min_signers: u16) -> (r: Result<
    (Round1Secret, Vec<u8>),
    Error,
>)
    ensures
        r is Ok ==> secret_id_of(r.unwrap().0) == id_bytes@,
        r is Ok ==> expected_signers_of(r.unwrap().0) == max_signers as int,
        (r is Err && r->Err_0 == Error::MalformedEncoding) <==> !id_parses(id_bytes@),
        (r is Err && r->Err_0 == Error::ThresholdInvalid) <==> (id_parses(id_bytes@) && (
        min_signers < 2 || max_signers < 2 || min_signers > max_signers)),
        r is Err ==> (r->Err_0 == Error::ThresholdInvalid || r->Err_0 == Error::MalformedEncoding
            || r->Err_0 == Error::CryptoFailure),
{
    let id = FrostIdentifier::deserialize(id_bytes).map_err(|_| Error::MalformedEncoding)?;
    let (secret, package) =
        frost_secp256k1_tr::keys::dkg::part1(id, max_signers, min_signers, &mut rand::thread_rng())
            .map_err(|e| match e {
                FrostError::InvalidMinSigners | FrostError::InvalidMaxSigners => Error::ThresholdInvalid,
                _ => Error::CryptoFailure,
            })?;
    let bytes = package.serialize().map_err(|_| Error::CryptoFailure)?;
    Ok((Round1Secret { inner: secret }, bytes))
}

/// A decoded map of round-1 packages keyed by participant identifier, held
/// opaquely for the verifier: the outside library's `BTreeMap` in a hidden
/// field, described through `round1_map_ids`.
#[verifier::external_body]
pub struct Round1Map {
    inner: BTreeMap<FrostIdentifier, Round1Package>,
}

/// A decoded map of round-2 packages keyed by participant identifier, held
/// opaquely like `Round1Map` and described through `round2_map_ids`.
#[verifier::external_body]
pub struct Round2Map {
    inner: BTreeMap<FrostIdentifier, Round2Package>,
}

/// The serialized keys of a decoded round-1 package map, in the map's
/// ascending key order.
pub uninterp spec fn round1_map_ids(m: Round1Map) -> Seq<Seq<u8>>;

/// The serialized keys of a decoded round-2 package map, in the map's
/// ascending key order.
pub uninterp spec fn round2_map_ids(m: Round2Map) -> Seq<Seq<u8>>;

/// How the keys of a decoded package map relate to the keyed byte list they
/// were decoded from: the key set equals exactly the set of input
/// identifiers — every key occurs among the inputs and every input
/// identifier occurs among the keys — each key is 32 bytes, and no key
/// occurs twice.
pub open spec fn ids_drawn_from(ids: Seq<Seq<u8>>, inp: Seq<(Seq<u8>, Seq<u8>)>) -> bool {
    &&& ids.len() <= inp.len()
    &&& forall|i: int| 0 <= i < ids.len() ==> (#[trigger] ids[i]).len() == 32
    &&& forall|i: int|
        #![trigger ids[i]]
        0 <= i < ids.len() ==> (exists|j: int| 0 <= j < inp.len() && ids[i] == (#[trigger] inp[j]).0)
    &&& forall|j: int|
        #![trigger inp[j]]
        0 <= j < inp.len() ==> (exists|i: int| 0 <= i < ids.len() && (#[trigger] ids[i]) == inp[j].0)
    &&& forall|i: int, j: int| 0 <= i < j < ids.len() ==> ids[i] != ids[j]
}

/// Whether decoding a keyed round-1 package list succeeds: every identifier
/// is a canonical nonzero scalar encoding and every payload a valid round-1
/// package. Decoding is deterministic in the input bytes.
pub uninterp spec fn round1_decodes(items: Seq<(Seq<u8>, Seq<u8>)>) -> bool;

/// The round-1 package map that a keyed byte list decodes to, where decoding
/// succeeds. Deterministic in the input bytes.
pub uninterp spec fn round1_map_of(items: Seq<(Seq<u8>, Seq<u8>)>) -> Round1Map;

/// Whether decoding a keyed round-2 package list succeeds, as
/// `round1_decodes` for round 1.
pub uninterp spec fn round2_decodes(items: Seq<(Seq<u8>, Seq<u8>)>) -> bool;

/// The round-2 package map that a keyed byte list decodes to, where decoding
/// succeeds. Deterministic in the input bytes.
pub uninterp spec fn round2_map_of(items: Seq<(Seq<u8>, Seq<u8>)>) -> Round2Map;

/// Relies on `Identifier::deserialize` and the round-1 `Package` codec:
/// decodes each (identifier bytes, package bytes) pair and collects the map
/// that the DKG rounds take. Identifier serialization is canonical, so the
/// map's keys are drawn from the input identifiers, deduplicated by the map.
#[verifier::external_body]
pub(crate) fn decode_round1_map(items: &Vec<(Vec<u8>, Vec<u8>)>) -> (r: Result<Round1Map, Error>)
    ensures
        r is Ok <==> round1_decodes(items.deep_view()),
        r is Ok ==> r.unwrap() == round1_map_of(items.deep_view()),
        r is Ok ==> ids_drawn_from(round1_map_ids(r.unwrap()), items.deep_view()),
        r is Err ==> r->Err_0 == Error::MalformedEncoding,
{
    let inner = items.iter().map(|(b, p)| Ok((
        FrostIdentifier::deserialize(b).map_err(|_| MalformedEncoding)?,
        Round1Package::deserialize(p).map_err(|_| MalformedEncoding)?,
    ))).collect::<Result<_, Error>>()?;
    Ok(Round1Map { inner })
}

/// Relies on `Identifier::deserialize` and the round-2 `Package` codec, as
/// `decode_round1_map` does for round 1.
#[verifier::external_body]
pub(crate) fn decode_round2_map(items: &Vec<(Vec<u8>, Vec<u8>)>) -> (r: Result<Round2Map, Error>)
    ensures
        r is Ok <==> round2_decodes(items.deep_view()),
        r is Ok ==> r.unwrap() == round2_map_of(items.deep_view()),
        r is Ok ==> ids_drawn_from(round2_map_ids(r.unwrap()), items.deep_view()),
        r is Err ==> r->Err_0 == Error::MalformedEncoding,
{
    let inner = items.iter().map(|(b, p)| Ok((
        FrostIdentifier::deserialize(b).map_err(|_| MalformedEncoding)?,
        Round2Package::deserialize(p).map_err(|_| MalformedEncoding)?,
    ))).collect::<Result<_, Error>>()?;
    Ok(Round2Map { inner })
}

/// Whether round 2 of the key generation succeeds for this round-1 secret
/// and received package map: the map holds one package per other expected
/// participant, none under the caller's own identifier, and every proof of
/// knowledge checks out. The round draws no randomness, so success and both
/// outputs are functions of these two values alone.
pub uninterp spec fn part2_ok(s: Round1Secret, m: Round1Map) -> bool;

/// Whether round 2, having found the package map complete, rejects a
/// received package: a commitment whose threshold disagrees with the
/// caller's, or a failed proof of knowledge. Deterministic in the two
/// values.
pub uninterp spec fn part2_rejects_package(s: Round1Secret, m: Round1Map) -> bool;

/// The round-2 secret package that a successful round 2 produces.
pub uninterp spec fn part2_secret_of(s: Round1Secret, m: Round1Map) -> Round2Secret;

/// The directed round-2 packages that a successful round 2 produces, as
/// (recipient identifier bytes, serialized package) pairs in the input map's
/// key order.
pub uninterp spec fn part2_packages_of(s: Round1Secret, m: Round1Map) -> Seq<(Seq<u8>, Seq<u8>)>;

/// Relies on `frost_secp256k1_tr::keys::dkg::part2` (with the `Identifier`
/// and round-2 `Package` serializations): consumes the round-1 secret and
/// the round-1 packages of the other participants and returns the round-2
/// secret beside one directed round-2 package per other participant. The
/// library's source inserts the output packages under exactly the sender
/// identifiers of the input map, in the map's own order, and rejects a map
/// that contains the caller's own identifier, so on success no key equals
/// the secret's identifier. It draws no randomness. Its first two checks,
/// before anything else, are the package count against the stored group
/// size and the absence of the caller's own identifier: exactly their
/// failure is `MissingParticipant`, and once they pass, exactly a rejected
/// package is `InconsistentPackage`.
#[verifier::external_body]
pub(crate) fn part2_call(secret: Round1Secret, round1: &Round1Map) -> (r: Result<
    (Round2Secret, Vec<(Vec<u8>, Vec<u8>)>),
    Error,
>)
    ensures
        r is Ok <==> part2_ok(secret, *round1),
        (r is Err && r->Err_0 == Error::MissingParticipant) <==> (round1_map_ids(*round1).len() + 1
            != expected_signers_of(secret) || round1_map_ids(*round1).contains(
            secret_id_of(secret),
        )),
        (r is Err && r->Err_0 == Error::InconsistentPackage) <==> (round1_map_ids(*round1).len()
            + 1 == expected_signers_of(secret) && !round1_map_ids(*round1).contains(
            secret_id_of(secret),
        ) && part2_rejects_package(secret, *round1)),
        r is Ok ==> r.unwrap().0 == part2_secret_of(secret, *round1),
        r is Ok ==> r.unwrap().1.deep_view() == part2_packages_of(secret, *round1),
        r is Ok ==> firsts(r.unwrap().1.deep_view()) == round1_map_ids(*round1),
        r is Ok ==> (forall|i: int|
            0 <= i < round1_map_ids(*round1).len() ==> (#[trigger] round1_map_ids(*round1)[i])
                != secret_id_of(secret)),
        r is Err ==> (r->Err_0 == Error::MissingParticipant || r->Err_0
            == Error::InconsistentPackage || r->Err_0 == Error::CryptoFailure),
{
    let (secret2, out) = frost_secp256k1_tr::keys::dkg::part2(secret.inner, &round1.inner).map_err(|e| match e {
        FrostError::IncorrectNumberOfPackages | FrostError::UnknownIdentifier => Error::MissingParticipant,
        FrostError::InvalidProofOfKnowledge { .. } | FrostError::IncorrectNumberOfCommitments => Error::InconsistentPackage,
        _ => Error::CryptoFailure,
    })?;
    let pairs = out.into_iter().map(|(i, p)| Ok((i.serialize(), p.serialize().map_err(|_| CryptoFailure)?))).collect::<Result<Vec<_>, Error>>()?;
    Ok((Round2Secret { inner: secret2 }, pairs))
}

/// What assembling a signing package returns: the serialization of
/// `SigningPackage::new` over the commitment map decoded from the keyed list
/// and the message. The operation draws no randomness, so it is a function
/// of these inputs alone.
pub uninterp spec fn signing_package_of(ids: Seq<Seq<u8>>, commitments: Seq<Seq<u8>>, msg: Seq<u8>) -> Seq<u8>;

/// What signing returns: the serialized signature share that
/// `round2::sign_with_tweak` computes from the serialized signing package,
/// nonces, key package and tweak bytes. A function of these inputs alone.
pub uninterp spec fn sig_share_of(package: Seq<u8>, nonces: Seq<u8>, key: Seq<u8>, tweak: Seq<u8>) -> Seq<u8>;

/// What aggregation returns: the serialized signature that
/// `aggregate_with_tweak` computes from the serialized signing package, the
/// keyed share list, the public key package and the tweak bytes. A function
/// of these inputs alone.
pub uninterp spec fn aggregate_of(package: Seq<u8>, share_ids: Seq<Seq<u8>>, shares: Seq<Seq<u8>>, pubkeys: Seq<u8>, tweak: Seq<u8>) -> Seq<u8>;

/// Whether verification succeeds end to end for these serialized inputs:
/// the public key package parses, the signature parses, and the signature
/// validates against the group key tweaked with these tweak bytes. A
/// function of the inputs alone.
pub uninterp spec fn verify_accepts(pubkeys: Seq<u8>, msg: Seq<u8>, signature: Seq<u8>, tweak: Seq<u8>) -> bool;

/// Whether a byte string is a valid `KeyPackage` serialization: the
/// deterministic success condition of `KeyPackage::deserialize`.
pub uninterp spec fn kp_parses(b: Seq<u8>) -> bool;

/// Whether a byte string is a valid `SigningPackage` serialization: the
/// deterministic success condition of `SigningPackage::deserialize`.
pub uninterp spec fn sp_parses(b: Seq<u8>) -> bool;

/// Whether a byte string is a valid `SigningNonces` serialization: the
/// deterministic success condition of `SigningNonces::deserialize`.
pub uninterp spec fn nonces_parse(b: Seq<u8>) -> bool;

/// Whether a byte string is a valid 64-byte BIP-340 signature encoding: the
/// deterministic success condition of `Signature::deserialize`.
pub uninterp spec fn sig_parses(b: Seq<u8>) -> bool;

/// Whether a byte string is a 32-byte canonical scalar that
/// `SignatureShare::deserialize` accepts: its deterministic success
/// condition.
pub uninterp spec fn share_parses(b: Seq<u8>) -> bool;

/// Whether every entry of a keyed share list decodes: each identifier a
/// canonical nonzero scalar encoding, each share a canonical 32-byte scalar
/// encoding. The share map decodes exactly where every entry does.
pub open spec fn share_entries_parse(ids: Seq<Seq<u8>>, shares: Seq<Seq<u8>>) -> bool {
    &&& forall|i: int| 0 <= i < ids.len() ==> id_parses(#[trigger] ids[i])
    &&& forall|i: int| 0 <= i < shares.len() ==> share_parses(#[trigger] shares[i])
}

/// The set of identifiers (in canonical serialization) that a parseable
/// signing package holds commitments for.
pub uninterp spec fn committed_ids_of(package: Seq<u8>) -> Set<Seq<u8>>;

/// The set a list of identifier byte strings covers.
pub open spec fn ids_set(ids: Seq<Seq<u8>>) -> Set<Seq<u8>> {
    ids.to_set()
}

/// Relies on `frost_secp256k1_tr::round1::commit` (with the `KeyPackage`
/// codec and the nonce and commitment serializations): draws fresh
/// per-session randomness for one signer and returns the serialized
/// single-use nonces beside their public commitments. Exactly a key package
/// that does not deserialize is rejected as malformed, before any randomness
/// is drawn.
#[verifier::external_body]
pub(crate) fn commit_call(key_package: &[u8]) -> (r: Result<(Vec<u8>, Vec<u8>), Error>)
    ensures
        (r is Err && r->Err_0 == Error::MalformedEncoding) <==> !kp_parses(key_package@),
        r is Err ==> (r->Err_0 == Error::MalformedEncoding || r->Err_0 == Error::CryptoFailure),
{
    let kp = KeyPackage::deserialize(key_package).map_err(|_| Error::MalformedEncoding)?;
    let (nonces, commitments) =
        frost_secp256k1_tr::round1::commit(kp.signing_share(), &mut rand::thread_rng());
    Ok((
        nonces.serialize().map_err(|_| Error::CryptoFailure)?,
        commitments.serialize().map_err(|_| Error::CryptoFailure)?,
    ))
}

/// Whether assembling a signing package succeeds for a keyed commitment list
/// and message: every identifier and commitment deserializes and the package
/// serializes. Deterministic in these inputs; assembly fails only on
/// malformed input.
pub uninterp spec fn assemble_ok(ids: Seq<Seq<u8>>, commitments: Seq<Seq<u8>>, msg: Seq<u8>) -> bool;

/// Relies on `frost_secp256k1_tr::SigningPackage::new` (with the
/// `Identifier` and `SigningCommitments` codecs and
/// `SigningPackage::serialize`): assembles the commitment map and the
/// message into the serialized signing package. Pure aggregation: it draws
/// no randomness and fails only where an input does not deserialize. The
/// serialization round-trips, and the package commits exactly the
/// identifiers it was assembled from.
#[verifier::external_body]
pub(crate) fn assemble_call(commitments: &Vec<(Vec<u8>, Vec<u8>)>, msg: &[u8]) -> (r: Result<
    Vec<u8>,
    Error,
>)
    ensures
        r is Ok <==> assemble_ok(
            firsts(commitments.deep_view()),
            seconds(commitments.deep_view()),
            msg@,
        ),
        r is Ok ==> r.unwrap()@ == signing_package_of(
            firsts(commitments.deep_view()),
            seconds(commitments.deep_view()),
            msg@,
        ),
        r is Ok ==> sp_parses(r.unwrap()@) && committed_ids_of(r.unwrap()@) == ids_set(
            firsts(commitments.deep_view()),
        ),
        r is Err ==> (r->Err_0 == Error::MalformedEncoding || r->Err_0 == Error::CryptoFailure),
{
    let map = commitments.iter().map(|(b, c)| Ok((FrostIdentifier::deserialize(b).map_err(|_| Error::MalformedEncoding)?, SigningCommitments::deserialize(c).map_err(|_| Error::MalformedEncoding)?))).collect::<Result<BTreeMap<_, _>, Error>>()?;
    SigningPackage::new(map, msg).serialize().map_err(|_| Error::CryptoFailure)
}

/// Whether producing a signature share succeeds for these serialized
/// inputs: the package, nonces and key package deserialize and the signer's
/// commitment is consistent with the package. Deterministic in the inputs.
pub uninterp spec fn sign_ok(package: Seq<u8>, nonces: Seq<u8>, key: Seq<u8>, tweak: Seq<u8>) -> bool;

/// Whether signing, its inputs parsed and its commitment-count check passed,
/// rejects the signing package for this signer: no commitment recorded under
/// the signer's identifier, or one that does not match the signer's nonces.
/// Deterministic in the inputs.
pub uninterp spec fn sign_commitments_rejected(package: Seq<u8>, nonces: Seq<u8>, key: Seq<u8>) -> bool;

/// Relies on `frost_secp256k1_tr::round2::sign_with_tweak` (with the
/// `SigningPackage`, `SigningNonces` and `KeyPackage` codecs): produces this
/// signer's signature share over the signing package under the BIP-341
/// tweak, using the given single-use nonces and key share. The share
/// serializes to the canonical 32-byte scalar encoding, which the share
/// codec accepts back. It draws no randomness, so
/// success and the share are functions of the inputs alone. The three
/// inputs are deserialized first, so exactly an undecodable input is
/// `MalformedEncoding`; the library's missing- and mismatched-commitment
/// rejections, and only those, are `InconsistentPackage`.
#[verifier::external_body]
pub(crate) fn sign_call(package: &[u8], nonces: &[u8], key_package: &[u8], tweak: &[u8]) -> (r:
    Result<Vec<u8>, Error>)
    ensures
        r is Ok <==> sign_ok(package@, nonces@, key_package@, tweak@),
        (r is Err && r->Err_0 == Error::MalformedEncoding) <==> !(sp_parses(package@)
            && nonces_parse(nonces@) && kp_parses(key_package@)),
        (r is Err && r->Err_0 == Error::InconsistentPackage) <==> (sp_parses(package@)
            && nonces_parse(nonces@) && kp_parses(key_package@) && sign_commitments_rejected(
            package@,
            nonces@,
            key_package@,
        )),
        r is Ok ==> r.unwrap()@ == sig_share_of(package@, nonces@, key_package@, tweak@),
        r is Ok ==> r.unwrap()@.len() == 32 && share_parses(r.unwrap()@),
        r is Err ==> (r->Err_0 == Error::MalformedEncoding || r->Err_0
            == Error::InconsistentPackage || r->Err_0 == Error::CryptoFailure),
{
    let sp = SigningPackage::deserialize(package).map_err(|_| Error::MalformedEncoding)?;
    let n = frost_secp256k1_tr::round1::SigningNonces::deserialize(nonces)
        .map_err(|_| Error::MalformedEncoding)?;
    let kp = KeyPackage::deserialize(key_package).map_err(|_| Error::MalformedEncoding)?;
    let share = frost_secp256k1_tr::round2::sign_with_tweak(&sp, &n, &kp, Some(tweak)).map_err(
        |e| match e {
            FrostError::MissingCommitment | FrostError::IncorrectCommitment => Error::InconsistentPackage,
            _ => Error::CryptoFailure,
        },
    )?;
    Ok(share.serialize())
}

/// Relies on `frost_secp256k1_tr::aggregate_with_tweak` (with the
/// `SigningPackage`, `SignatureShare` and `PublicKeyPackage` codecs):
/// verifies each share and aggregates them into the final signature, in
/// 64-byte BIP-340 compact form. It draws no randomness. The share codec
/// accepts exactly 32-byte scalar encodings, so on success every share
/// buffer was 32 bytes. The three inputs are deserialized first, so exactly
/// an undecodable input is `MalformedEncoding`. The library then checks
/// coverage before anything cryptographic — the share identifier set must
/// equal the committed set (`UnknownIdentifier` otherwise), reach the
/// recorded threshold (`IncorrectNumberOfShares`) and have verifying shares
/// (`UnknownIdentifier`) — so exactly a coverage failure is `MissingShare`;
/// past that, exactly a share failing its consistency check
/// (`InvalidSignatureShare`) is `InvalidShare`.
/// Whether aggregation succeeds for these serialized inputs: everything
/// deserializes, the shares cover exactly the identifiers committed in the
/// signing package, and every share passes its consistency check.
/// Deterministic in the inputs.
pub uninterp spec fn aggregate_ok(package: Seq<u8>, share_ids: Seq<Seq<u8>>, shares: Seq<Seq<u8>>, pubkeys: Seq<u8>, tweak: Seq<u8>) -> bool;

/// Whether the library's remaining coverage checks pass for a share set
/// whose identifier set already equals the package's committed set: the
/// share count reaches the threshold the public key package records, and
/// every committed identifier has a verifying share there. Deterministic in
/// the inputs.
pub uninterp spec fn shares_admissible(package: Seq<u8>, share_ids: Seq<Seq<u8>>, pubkeys: Seq<u8>) -> bool;

/// Whether aggregation, its coverage checks passed, rejects some share as
/// failing its cryptographic consistency check against that signer's
/// verifying share and commitment, under this tweak. Deterministic in the
/// inputs.
pub uninterp spec fn aggregate_rejects_share(package: Seq<u8>, share_ids: Seq<Seq<u8>>, shares: Seq<Seq<u8>>, pubkeys: Seq<u8>, tweak: Seq<u8>) -> bool;

#[verifier::external_body]
pub(crate) fn aggregate_call(
    package: &[u8],
    shares: &Vec<(Vec<u8>, Vec<u8>)>,
    pubkeys: &[u8],
    tweak: &[u8],
) -> (r: Result<Vec<u8>, Error>)
    ensures
        r is Ok <==> aggregate_ok(
            package@,
            firsts(shares.deep_view()),
            seconds(shares.deep_view()),
            pubkeys@,
            tweak@,
        ),
        (r is Err && r->Err_0 == Error::MalformedEncoding) <==> !(sp_parses(package@)
            && share_entries_parse(firsts(shares.deep_view()), seconds(shares.deep_view()))
            && vk_parses(pubkeys@)),
        (r is Err && r->Err_0 == Error::MissingShare) <==> (sp_parses(package@)
            && share_entries_parse(firsts(shares.deep_view()), seconds(shares.deep_view()))
            && vk_parses(pubkeys@) && !(ids_set(firsts(shares.deep_view())) == committed_ids_of(
            package@,
        ) && shares_admissible(package@, firsts(shares.deep_view()), pubkeys@))),
        (r is Err && r->Err_0 == Error::InvalidShare) <==> (sp_parses(package@)
            && share_entries_parse(firsts(shares.deep_view()), seconds(shares.deep_view()))
            && vk_parses(pubkeys@) && ids_set(firsts(shares.deep_view())) == committed_ids_of(
            package@,
        ) && shares_admissible(package@, firsts(shares.deep_view()), pubkeys@)
            && aggregate_rejects_share(
            package@,
            firsts(shares.deep_view()),
            seconds(shares.deep_view()),
            pubkeys@,
            tweak@,
        )),
        r is Ok ==> (forall|i: int|
            0 <= i < shares.deep_view().len() ==> (#[trigger] shares.deep_view()[i]).1.len()
                == 32),
        r is Ok ==> r.unwrap()@ == aggregate_of(
            package@,
            firsts(shares.deep_view()),
            seconds(shares.deep_view()),
            pubkeys@,
            tweak@,
        ),
        r is Ok ==> r.unwrap()@.len() == 64,
        r is Err ==> (r->Err_0 == Error::MalformedEncoding || r->Err_0 == Error::MissingShare
            || r->Err_0 == Error::InvalidShare || r->Err_0 == Error::CryptoFailure),
{
    let sp = SigningPackage::deserialize(package).map_err(|_| MalformedEncoding)?;
    let map = shares.iter().map(|(b, s)| Ok((FrostIdentifier::deserialize(b).map_err(|_| MalformedEncoding)?, SignatureShare::deserialize(s).map_err(|_| MalformedEncoding)?))).collect::<Result<BTreeMap<_, _>, Error>>()?;
    let pkp = PublicKeyPackage::deserialize(pubkeys).map_err(|_| MalformedEncoding)?;
    let sig = frost_secp256k1_tr::aggregate_with_tweak(&sp, &map, &pkp, Some(tweak)).map_err(
        |e| match e {
            FrostError::IncorrectNumberOfShares | FrostError::UnknownIdentifier | FrostError::MissingCommitment => Error::MissingShare,
            FrostError::InvalidSignatureShare { .. } => Error::InvalidShare,
            _ => Error::CryptoFailure,
        },
    )?;
    sig.serialize().map_err(|_| CryptoFailure)
}

/// Relies on `keys::Tweak::tweak` and `VerifyingKey::verify` (with the
/// `PublicKeyPackage` and `Signature` codecs): checks the aggregated
/// signature for the message against the group key tweaked with the BIP-341
/// tweak bytes. The two encoded inputs are deserialized first, so exactly
/// an undecodable input is `MalformedEncoding`; past that, exactly a failed
/// check is `VerificationFailed`.
#[verifier::external_body]
pub(crate) fn verify_call(pubkeys: &[u8], msg: &[u8], signature: &[u8], tweak: &[u8]) -> (r: Result<
    (),
    Error,
>)
    ensures
        r is Ok <==> verify_accepts(pubkeys@, msg@, signature@, tweak@),
        (r is Err && r->Err_0 == Error::MalformedEncoding) <==> !(vk_parses(pubkeys@) && sig_parses(
            signature@,
        )),
        (r is Err && r->Err_0 == Error::VerificationFailed) <==> (vk_parses(pubkeys@) && sig_parses(
            signature@,
        ) && !verify_accepts(pubkeys@, msg@, signature@, tweak@)),
{
    let pkp = PublicKeyPackage::deserialize(pubkeys).map_err(|_| Error::MalformedEncoding)?;
    let sig = Signature::deserialize(signature).map_err(|_| Error::MalformedEncoding)?;
    let tweaked = pkp.tweak(Some(tweak));
    tweaked.verifying_key().verify(msg, &sig).map_err(|_| Error::VerificationFailed)
}

/// Whether round 3 of the key generation succeeds for this round-2 secret
/// and the two received package maps: all expected packages are present and
/// every consistency check passes. The round draws no randomness, so success
/// and both outputs are functions of these three values alone.
pub uninterp spec fn part3_ok(s: Round2Secret, m1: Round1Map, m2: Round2Map) -> bool;

/// Whether round 3's completeness checks fail: a wrong package count in
/// either map, a map naming the caller, the two maps' key sets disagreeing,
/// or a package not found where expected. These checks run before any
/// cryptographic check. Deterministic in the three values.
pub uninterp spec fn part3_missing_package(s: Round2Secret, m1: Round1Map, m2: Round2Map) -> bool;

/// Whether round 3, having found its inputs complete, rejects a received
/// package as cryptographically inconsistent: a round-2 share fragment that
/// does not match the sender's round-1 commitment, or a mismatched group
/// commitment. Deterministic in the three values.
pub uninterp spec fn part3_rejects_package(s: Round2Secret, m1: Round1Map, m2: Round2Map) -> bool;

/// The serialized long-lived key package that a successful round 3 returns.
pub uninterp spec fn part3_key_package_of(s: Round2Secret, m1: Round1Map, m2: Round2Map) -> Seq<u8>;

/// The serialized group public key package that a successful round 3
/// returns.
pub uninterp spec fn part3_pubkey_of(s: Round2Secret, m1: Round1Map, m2: Round2Map) -> Seq<u8>;

/// Relies on `frost_secp256k1_tr::keys::dkg::part3` (with the `Identifier`,
/// package, `KeyPackage` and `PublicKeyPackage` codecs): consumes the round-2
/// secret together with the round-1 and round-2 packages received from the
/// other participants, verifies their consistency, and returns the serialized
/// long-lived key package and group public key package. It draws no
/// randomness, and runs its completeness checks before any cryptographic
/// check: exactly their failure is `MissingParticipant`, and once they pass,
/// exactly a rejected package is `InconsistentPackage`.
#[verifier::external_body]
pub(crate) fn part3_call(secret: &Round2Secret, round1: &Round1Map, round2: &Round2Map) -> (r:
    Result<(Vec<u8>, Vec<u8>), Error>)
    ensures
        r is Ok <==> part3_ok(*secret, *round1, *round2),
        (r is Err && r->Err_0 == Error::MissingParticipant) <==> part3_missing_package(
            *secret,
            *round1,
            *round2,
        ),
        (r is Err && r->Err_0 == Error::InconsistentPackage) <==> (!part3_missing_package(
            *secret,
            *round1,
            *round2,
        ) && part3_rejects_package(*secret, *round1, *round2)),
        r is Ok ==> r.unwrap().0@ == part3_key_package_of(*secret, *round1, *round2),
        r is Ok ==> r.unwrap().1@ == part3_pubkey_of(*secret, *round1, *round2),
        r is Err ==> (r->Err_0 == Error::MissingParticipant || r->Err_0
            == Error::InconsistentPackage || r->Err_0 == Error::CryptoFailure),
{
    let (kp, pkp) = frost_secp256k1_tr::keys::dkg::part3(&secret.inner, &round1.inner, &round2.inner)
        .map_err(|e| match e {
            FrostError::IncorrectNumberOfPackages | FrostError::UnknownIdentifier | FrostError::IncorrectPackage | FrostError::PackageNotFound => Error::MissingParticipant,
            FrostError::InvalidSecretShare { .. } | FrostError::IncorrectCommitment => Error::InconsistentPackage,
            _ => Error::CryptoFailure,
        })?;
    Ok((kp.serialize().map_err(|_| CryptoFailure)?, pkp.serialize().map_err(|_| CryptoFailure)?))
}

} // verus!

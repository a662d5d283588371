//! The two-round signing coordinator: per-signer commitment, assembly of the
//! signing package, partial signing, aggregation, and verification.
//!
//! A signing package of this crate always carries a tweak field: the
//! assembled bytes frame the tweak (defaulting to empty bytes where the
//! caller gave none) in front of the outside library's signing package, so
//! that signing and aggregation recover the same signing target.

use vstd::prelude::*;
use vstd::slice::slice_subrange;

use crate::dkg::{decode_keyed_list, id_bytes_of_hex, id_hex_ok};
use crate::errors::Error;
use crate::frost_ops::{
    aggregate_call, aggregate_of, aggregate_ok, aggregate_rejects_share, assemble_call,
    assemble_ok, commit_call, committed_ids_of, firsts, ids_set, kp_parses, nonces_parse, seconds,
    share_entries_parse, shares_admissible, sig_share_of, sign_call, sign_commitments_rejected,
    sign_ok, signing_package_of, sp_parses, verify_accepts, verify_call,
};
use crate::key::vk_parses;

verus! {

/// The identifier bytes that the hex keys of a keyed list encode.
pub open spec fn decoded_ids(items: Seq<(String, Vec<u8>)>) -> Seq<Seq<u8>> {
    items.map_values(|p: (String, Vec<u8>)| id_bytes_of_hex(p.0@))
}

/// The payload bytes of a keyed list.
pub open spec fn payloads(items: Seq<(String, Vec<u8>)>) -> Seq<Seq<u8>> {
    items.map_values(|p: (String, Vec<u8>)| p.1@)
}

/// The 4-byte little-endian encoding of a length below 2^32.
pub open spec fn le32_of(n: nat) -> Seq<u8> {
    seq![
        (n % 256) as u8,
        ((n / 256) % 256) as u8,
        ((n / 65536) % 256) as u8,
        ((n / 16777216) % 256) as u8,
    ]
}

/// A framed signing package: the tweak length, the tweak bytes, then the
/// outside library's serialized signing package.
pub open spec fn framed_package(package: Seq<u8>, tweak: Seq<u8>) -> Seq<u8> {
    le32_of(tweak.len()) + tweak + package
}

/// The (tweak, package) split that a framed signing package encodes, or
/// `None` where the frame is truncated.
pub open spec fn spec_unframe(b: Seq<u8>) -> Option<(Seq<u8>, Seq<u8>)> {
    if b.len() < 4 {
        None
    } else {
        let n = b[0] as int + 256 * (b[1] as int) + 65536 * (b[2] as int) + 16777216 * (
        b[3] as int);
        if b.len() < 4 + n {
            None
        } else {
            Some((b.subrange(4, 4 + n), b.subrange(4 + n, b.len() as int)))
        }
    }
}

/// The tweak bytes a signing package carries for a caller-supplied optional
/// tweak: the bytes given, or empty bytes where none were.
pub open spec fn effective_tweak_of(t: Option<Vec<u8>>) -> Seq<u8> {
    match t {
        Some(v) => v@,
        None => Seq::empty(),
    }
}

/// An absent tweak and an explicit empty tweak are the same signing target:
/// both carry empty tweak bytes, so assembling a signing package with either
/// frames byte-identical output.
pub proof fn lemma_tweak_default_equivalence(t: Option<Vec<u8>>)
    requires
        t is Some ==> t.unwrap()@ =~= Seq::<u8>::empty(),
    ensures
        effective_tweak_of(t) == effective_tweak_of(None),
{
}

/// Framing then unframing recovers the tweak and the package exactly.
pub proof fn lemma_frame_round_trip(package: Seq<u8>, tweak: Seq<u8>)
    requires
        tweak.len() <= u32::MAX,
    ensures
        spec_unframe(framed_package(package, tweak)) == Some((tweak, package)),
{
    let f = framed_package(package, tweak);
    let x = tweak.len() as u32;
    assert((x % 256) + 256 * ((x / 256) % 256) + 65536 * ((x / 65536) % 256) + 16777216 * ((x
        / 16777216) % 256) == x) by (bit_vector);
    let n = f[0] as int + 256 * (f[1] as int) + 65536 * (f[2] as int) + 16777216 * (f[3] as int);
    assert(n == tweak.len());
    assert(f.subrange(4, 4 + n) =~= tweak);
    assert(f.subrange(4 + n, f.len() as int) =~= package);
}

/// The caller's optional tweak as owned bytes, defaulting to empty.
fn effective_tweak(t: &Option<Vec<u8>>) -> (r: Vec<u8>)
    ensures
        r@ == effective_tweak_of(*t),
{
    match t {
        Some(v) => {
            let mut c: Vec<u8> = Vec::new();
            c.extend_from_slice(v.as_slice());
            assert(c@ =~= v@);
            c
        },
        None => Vec::new(),
    }
}

/// Frames a tweak in front of a serialized signing package. Fails only
/// where the tweak cannot be length-prefixed in four bytes.
pub fn frame_package(package: &[u8], tweak: &[u8]) -> (r: Result<Vec<u8>, Error>)
    ensures
        r is Ok <==> tweak@.len() <= u32::MAX,
        r is Ok ==> r.unwrap()@ == framed_package(package@, tweak@),
        r is Err ==> r->Err_0 == Error::MalformedEncoding,
{
    if tweak.len() > u32::MAX as usize {
        return Err(Error::MalformedEncoding);
    }
    let n = tweak.len() as u32;
    let mut out: Vec<u8> = Vec::new();
    out.push((n & 0xff) as u8);
    out.push(((n >> 8) & 0xff) as u8);
    out.push(((n >> 16) & 0xff) as u8);
    out.push(((n >> 24) & 0xff) as u8);
    out.extend_from_slice(tweak);
    out.extend_from_slice(package);
    proof {
        assert((n & 0xff) == n % 256 && ((n >> 8) & 0xff) == (n / 256) % 256 && ((n >> 16) & 0xff)
            == (n / 65536) % 256 && ((n >> 24) & 0xff) == (n / 16777216) % 256) by (bit_vector);
        assert(out@ =~= framed_package(package@, tweak@));
    }
    Ok(out)
}

/// Splits a framed signing package back into its tweak and the outside
/// library's package bytes; `MalformedEncoding` exactly where the frame is
/// truncated.
pub fn unframe_package(b: &[u8]) -> (r: Result<(Vec<u8>, Vec<u8>), Error>)
    ensures
        r is Ok <==> spec_unframe(b@) is Some,
        r is Ok ==> r.unwrap().0@ == spec_unframe(b@).unwrap().0 && r.unwrap().1@ == spec_unframe(
            b@,
        ).unwrap().1,
        r is Err ==> r->Err_0 == Error::MalformedEncoding,
{
    if b.len() < 4 {
        return Err(Error::MalformedEncoding);
    }
    let n: usize = (b[0] as usize) + 256 * (b[1] as usize) + 65536 * (b[2] as usize) + 16777216 * (
    b[3] as usize);
    if b.len() - 4 < n {
        return Err(Error::MalformedEncoding);
    }
    let tweak_slice = slice_subrange(b, 4, 4 + n);
    let package_slice = slice_subrange(b, 4 + n, b.len());
    let mut tweak: Vec<u8> = Vec::new();
    tweak.extend_from_slice(tweak_slice);
    let mut package: Vec<u8> = Vec::new();
    package.extend_from_slice(package_slice);
    proof {
        assert(tweak@ =~= spec_unframe(b@).unwrap().0);
        assert(package@ =~= spec_unframe(b@).unwrap().1);
    }
    Ok((tweak, package))
}

/// Draws fresh per-session randomness for one signer: returns the
/// serialized single-use nonces beside the public commitments to broadcast.
/// Exactly a key package that does not deserialize is rejected as malformed.
pub fn commit(key_package: &[u8]) -> (r: Result<(Vec<u8>, Vec<u8>), Error>)
    ensures
        (r is Err && r->Err_0 == Error::MalformedEncoding) <==> !kp_parses(key_package@),
        r is Err ==> (r->Err_0 == Error::MalformedEncoding || r->Err_0 == Error::CryptoFailure),
{
    commit_call(key_package)
}

/// Assembles the signing package for one session: the commitments of the
/// contributing signers keyed by hex identifier, the message, and the
/// optional Taproot merkle-root tweak, which defaults to an explicit empty
/// tweak — the output always carries a tweak field.
pub fn create_signing_package(
    commitments: &Vec<(String, Vec<u8>)>,
    message: &[u8],
    tap_merkle_root: &Option<Vec<u8>>,
) -> (r: Result<Vec<u8>, Error>)
    ensures
        r is Ok <==> ((forall|i: int|
            0 <= i < commitments@.len() ==> id_hex_ok(#[trigger] commitments@[i].0@))
            && assemble_ok(decoded_ids(commitments@), payloads(commitments@), message@)
            && effective_tweak_of(*tap_merkle_root).len() <= u32::MAX),
        r is Ok ==> r.unwrap()@ == framed_package(
            signing_package_of(decoded_ids(commitments@), payloads(commitments@), message@),
            effective_tweak_of(*tap_merkle_root),
        ),
        r is Ok ==> sp_parses(
            signing_package_of(decoded_ids(commitments@), payloads(commitments@), message@),
        ) && committed_ids_of(
            signing_package_of(decoded_ids(commitments@), payloads(commitments@), message@),
        ) == ids_set(decoded_ids(commitments@)),
        r is Err ==> (r->Err_0 == Error::MalformedEncoding || r->Err_0 == Error::CryptoFailure),
{
    let decoded = match decode_keyed_list(commitments) {
        Ok(v) => v,
        Err(e) => {
            return Err(e);
        },
    };
    proof {
        assert forall|i: int| 0 <= i < decoded@.len() implies (#[trigger] decoded.deep_view()[i]).0
            == decoded_ids(commitments@)[i] && decoded.deep_view()[i].1 == payloads(
            commitments@,
        )[i] by {
            assert(decoded.deep_view()[i].0 =~= decoded@[i].0@);
            assert(decoded.deep_view()[i].1 =~= decoded@[i].1@);
        }
        assert(firsts(decoded.deep_view()) =~= decoded_ids(commitments@));
        assert(seconds(decoded.deep_view()) =~= payloads(commitments@));
    }
    let package = match assemble_call(&decoded, message) {
        Ok(v) => v,
        Err(e) => {
            return Err(e);
        },
    };
    let tweak = effective_tweak(tap_merkle_root);
    frame_package(package.as_slice(), tweak.as_slice())
}

/// Produces one signer's signature share: splits the framed signing package
/// into tweak and signing target, and signs with the signer's single-use
/// nonces and key share. The nonces must never be reused across sessions.
pub fn sign(signing_package: &[u8], nonces: &[u8], key_package: &[u8]) -> (r: Result<
    Vec<u8>,
    Error,
>)
    ensures
        spec_unframe(signing_package@) is None ==> r is Err && r->Err_0
            == Error::MalformedEncoding,
        r is Ok <==> (spec_unframe(signing_package@) is Some && sign_ok(
            spec_unframe(signing_package@).unwrap().1,
            nonces@,
            key_package@,
            spec_unframe(signing_package@).unwrap().0,
        )),
        r is Ok ==> r.unwrap()@ == sig_share_of(
            spec_unframe(signing_package@).unwrap().1,
            nonces@,
            key_package@,
            spec_unframe(signing_package@).unwrap().0,
        ) && r.unwrap()@.len() == 32,
        (r is Err && r->Err_0 == Error::MalformedEncoding) <==> !(spec_unframe(
            signing_package@,
        ) is Some && sp_parses(spec_unframe(signing_package@).unwrap().1) && nonces_parse(nonces@)
            && kp_parses(key_package@)),
        (r is Err && r->Err_0 == Error::InconsistentPackage) <==> (spec_unframe(
            signing_package@,
        ) is Some && sp_parses(spec_unframe(signing_package@).unwrap().1) && nonces_parse(nonces@)
            && kp_parses(key_package@) && sign_commitments_rejected(
            spec_unframe(signing_package@).unwrap().1,
            nonces@,
            key_package@,
        )),
        r is Err ==> (r->Err_0 == Error::MalformedEncoding || r->Err_0
            == Error::InconsistentPackage || r->Err_0 == Error::CryptoFailure),
{
    let (tweak, package) = match unframe_package(signing_package) {
        Ok(v) => v,
        Err(e) => {
            return Err(e);
        },
    };
    sign_call(package.as_slice(), nonces, key_package, tweak.as_slice())
}

/// Aggregates the signature shares of a session into the final 64-byte
/// signature: the shares must cover exactly the signers whose commitments
/// the signing package holds, and each share is checked for consistency.
pub fn aggregate(signing_package: &[u8], shares: &Vec<(String, Vec<u8>)>, pubkeys: &[u8]) -> (r:
    Result<Vec<u8>, Error>)
    ensures
        spec_unframe(signing_package@) is None ==> r is Err && r->Err_0
            == Error::MalformedEncoding,
        r is Ok <==> (spec_unframe(signing_package@) is Some && (forall|i: int|
            0 <= i < shares@.len() ==> id_hex_ok(#[trigger] shares@[i].0@)) && aggregate_ok(
            spec_unframe(signing_package@).unwrap().1,
            decoded_ids(shares@),
            payloads(shares@),
            pubkeys@,
            spec_unframe(signing_package@).unwrap().0,
        )),
        r is Ok ==> r.unwrap()@ == aggregate_of(
            spec_unframe(signing_package@).unwrap().1,
            decoded_ids(shares@),
            payloads(shares@),
            pubkeys@,
            spec_unframe(signing_package@).unwrap().0,
        ) && r.unwrap()@.len() == 64,
        r is Ok ==> (forall|i: int|
            0 <= i < shares@.len() ==> (#[trigger] shares@[i].1@).len() == 32),
        (r is Err && r->Err_0 == Error::MalformedEncoding) <==> !(spec_unframe(
            signing_package@,
        ) is Some && (forall|i: int|
            0 <= i < shares@.len() ==> id_hex_ok(#[trigger] shares@[i].0@)) && sp_parses(
            spec_unframe(signing_package@).unwrap().1,
        ) && share_entries_parse(decoded_ids(shares@), payloads(shares@)) && vk_parses(pubkeys@)),
        (r is Err && r->Err_0 == Error::MissingShare) <==> (spec_unframe(signing_package@) is Some
            && (forall|i: int| 0 <= i < shares@.len() ==> id_hex_ok(#[trigger] shares@[i].0@))
            && sp_parses(spec_unframe(signing_package@).unwrap().1) && share_entries_parse(
            decoded_ids(shares@),
            payloads(shares@),
        ) && vk_parses(pubkeys@) && !(ids_set(decoded_ids(shares@)) == committed_ids_of(
            spec_unframe(signing_package@).unwrap().1,
        ) && shares_admissible(
            spec_unframe(signing_package@).unwrap().1,
            decoded_ids(shares@),
            pubkeys@,
        ))),
        (r is Err && r->Err_0 == Error::InvalidShare) <==> (spec_unframe(signing_package@) is Some
            && (forall|i: int| 0 <= i < shares@.len() ==> id_hex_ok(#[trigger] shares@[i].0@))
            && sp_parses(spec_unframe(signing_package@).unwrap().1) && share_entries_parse(
            decoded_ids(shares@),
            payloads(shares@),
        ) && vk_parses(pubkeys@) && ids_set(decoded_ids(shares@)) == committed_ids_of(
            spec_unframe(signing_package@).unwrap().1,
        ) && shares_admissible(
            spec_unframe(signing_package@).unwrap().1,
            decoded_ids(shares@),
            pubkeys@,
        ) && aggregate_rejects_share(
            spec_unframe(signing_package@).unwrap().1,
            decoded_ids(shares@),
            payloads(shares@),
            pubkeys@,
            spec_unframe(signing_package@).unwrap().0,
        )),
        r is Err ==> (r->Err_0 == Error::MalformedEncoding || r->Err_0 == Error::MissingShare
            || r->Err_0 == Error::InvalidShare || r->Err_0 == Error::CryptoFailure),
{
    let (tweak, package) = match unframe_package(signing_package) {
        Ok(v) => v,
        Err(e) => {
            return Err(e);
        },
    };
    let decoded = match decode_keyed_list(shares) {
        Ok(v) => v,
        Err(e) => {
            return Err(e);
        },
    };
    proof {
        assert forall|i: int| 0 <= i < decoded@.len() implies (#[trigger] decoded.deep_view()[i]).0
            == decoded_ids(shares@)[i] && decoded.deep_view()[i].1 == payloads(shares@)[i] by {
            assert(decoded.deep_view()[i].0 =~= decoded@[i].0@);
            assert(decoded.deep_view()[i].1 =~= decoded@[i].1@);
        }
        assert(firsts(decoded.deep_view()) =~= decoded_ids(shares@));
        assert(seconds(decoded.deep_view()) =~= payloads(shares@));
    }
    let r = aggregate_call(package.as_slice(), &decoded, pubkeys, tweak.as_slice());
    proof {
        if r is Ok {
            assert forall|i: int| 0 <= i < shares@.len() implies (#[trigger] shares@[i].1@).len()
                == 32 by {
                assert(decoded.deep_view()[i].1 =~= decoded@[i].1@);
                assert(payloads(shares@)[i] == shares@[i].1@);
            }
        }
    }
    r
}

/// Checks an aggregated signature against the group's public key package,
/// the message, and the optional tweak, which defaults to the explicit empty
/// tweak exactly as in `create_signing_package`.
pub fn verify(
    pubkeys: &[u8],
    message: &[u8],
    signature: &[u8],
    tap_merkle_root: &Option<Vec<u8>>,
) -> (r: Result<(), Error>)
    ensures
        r is Ok <==> verify_accepts(
            pubkeys@,
            message@,
            signature@,
            effective_tweak_of(*tap_merkle_root),
        ),
        (r is Err && r->Err_0 == Error::MalformedEncoding) <==> !(vk_parses(pubkeys@)
            && crate::frost_ops::sig_parses(signature@)),
        (r is Err && r->Err_0 == Error::VerificationFailed) <==> (vk_parses(pubkeys@)
            && crate::frost_ops::sig_parses(signature@) && !verify_accepts(
            pubkeys@,
            message@,
            signature@,
            effective_tweak_of(*tap_merkle_root),
        )),
{
    let tweak = effective_tweak(tap_merkle_root);
    verify_call(pubkeys, message, signature, tweak.as_slice())
}

} // verus!

//! The three-round distributed key generation coordinator.
//!
//! Each round is a pure function of its inputs plus randomness; no session
//! state is held beyond the secret packages that the handle registries carry
//! from one round to the next. Round-1 and round-2 secrets are published
//! under fresh handles and consumed exactly once.

use vstd::prelude::*;
use vstd::utf8::encode_utf8;

use crate::errors::Error;
use crate::frost_ops::{
    decode_round1_map, decode_round2_map, expected_signers_of, id_parses, ids_drawn_from,
    part1_call, part2_call, part2_ok, part2_packages_of, part2_rejects_package, part2_secret_of,
    part3_call, part3_key_package_of, part3_missing_package, part3_ok, part3_pubkey_of,
    part3_rejects_package, round1_decodes, round1_map_ids, round1_map_of, round2_decodes,
    round2_map_of, secret_id_of, Round1Secret, Round2Secret,
};
use crate::key::vk_parses;
use crate::handles::Registry;
use crate::hexcodec::{bytes_of_hex, is_hex_str};
use crate::identifier::{all_zero, hex_chars_of, lemma_hex_chars_injective, to_hex_string, Identifier};
use crate::key::{xy_even_ok, XYEncodedPublicKey};

verus! {

/// The registry that carries round-1 secret packages to round 2.
pub type Round1Registry = Registry<Round1Secret>;

/// The registry that carries round-2 secret packages to round 3.
pub type Round2Registry = Registry<Round2Secret>;

/// Whether a string is a well-formed identifier encoding: 64 hex characters
/// for a nonzero value.
pub open spec fn id_hex_ok(s: Seq<char>) -> bool {
    &&& encode_utf8(s).len() == 64
    &&& is_hex_str(encode_utf8(s))
    &&& !all_zero(bytes_of_hex(encode_utf8(s)))
}

/// The identifier bytes that a hex string encodes.
pub open spec fn id_bytes_of_hex(s: Seq<char>) -> Seq<u8> {
    bytes_of_hex(encode_utf8(s))
}

/// The (identifier bytes, package bytes) view of a keyed hex list: each hex
/// key decoded to its identifier bytes, beside the payload bytes.
pub open spec fn decoded_view(items: Seq<(String, Vec<u8>)>) -> Seq<(Seq<u8>, Seq<u8>)> {
    items.map_values(|p: (String, Vec<u8>)| (id_bytes_of_hex(p.0@), p.1@))
}

/// Whether every entry of a keyed output list carries the hex encoding of
/// an identifier that occurs among the keyed inputs.
pub open spec fn keys_drawn_from(out: Seq<(String, Vec<u8>)>, inp: Seq<(String, Vec<u8>)>) -> bool {
    forall|i: int|
        #![trigger out[i]]
        0 <= i < out.len() ==> (exists|j: int|
            0 <= j < inp.len() && out[i].0@ == hex_chars_of(
                id_bytes_of_hex((#[trigger] inp[j]).0@),
            ))
}

/// The key strings of a keyed list, as character sequences.
pub open spec fn hex_keys(items: Seq<(String, Vec<u8>)>) -> Seq<Seq<char>> {
    items.map_values(|p: (String, Vec<u8>)| p.0@)
}

/// Whether every input identifier's hex encoding occurs among the keys of a
/// keyed output list: with `keys_drawn_from`, the output key set equals
/// exactly the input identifier set.
pub open spec fn keys_cover(out: Seq<(String, Vec<u8>)>, inp: Seq<(String, Vec<u8>)>) -> bool {
    forall|j: int|
        #![trigger inp[j]]
        0 <= j < inp.len() ==> hex_keys(out).contains(hex_chars_of(id_bytes_of_hex(inp[j].0@)))
}

/// Where a keyed output list encodes, pairwise, the identifiers of a decoded
/// pair list whose key set covers every input identifier, the output keys
/// cover every input identifier's hex encoding.
proof fn lemma_keys_cover(
    out: Seq<(String, Vec<u8>)>,
    inp: Seq<(String, Vec<u8>)>,
    ids: Seq<Seq<u8>>,
)
    requires
        ids_drawn_from(ids, decoded_view(inp)),
        out.len() == ids.len(),
        forall|j: int| #![trigger out[j]] 0 <= j < out.len() ==> out[j].0@ == hex_chars_of(ids[j]),
    ensures
        keys_cover(out, inp),
{
    assert forall|j: int| #![trigger inp[j]] 0 <= j < inp.len() implies hex_keys(out).contains(
        hex_chars_of(id_bytes_of_hex(inp[j].0@)),
    ) by {
        assert(decoded_view(inp)[j].0 == id_bytes_of_hex(inp[j].0@));
        let k = choose|k: int|
            0 <= k < ids.len() && (#[trigger] ids[k]) == decoded_view(inp)[j].0;
        assert(hex_keys(out)[k] == hex_chars_of(id_bytes_of_hex(inp[j].0@)));
        assert(hex_keys(out).contains(hex_chars_of(id_bytes_of_hex(inp[j].0@))));
    }
}

/// Decodes a list of (identifier hex, package bytes) pairs to (identifier
/// bytes, package bytes) pairs, in order. Succeeds exactly where every
/// identifier is well-formed hex for a nonzero 32-byte value; anything else
/// is `MalformedEncoding`.
pub fn decode_keyed_list(items: &Vec<(String, Vec<u8>)>) -> (r: Result<
    Vec<(Vec<u8>, Vec<u8>)>,
    Error,
>)
    ensures
        r is Ok <==> (forall|i: int| 0 <= i < items@.len() ==> id_hex_ok(#[trigger] items@[i].0@)),
        r is Ok ==> r.unwrap()@.len() == items@.len() && (forall|i: int|
            0 <= i < items@.len() ==> (#[trigger] r.unwrap()@[i].0@) == id_bytes_of_hex(
                items@[i].0@,
            ) && r.unwrap()@[i].1@ == items@[i].1@),
        r is Err ==> r->Err_0 == Error::MalformedEncoding,
{
    let mut out: Vec<(Vec<u8>, Vec<u8>)> = Vec::new();
    let n = items.len();
    let mut i: usize = 0;
    while i < n
        invariant
            n == items@.len(),
            i <= n,
            out@.len() == i,
            forall|j: int| 0 <= j < i ==> id_hex_ok(#[trigger] items@[j].0@),
            forall|j: int|
                0 <= j < i ==> (#[trigger] out@[j].0@) == id_bytes_of_hex(items@[j].0@)
                    && out@[j].1@ == items@[j].1@,
        decreases n - i,
    {
        let pair = &items[i];
        let id = match Identifier::decode(pair.0.as_str()) {
            Ok(v) => v,
            Err(_) => {
                return Err(Error::MalformedEncoding);
            },
        };
        let mut pkg: Vec<u8> = Vec::new();
        pkg.extend_from_slice(pair.1.as_slice());
        assert(pkg@ =~= items@[i as int].1@);
        out.push((id.into_bytes(), pkg));
        i = i + 1;
    }
    Ok(out)
}

/// Runs DKG round 1 for one participant: validates `1 <= min <= max`, draws
/// fresh randomness, stores the round-1 secret package under a fresh handle,
/// and returns the handle beside the serialized broadcast package.
///
/// Exactly a violated threshold constraint is `ThresholdInvalid` — the
/// outside library further requires a threshold and group size of at least
/// two — and exactly an identifier that is no canonical scalar encoding is
/// `MalformedEncoding`; every failure leaves the registry unchanged.
pub fn dkg_part1(
    id: &Identifier,
    max_signers: u16,
    min_signers: u16,
    registry: &mut Round1Registry,
) -> (r: Result<(usize, Vec<u8>), Error>)
    ensures
        (r is Err && r->Err_0 == Error::ThresholdInvalid) <==> ((min_signers < 1 || min_signers
            > max_signers) || (id_parses(id@) && (min_signers < 2 || max_signers < 2))),
        (r is Err && r->Err_0 == Error::MalformedEncoding) <==> (1 <= min_signers && min_signers
            <= max_signers && !id_parses(id@)),
        r is Ok ==> !old(registry)@.contains_key(r.unwrap().0) && final(registry)@ == old(
            registry,
        )@.insert(r.unwrap().0, final(registry)@[r.unwrap().0]),
        r is Ok ==> !old(registry).was_issued(r.unwrap().0) && final(registry).was_issued(
            r.unwrap().0,
        ),
        r is Ok ==> secret_id_of(final(registry)@[r.unwrap().0]) == id@,
        r is Err ==> final(registry)@ == old(registry)@ && final(registry).issued() == old(
            registry,
        ).issued(),
        r is Err ==> (r->Err_0 == Error::ThresholdInvalid || r->Err_0 == Error::MalformedEncoding
            || r->Err_0 == Error::CryptoFailure),
{
    if min_signers < 1 || min_signers > max_signers {
        return Err(Error::ThresholdInvalid);
    }
    let (secret, package) = match part1_call(id.as_bytes(), max_signers, min_signers) {
        Ok(v) => v,
        Err(e) => {
            return Err(e);
        },
    };
    let ghost stored = secret;
    let h = registry.publish(secret);
    proof {
        assert(registry@ == old(registry)@.insert(h, stored));
        assert(registry@[h] == stored);
    }
    Ok((h, package))
}

/// Runs DKG round 2 for one participant: consumes the round-1 secret that
/// the handle names (exactly once — an unknown or consumed handle is
/// `InvalidHandle`), decodes the round-1 packages received from the other
/// participants, and stores the round-2 secret under a fresh handle, beside
/// one directed round-2 package per other participant. The output key set
/// equals exactly the set of sender identifiers received, re-encoded as
/// lowercase hex; the round fails rather than accept a package list that
/// names the caller itself.
#[verifier::rlimit(60)]
pub fn dkg_part2(
    handle: usize,
    round1: &Vec<(String, Vec<u8>)>,
    registry1: &mut Round1Registry,
    registry2: &mut Round2Registry,
) -> (r: Result<(usize, Vec<(String, Vec<u8>)>), Error>)
    ensures
        !old(registry1)@.contains_key(handle) ==> r is Err && r->Err_0 == Error::InvalidHandle
            && final(registry1)@ == old(registry1)@,
        old(registry1)@.contains_key(handle) ==> final(registry1)@ == old(registry1)@.remove(
            handle,
        ),
        final(registry1).issued() == old(registry1).issued(),
        old(registry1)@.contains_key(handle) ==> ((r is Ok) <==> ((forall|i: int|
            0 <= i < round1@.len() ==> id_hex_ok(#[trigger] round1@[i].0@)) && round1_decodes(
            decoded_view(round1@),
        ) && part2_ok(old(registry1)@[handle], round1_map_of(decoded_view(round1@))))),
        r is Ok ==> !old(registry2)@.contains_key(r.unwrap().0) && final(registry2)@ == old(
            registry2,
        )@.insert(r.unwrap().0, final(registry2)@[r.unwrap().0]),
        r is Ok ==> !old(registry2).was_issued(r.unwrap().0) && final(registry2).was_issued(
            r.unwrap().0,
        ),
        r is Ok ==> final(registry2)@[r.unwrap().0] == part2_secret_of(
            old(registry1)@[handle],
            round1_map_of(decoded_view(round1@)),
        ),
        r is Ok ==> ({
            let packages = part2_packages_of(
                old(registry1)@[handle],
                round1_map_of(decoded_view(round1@)),
            );
            r.unwrap().1@.len() == packages.len() && (forall|i: int|
                #![trigger r.unwrap().1@[i]]
                0 <= i < packages.len() ==> r.unwrap().1@[i].0@ == hex_chars_of(packages[i].0)
                    && r.unwrap().1@[i].1@ == packages[i].1)
        }),
        r is Err ==> final(registry2)@ == old(registry2)@ && final(registry2).issued() == old(
            registry2,
        ).issued(),
        r is Ok ==> keys_drawn_from(r.unwrap().1@, round1@) && keys_cover(r.unwrap().1@, round1@),
        r is Ok ==> (forall|i: int|
            #![trigger r.unwrap().1@[i]]
            0 <= i < r.unwrap().1@.len() ==> r.unwrap().1@[i].0@ != hex_chars_of(
                secret_id_of(old(registry1)@[handle]),
            )),
        (r is Err && r->Err_0 == Error::InvalidHandle) <==> !old(registry1)@.contains_key(handle),
        (r is Err && r->Err_0 == Error::MalformedEncoding) <==> (old(registry1)@.contains_key(
            handle,
        ) && !((forall|i: int| 0 <= i < round1@.len() ==> id_hex_ok(#[trigger] round1@[i].0@))
            && round1_decodes(decoded_view(round1@)))),
        (r is Err && r->Err_0 == Error::MissingParticipant) <==> (old(registry1)@.contains_key(
            handle,
        ) && (forall|i: int| 0 <= i < round1@.len() ==> id_hex_ok(#[trigger] round1@[i].0@))
            && round1_decodes(decoded_view(round1@)) && (round1_map_ids(
            round1_map_of(decoded_view(round1@)),
        ).len() + 1 != expected_signers_of(old(registry1)@[handle]) || round1_map_ids(
            round1_map_of(decoded_view(round1@)),
        ).contains(secret_id_of(old(registry1)@[handle])))),
        (r is Err && r->Err_0 == Error::InconsistentPackage) <==> (old(registry1)@.contains_key(
            handle,
        ) && (forall|i: int| 0 <= i < round1@.len() ==> id_hex_ok(#[trigger] round1@[i].0@))
            && round1_decodes(decoded_view(round1@)) && round1_map_ids(
            round1_map_of(decoded_view(round1@)),
        ).len() + 1 == expected_signers_of(old(registry1)@[handle]) && !round1_map_ids(
            round1_map_of(decoded_view(round1@)),
        ).contains(secret_id_of(old(registry1)@[handle])) && part2_rejects_package(
            old(registry1)@[handle],
            round1_map_of(decoded_view(round1@)),
        )),
        r is Err ==> (r->Err_0 == Error::InvalidHandle || r->Err_0 == Error::MalformedEncoding
            || r->Err_0 == Error::MissingParticipant || r->Err_0 == Error::InconsistentPackage
            || r->Err_0 == Error::CryptoFailure),
{
    let secret = match registry1.take(handle) {
        Ok(s) => s,
        Err(e) => {
            return Err(e);
        },
    };
    let ghost taken = secret;
    let decoded = match decode_keyed_list(round1) {
        Ok(v) => v,
        Err(e) => {
            return Err(e);
        },
    };
    proof {
        assert forall|i: int| 0 <= i < decoded@.len() implies (#[trigger] decoded.deep_view()[i])
            == decoded_view(round1@)[i] by {
            assert(decoded.deep_view()[i].0 =~= decoded@[i].0@);
            assert(decoded.deep_view()[i].1 =~= decoded@[i].1@);
        }
        assert(decoded.deep_view() =~= decoded_view(round1@));
    }
    let map = match decode_round1_map(&decoded) {
        Ok(v) => v,
        Err(e) => {
            return Err(e);
        },
    };
    let (secret2, pairs) = match part2_call(secret, &map) {
        Ok(v) => v,
        Err(e) => {
            return Err(e);
        },
    };
    let ghost map_ids = round1_map_ids(map);
    let ghost stored2 = secret2;
    let h2 = registry2.publish(secret2);
    proof {
        assert(registry2@ == old(registry2)@.insert(h2, stored2));
        assert(registry2@[h2] == stored2);
        assert(pairs.deep_view() == part2_packages_of(taken, round1_map_of(decoded_view(round1@))));
    }
    let n = pairs.len();
    let mut out: Vec<(String, Vec<u8>)> = Vec::new();
    let mut i: usize = 0;
    while i < n
        invariant
            n == pairs@.len(),
            i <= n,
            out@.len() == i,
            decoded@.len() == round1@.len(),
            forall|j: int|
                0 <= j < decoded@.len() ==> (#[trigger] decoded@[j].0@) == id_bytes_of_hex(
                    round1@[j].0@,
                ),
            ids_drawn_from(map_ids, decoded.deep_view()),
            crate::frost_ops::firsts(pairs.deep_view()) == map_ids,
            keys_drawn_from(out@, round1@),
            forall|j: int|
                #![trigger out@[j]]
                0 <= j < i ==> out@[j].0@ == hex_chars_of(pairs.deep_view()[j].0) && out@[j].1@
                    == pairs.deep_view()[j].1,
        decreases n - i,
    {
        let p = &pairs[i];
        let id_hex = to_hex_string(p.0.as_slice());
        let mut pkg: Vec<u8> = Vec::new();
        pkg.extend_from_slice(p.1.as_slice());
        out.push((id_hex, pkg));
        proof {
            assert(pairs.deep_view()[i as int].0 =~= pairs@[i as int].0@);
            assert(pairs.deep_view()[i as int].1 =~= pairs@[i as int].1@);
            assert(pkg@ =~= pairs@[i as int].1@);
            assert(pairs.deep_view()[i as int].0 == map_ids[i as int]);
            let k = choose|k: int|
                0 <= k < decoded.deep_view().len() && map_ids[i as int] == (
                #[trigger] decoded.deep_view()[k]).0;
            assert(decoded.deep_view()[k].0 =~= decoded@[k].0@);
            assert(out@[i as int].0@ == hex_chars_of(id_bytes_of_hex(round1@[k].0@)));
        }
        i = i + 1;
    }
    proof {
        assert(map_ids.len() == pairs@.len() && out@.len() == pairs@.len());
        assert forall|j: int| #![trigger out@[j]] 0 <= j < out@.len() implies out@[j].0@
            == hex_chars_of(map_ids[j]) by {
            assert(pairs.deep_view()[j].0 == map_ids[j]);
        }
        lemma_keys_cover(out@, round1@, map_ids);
        assert forall|i: int| #![trigger out@[i]] 0 <= i < out@.len() implies out@[i].0@
            != hex_chars_of(secret_id_of(taken)) by {
            assert(pairs.deep_view()[i].0 == map_ids[i]);
            assert(out@[i].0@ == hex_chars_of(map_ids[i]));
            assert(map_ids[i] != secret_id_of(taken));
            if out@[i].0@ == hex_chars_of(secret_id_of(taken)) {
                lemma_hex_chars_injective(map_ids[i], secret_id_of(taken));
            }
        }
    }
    Ok((h2, out))
}

/// Runs DKG round 3 for one participant: consumes the round-2 secret that
/// the handle names (exactly once), checks the consistency of all received
/// packages, and returns the serialized long-lived key package, the group
/// public key package, and the group verification key in even-Y form.
pub fn dkg_part3(
    handle: usize,
    round1: &Vec<(String, Vec<u8>)>,
    round2: &Vec<(String, Vec<u8>)>,
    registry2: &mut Round2Registry,
) -> (r: Result<(Vec<u8>, Vec<u8>, XYEncodedPublicKey), Error>)
    ensures
        !old(registry2)@.contains_key(handle) ==> r is Err && r->Err_0 == Error::InvalidHandle
            && final(registry2)@ == old(registry2)@,
        old(registry2)@.contains_key(handle) ==> final(registry2)@ == old(registry2)@.remove(
            handle,
        ),
        final(registry2).issued() == old(registry2).issued(),
        old(registry2)@.contains_key(handle) ==> ((r is Ok) <==> ((forall|i: int|
            0 <= i < round1@.len() ==> id_hex_ok(#[trigger] round1@[i].0@)) && (forall|i: int|
            0 <= i < round2@.len() ==> id_hex_ok(#[trigger] round2@[i].0@)) && round1_decodes(
            decoded_view(round1@),
        ) && round2_decodes(decoded_view(round2@)) && part3_ok(
            old(registry2)@[handle],
            round1_map_of(decoded_view(round1@)),
            round2_map_of(decoded_view(round2@)),
        ) && vk_parses(
            part3_pubkey_of(
                old(registry2)@[handle],
                round1_map_of(decoded_view(round1@)),
                round2_map_of(decoded_view(round2@)),
            ),
        ))),
        r is Ok ==> r.unwrap().0@ == part3_key_package_of(
            old(registry2)@[handle],
            round1_map_of(decoded_view(round1@)),
            round2_map_of(decoded_view(round2@)),
        ),
        r is Ok ==> r.unwrap().1@ == part3_pubkey_of(
            old(registry2)@[handle],
            round1_map_of(decoded_view(round1@)),
            round2_map_of(decoded_view(round2@)),
        ),
        r is Ok ==> xy_even_ok(r.unwrap().2.bytes@, r.unwrap().1@),
        (r is Err && r->Err_0 == Error::InvalidHandle) <==> !old(registry2)@.contains_key(handle),
        (r is Err && r->Err_0 == Error::MalformedEncoding) <==> (old(registry2)@.contains_key(
            handle,
        ) && (!((forall|i: int| 0 <= i < round1@.len() ==> id_hex_ok(#[trigger] round1@[i].0@))
            && (forall|i: int| 0 <= i < round2@.len() ==> id_hex_ok(#[trigger] round2@[i].0@))
            && round1_decodes(decoded_view(round1@)) && round2_decodes(decoded_view(round2@)))
            || (part3_ok(
            old(registry2)@[handle],
            round1_map_of(decoded_view(round1@)),
            round2_map_of(decoded_view(round2@)),
        ) && !vk_parses(
            part3_pubkey_of(
                old(registry2)@[handle],
                round1_map_of(decoded_view(round1@)),
                round2_map_of(decoded_view(round2@)),
            ),
        )))),
        (r is Err && r->Err_0 == Error::MissingParticipant) <==> (old(registry2)@.contains_key(
            handle,
        ) && (forall|i: int| 0 <= i < round1@.len() ==> id_hex_ok(#[trigger] round1@[i].0@)) && (
        forall|i: int| 0 <= i < round2@.len() ==> id_hex_ok(#[trigger] round2@[i].0@))
            && round1_decodes(decoded_view(round1@)) && round2_decodes(decoded_view(round2@))
            && part3_missing_package(
            old(registry2)@[handle],
            round1_map_of(decoded_view(round1@)),
            round2_map_of(decoded_view(round2@)),
        )),
        (r is Err && r->Err_0 == Error::InconsistentPackage) <==> (old(registry2)@.contains_key(
            handle,
        ) && (forall|i: int| 0 <= i < round1@.len() ==> id_hex_ok(#[trigger] round1@[i].0@)) && (
        forall|i: int| 0 <= i < round2@.len() ==> id_hex_ok(#[trigger] round2@[i].0@))
            && round1_decodes(decoded_view(round1@)) && round2_decodes(decoded_view(round2@))
            && !part3_missing_package(
            old(registry2)@[handle],
            round1_map_of(decoded_view(round1@)),
            round2_map_of(decoded_view(round2@)),
        ) && part3_rejects_package(
            old(registry2)@[handle],
            round1_map_of(decoded_view(round1@)),
            round2_map_of(decoded_view(round2@)),
        )),
        r is Err ==> (r->Err_0 == Error::InvalidHandle || r->Err_0 == Error::MalformedEncoding
            || r->Err_0 == Error::MissingParticipant || r->Err_0 == Error::InconsistentPackage
            || r->Err_0 == Error::CryptoFailure),
{
    let secret = match registry2.take(handle) {
        Ok(s) => s,
        Err(e) => {
            return Err(e);
        },
    };
    let decoded1 = match decode_keyed_list(round1) {
        Ok(v) => v,
        Err(e) => {
            return Err(e);
        },
    };
    let decoded2 = match decode_keyed_list(round2) {
        Ok(v) => v,
        Err(e) => {
            return Err(e);
        },
    };
    proof {
        assert forall|i: int| 0 <= i < decoded1@.len() implies (#[trigger] decoded1.deep_view()[i])
            == decoded_view(round1@)[i] by {
            assert(decoded1.deep_view()[i].0 =~= decoded1@[i].0@);
            assert(decoded1.deep_view()[i].1 =~= decoded1@[i].1@);
        }
        assert(decoded1.deep_view() =~= decoded_view(round1@));
        assert forall|i: int| 0 <= i < decoded2@.len() implies (#[trigger] decoded2.deep_view()[i])
            == decoded_view(round2@)[i] by {
            assert(decoded2.deep_view()[i].0 =~= decoded2@[i].0@);
            assert(decoded2.deep_view()[i].1 =~= decoded2@[i].1@);
        }
        assert(decoded2.deep_view() =~= decoded_view(round2@));
    }
    let map1 = match decode_round1_map(&decoded1) {
        Ok(v) => v,
        Err(e) => {
            return Err(e);
        },
    };
    let map2 = match decode_round2_map(&decoded2) {
        Ok(v) => v,
        Err(e) => {
            return Err(e);
        },
    };
    let (key_package, pubkey_package) = match part3_call(&secret, &map1, &map2) {
        Ok(v) => v,
        Err(e) => {
            return Err(e);
        },
    };
    let xy = match XYEncodedPublicKey::from_public_key_package(pubkey_package.as_slice()) {
        Ok(v) => v,
        Err(e) => {
            return Err(e);
        },
    };
    Ok((key_package, pubkey_package, xy))
}

} // verus!

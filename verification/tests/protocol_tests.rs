use frost::dkg::{dkg_part1, dkg_part2, dkg_part3, Round1Registry, Round2Registry};
use frost::errors::Error;
use frost::handles::Registry;
use frost::identifier::Identifier;
use frost::signing::{aggregate, commit, create_signing_package, sign, verify};

struct DkgResult {
    hex_ids: Vec<String>,
    key_packages: Vec<Vec<u8>>,
    pubkey_packages: Vec<Vec<u8>>,
    verifying_keys_xy: Vec<Vec<u8>>,
}

/// Runs the full three-round DKG for `n` participants with threshold `t`,
/// with identifiers derived from seeds 1..=n, exchanging every package as
/// the protocol prescribes.
fn run_dkg(n: usize, t: u16) -> DkgResult {
    let mut registry1: Round1Registry = Registry::new();
    let mut registry2: Round2Registry = Registry::new();

    let ids: Vec<Identifier> =
        (1..=n).map(|i| Identifier::derive(&[i as u8]).unwrap()).collect();
    let hex_ids: Vec<String> = ids.iter().map(|id| id.encode()).collect();

    let mut handles1 = Vec::new();
    let mut round1_packages = Vec::new();
    for id in &ids {
        let (h, pkg) = dkg_part1(id, n as u16, t, &mut registry1).unwrap();
        handles1.push(h);
        round1_packages.push(pkg);
    }

    // Everyone receives the round-1 packages of all other participants.
    let mut handles2 = Vec::new();
    let mut round2_out: Vec<Vec<(String, Vec<u8>)>> = Vec::new();
    for i in 0..n {
        let received: Vec<(String, Vec<u8>)> = (0..n)
            .filter(|&j| j != i)
            .map(|j| (hex_ids[j].clone(), round1_packages[j].clone()))
            .collect();
        let (h2, out) = dkg_part2(handles1[i], &received, &mut registry1, &mut registry2).unwrap();
        handles2.push(h2);
        round2_out.push(out);
    }

    // Each participant receives, from every other participant, the round-2
    // package addressed to them, keyed by the sender's identifier.
    let mut result = DkgResult {
        hex_ids: hex_ids.clone(),
        key_packages: Vec::new(),
        pubkey_packages: Vec::new(),
        verifying_keys_xy: Vec::new(),
    };
    for i in 0..n {
        let received1: Vec<(String, Vec<u8>)> = (0..n)
            .filter(|&j| j != i)
            .map(|j| (hex_ids[j].clone(), round1_packages[j].clone()))
            .collect();
        let received2: Vec<(String, Vec<u8>)> = (0..n)
            .filter(|&j| j != i)
            .map(|j| {
                let pkg = round2_out[j]
                    .iter()
                    .find(|(recipient, _)| *recipient == hex_ids[i])
                    .expect("round-2 package addressed to this participant")
                    .1
                    .clone();
                (hex_ids[j].clone(), pkg)
            })
            .collect();
        let (kp, pkp, xy) =
            dkg_part3(handles2[i], &received1, &received2, &mut registry2).unwrap();
        result.key_packages.push(kp);
        result.pubkey_packages.push(pkp);
        result.verifying_keys_xy.push(xy.bytes);
    }
    result
}

fn sign_with(
    dkg: &DkgResult,
    signers: &[usize],
    message: &[u8],
    tweak: &Option<Vec<u8>>,
) -> (Vec<u8>, Vec<(String, Vec<u8>)>) {
    let mut commitments = Vec::new();
    let mut nonces = Vec::new();
    for &i in signers {
        let (nonce, commitment) = commit(&dkg.key_packages[i]).unwrap();
        nonces.push(nonce);
        commitments.push((dkg.hex_ids[i].clone(), commitment));
    }
    let package = create_signing_package(&commitments, message, tweak).unwrap();
    let mut shares = Vec::new();
    for (k, &i) in signers.iter().enumerate() {
        let share = sign(&package, &nonces[k], &dkg.key_packages[i]).unwrap();
        assert_eq!(share.len(), 32);
        shares.push((dkg.hex_ids[i].clone(), share));
    }
    (package, shares)
}

#[test]
fn dkg_produces_identical_pubkey_packages_and_consistent_key_packages() {
    let dkg = run_dkg(3, 2);
    for i in 1..3 {
        assert_eq!(dkg.pubkey_packages[0], dkg.pubkey_packages[i]);
        assert_eq!(dkg.verifying_keys_xy[0], dkg.verifying_keys_xy[i]);
    }
    let pkp =
        frost_secp256k1_tr::keys::PublicKeyPackage::deserialize(&dkg.pubkey_packages[0]).unwrap();
    for kp_bytes in &dkg.key_packages {
        let kp = frost_secp256k1_tr::keys::KeyPackage::deserialize(kp_bytes).unwrap();
        assert_eq!(kp.verifying_key(), pkp.verifying_key());
    }
}

#[test]
fn three_of_five_sign_and_verify() {
    let dkg = run_dkg(5, 3);
    let message = b"hello";
    let signers = [0usize, 2, 3];
    let (package, shares) = sign_with(&dkg, &signers, message, &None);
    let signature = aggregate(&package, &shares, &dkg.pubkey_packages[0]).unwrap();
    assert_eq!(signature.len(), 64);
    verify(&dkg.pubkey_packages[0], message, &signature, &None).unwrap();

    let mut altered = message.to_vec();
    altered[0] ^= 1;
    let err = verify(&dkg.pubkey_packages[0], &altered, &signature, &None).unwrap_err();
    assert_eq!(err, Error::VerificationFailed);
}

#[test]
fn aggregation_below_threshold_fails() {
    let dkg = run_dkg(5, 3);
    let message = b"hello";
    let signers = [0usize, 2, 3];
    let (package, shares) = sign_with(&dkg, &signers, message, &None);
    let partial: Vec<(String, Vec<u8>)> = shares[..2].to_vec();
    let err = aggregate(&package, &partial, &dkg.pubkey_packages[0]).unwrap_err();
    assert_eq!(err, Error::MissingShare);
}

#[test]
fn signing_with_tweak_verifies_with_same_tweak_only() {
    let dkg = run_dkg(3, 2);
    let message = b"tweaked message";
    let tweak = Some(vec![12u8; 32]);
    let (package, shares) = sign_with(&dkg, &[0, 1], message, &tweak);
    let signature = aggregate(&package, &shares, &dkg.pubkey_packages[0]).unwrap();
    verify(&dkg.pubkey_packages[0], message, &signature, &tweak).unwrap();
    let err = verify(&dkg.pubkey_packages[0], message, &signature, &None).unwrap_err();
    assert_eq!(err, Error::VerificationFailed);
}

#[test]
fn consumed_dkg_handles_are_invalid() {
    let mut registry1: Round1Registry = Registry::new();
    let mut registry2: Round2Registry = Registry::new();
    let ids: Vec<Identifier> = (1..=2).map(|i| Identifier::derive(&[i as u8]).unwrap()).collect();
    let (h0, pkg0) = dkg_part1(&ids[0], 2, 2, &mut registry1).unwrap();
    let (_h1, pkg1) = dkg_part1(&ids[1], 2, 2, &mut registry1).unwrap();
    let received = vec![(ids[1].encode(), pkg1.clone())];
    let _ = dkg_part2(h0, &received, &mut registry1, &mut registry2).unwrap();
    let err = dkg_part2(h0, &received, &mut registry1, &mut registry2).unwrap_err();
    assert_eq!(err, Error::InvalidHandle);
    let _ = pkg0;
}

#[test]
fn dkg_part1_rejects_bad_thresholds() {
    let mut registry1: Round1Registry = Registry::new();
    let id = Identifier::derive(&[1]).unwrap();
    assert_eq!(dkg_part1(&id, 3, 0, &mut registry1).unwrap_err(), Error::ThresholdInvalid);
    assert_eq!(dkg_part1(&id, 3, 4, &mut registry1).unwrap_err(), Error::ThresholdInvalid);
    // The outside library additionally rejects a threshold of one.
    assert_eq!(dkg_part1(&id, 3, 1, &mut registry1).unwrap_err(), Error::ThresholdInvalid);
}

#[test]
fn sign_without_own_commitment_is_inconsistent() {
    let dkg = run_dkg(3, 2);
    let message = b"target";
    let mut commitments = Vec::new();
    let mut nonces = Vec::new();
    for &i in &[0usize, 1] {
        let (nonce, commitment) = commit(&dkg.key_packages[i]).unwrap();
        nonces.push(nonce);
        commitments.push((dkg.hex_ids[i].clone(), commitment));
    }
    let package = create_signing_package(&commitments, message, &None).unwrap();
    // Signer 2 never committed, so the package holds no commitment for it.
    let (outsider_nonce, _) = commit(&dkg.key_packages[2]).unwrap();
    let err = sign(&package, &outsider_nonce, &dkg.key_packages[2]).unwrap_err();
    assert_eq!(err, Error::InconsistentPackage);
}

#[test]
fn aggregate_rejects_wrong_length_share() {
    let dkg = run_dkg(3, 2);
    let message = b"short share";
    let (package, mut shares) = sign_with(&dkg, &[0, 1], message, &None);
    shares[0].1.truncate(31);
    let err = aggregate(&package, &shares, &dkg.pubkey_packages[0]).unwrap_err();
    assert_eq!(err, Error::MalformedEncoding);
}

#[test]
fn verify_rejects_garbage_signature_encoding() {
    let dkg = run_dkg(3, 2);
    let err = verify(&dkg.pubkey_packages[0], b"m", &[1, 2, 3], &None).unwrap_err();
    assert_eq!(err, Error::MalformedEncoding);
}

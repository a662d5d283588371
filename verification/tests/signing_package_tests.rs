use frost::dkg::{dkg_part1, dkg_part2, dkg_part3, Round1Registry, Round2Registry};
use frost::errors::Error;
use frost::handles::Registry;
use frost::identifier::Identifier;
use frost::signing::{commit, create_signing_package, frame_package, sign, unframe_package};

fn two_party_setup() -> (Vec<String>, Vec<Vec<u8>>) {
    let mut registry1: Round1Registry = Registry::new();
    let mut registry2: Round2Registry = Registry::new();
    let ids: Vec<Identifier> = (1..=2).map(|i| Identifier::derive(&[i as u8]).unwrap()).collect();
    let hex_ids: Vec<String> = ids.iter().map(|id| id.encode()).collect();
    let mut handles = Vec::new();
    let mut round1 = Vec::new();
    for id in &ids {
        let (h, pkg) = dkg_part1(id, 2, 2, &mut registry1).unwrap();
        handles.push(h);
        round1.push(pkg);
    }
    let mut handles2 = Vec::new();
    let mut round2_out = Vec::new();
    for i in 0..2 {
        let j = 1 - i;
        let received = vec![(hex_ids[j].clone(), round1[j].clone())];
        let (h2, out) = dkg_part2(handles[i], &received, &mut registry1, &mut registry2).unwrap();
        handles2.push(h2);
        round2_out.push(out);
    }
    let mut key_packages = Vec::new();
    for i in 0..2 {
        let j = 1 - i;
        let received1 = vec![(hex_ids[j].clone(), round1[j].clone())];
        let received2 = vec![(hex_ids[j].clone(), round2_out[j][0].1.clone())];
        let (kp, _pkp, _xy) =
            dkg_part3(handles2[i], &received1, &received2, &mut registry2).unwrap();
        key_packages.push(kp);
    }
    (hex_ids, key_packages)
}

#[test]
fn absent_tweak_equals_explicit_empty_tweak() {
    let (hex_ids, key_packages) = two_party_setup();
    let mut commitments = Vec::new();
    for i in 0..2 {
        let (_nonce, commitment) = commit(&key_packages[i]).unwrap();
        commitments.push((hex_ids[i].clone(), commitment));
    }
    let message = b"same target";
    let with_none = create_signing_package(&commitments, message, &None).unwrap();
    let with_empty = create_signing_package(&commitments, message, &Some(Vec::new())).unwrap();
    assert_eq!(with_none, with_empty);
}

#[test]
fn frame_round_trip_recovers_tweak_and_package() {
    let package = vec![9u8, 8, 7, 6, 5];
    let tweak = vec![1u8, 2, 3];
    let framed = frame_package(&package, &tweak).unwrap();
    let (t, p) = unframe_package(&framed).unwrap();
    assert_eq!(t, tweak);
    assert_eq!(p, package);

    let framed_empty = frame_package(&package, &[]).unwrap();
    let (t2, p2) = unframe_package(&framed_empty).unwrap();
    assert_eq!(t2, Vec::<u8>::new());
    assert_eq!(p2, package);
}

#[test]
fn truncated_signing_package_is_rejected() {
    assert_eq!(unframe_package(&[1, 0, 0]).unwrap_err(), Error::MalformedEncoding);
    assert_eq!(unframe_package(&[5, 0, 0, 0, 1]).unwrap_err(), Error::MalformedEncoding);
    let (_, key_packages) = two_party_setup();
    let (nonce, _commitment) = commit(&key_packages[0]).unwrap();
    let err = sign(&[9, 0, 0, 0], &nonce, &key_packages[0]).unwrap_err();
    assert_eq!(err, Error::MalformedEncoding);
}

#[test]
fn commit_rejects_malformed_key_package() {
    assert_eq!(commit(&[1, 2, 3]).unwrap_err(), Error::MalformedEncoding);
}

#[test]
fn create_signing_package_rejects_bad_identifier_hex() {
    let commitments = vec![("nothex".to_string(), vec![1u8, 2, 3])];
    let err = create_signing_package(&commitments, b"m", &None).unwrap_err();
    assert_eq!(err, Error::MalformedEncoding);
}

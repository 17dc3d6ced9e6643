use c_kzg::byte_types::{Blob, Bytes32, Bytes48};
use c_kzg::cache::{ethereum_kzg_settings_arc, SettingsCache};
use c_kzg::commitment::KZGCommitment;
use c_kzg::engine::Verdict;
use c_kzg::kzg_proof::{check_all_blobs, verdict_answer, KZGProof};
use c_kzg::settings::KZGSettings;
use c_kzg::{Error, BYTES_PER_BLOB, C_KZG_RET};
use std::sync::Arc;

fn settings() -> Arc<KZGSettings> {
    let mut cache = SettingsCache::new();
    ethereum_kzg_settings_arc(&mut cache, 0)
}

/// A canonical blob whose field elements depend on `seed`.
fn blob(seed: u8) -> Blob {
    let mut bytes = vec![0u8; BYTES_PER_BLOB];
    for (i, b) in bytes.iter_mut().enumerate() {
        *b = if i % 32 == 0 { 0 } else { (i as u8).wrapping_mul(31).wrapping_add(seed) };
    }
    Blob::from_bytes(&bytes).unwrap()
}

fn scalar(last: u8) -> Bytes32 {
    let mut bytes = [0u8; 32];
    bytes[31] = last;
    Bytes32::from(bytes)
}

fn infinity() -> Bytes48 {
    let mut bytes = [0u8; 48];
    bytes[0] = 0xc0;
    Bytes48::from(bytes)
}

fn bad_args(result: Result<bool, Error>) -> bool {
    matches!(result, Err(Error::CError(C_KZG_RET::C_KZG_BADARGS)))
}

#[test]
fn zero_blob_commits_to_the_point_at_infinity() {
    let s = settings();
    let zero = Blob::from_bytes(&vec![0u8; BYTES_PER_BLOB]).unwrap();
    let commitment = KZGCommitment::blob_to_kzg_commitment(zero, &s).unwrap();
    assert_eq!(commitment.to_bytes(), infinity());

    // Every field element equal to one gives another commitment.
    let mut ones = vec![0u8; BYTES_PER_BLOB];
    for i in 0..BYTES_PER_BLOB / 32 {
        ones[i * 32 + 31] = 1;
    }
    let ones = Blob::from_bytes(&ones).unwrap();
    let other = KZGCommitment::blob_to_kzg_commitment(ones, &s).unwrap();
    assert_ne!(other.to_bytes(), infinity());
}

#[test]
fn commitment_agrees_with_the_engine_and_repeats() {
    let s = settings();
    let b = blob(1);
    let first = KZGCommitment::blob_to_kzg_commitment(b.clone(), &s).unwrap();
    let second = KZGCommitment::blob_to_kzg_commitment(b.clone(), &s).unwrap();
    assert_eq!(first, second);
    let reference = rust_eth_kzg::DASContext::default()
        .blob_to_kzg_commitment(b.as_slice().try_into().unwrap())
        .unwrap();
    assert_eq!(first.to_bytes().into_inner(), reference);
    let other = KZGCommitment::blob_to_kzg_commitment(blob(2), &s).unwrap();
    assert_ne!(first, other);
}

#[test]
fn non_canonical_blob_is_refused_everywhere() {
    let s = settings();
    let bad = Blob::from_bytes(&vec![0xffu8; BYTES_PER_BLOB]).unwrap();
    assert!(matches!(
        KZGCommitment::blob_to_kzg_commitment(bad.clone(), &s),
        Err(Error::CError(C_KZG_RET::C_KZG_BADARGS))
    ));
    assert!(matches!(
        KZGProof::compute_kzg_proof(bad.clone(), scalar(1), &s),
        Err(Error::CError(C_KZG_RET::C_KZG_BADARGS))
    ));
    assert!(matches!(
        KZGProof::compute_blob_kzg_proof(bad.clone(), infinity(), &s),
        Err(Error::CError(C_KZG_RET::C_KZG_BADARGS))
    ));
    assert!(bad_args(KZGProof::verify_blob_kzg_proof(bad.clone(), infinity(), infinity(), &s)));
    let good = blob(3);
    assert!(bad_args(KZGProof::verify_blob_kzg_proof_batch(
        &[good.clone(), bad.clone()],
        &[infinity(), infinity()],
        &[infinity(), infinity()],
        &s
    )));
    assert!(bad_args(KZGProof::verify_blob_kzg_proof_batch(
        &[bad],
        &[infinity()],
        &[infinity()],
        &s
    )));
}

#[test]
fn proof_at_a_point_verifies() {
    let s = settings();
    let b = blob(4);
    let commitment = KZGCommitment::blob_to_kzg_commitment(b.clone(), &s).unwrap().to_bytes();
    let z = scalar(5);
    let (proof, y) = KZGProof::compute_kzg_proof(b.clone(), z, &s).unwrap();
    assert_eq!(
        KZGProof::verify_kzg_proof(commitment, z, y, proof.to_bytes(), &s).unwrap(),
        true
    );
    // Another claimed value fails without an error.
    let mut wrong = y.into_inner();
    wrong[31] ^= 1;
    wrong[0] = 0;
    assert_eq!(
        KZGProof::verify_kzg_proof(commitment, z, Bytes32::from(wrong), proof.to_bytes(), &s)
            .unwrap(),
        false
    );
    // Another point fails too.
    assert_eq!(
        KZGProof::verify_kzg_proof(commitment, scalar(6), y, proof.to_bytes(), &s).unwrap(),
        false
    );
    let reference = rust_eth_kzg::DASContext::default()
        .compute_kzg_proof(b.as_slice().try_into().unwrap(), z.into_inner())
        .unwrap();
    assert_eq!(proof.to_bytes().into_inner(), reference.0);
    assert_eq!(y.into_inner(), reference.1);
}

#[test]
fn constant_polynomial_evaluates_to_its_constant() {
    let s = settings();
    let mut bytes = vec![0u8; BYTES_PER_BLOB];
    for i in 0..BYTES_PER_BLOB / 32 {
        bytes[i * 32 + 31] = 7;
    }
    let b = Blob::from_bytes(&bytes).unwrap();
    let (proof, y) = KZGProof::compute_kzg_proof(b, scalar(9), &s).unwrap();
    assert_eq!(y, scalar(7));
    assert_eq!(proof.to_bytes(), infinity());
}

#[test]
fn malformed_scalars_and_points_are_errors() {
    let s = settings();
    let b = blob(7);
    let big = Bytes32::from([0xffu8; 32]);
    assert!(matches!(
        KZGProof::compute_kzg_proof(b.clone(), big, &s),
        Err(Error::CError(C_KZG_RET::C_KZG_BADARGS))
    ));
    assert!(bad_args(KZGProof::verify_kzg_proof(infinity(), big, scalar(0), infinity(), &s)));
    assert!(bad_args(KZGProof::verify_kzg_proof(infinity(), scalar(0), big, infinity(), &s)));
    let not_a_point = Bytes48::from([0x01u8; 48]);
    assert!(bad_args(KZGProof::verify_kzg_proof(
        not_a_point,
        scalar(0),
        scalar(0),
        infinity(),
        &s
    )));
    assert!(bad_args(KZGProof::verify_kzg_proof(
        infinity(),
        scalar(0),
        scalar(0),
        not_a_point,
        &s
    )));
    assert!(matches!(
        KZGProof::compute_blob_kzg_proof(b.clone(), not_a_point, &s),
        Err(Error::CError(C_KZG_RET::C_KZG_BADARGS))
    ));
    assert!(bad_args(KZGProof::verify_blob_kzg_proof(b.clone(), not_a_point, infinity(), &s)));
    assert!(bad_args(KZGProof::verify_blob_kzg_proof(b.clone(), infinity(), not_a_point, &s)));
    // The zero polynomial has the value zero everywhere.
    assert_eq!(
        KZGProof::verify_kzg_proof(infinity(), scalar(3), scalar(0), infinity(), &s).unwrap(),
        true
    );
    assert_eq!(
        KZGProof::verify_kzg_proof(infinity(), scalar(3), scalar(1), infinity(), &s).unwrap(),
        false
    );
}

#[test]
fn blob_proof_round_trip() {
    let s = settings();
    let b = blob(8);
    let commitment = KZGCommitment::blob_to_kzg_commitment(b.clone(), &s).unwrap().to_bytes();
    let proof = KZGProof::compute_blob_kzg_proof(b.clone(), commitment, &s).unwrap().to_bytes();
    assert_eq!(KZGProof::verify_blob_kzg_proof(b.clone(), commitment, proof, &s).unwrap(), true);
    let reference = rust_eth_kzg::DASContext::default()
        .compute_blob_kzg_proof(b.as_slice().try_into().unwrap(), &commitment.into_inner())
        .unwrap();
    assert_eq!(proof.into_inner(), reference);
}

#[test]
fn changing_one_byte_fails_the_verification() {
    let s = settings();
    let b = blob(9);
    let commitment = KZGCommitment::blob_to_kzg_commitment(b.clone(), &s).unwrap().to_bytes();
    let proof = KZGProof::compute_blob_kzg_proof(b.clone(), commitment, &s).unwrap().to_bytes();

    let mut bytes = b.clone().into_inner();
    bytes[1000] ^= 0x01;
    let changed = Blob::from_bytes(&bytes).unwrap();
    assert_eq!(KZGProof::verify_blob_kzg_proof(changed, commitment, proof, &s).unwrap(), false);

    // A changed commitment or proof is either another point, and then the
    // check fails, or no point at all, and then the call is refused.
    let mut c = commitment.into_inner();
    c[47] ^= 0x01;
    let result = KZGProof::verify_blob_kzg_proof(b.clone(), Bytes48::from(c), proof, &s);
    assert!(matches!(result, Ok(false)) || bad_args(result));
    let mut p = proof.into_inner();
    p[20] ^= 0x80;
    let result = KZGProof::verify_blob_kzg_proof(b.clone(), commitment, Bytes48::from(p), &s);
    assert!(matches!(result, Ok(false)) || bad_args(result));
    // Proofs of other blobs do not fit.
    let other = blob(10);
    let other_commitment =
        KZGCommitment::blob_to_kzg_commitment(other.clone(), &s).unwrap().to_bytes();
    let other_proof =
        KZGProof::compute_blob_kzg_proof(other, other_commitment, &s).unwrap().to_bytes();
    assert_eq!(KZGProof::verify_blob_kzg_proof(b, commitment, other_proof, &s).unwrap(), false);
}

#[test]
fn batch_agrees_with_single_verification() {
    let s = settings();
    let blobs: Vec<Blob> = (20..23).map(blob).collect();
    let commitments: Vec<Bytes48> = blobs
        .iter()
        .map(|b| KZGCommitment::blob_to_kzg_commitment(b.clone(), &s).unwrap().to_bytes())
        .collect();
    let mut proofs: Vec<Bytes48> = blobs
        .iter()
        .zip(&commitments)
        .map(|(b, c)| KZGProof::compute_blob_kzg_proof(b.clone(), *c, &s).unwrap().to_bytes())
        .collect();

    // No tuple at all.
    assert_eq!(KZGProof::verify_blob_kzg_proof_batch(&[], &[], &[], &s).unwrap(), true);
    // One tuple goes the way of the single verification.
    assert_eq!(
        KZGProof::verify_blob_kzg_proof_batch(&blobs[..1], &commitments[..1], &proofs[..1], &s)
            .unwrap(),
        true
    );
    assert_eq!(
        KZGProof::verify_blob_kzg_proof_batch(&blobs[..1], &commitments[..1], &proofs[1..2], &s)
            .unwrap(),
        false
    );
    // Several tuples.
    assert_eq!(
        KZGProof::verify_blob_kzg_proof_batch(&blobs, &commitments, &proofs, &s).unwrap(),
        true
    );
    for i in 0..blobs.len() {
        assert!(KZGProof::verify_blob_kzg_proof(blobs[i].clone(), commitments[i], proofs[i], &s)
            .unwrap());
    }
    // One wrong tuple in the middle fails the batch.
    proofs.swap(1, 2);
    assert_eq!(
        KZGProof::verify_blob_kzg_proof_batch(&blobs, &commitments, &proofs, &s).unwrap(),
        false
    );
    assert!(!KZGProof::verify_blob_kzg_proof(blobs[1].clone(), commitments[1], proofs[1], &s)
        .unwrap());
    // One malformed tuple is an error for the batch.
    proofs[0] = Bytes48::from([3u8; 48]);
    assert!(bad_args(KZGProof::verify_blob_kzg_proof_batch(&blobs, &commitments, &proofs, &s)));
}

#[test]
fn batch_with_lists_of_different_lengths() {
    let s = settings();
    let blobs = vec![blob(30), blob(31)];
    let one = vec![infinity()];
    let two = vec![infinity(), infinity()];
    match KZGProof::verify_blob_kzg_proof_batch(&blobs, &one, &two, &s) {
        Err(Error::MismatchLength(m)) => assert_eq!(m, "There are 2 blobs and 1 commitments"),
        other => panic!("unexpected {:?}", other),
    }
    match KZGProof::verify_blob_kzg_proof_batch(&blobs, &two, &[], &s) {
        Err(Error::MismatchLength(m)) => assert_eq!(m, "There are 2 blobs and 0 proofs"),
        other => panic!("unexpected {:?}", other),
    }
    match KZGProof::verify_blob_kzg_proof_batch(&[], &two, &two, &s) {
        Err(Error::MismatchLength(m)) => assert_eq!(m, "There are 0 blobs and 2 commitments"),
        other => panic!("unexpected {:?}", other),
    }
}

#[test]
fn verdicts_become_answers() {
    assert!(matches!(verdict_answer(Verdict::Accepted), Ok(true)));
    assert!(matches!(verdict_answer(Verdict::Rejected), Ok(false)));
    assert!(bad_args(verdict_answer(Verdict::Malformed)));
    let bad = Blob::from_bytes(&vec![0xffu8; BYTES_PER_BLOB]).unwrap();
    assert!(check_all_blobs(&[blob(1), blob(2)]));
    assert!(!check_all_blobs(&[blob(1), bad]));
    assert!(check_all_blobs(&[]));
}

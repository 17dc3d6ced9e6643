use c_kzg::byte_types::{Blob, Bytes48};
use c_kzg::cache::{ethereum_kzg_settings_arc, SettingsCache};
use c_kzg::commitment::KZGCommitment;
use c_kzg::kzg_proof::KZGProof;
use c_kzg::settings::KZGSettings;
use c_kzg::{Error, BYTES_PER_BLOB, BYTES_PER_FIELD_ELEMENT, FIELD_ELEMENTS_PER_BLOB};
use rand::rngs::ThreadRng;
use rand::Rng;
use std::sync::Arc;

fn generate_random_blob(rng: &mut ThreadRng) -> Blob {
    let mut arr = vec![0u8; BYTES_PER_BLOB];
    rng.fill(&mut arr[..]);
    // Each field element has to be below the modulus: clear its top byte.
    for i in 0..FIELD_ELEMENTS_PER_BLOB {
        arr[i * BYTES_PER_FIELD_ELEMENT] = 0;
    }
    Blob::from_bytes(&arr).unwrap()
}

fn default_settings() -> Arc<KZGSettings> {
    let mut cache = SettingsCache::new();
    ethereum_kzg_settings_arc(&mut cache, 0)
}

fn test_simple(kzg_settings: &KZGSettings) {
    let mut rng = rand::thread_rng();

    let num_blobs: usize = rng.gen_range(1..16);
    let mut blobs: Vec<Blob> = (0..num_blobs)
        .map(|_| generate_random_blob(&mut rng))
        .collect();

    let commitments: Vec<Bytes48> = blobs
        .iter()
        .map(|blob| KZGCommitment::blob_to_kzg_commitment(blob.clone(), kzg_settings).unwrap())
        .map(|commitment| commitment.to_bytes())
        .collect();

    let proofs: Vec<Bytes48> = blobs
        .iter()
        .zip(commitments.iter())
        .map(|(blob, commitment)| {
            KZGProof::compute_blob_kzg_proof(blob.clone(), *commitment, kzg_settings).unwrap()
        })
        .map(|proof| proof.to_bytes())
        .collect();

    assert!(
        KZGProof::verify_blob_kzg_proof_batch(&blobs, &commitments, &proofs, kzg_settings)
            .unwrap()
    );

    blobs.pop();

    let error = KZGProof::verify_blob_kzg_proof_batch(&blobs, &commitments, &proofs, kzg_settings)
        .unwrap_err();
    assert!(matches!(error, Error::MismatchLength(_)));

    let incorrect_blob = generate_random_blob(&mut rng);
    blobs.push(incorrect_blob);

    assert!(
        !KZGProof::verify_blob_kzg_proof_batch(&blobs, &commitments, &proofs, kzg_settings)
            .unwrap()
    );
}

#[test]
fn test_end_to_end() {
    let settings = default_settings();
    test_simple(&settings);
}

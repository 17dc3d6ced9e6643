use c_kzg::byte_types::{Blob, Bytes48, Cell};
use c_kzg::cache::{ethereum_kzg_settings_arc, SettingsCache};
use c_kzg::cells::{
    check_all_cells, check_indices_in_range, sort_cells_by_index, RECOVERY_THRESHOLD,
};
use c_kzg::commitment::KZGCommitment;
use c_kzg::kzg_proof::KZGProof;
use c_kzg::settings::KZGSettings;
use c_kzg::{Error, BYTES_PER_BLOB, BYTES_PER_CELL, CELLS_PER_EXT_BLOB, C_KZG_RET};
use std::sync::Arc;

fn settings() -> Arc<KZGSettings> {
    let mut cache = SettingsCache::new();
    ethereum_kzg_settings_arc(&mut cache, 0)
}

fn blob(seed: u8) -> Blob {
    let mut bytes = vec![0u8; BYTES_PER_BLOB];
    for (i, b) in bytes.iter_mut().enumerate() {
        *b = if i % 32 == 0 { 0 } else { (i as u8).wrapping_mul(17).wrapping_add(seed) };
    }
    Blob::from_bytes(&bytes).unwrap()
}

fn is_bad_args<T: std::fmt::Debug>(result: Result<T, Error>) -> bool {
    matches!(result, Err(Error::CError(C_KZG_RET::C_KZG_BADARGS)))
}

#[test]
fn zero_blob_has_zero_cells() {
    let s = settings();
    let zero = Blob::from_bytes(&vec![0u8; BYTES_PER_BLOB]).unwrap();
    let (cells, proofs) = Cell::compute_cells_and_kzg_proofs(&zero, &s).unwrap();
    assert_eq!(cells.len(), 128);
    assert_eq!(proofs.len(), 128);
    for cell in &cells {
        assert_eq!(cell.as_slice(), &[0u8; 2048][..]);
    }
}

#[test]
fn cells_start_with_the_blob() {
    let s = settings();
    let b = blob(1);
    let (cells, proofs) = Cell::compute_cells_and_kzg_proofs(&b, &s).unwrap();
    assert_eq!(cells.len(), CELLS_PER_EXT_BLOB);
    assert_eq!(proofs.len(), CELLS_PER_EXT_BLOB);
    // The first half of the extended blob is the blob itself.
    let mut front = Vec::new();
    for cell in &cells[..CELLS_PER_EXT_BLOB / 2] {
        front.extend_from_slice(cell.as_slice());
    }
    assert_eq!(front, b.as_slice());
    let reference = rust_eth_kzg::DASContext::default()
        .compute_cells_and_kzg_proofs(b.as_slice().try_into().unwrap())
        .unwrap();
    for i in 0..CELLS_PER_EXT_BLOB {
        assert_eq!(cells[i].as_slice(), &reference.0[i][..]);
        assert_eq!(proofs[i].to_bytes().into_inner(), reference.1[i]);
    }
    let bad = Blob::from_bytes(&vec![0xffu8; BYTES_PER_BLOB]).unwrap();
    assert!(is_bad_args(Cell::compute_cells_and_kzg_proofs(&bad, &s)));
}

#[test]
fn any_half_of_the_cells_recovers_all_of_them() {
    let s = settings();
    let b = blob(2);
    let (cells, proofs) = Cell::compute_cells_and_kzg_proofs(&b, &s).unwrap();

    // The odd cells, in descending order.
    let indices: Vec<u64> = (0..CELLS_PER_EXT_BLOB as u64).filter(|i| i % 2 == 1).rev().collect();
    assert_eq!(indices.len(), RECOVERY_THRESHOLD);
    let given: Vec<Cell> = indices.iter().map(|i| cells[*i as usize].clone()).collect();
    let (recovered, recovered_proofs) =
        Cell::recover_cells_and_kzg_proofs(&indices, &given, &s).unwrap();
    assert_eq!(recovered, cells);
    assert_eq!(recovered_proofs, proofs);

    // The second half and a few more, in a mixed order.
    let mut indices: Vec<u64> = (60..CELLS_PER_EXT_BLOB as u64).collect();
    indices.swap(0, 40);
    indices.swap(3, 17);
    indices.rotate_left(11);
    let given: Vec<Cell> = indices.iter().map(|i| cells[*i as usize].clone()).collect();
    let (recovered, recovered_proofs) =
        Cell::recover_cells_and_kzg_proofs(&indices, &given, &s).unwrap();
    assert_eq!(recovered, cells);
    assert_eq!(recovered_proofs, proofs);

    // All of them.
    let indices: Vec<u64> = (0..CELLS_PER_EXT_BLOB as u64).collect();
    let (recovered, _) = Cell::recover_cells_and_kzg_proofs(&indices, &cells, &s).unwrap();
    assert_eq!(recovered, cells);
}

#[test]
fn recovery_refuses_what_it_cannot_use() {
    let s = settings();
    let b = blob(3);
    let (cells, _) = Cell::compute_cells_and_kzg_proofs(&b, &s).unwrap();

    // One cell short of the threshold.
    let indices: Vec<u64> = (0..RECOVERY_THRESHOLD as u64 - 1).collect();
    let given: Vec<Cell> = indices.iter().map(|i| cells[*i as usize].clone()).collect();
    assert!(is_bad_args(Cell::recover_cells_and_kzg_proofs(&indices, &given, &s)));
    assert!(is_bad_args(Cell::recover_cells_and_kzg_proofs(&[], &[], &s)));

    // An index twice.
    let mut indices: Vec<u64> = (0..RECOVERY_THRESHOLD as u64).collect();
    let given: Vec<Cell> = indices.iter().map(|i| cells[*i as usize].clone()).collect();
    indices[10] = 11;
    assert!(is_bad_args(Cell::recover_cells_and_kzg_proofs(&indices, &given, &s)));

    // An index out of range.
    let mut indices: Vec<u64> = (0..RECOVERY_THRESHOLD as u64).collect();
    indices[0] = CELLS_PER_EXT_BLOB as u64;
    assert!(is_bad_args(Cell::recover_cells_and_kzg_proofs(&indices, &given, &s)));
    indices[0] = u64::MAX;
    assert!(is_bad_args(Cell::recover_cells_and_kzg_proofs(&indices, &given, &s)));

    // A cell that is not canonical.
    let indices: Vec<u64> = (0..RECOVERY_THRESHOLD as u64).collect();
    let mut broken = given.clone();
    broken[5] = Cell::from_bytes(&[0xffu8; BYTES_PER_CELL]).unwrap();
    assert!(is_bad_args(Cell::recover_cells_and_kzg_proofs(&indices, &broken, &s)));

    // Lists that do not pair up.
    match Cell::recover_cells_and_kzg_proofs(&indices[..63], &given, &s) {
        Err(Error::MismatchLength(m)) => assert_eq!(m, "There are 64 cells and 63 cell indices"),
        other => panic!("unexpected {:?}", other.map(|_| ())),
    }
}

#[test]
fn cell_proofs_verify_in_a_batch() {
    let s = settings();
    let b = blob(4);
    let commitment = KZGCommitment::blob_to_kzg_commitment(b.clone(), &s).unwrap().to_bytes();
    let (cells, proofs) = Cell::compute_cells_and_kzg_proofs(&b, &s).unwrap();
    let picked: Vec<usize> = vec![0, 5, 127, 64];
    let commitments = vec![commitment; picked.len()];
    let indices: Vec<u64> = picked.iter().map(|i| *i as u64).collect();
    let given: Vec<Cell> = picked.iter().map(|i| cells[*i].clone()).collect();
    let mut given_proofs: Vec<Bytes48> = picked.iter().map(|i| proofs[*i].to_bytes()).collect();

    assert_eq!(
        KZGProof::verify_cell_kzg_proof_batch(&commitments, &indices, &given, &given_proofs, &s)
            .unwrap(),
        true
    );
    assert_eq!(KZGProof::verify_cell_kzg_proof_batch(&[], &[], &[], &[], &s).unwrap(), true);

    // A cell under the wrong index.
    let mut wrong = indices.clone();
    wrong[1] = 6;
    assert_eq!(
        KZGProof::verify_cell_kzg_proof_batch(&commitments, &wrong, &given, &given_proofs, &s)
            .unwrap(),
        false
    );
    // An index out of range.
    wrong[1] = 128;
    assert!(is_bad_args(KZGProof::verify_cell_kzg_proof_batch(
        &commitments,
        &wrong,
        &given,
        &given_proofs,
        &s
    )));
    // A cell that is not canonical.
    let mut broken = given.clone();
    broken[0] = Cell::from_bytes(&[0xffu8; BYTES_PER_CELL]).unwrap();
    assert!(is_bad_args(KZGProof::verify_cell_kzg_proof_batch(
        &commitments,
        &indices,
        &broken,
        &given_proofs,
        &s
    )));
    // Proofs in the wrong places.
    given_proofs.swap(0, 1);
    assert_eq!(
        KZGProof::verify_cell_kzg_proof_batch(&commitments, &indices, &given, &given_proofs, &s)
            .unwrap(),
        false
    );
    // A proof that is no point.
    given_proofs[2] = Bytes48::from([5u8; 48]);
    assert!(is_bad_args(KZGProof::verify_cell_kzg_proof_batch(
        &commitments,
        &indices,
        &given,
        &given_proofs,
        &s
    )));
}

#[test]
fn cell_batch_with_lists_of_different_lengths() {
    let s = settings();
    let cell = Cell::from_bytes(&[0u8; BYTES_PER_CELL]).unwrap();
    let mut point = [0u8; 48];
    point[0] = 0xc0;
    let point = Bytes48::from(point);
    let cells = vec![cell.clone(), cell];
    match KZGProof::verify_cell_kzg_proof_batch(&[point], &[0, 1], &cells, &[point, point], &s) {
        Err(Error::MismatchLength(m)) => assert_eq!(m, "There are 2 cells and 1 commitments"),
        other => panic!("unexpected {:?}", other),
    }
    match KZGProof::verify_cell_kzg_proof_batch(&[point, point], &[0], &cells, &[point, point], &s)
    {
        Err(Error::MismatchLength(m)) => assert_eq!(m, "There are 2 cells and 1 cell indices"),
        other => panic!("unexpected {:?}", other),
    }
    match KZGProof::verify_cell_kzg_proof_batch(&[point, point], &[0, 1], &cells, &[], &s) {
        Err(Error::MismatchLength(m)) => assert_eq!(m, "There are 2 cells and 0 proofs"),
        other => panic!("unexpected {:?}", other),
    }
}

#[test]
fn cells_are_put_in_the_order_of_their_indices() {
    let cell = |fill: u8| Cell::from_bytes(&[fill; BYTES_PER_CELL]).unwrap();
    let indices = vec![5u64, 127, 0, 64];
    let cells = vec![cell(5), cell(27), cell(0), cell(64)];
    let (sorted, picked) = sort_cells_by_index(&indices, &cells).unwrap();
    assert_eq!(sorted, vec![0, 5, 64, 127]);
    let firsts: Vec<u8> = picked.iter().map(|c| c.as_slice()[0]).collect();
    assert_eq!(firsts, vec![0, 5, 64, 27]);

    let (sorted, picked) = sort_cells_by_index(&[], &[]).unwrap();
    assert!(sorted.is_empty() && picked.is_empty());
    assert!(sort_cells_by_index(&[1, 2, 1], &cells[..3]).is_none());
    assert!(sort_cells_by_index(&[1, 128], &cells[..2]).is_none());

    assert!(check_indices_in_range(&[0, 127, 5, 5]));
    assert!(!check_indices_in_range(&[0, 128]));
    assert!(check_indices_in_range(&[]));
    // The byte 0x05 repeated is a canonical field element; 0x80 repeated is not.
    assert!(check_all_cells(&cells[..1]));
    assert!(!check_all_cells(&[cell(5), cell(0x80)]));
}

#[test]
fn cells_of_several_blobs_verify_by_row() {
    let s = settings();
    let blobs = vec![blob(6), blob(7)];
    let commitments: Vec<Bytes48> = blobs
        .iter()
        .map(|b| KZGCommitment::blob_to_kzg_commitment(b.clone(), &s).unwrap().to_bytes())
        .collect();
    let sets: Vec<(Vec<Cell>, Vec<KZGProof>)> =
        blobs.iter().map(|b| Cell::compute_cells_and_kzg_proofs(b, &s).unwrap()).collect();
    // Cell 3 of the second blob, cells 100 and 3 of the first.
    let rows = vec![1u64, 0, 0];
    let columns = vec![3u64, 100, 3];
    let cells: Vec<Cell> =
        rows.iter().zip(&columns).map(|(r, c)| sets[*r as usize].0[*c as usize].clone()).collect();
    let proofs: Vec<Bytes48> = rows
        .iter()
        .zip(&columns)
        .map(|(r, c)| sets[*r as usize].1[*c as usize].to_bytes())
        .collect();
    assert_eq!(
        KZGProof::verify_cell_kzg_proof_batch_by_row(
            &commitments,
            &rows,
            &columns,
            &cells,
            &proofs,
            &s
        )
        .unwrap(),
        true
    );
    // The same cells under the other blob's commitment.
    assert_eq!(
        KZGProof::verify_cell_kzg_proof_batch_by_row(
            &commitments,
            &[0, 1, 1],
            &columns,
            &cells,
            &proofs,
            &s
        )
        .unwrap(),
        false
    );
    // A row that names no commitment.
    assert!(is_bad_args(KZGProof::verify_cell_kzg_proof_batch_by_row(
        &commitments,
        &[1, 0, 2],
        &columns,
        &cells,
        &proofs,
        &s
    )));
    match KZGProof::verify_cell_kzg_proof_batch_by_row(
        &commitments,
        &[1, 0],
        &columns,
        &cells,
        &proofs,
        &s,
    ) {
        Err(Error::MismatchLength(m)) => assert_eq!(m, "There are 3 cells and 2 row indices"),
        other => panic!("unexpected {:?}", other),
    }
    match KZGProof::verify_cell_kzg_proof_batch_by_row(
        &commitments,
        &rows,
        &columns[..2],
        &cells,
        &proofs,
        &s,
    ) {
        Err(Error::MismatchLength(m)) => assert_eq!(m, "There are 3 cells and 2 cell indices"),
        other => panic!("unexpected {:?}", other),
    }
    assert_eq!(
        KZGProof::verify_cell_kzg_proof_batch_by_row(&[], &[], &[], &[], &[], &s).unwrap(),
        true
    );
}

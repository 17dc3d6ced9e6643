//! What holds across calls.
//!
//! Each law speaks of answers that the functions of this crate may have
//! given: an answer is described by the predicate that the function
//! promises of it, so a law holds of every answer that any call can give.

use vstd::prelude::*;
use crate::byte_types::Cell;
use crate::cells::{
    all_cells_canonical, ascending_below, cell_set_post, cells_ascending_below, cells_result,
    indices_in_range, proof_views, recoverable, recovery_result, RECOVERY_THRESHOLD,
};
use crate::commitment::{commitment_post, KZGCommitment};
use crate::engine::{
    batch_well_formed, cell_batch_well_formed, cell_views, g1_point_valid, tuple_well_formed,
    SetupView,
};
use crate::settings::{all_g1_valid, load_outcome};
use crate::constants::CELLS_PER_EXT_BLOB;
use crate::error::{bad_args, Error};
use crate::byte_types::Bytes32;
use crate::field::{all_canonical, is_canonical};
use crate::kzg_proof::{
    blob_proof_post, proof_post, verify_batch_post, verify_blob_post, verify_cell_batch_post,
    verify_post, KZGProof,
};

verus! {

/// Committing is a function of the setup and the blob alone: two calls on
/// the same setup and the same blob give the same bytes, or fail alike.
pub proof fn law_commitment_is_a_function(
    setup: SetupView,
    blob: Seq<u8>,
    first: Result<KZGCommitment, Error>,
    second: Result<KZGCommitment, Error>,
)
    requires
        commitment_post(setup, blob, first),
        commitment_post(setup, blob, second),
    ensures
        first is Ok <==> second is Ok,
        first matches Ok(a) ==> (second matches Ok(b) && a@ == b@ && a == b),
        first matches Err(a) ==> (second matches Err(b) && a@ == b@),
{
    if let Ok(a) = first {
        let b = second->Ok_0;
        a.lemma_same_bytes(b);
    }
}

/// A batch with lists of different lengths is answered with a length error,
/// never with a boolean.
pub proof fn law_length_mismatch(
    setup: SetupView,
    blobs: Seq<Seq<u8>>,
    commitments: Seq<Seq<u8>>,
    proofs: Seq<Seq<u8>>,
    batch: Result<bool, Error>,
)
    requires
        verify_batch_post(setup, blobs, commitments, proofs, batch),
        blobs.len() != commitments.len() || blobs.len() != proofs.len(),
    ensures
        batch matches Err(Error::MismatchLength(_)),
{
}

/// A batch of at most one tuple is accepted exactly when each of its tuples
/// is accepted on its own.
pub proof fn law_small_batch_agrees_with_single(
    setup: SetupView,
    blobs: Seq<Seq<u8>>,
    commitments: Seq<Seq<u8>>,
    proofs: Seq<Seq<u8>>,
    batch: Result<bool, Error>,
    singles: Seq<Result<bool, Error>>,
)
    requires
        blobs.len() == commitments.len(),
        blobs.len() == proofs.len(),
        blobs.len() == singles.len(),
        blobs.len() <= 1,
        verify_batch_post(setup, blobs, commitments, proofs, batch),
        forall|i: int|
            0 <= i < blobs.len() ==> verify_blob_post(
                setup,
                blobs[i],
                commitments[i],
                proofs[i],
                #[trigger] singles[i],
            ),
    ensures
        batch == Ok::<bool, Error>(true) <==> (forall|i: int|
            0 <= i < singles.len() ==> #[trigger] singles[i] == Ok::<bool, Error>(true)),
{
    if blobs.len() == 1 {
        assert(verify_blob_post(setup, blobs[0], commitments[0], proofs[0], singles[0]));
    }
}

/// A batch of any size fails with an error exactly when verifying one of its
/// tuples on its own fails with an error: one malformed tuple anywhere in
/// the batch fails all of it, and nothing else does.
pub proof fn law_batch_errs_with_single(
    setup: SetupView,
    blobs: Seq<Seq<u8>>,
    commitments: Seq<Seq<u8>>,
    proofs: Seq<Seq<u8>>,
    batch: Result<bool, Error>,
    singles: Seq<Result<bool, Error>>,
)
    requires
        blobs.len() == commitments.len(),
        blobs.len() == proofs.len(),
        blobs.len() == singles.len(),
        verify_batch_post(setup, blobs, commitments, proofs, batch),
        forall|i: int|
            0 <= i < blobs.len() ==> verify_blob_post(
                setup,
                blobs[i],
                commitments[i],
                proofs[i],
                #[trigger] singles[i],
            ),
    ensures
        batch is Err <==> (exists|i: int| 0 <= i < singles.len() && (#[trigger] singles[i]) is Err),
{
    if batch is Err {
        assert(!batch_well_formed(blobs, commitments, proofs));
        let i = choose|i: int|
            0 <= i < blobs.len() && !tuple_well_formed(#[trigger] blobs[i], commitments[i], proofs[i]);
        assert(verify_blob_post(setup, blobs[i], commitments[i], proofs[i], singles[i]));
        assert(singles[i] is Err);
    } else {
        assert forall|i: int| 0 <= i < singles.len() implies !((#[trigger] singles[i]) is Err) by {
            assert(tuple_well_formed(blobs[i], commitments[i], proofs[i]));
            assert(verify_blob_post(setup, blobs[i], commitments[i], proofs[i], singles[i]));
        }
    }
}

/// Committing to a canonical blob, proving the blob against that commitment
/// and verifying the proof meets no refusal at any step: the commitment and
/// the proof that come out decode where they go in, so the verification
/// answers with a boolean.
pub proof fn law_blob_round_trip_is_answered(
    setup: SetupView,
    blob: Seq<u8>,
    committed: Result<KZGCommitment, Error>,
    proved: Result<KZGProof, Error>,
    verified: Result<bool, Error>,
)
    requires
        all_canonical(blob),
        commitment_post(setup, blob, committed),
        committed matches Ok(c) ==> blob_proof_post(setup, blob, c@, proved),
        committed matches Ok(c) ==> (proved matches Ok(p) ==> verify_blob_post(
            setup,
            blob,
            c@,
            p@,
            verified,
        )),
    ensures
        committed is Ok,
        proved is Ok,
        verified is Ok,
{
}

/// The same for a proof at a point: for a canonical blob and a canonical
/// point `z`, the proof and the value that `compute_kzg_proof` hands out are
/// accepted as input by `verify_kzg_proof`, together with the commitment of
/// the blob.
pub proof fn law_point_round_trip_is_answered(
    setup: SetupView,
    blob: Seq<u8>,
    z: Seq<u8>,
    committed: Result<KZGCommitment, Error>,
    proved: Result<(KZGProof, Bytes32), Error>,
    verified: Result<bool, Error>,
)
    requires
        all_canonical(blob),
        is_canonical(z),
        commitment_post(setup, blob, committed),
        proof_post(setup, blob, z, proved),
        committed matches Ok(c) ==> (proved matches Ok(pair) ==> verify_post(
            setup,
            c@,
            z,
            pair.1@,
            pair.0@,
            verified,
        )),
    ensures
        committed is Ok,
        proved is Ok,
        verified is Ok,
{
}

/// Every cell of the first list stands in the second list under the same
/// index.
pub open spec fn cells_among(
    indices: Seq<u64>,
    cells: Seq<Seq<u8>>,
    other_indices: Seq<u64>,
    other_cells: Seq<Seq<u8>>,
) -> bool {
    forall|k: int|
        0 <= k < indices.len() ==> exists|j: int|
            0 <= j < other_indices.len() && other_indices[j] == #[trigger] indices[k]
                && other_cells[j] == cells[k]
}

/// Two inputs of a recovery give the same cells: the same number of them,
/// no index twice, and each cell of either under the same index in the
/// other. They may differ in the order of the cells.
pub open spec fn same_cells(
    indices: Seq<u64>,
    cells: Seq<Seq<u8>>,
    other_indices: Seq<u64>,
    other_cells: Seq<Seq<u8>>,
) -> bool {
    &&& indices.len() == cells.len()
    &&& other_indices.len() == other_cells.len()
    &&& indices.len() == other_indices.len()
    &&& indices.no_duplicates()
    &&& other_indices.no_duplicates()
    &&& cells_among(indices, cells, other_indices, other_cells)
    &&& cells_among(other_indices, other_cells, indices, cells)
}

/// An index that occurs in the first of two inputs with the same cells
/// occurs in the second, with the same cell.
proof fn lemma_same_cell_for_index(
    indices: Seq<u64>,
    cells: Seq<Seq<u8>>,
    other_indices: Seq<u64>,
    other_cells: Seq<Seq<u8>>,
    i: u64,
)
    requires
        same_cells(indices, cells, other_indices, other_cells),
        indices.contains(i),
    ensures
        other_indices.contains(i),
        other_cells[other_indices.index_of(i)] == cells[indices.index_of(i)],
{
    let k = indices.index_of(i);
    assert(indices[k] == i);
    let j = choose|j: int|
        0 <= j < other_indices.len() && other_indices[j] == indices[k] && other_cells[j]
            == cells[k];
    assert(other_indices[j] == i);
    assert(other_indices.contains(i));
    let found = other_indices.index_of(i);
    assert(other_indices[found] == i);
    assert(found == j);
}

/// Two inputs with the same cells are listed alike in ascending order.
proof fn lemma_same_ascending(
    indices: Seq<u64>,
    cells: Seq<Seq<u8>>,
    other_indices: Seq<u64>,
    other_cells: Seq<Seq<u8>>,
    bound: nat,
)
    requires
        same_cells(indices, cells, other_indices, other_cells),
    ensures
        ascending_below(indices, bound) == ascending_below(other_indices, bound),
        cells_ascending_below(indices, cells, bound) == cells_ascending_below(
            other_indices,
            other_cells,
            bound,
        ),
    decreases bound,
{
    if bound > 0 {
        lemma_same_ascending(indices, cells, other_indices, other_cells, (bound - 1) as nat);
        let i = (bound - 1) as u64;
        if indices.contains(i) {
            lemma_same_cell_for_index(indices, cells, other_indices, other_cells, i);
        }
        if other_indices.contains(i) {
            lemma_same_cell_for_index(other_indices, other_cells, indices, cells, i);
        }
    }
}

/// What one of two inputs with the same cells has of range and canonical
/// form, the other has too.
proof fn lemma_same_validity(
    indices: Seq<u64>,
    cells: Seq<Seq<u8>>,
    other_indices: Seq<u64>,
    other_cells: Seq<Seq<u8>>,
)
    requires
        same_cells(indices, cells, other_indices, other_cells),
        recoverable(indices, cells),
    ensures
        recoverable(other_indices, other_cells),
{
    assert forall|j: int| 0 <= j < other_indices.len() implies (#[trigger] other_indices[j])
        < CELLS_PER_EXT_BLOB && all_canonical(other_cells[j]) by {
        let k = choose|k: int|
            0 <= k < indices.len() && indices[k] == other_indices[j] && cells[k]
                == other_cells[j];
        assert(indices[k] < CELLS_PER_EXT_BLOB);
        assert(all_canonical(cells[k]));
    }
    assert(indices_in_range(other_indices));
    assert forall|j: int| 0 <= j < other_cells.len() implies all_canonical(
        #[trigger] other_cells[j],
    ) by {
        assert(other_indices[j] < CELLS_PER_EXT_BLOB);
    }
    assert(all_cells_canonical(other_cells));
}

/// Recovery depends on which cells are given and not on their order: two
/// inputs with the same cells are answered alike.
pub proof fn law_recovery_ignores_order(
    setup: SetupView,
    indices: Seq<u64>,
    cells: Seq<Seq<u8>>,
    other_indices: Seq<u64>,
    other_cells: Seq<Seq<u8>>,
)
    requires
        same_cells(indices, cells, other_indices, other_cells),
    ensures
        recovery_result(setup, indices, cells) == recovery_result(
            setup,
            other_indices,
            other_cells,
        ),
{
    if recoverable(indices, cells) {
        lemma_same_validity(indices, cells, other_indices, other_cells);
    }
    if recoverable(other_indices, other_cells) {
        lemma_same_validity(other_indices, other_cells, indices, cells);
    }
    lemma_same_ascending(
        indices,
        cells,
        other_indices,
        other_cells,
        CELLS_PER_EXT_BLOB as nat,
    );
}

/// Fewer cells than half of them cannot be recovered from: such an input is
/// refused as malformed.
pub proof fn law_recovery_needs_half(setup: SetupView, indices: Seq<u64>, cells: Seq<Seq<u8>>)
    requires
        indices.len() == cells.len(),
        cells.len() < RECOVERY_THRESHOLD,
    ensures
        recovery_result(setup, indices, cells) == Err::<(Seq<Seq<u8>>, Seq<Seq<u8>>), _>(
            bad_args(),
        ),
{
}

/// Cells that were computed from a canonical blob are taken as input by the
/// batch verification, each under its own index, with its own proof and with
/// the commitment of the blob: whichever cells are picked, the verification
/// answers with a boolean.
pub proof fn law_computed_cells_are_answered(
    setup: SetupView,
    blob: Seq<u8>,
    picks: Seq<u64>,
    committed: Result<KZGCommitment, Error>,
    computed: Result<(Vec<Cell>, Vec<KZGProof>), Error>,
    verified: Result<bool, Error>,
)
    requires
        all_canonical(blob),
        indices_in_range(picks),
        commitment_post(setup, blob, committed),
        cell_set_post(cells_result(setup, blob), computed),
        committed matches Ok(c) ==> (computed matches Ok(set) ==> verify_cell_batch_post(
            setup,
            Seq::new(picks.len(), |k: int| c@),
            picks,
            Seq::new(picks.len(), |k: int| cell_views(set.0@)[picks[k] as int]),
            Seq::new(picks.len(), |k: int| proof_views(set.1@)[picks[k] as int]),
            verified,
        )),
    ensures
        committed is Ok,
        computed is Ok,
        verified is Ok,
{
    let c = committed->Ok_0;
    let set = computed->Ok_0;
    let commitments = Seq::new(picks.len(), |k: int| c@);
    let cells = Seq::new(picks.len(), |k: int| cell_views(set.0@)[picks[k] as int]);
    let proofs = Seq::new(picks.len(), |k: int| proof_views(set.1@)[picks[k] as int]);
    assert forall|k: int| 0 <= k < cells.len() implies picks[k] < CELLS_PER_EXT_BLOB
        && tuple_well_formed(#[trigger] cells[k], commitments[k], proofs[k]) by {
        let i = picks[k] as int;
        assert(all_canonical(cell_views(set.0@)[i]));
        assert(g1_point_valid(proof_views(set.1@)[i]));
    }
    assert(cell_batch_well_formed(commitments, picks, cells, proofs));
}

/// The Lagrange points of a setup are validated and nothing more: two loads
/// that differ only in their Lagrange lists, both of points that decode,
/// are answered alike.
pub proof fn law_lagrange_list_is_only_validated(
    g1_monomial: Seq<[u8; 48]>,
    g1_lagrange: Seq<[u8; 48]>,
    other_lagrange: Seq<[u8; 48]>,
    g2_monomial: Seq<[u8; 96]>,
    precompute: u64,
)
    requires
        g1_lagrange.len() == other_lagrange.len(),
        all_g1_valid(g1_lagrange),
        all_g1_valid(other_lagrange),
    ensures
        load_outcome(g1_monomial, g1_lagrange, g2_monomial, precompute) == load_outcome(
            g1_monomial,
            other_lagrange,
            g2_monomial,
            precompute,
        ),
{
}

} // verus!

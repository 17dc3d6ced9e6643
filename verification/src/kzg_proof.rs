//! Opening proofs: computing them and checking them, one at a time or in
//! batches.

use vstd::prelude::*;
use crate::byte_types::{
    array_from_slice, length_message, length_text, Blob, Bytes32, Bytes48, Cell,
};
use crate::cells::{
    all_cells_canonical, check_all_cells, check_indices_in_range, indices_in_range,
};
use crate::commitment::not_a_point_text;
use crate::constants::{BYTES_PER_PROOF, CELLS_PER_EXT_BLOB};
use crate::engine::{
    batch_well_formed, blob_proof_batch_verdict, blob_proof_outcome, blob_proof_verdict,
    blob_views, bytes48_views, cell_batch_well_formed, tuple_well_formed,
    cell_proof_batch_verdict, cell_views, ctx_compute_blob_kzg_proof, ctx_compute_kzg_proof,
    ctx_verify_blob_kzg_proof, ctx_verify_blob_kzg_proof_batch, ctx_verify_cell_kzg_proof_batch,
    ctx_verify_kzg_proof, decodes_as_g1, g1_point_valid, proof_outcome, proof_verdict, SetupView,
    Verdict,
};
use crate::error::{answers, bad_args, Error, ErrorView, C_KZG_RET};
use crate::field::{all_canonical, check_all_canonical, check_canonical, is_canonical};
use crate::message::{two_count_message, two_count_text};
use crate::settings::KZGSettings;

verus! {

/// A KZG proof: 48 bytes that are the compressed encoding of a point of G1.
/// Bytes that have not been decoded travel as `Bytes48`.
#[derive(Debug, Clone, Copy, PartialEq, Eq, Hash)]
pub struct KZGProof {
    bytes: [u8; 48],
}

impl View for KZGProof {
    type V = Seq<u8>;

    closed spec fn view(&self) -> Seq<u8> {
        self.bytes@
    }
}

/// What a verification answers for a verdict of the engine: a boolean when
/// every input decoded, a refusal when one did not.
pub open spec fn verdict_result(v: Verdict) -> Result<bool, ErrorView> {
    match v {
        Verdict::Accepted => Ok(true),
        Verdict::Rejected => Ok(false),
        Verdict::Malformed => Err(bad_args()),
    }
}

/// What `compute_kzg_proof` answers: the proof and the evaluation `y` that
/// the engine computes when the blob and `z` are canonical.
pub open spec fn proof_result(setup: SetupView, blob: Seq<u8>, z: Seq<u8>) -> Result<
    (Seq<u8>, Seq<u8>),
    ErrorView,
> {
    if all_canonical(blob) && is_canonical(z) {
        Ok((proof_outcome(setup, blob, z).unwrap().0@, proof_outcome(setup, blob, z).unwrap().1@))
    } else {
        Err(bad_args())
    }
}

/// What `compute_blob_kzg_proof` answers: the proof that the engine computes
/// when the blob is canonical and the commitment decodes.
pub open spec fn blob_proof_result(setup: SetupView, blob: Seq<u8>, commitment: Seq<u8>) -> Result<
    Seq<u8>,
    ErrorView,
> {
    if all_canonical(blob) && g1_point_valid(commitment) {
        Ok(blob_proof_outcome(setup, blob, commitment).unwrap()@)
    } else {
        Err(bad_args())
    }
}

/// What holds of the answer `r` of `compute_kzg_proof`: it is the one that
/// `proof_result` names, and what is handed out decodes.
pub open spec fn proof_post(
    setup: SetupView,
    blob: Seq<u8>,
    z: Seq<u8>,
    r: Result<(KZGProof, Bytes32), Error>,
) -> bool {
    match proof_result(setup, blob, z) {
        Ok(expected) => r matches Ok(pair) && pair.0@ == expected.0 && pair.1@ == expected.1
            && g1_point_valid(pair.0@) && is_canonical(pair.1@),
        Err(e) => r matches Err(x) && x@ == e,
    }
}

/// What holds of the answer `r` of `compute_blob_kzg_proof`: it is the one
/// that `blob_proof_result` names, and a proof that is handed out decodes.
pub open spec fn blob_proof_post(
    setup: SetupView,
    blob: Seq<u8>,
    commitment: Seq<u8>,
    r: Result<KZGProof, Error>,
) -> bool {
    match blob_proof_result(setup, blob, commitment) {
        Ok(expected) => r matches Ok(p) && p@ == expected && g1_point_valid(p@),
        Err(e) => r matches Err(x) && x@ == e,
    }
}

/// What holds of the answer `r` of `verify_kzg_proof`: it is the one that
/// `verify_result` names, and it is an error exactly when an input does not
/// decode.
pub open spec fn verify_post(
    setup: SetupView,
    commitment: Seq<u8>,
    z: Seq<u8>,
    y: Seq<u8>,
    proof: Seq<u8>,
    r: Result<bool, Error>,
) -> bool {
    &&& answers(r, verify_result(setup, commitment, z, y, proof))
    &&& r is Ok <==> (g1_point_valid(commitment) && g1_point_valid(proof) && is_canonical(z)
        && is_canonical(y))
}

/// What `verify_kzg_proof` answers.
pub open spec fn verify_result(
    setup: SetupView,
    commitment: Seq<u8>,
    z: Seq<u8>,
    y: Seq<u8>,
    proof: Seq<u8>,
) -> Result<bool, ErrorView> {
    if is_canonical(z) && is_canonical(y) {
        verdict_result(proof_verdict(setup, commitment, z, y, proof))
    } else {
        Err(bad_args())
    }
}

/// What `verify_blob_kzg_proof` answers.
pub open spec fn verify_blob_result(
    setup: SetupView,
    blob: Seq<u8>,
    commitment: Seq<u8>,
    proof: Seq<u8>,
) -> Result<bool, ErrorView> {
    if all_canonical(blob) {
        verdict_result(blob_proof_verdict(setup, blob, commitment, proof))
    } else {
        Err(bad_args())
    }
}

/// What holds of the answer `r` of `verify_blob_kzg_proof`: it is the one
/// that `verify_blob_result` names, and it is an error exactly when an input
/// does not decode.
pub open spec fn verify_blob_post(
    setup: SetupView,
    blob: Seq<u8>,
    commitment: Seq<u8>,
    proof: Seq<u8>,
    r: Result<bool, Error>,
) -> bool {
    &&& answers(r, verify_blob_result(setup, blob, commitment, proof))
    &&& r is Ok <==> tuple_well_formed(blob, commitment, proof)
}

/// Text of the message for lists of different lengths.
pub open spec fn mismatch_text(blobs: nat, others: nat, what: Seq<char>) -> Seq<char> {
    two_count_text("There are "@, blobs, " blobs and "@, others, what)
}

/// Every blob of the list is canonical.
pub open spec fn all_blobs_canonical(blobs: Seq<Seq<u8>>) -> bool {
    forall|i: int| 0 <= i < blobs.len() ==> all_canonical(#[trigger] blobs[i])
}

/// What `verify_blob_kzg_proof_batch` answers. Lists of different lengths
/// are refused first. No tuple at all is trivially fine, a single tuple is
/// verified as `verify_blob_kzg_proof` does it, and two or more are handed
/// to the engine's combined check once every blob is known to be canonical.
pub open spec fn verify_batch_result(
    setup: SetupView,
    blobs: Seq<Seq<u8>>,
    commitments: Seq<Seq<u8>>,
    proofs: Seq<Seq<u8>>,
) -> Result<bool, ErrorView> {
    if blobs.len() != commitments.len() {
        Err(ErrorView::MismatchLength(mismatch_text(blobs.len(), commitments.len(), " commitments"@)))
    } else if blobs.len() != proofs.len() {
        Err(ErrorView::MismatchLength(mismatch_text(blobs.len(), proofs.len(), " proofs"@)))
    } else if blobs.len() == 0 {
        Ok(true)
    } else if blobs.len() == 1 {
        verify_blob_result(setup, blobs[0], commitments[0], proofs[0])
    } else if all_blobs_canonical(blobs) {
        verdict_result(blob_proof_batch_verdict(setup, blobs, commitments, proofs))
    } else {
        Err(bad_args())
    }
}

/// Text of the message for a list that does not pair up with the cells.
pub open spec fn cell_list_mismatch_text(cells: nat, others: nat, what: Seq<char>) -> Seq<char> {
    two_count_text("There are "@, cells, " cells and "@, others, what)
}

/// What `verify_cell_kzg_proof_batch` answers. Each cell comes with the
/// commitment of the blob it belongs to, its index and its proof, so the
/// four lists are equally long; a commitment is repeated for every cell of
/// its blob.
pub open spec fn verify_cell_batch_result(
    setup: SetupView,
    commitments: Seq<Seq<u8>>,
    cell_indices: Seq<u64>,
    cells: Seq<Seq<u8>>,
    proofs: Seq<Seq<u8>>,
) -> Result<bool, ErrorView> {
    if cells.len() != commitments.len() {
        Err(
            ErrorView::MismatchLength(
                cell_list_mismatch_text(cells.len(), commitments.len(), " commitments"@),
            ),
        )
    } else if cells.len() != cell_indices.len() {
        Err(
            ErrorView::MismatchLength(
                cell_list_mismatch_text(cells.len(), cell_indices.len(), " cell indices"@),
            ),
        )
    } else if cells.len() != proofs.len() {
        Err(
            ErrorView::MismatchLength(
                cell_list_mismatch_text(cells.len(), proofs.len(), " proofs"@),
            ),
        )
    } else if indices_in_range(cell_indices) && all_cells_canonical(cells) {
        verdict_result(cell_proof_batch_verdict(setup, commitments, cell_indices, cells, proofs))
    } else {
        Err(bad_args())
    }
}

/// What holds of the answer `r` of `verify_blob_kzg_proof_batch`: it is the
/// one that `verify_batch_result` names; lists of different lengths give a
/// length error and never a boolean; and on lists of equal length it is an
/// error exactly when some tuple does not decode.
pub open spec fn verify_batch_post(
    setup: SetupView,
    blobs: Seq<Seq<u8>>,
    commitments: Seq<Seq<u8>>,
    proofs: Seq<Seq<u8>>,
    r: Result<bool, Error>,
) -> bool {
    &&& answers(r, verify_batch_result(setup, blobs, commitments, proofs))
    &&& blobs.len() != commitments.len() || blobs.len() != proofs.len() ==> (r matches Err(
        Error::MismatchLength(_),
    ))
    &&& blobs.len() == commitments.len() && blobs.len() == proofs.len() ==> (r is Ok
        <==> batch_well_formed(blobs, commitments, proofs))
}

/// What holds of the answer `r` of `verify_cell_kzg_proof_batch`: it is the
/// one that `verify_cell_batch_result` names, and on lists of equal length
/// it is an error exactly when some index is out of range or some cell,
/// commitment or proof does not decode.
pub open spec fn verify_cell_batch_post(
    setup: SetupView,
    commitments: Seq<Seq<u8>>,
    cell_indices: Seq<u64>,
    cells: Seq<Seq<u8>>,
    proofs: Seq<Seq<u8>>,
    r: Result<bool, Error>,
) -> bool {
    &&& answers(r, verify_cell_batch_result(setup, commitments, cell_indices, cells, proofs))
    &&& cells.len() == commitments.len() && cells.len() == cell_indices.len() && cells.len()
        == proofs.len() ==> (r is Ok <==> cell_batch_well_formed(
        commitments,
        cell_indices,
        cells,
        proofs,
    ))
}

/// Every row index names one of `rows` commitments.
pub open spec fn rows_in_range(row_indices: Seq<u64>, rows: nat) -> bool {
    forall|k: int| 0 <= k < row_indices.len() ==> (#[trigger] row_indices[k]) < rows
}

/// The commitment of each cell, when each blob's commitment is listed once:
/// cell `k` belongs to the blob whose commitment stands at `row_indices[k]`.
pub open spec fn commitments_by_row(commitments: Seq<Seq<u8>>, row_indices: Seq<u64>) -> Seq<
    Seq<u8>,
> {
    Seq::new(row_indices.len(), |k: int| commitments[row_indices[k] as int])
}

/// What `verify_cell_kzg_proof_batch_by_row` answers: what
/// `verify_cell_kzg_proof_batch` answers once each cell has been given the
/// commitment of its row.
pub open spec fn verify_cell_rows_result(
    setup: SetupView,
    commitments: Seq<Seq<u8>>,
    row_indices: Seq<u64>,
    column_indices: Seq<u64>,
    cells: Seq<Seq<u8>>,
    proofs: Seq<Seq<u8>>,
) -> Result<bool, ErrorView> {
    if cells.len() != row_indices.len() {
        Err(
            ErrorView::MismatchLength(
                cell_list_mismatch_text(cells.len(), row_indices.len(), " row indices"@),
            ),
        )
    } else if !rows_in_range(row_indices, commitments.len()) {
        Err(bad_args())
    } else {
        verify_cell_batch_result(
            setup,
            commitments_by_row(commitments, row_indices),
            column_indices,
            cells,
            proofs,
        )
    }
}

/// Turns the engine's verdict into the answer of a verification.
pub fn verdict_answer(v: Verdict) -> (r: Result<bool, Error>)
    ensures
        answers(r, verdict_result(v)),
{
    match v {
        Verdict::Accepted => Ok(true),
        Verdict::Rejected => Ok(false),
        Verdict::Malformed => Err(Error::CError(C_KZG_RET::C_KZG_BADARGS)),
    }
}

/// Whether every blob of the list is canonical.
pub fn check_all_blobs(blobs: &[Blob]) -> (r: bool)
    ensures
        r == all_blobs_canonical(blob_views(blobs@)),
{
    let n: usize = blobs.len();
    let mut i: usize = 0;
    while i < n
        invariant
            n == blobs@.len(),
            0 <= i <= n,
            forall|j: int| 0 <= j < i ==> all_canonical(#[trigger] blob_views(blobs@)[j]),
        decreases n - i,
    {
        if !check_all_canonical(blobs[i].as_slice()) {
            assert(!all_canonical(blob_views(blobs@)[i as int]));
            return false;
        }
        i = i + 1;
    }
    true
}

impl KZGProof {
    /// There are always 48 bytes.
    pub proof fn lemma_len(&self)
        ensures
            self@.len() == 48,
    {
    }

    #[verifier::type_invariant]
    spec fn is_a_point(self) -> bool {
        g1_point_valid(self.bytes@)
    }

    /// Takes exactly `BYTES_PER_PROOF` bytes that are the compressed encoding
    /// of a point of G1; anything else is refused: a proof exists only
    /// once its bytes have been decoded and the point found in the subgroup.
    pub fn from_bytes(bytes: &[u8]) -> (r: Result<Self, Error>)
        ensures
            r is Ok <==> (bytes@.len() == BYTES_PER_PROOF && g1_point_valid(bytes@)),
            r matches Ok(v) ==> v@ == bytes@,
            bytes@.len() != BYTES_PER_PROOF ==> (r matches Err(Error::InvalidKzgProof(m)) && m@
                == length_text(BYTES_PER_PROOF as nat, bytes@.len())),
            bytes@.len() == BYTES_PER_PROOF && !g1_point_valid(bytes@) ==> (r matches Err(
                Error::InvalidKzgProof(m),
            ) && m@ == not_a_point_text()),
    {
        if bytes.len() != BYTES_PER_PROOF {
            return Err(Error::InvalidKzgProof(length_message(BYTES_PER_PROOF, bytes.len())));
        }
        let point = array_from_slice::<48>(bytes);
        if !decodes_as_g1(&point) {
            return Err(Error::InvalidKzgProof(String::from_str("Invalid point encoding")));
        }
        Ok(Self { bytes: point })
    }

    /// Wraps bytes that are known to be the encoding of a point.
    pub(crate) fn from_point(bytes: [u8; 48]) -> (r: Self)
        requires
            g1_point_valid(bytes@),
        ensures
            r@ == bytes@,
    {
        Self { bytes }
    }

    /// The same bytes as an untrusted 48-byte string.
    pub fn to_bytes(&self) -> (r: Bytes48)
        ensures
            r@ == self@,
            g1_point_valid(r@),
    {
        proof {
            use_type_invariant(self);
        }
        Bytes48::new(self.bytes)
    }

    /// The bytes, borrowed.
    pub fn as_slice(&self) -> (r: &[u8])
        ensures
            r@ == self@,
    {
        self.bytes.as_slice()
    }

    /// Proves the value of the blob's polynomial at the point `z`: returns
    /// the proof together with the value `y`. The blob and `z` are checked
    /// to be canonical before anything is computed.
    pub fn compute_kzg_proof(blob: Blob, z_bytes: Bytes32, kzg_settings: &KZGSettings) -> (r:
        Result<(Self, Bytes32), Error>)
        ensures
            proof_post(kzg_settings@, blob@, z_bytes@, r),
    {
        let bytes = blob.as_slice();
        if !check_all_canonical(bytes) || !check_canonical(z_bytes.as_slice()) {
            return Err(Error::CError(C_KZG_RET::C_KZG_BADARGS));
        }
        match ctx_compute_kzg_proof(kzg_settings.context(), bytes, &z_bytes) {
            Some(pair) => Ok((Self { bytes: pair.0 }, Bytes32::new(pair.1))),
            None => Err(Error::CError(C_KZG_RET::C_KZG_ERROR)),
        }
    }

    /// Proves that the blob matches its commitment. The evaluation point is
    /// derived from the blob and the commitment, so the caller supplies no
    /// randomness.
    pub fn compute_blob_kzg_proof(
        blob: Blob,
        commitment_bytes: Bytes48,
        kzg_settings: &KZGSettings,
    ) -> (r: Result<Self, Error>)
        ensures
            blob_proof_post(kzg_settings@, blob@, commitment_bytes@, r),
    {
        let bytes = blob.as_slice();
        if !check_all_canonical(bytes) {
            return Err(Error::CError(C_KZG_RET::C_KZG_BADARGS));
        }
        match ctx_compute_blob_kzg_proof(kzg_settings.context(), bytes, &commitment_bytes) {
            Some(p) => Ok(Self { bytes: p }),
            None => Err(Error::CError(C_KZG_RET::C_KZG_BADARGS)),
        }
    }

    /// Checks a proof that the committed polynomial takes the value `y` at
    /// `z`. A proof that merely fails gives `Ok(false)`; an error means that
    /// an input is not a valid encoding.
    pub fn verify_kzg_proof(
        commitment_bytes: Bytes48,
        z_bytes: Bytes32,
        y_bytes: Bytes32,
        proof_bytes: Bytes48,
        kzg_settings: &KZGSettings,
    ) -> (r: Result<bool, Error>)
        ensures
            verify_post(kzg_settings@, commitment_bytes@, z_bytes@, y_bytes@, proof_bytes@, r),
    {
        if !check_canonical(z_bytes.as_slice()) || !check_canonical(y_bytes.as_slice()) {
            return Err(Error::CError(C_KZG_RET::C_KZG_BADARGS));
        }
        verdict_answer(
            ctx_verify_kzg_proof(
                kzg_settings.context(),
                &commitment_bytes,
                &z_bytes,
                &y_bytes,
                &proof_bytes,
            ),
        )
    }

    /// Checks a proof that a blob matches a commitment. The evaluation point
    /// and the value there are recomputed from the blob; nothing is taken
    /// from the proof.
    pub fn verify_blob_kzg_proof(
        blob: Blob,
        commitment_bytes: Bytes48,
        proof_bytes: Bytes48,
        kzg_settings: &KZGSettings,
    ) -> (r: Result<bool, Error>)
        ensures
            verify_blob_post(kzg_settings@, blob@, commitment_bytes@, proof_bytes@, r),
    {
        Self::verify_blob_ref(&blob, &commitment_bytes, &proof_bytes, kzg_settings)
    }

    /// `verify_blob_kzg_proof` on borrowed arguments.
    fn verify_blob_ref(
        blob: &Blob,
        commitment_bytes: &Bytes48,
        proof_bytes: &Bytes48,
        kzg_settings: &KZGSettings,
    ) -> (r: Result<bool, Error>)
        ensures
            verify_blob_post(kzg_settings@, blob@, commitment_bytes@, proof_bytes@, r),
    {
        let bytes = blob.as_slice();
        if !check_all_canonical(bytes) {
            return Err(Error::CError(C_KZG_RET::C_KZG_BADARGS));
        }
        verdict_answer(
            ctx_verify_blob_kzg_proof(kzg_settings.context(), bytes, commitment_bytes, proof_bytes),
        )
    }

    /// Checks many blob proofs at once. The three lists pair up by position
    /// and must be equally long. One malformed input anywhere fails the
    /// whole batch with an error; there are no partial results.
    pub fn verify_blob_kzg_proof_batch(
        blobs: &[Blob],
        commitments_bytes: &[Bytes48],
        proofs_bytes: &[Bytes48],
        kzg_settings: &KZGSettings,
    ) -> (r: Result<bool, Error>)
        ensures
            verify_batch_post(
                kzg_settings@,
                blob_views(blobs@),
                bytes48_views(commitments_bytes@),
                bytes48_views(proofs_bytes@),
                r,
            ),
    {
        if blobs.len() != commitments_bytes.len() {
            return Err(
                Error::MismatchLength(
                    two_count_message(
                        "There are ",
                        blobs.len(),
                        " blobs and ",
                        commitments_bytes.len(),
                        " commitments",
                    ),
                ),
            );
        }
        if blobs.len() != proofs_bytes.len() {
            return Err(
                Error::MismatchLength(
                    two_count_message(
                        "There are ",
                        blobs.len(),
                        " blobs and ",
                        proofs_bytes.len(),
                        " proofs",
                    ),
                ),
            );
        }
        if blobs.len() == 0 {
            return Ok(true);
        }
        if blobs.len() == 1 {
            return Self::verify_blob_ref(
                &blobs[0],
                &commitments_bytes[0],
                &proofs_bytes[0],
                kzg_settings,
            );
        }
        if !check_all_blobs(blobs) {
            return Err(Error::CError(C_KZG_RET::C_KZG_BADARGS));
        }
        verdict_answer(
            ctx_verify_blob_kzg_proof_batch(
                kzg_settings.context(),
                blobs,
                commitments_bytes,
                proofs_bytes,
            ),
        )
    }

    /// Checks many cell proofs at once: cell `k` is claimed to be cell
    /// number `cell_indices[k]` of the blob committed to by
    /// `commitments_bytes[k]`. An index out of range or an input that does
    /// not decode fails the whole batch with an error.
    pub fn verify_cell_kzg_proof_batch(
        commitments_bytes: &[Bytes48],
        cell_indices: &[u64],
        cells: &[Cell],
        proofs_bytes: &[Bytes48],
        kzg_settings: &KZGSettings,
    ) -> (r: Result<bool, Error>)
        ensures
            verify_cell_batch_post(
                kzg_settings@,
                bytes48_views(commitments_bytes@),
                cell_indices@,
                cell_views(cells@),
                bytes48_views(proofs_bytes@),
                r,
            ),
    {
        if cells.len() != commitments_bytes.len() {
            return Err(
                Error::MismatchLength(
                    two_count_message(
                        "There are ",
                        cells.len(),
                        " cells and ",
                        commitments_bytes.len(),
                        " commitments",
                    ),
                ),
            );
        }
        if cells.len() != cell_indices.len() {
            return Err(
                Error::MismatchLength(
                    two_count_message(
                        "There are ",
                        cells.len(),
                        " cells and ",
                        cell_indices.len(),
                        " cell indices",
                    ),
                ),
            );
        }
        if cells.len() != proofs_bytes.len() {
            return Err(
                Error::MismatchLength(
                    two_count_message(
                        "There are ",
                        cells.len(),
                        " cells and ",
                        proofs_bytes.len(),
                        " proofs",
                    ),
                ),
            );
        }
        if !check_indices_in_range(cell_indices) || !check_all_cells(cells) {
            proof {
                let cs = bytes48_views(commitments_bytes@);
                let ps = bytes48_views(proofs_bytes@);
                let views = cell_views(cells@);
                if cell_batch_well_formed(cs, cell_indices@, views, ps) {
                    assert forall|k: int| 0 <= k < cell_indices@.len() implies (
                    #[trigger] cell_indices@[k]) < CELLS_PER_EXT_BLOB by {
                        assert(tuple_well_formed(views[k], cs[k], ps[k]));
                    }
                    assert forall|k: int| 0 <= k < views.len() implies all_canonical(
                        #[trigger] views[k],
                    ) by {
                        assert(tuple_well_formed(views[k], cs[k], ps[k]));
                    }
                }
            }
            return Err(Error::CError(C_KZG_RET::C_KZG_BADARGS));
        }
        verdict_answer(
            ctx_verify_cell_kzg_proof_batch(
                kzg_settings.context(),
                commitments_bytes,
                cell_indices,
                cells,
                proofs_bytes,
            ),
        )
    }

    /// Checks many cell proofs at once, with each blob's commitment listed
    /// only once: cell `k` is claimed to be cell number `column_indices[k]`
    /// of the blob committed to by `commitments_bytes[row_indices[k]]`. A
    /// row index that names no commitment fails the whole batch with an
    /// error.
    pub fn verify_cell_kzg_proof_batch_by_row(
        commitments_bytes: &[Bytes48],
        row_indices: &[u64],
        column_indices: &[u64],
        cells: &[Cell],
        proofs_bytes: &[Bytes48],
        kzg_settings: &KZGSettings,
    ) -> (r: Result<bool, Error>)
        ensures
            answers(
                r,
                verify_cell_rows_result(
                    kzg_settings@,
                    bytes48_views(commitments_bytes@),
                    row_indices@,
                    column_indices@,
                    cell_views(cells@),
                    bytes48_views(proofs_bytes@),
                ),
            ),
    {
        if cells.len() != row_indices.len() {
            return Err(
                Error::MismatchLength(
                    two_count_message(
                        "There are ",
                        cells.len(),
                        " cells and ",
                        row_indices.len(),
                        " row indices",
                    ),
                ),
            );
        }
        let n: usize = row_indices.len();
        let rows: usize = commitments_bytes.len();
        let mut by_row: Vec<Bytes48> = Vec::new();
        let mut k: usize = 0;
        while k < n
            invariant
                n == row_indices@.len(),
                n == cells@.len(),
                rows == commitments_bytes@.len(),
                0 <= k <= n,
                by_row@.len() == k,
                forall|j: int| 0 <= j < k ==> (#[trigger] row_indices@[j]) < rows,
                forall|j: int|
                    0 <= j < k ==> (#[trigger] by_row@[j])@
                        == commitments_bytes@[row_indices@[j] as int]@,
            decreases n - k,
        {
            let row: u64 = row_indices[k];
            if row >= rows as u64 {
                proof {
                    assert(!(row_indices@[k as int] < bytes48_views(commitments_bytes@).len()));
                }
                return Err(Error::CError(C_KZG_RET::C_KZG_BADARGS));
            }
            by_row.push(commitments_bytes[row as usize]);
            k = k + 1;
        }
        proof {
            assert(bytes48_views(by_row@) =~= commitments_by_row(
                bytes48_views(commitments_bytes@),
                row_indices@,
            ));
        }
        Self::verify_cell_kzg_proof_batch(
            by_row.as_slice(),
            column_indices,
            cells,
            proofs_bytes,
            kzg_settings,
        )
    }
}

} // verus!

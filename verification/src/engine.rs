//! The boundary to the group arithmetic.
//!
//! Everything in this module is believed, not proved: each function here
//! makes one call into `rust_eth_kzg` (or `ekzg_bls12_381` for decoding single
//! points), and its contract says what that call returns. Results that are
//! the output of curve arithmetic are given a name, so that the contracts of
//! the verified functions built on top can say exactly which value they hand
//! back.

use vstd::prelude::*;
use rust_eth_kzg::DASContext;
use crate::byte_types::{Blob, Bytes32, Bytes48, Cell};
use crate::constants::{
    BYTES_PER_BLOB, BYTES_PER_CELL, CELLS_PER_EXT_BLOB, FIELD_ELEMENTS_PER_BLOB, NUM_G2_POINTS,
};
use crate::field::{all_canonical, is_canonical};

verus! {

/// `rust_eth_kzg::DASContext`: the prover and verifier state derived from a
/// trusted setup. Nothing inside it is visible to the verifier.
#[verifier::external_type_specification]
#[verifier::external_body]
pub struct ExDASContext(rust_eth_kzg::DASContext);

/// What a context was made from.
pub struct SetupView {
    /// Compressed G1 points in monomial form.
    pub g1_monomial: Seq<[u8; 48]>,
    /// Compressed G2 points in monomial form.
    pub g2_monomial: Seq<[u8; 96]>,
    /// Window width of the fixed-base tables, or `None` without them.
    pub width: Option<usize>,
}

/// How a verification ended.
#[derive(Debug, Clone, Copy, PartialEq, Eq, Structural)]
pub enum Verdict {
    /// The proof satisfies the pairing equation.
    Accepted,
    /// Every input decoded, and the pairing equation does not hold.
    Rejected,
    /// Some input is not a valid encoding.
    Malformed,
}

/// The views of a sequence of blobs.
pub open spec fn blob_views(blobs: Seq<Blob>) -> Seq<Seq<u8>> {
    Seq::new(blobs.len(), |i: int| blobs[i]@)
}

/// The views of a sequence of 48-byte strings.
pub open spec fn bytes48_views(items: Seq<Bytes48>) -> Seq<Seq<u8>> {
    Seq::new(items.len(), |i: int| items[i]@)
}

/// The views of a sequence of cells.
pub open spec fn cell_views(cells: Seq<Cell>) -> Seq<Seq<u8>> {
    Seq::new(cells.len(), |i: int| cells[i]@)
}

/// The views of a sequence of borrowed cells.
pub open spec fn cell_ref_views(cells: Seq<&Cell>) -> Seq<Seq<u8>> {
    Seq::new(cells.len(), |i: int| cells[i]@)
}

/// The setup that a context was made from: the arguments of the call of
/// `DASContext::new` that returned it.
pub uninterp spec fn context_setup(ctx: DASContext) -> SetupView;

/// The setup embedded in `rust_eth_kzg`, as a context made with the given
/// width holds it: the arguments of `DASContext::new` when the first is
/// `TrustedSetup::default()`.
pub uninterp spec fn embedded_setup(width: Option<usize>) -> SetupView;

/// Whether `G1Point::from_compressed` accepts these 48 bytes: they are the
/// compressed encoding of a point of the curve that lies in the subgroup G1.
pub uninterp spec fn g1_point_valid(bytes: Seq<u8>) -> bool;

/// Whether `G2Point::from_compressed` accepts these 96 bytes.
pub uninterp spec fn g2_point_valid(bytes: Seq<u8>) -> bool;

/// Result of `DASContext::blob_to_kzg_commitment`.
pub uninterp spec fn commitment_outcome(setup: SetupView, blob: Seq<u8>) -> Option<[u8; 48]>;

/// Result of `DASContext::compute_kzg_proof`: the proof and the evaluation.
pub uninterp spec fn proof_outcome(setup: SetupView, blob: Seq<u8>, z: Seq<u8>) -> Option<
    ([u8; 48], [u8; 32]),
>;

/// Result of `DASContext::compute_blob_kzg_proof`.
pub uninterp spec fn blob_proof_outcome(
    setup: SetupView,
    blob: Seq<u8>,
    commitment: Seq<u8>,
) -> Option<[u8; 48]>;

/// Result of `DASContext::verify_kzg_proof`.
pub uninterp spec fn proof_verdict(
    setup: SetupView,
    commitment: Seq<u8>,
    z: Seq<u8>,
    y: Seq<u8>,
    proof: Seq<u8>,
) -> Verdict;

/// Result of `DASContext::verify_blob_kzg_proof`.
pub uninterp spec fn blob_proof_verdict(
    setup: SetupView,
    blob: Seq<u8>,
    commitment: Seq<u8>,
    proof: Seq<u8>,
) -> Verdict;

/// Result of `DASContext::verify_blob_kzg_proof_batch`.
pub uninterp spec fn blob_proof_batch_verdict(
    setup: SetupView,
    blobs: Seq<Seq<u8>>,
    commitments: Seq<Seq<u8>>,
    proofs: Seq<Seq<u8>>,
) -> Verdict;

/// Result of `DASContext::compute_cells_and_kzg_proofs`: the cells and one
/// proof for each.
pub uninterp spec fn cells_outcome(setup: SetupView, blob: Seq<u8>) -> Option<
    (Seq<Seq<u8>>, Seq<[u8; 48]>),
>;

/// Result of `DASContext::recover_cells_and_kzg_proofs`.
pub uninterp spec fn recovery_outcome(
    setup: SetupView,
    cell_indices: Seq<u64>,
    cells: Seq<Seq<u8>>,
) -> Option<(Seq<Seq<u8>>, Seq<[u8; 48]>)>;

/// Result of `DASContext::verify_cell_kzg_proof_batch`.
pub uninterp spec fn cell_proof_batch_verdict(
    setup: SetupView,
    commitments: Seq<Seq<u8>>,
    cell_indices: Seq<u64>,
    cells: Seq<Seq<u8>>,
    proofs: Seq<Seq<u8>>,
) -> Verdict;

/// A blob, a commitment and a proof that all decode.
pub open spec fn tuple_well_formed(blob: Seq<u8>, commitment: Seq<u8>, proof: Seq<u8>) -> bool {
    all_canonical(blob) && g1_point_valid(commitment) && g1_point_valid(proof)
}

/// Every tuple of a batch of blobs decodes.
pub open spec fn batch_well_formed(
    blobs: Seq<Seq<u8>>,
    commitments: Seq<Seq<u8>>,
    proofs: Seq<Seq<u8>>,
) -> bool {
    forall|i: int|
        0 <= i < blobs.len() ==> tuple_well_formed(#[trigger] blobs[i], commitments[i], proofs[i])
}

/// Every tuple of a batch of cells decodes and names a cell of the extended
/// blob.
pub open spec fn cell_batch_well_formed(
    commitments: Seq<Seq<u8>>,
    cell_indices: Seq<u64>,
    cells: Seq<Seq<u8>>,
    proofs: Seq<Seq<u8>>,
) -> bool {
    forall|i: int|
        0 <= i < cells.len() ==> cell_indices[i] < CELLS_PER_EXT_BLOB && tuple_well_formed(
            #[trigger] cells[i],
            commitments[i],
            proofs[i],
        )
}

/// A full set of cells with their proofs: one of each per cell of the
/// extended blob, every cell `BYTES_PER_CELL` long and made of canonical
/// field elements, every proof the encoding of a point.
pub open spec fn full_cell_set(cells: Seq<Seq<u8>>, proofs: Seq<[u8; 48]>) -> bool {
    &&& cells.len() == CELLS_PER_EXT_BLOB
    &&& proofs.len() == CELLS_PER_EXT_BLOB
    &&& forall|i: int|
        0 <= i < cells.len() ==> (#[trigger] cells[i]).len() == BYTES_PER_CELL && all_canonical(
            cells[i],
        )
    &&& forall|i: int| 0 <= i < proofs.len() ==> g1_point_valid(#[trigger] proofs[i]@)
}

/// A setup whose fixed-base tables, if it has any, were built from the
/// embedded setup and not from points that a caller supplied.
pub open spec fn tables_are_embedded(setup: SetupView) -> bool {
    setup.width is None || setup == embedded_setup(setup.width)
}

/// Calls `G1Point::from_compressed` and reports whether it returned a point.
#[verifier::external_body]
pub(crate) fn decodes_as_g1(bytes: &[u8; 48]) -> (r: bool)
    ensures
        r == g1_point_valid(bytes@),
{
    ekzg_bls12_381::G1Point::from_compressed(bytes).is_some().into()
}

/// Calls `G2Point::from_compressed` and reports whether it returned a point.
#[verifier::external_body]
pub(crate) fn decodes_as_g2(bytes: &[u8; 96]) -> (r: bool)
    ensures
        r == g2_point_valid(bytes@),
{
    ekzg_bls12_381::G2Point::from_compressed(bytes).is_some().into()
}

/// Calls `DASContext::new` on the decoded points, without fixed-base
/// tables. The contract claims only that the context remembers what it was
/// made from. The point counts are those that the constructor's size
/// assertions need, and every point has to decode, since the decoded value
/// is unwrapped. Tables are never built from points that a caller supplies:
/// the table arithmetic stops on an identity point and on a point that
/// meets its negative, which such points can bring about.
#[verifier::external_body]
pub(crate) fn new_context(g1: &Vec<[u8; 48]>, g2: &Vec<[u8; 96]>) -> (r: DASContext)
    requires
        g1@.len() == FIELD_ELEMENTS_PER_BLOB,
        g2@.len() == NUM_G2_POINTS,
        forall|i: int| 0 <= i < g1@.len() ==> g1_point_valid(#[trigger] g1@[i]@),
        forall|i: int| 0 <= i < g2@.len() ==> g2_point_valid(#[trigger] g2@[i]@),
    ensures
        context_setup(r) == (SetupView { g1_monomial: g1@, g2_monomial: g2@, width: None }),
{
    let g1_monomial =
        g1.iter().map(|p| ekzg_bls12_381::G1Point::from_compressed(p).unwrap()).collect();
    let g2_monomial =
        g2.iter().map(|p| ekzg_bls12_381::G2Point::from_compressed(p).unwrap()).collect();
    let setup = rust_eth_kzg::TrustedSetup { g1_monomial, g2_monomial };
    DASContext::new(&setup, rust_eth_kzg::UsePrecomp::No)
}

/// Calls `DASContext::new` on `TrustedSetup::default`, the setup embedded in
/// `rust_eth_kzg`. The contract claims that the context was made from the
/// named setup with the given width, that this setup has the usual point
/// counts, and that each of its points decodes.
#[verifier::external_body]
pub(crate) fn embedded_context(width: Option<usize>) -> (r: DASContext)
    requires
        width matches Some(w) ==> 1 <= w <= 15,
    ensures
        context_setup(r) == embedded_setup(width),
        context_setup(r).width == width,
        context_setup(r).g1_monomial.len() == FIELD_ELEMENTS_PER_BLOB,
        context_setup(r).g2_monomial.len() == NUM_G2_POINTS,
        forall|i: int|
            0 <= i < context_setup(r).g1_monomial.len() ==> g1_point_valid(
                #[trigger] context_setup(r).g1_monomial[i]@,
            ),
        forall|i: int|
            0 <= i < context_setup(r).g2_monomial.len() ==> g2_point_valid(
                #[trigger] context_setup(r).g2_monomial[i]@,
            ),
{
    let use_precomp = match width {
        Some(width) => rust_eth_kzg::UsePrecomp::Yes { width },
        None => rust_eth_kzg::UsePrecomp::No,
    };
    DASContext::new(&rust_eth_kzg::TrustedSetup::default(), use_precomp)
}

/// Calls `DASContext::blob_to_kzg_commitment`. It fails only when the blob
/// does not decode, that is when some field element is not canonical. What
/// it returns is the compressed form of a point, so it decodes again.
#[verifier::external_body]
pub(crate) fn ctx_blob_to_kzg_commitment(ctx: &DASContext, blob: &[u8]) -> (r: Option<[u8; 48]>)
    requires
        blob@.len() == BYTES_PER_BLOB,
    ensures
        r == commitment_outcome(context_setup(*ctx), blob@),
        r is Some <==> all_canonical(blob@),
        r matches Some(c) ==> g1_point_valid(c@),
{
    ctx.blob_to_kzg_commitment(blob.try_into().unwrap()).ok()
}

/// Calls `DASContext::compute_kzg_proof`. It fails only when the blob or the
/// evaluation point does not decode. What it returns is the compressed form
/// of a point and the bytes of a field element, so both decode again.
#[verifier::external_body]
pub(crate) fn ctx_compute_kzg_proof(ctx: &DASContext, blob: &[u8], z: &Bytes32) -> (r: Option<
    ([u8; 48], [u8; 32]),
>)
    requires
        blob@.len() == BYTES_PER_BLOB,
    ensures
        r == proof_outcome(context_setup(*ctx), blob@, z@),
        r is Some <==> (all_canonical(blob@) && is_canonical(z@)),
        r matches Some(pair) ==> g1_point_valid(pair.0@) && is_canonical(pair.1@),
{
    ctx.compute_kzg_proof(blob.try_into().unwrap(), z.into_inner()).ok()
}

/// Calls `DASContext::compute_blob_kzg_proof`. It fails only when the blob or
/// the commitment does not decode. What it returns is the compressed form
/// of a point, so it decodes again.
#[verifier::external_body]
pub(crate) fn ctx_compute_blob_kzg_proof(ctx: &DASContext, blob: &[u8], commitment: &Bytes48) -> (r:
    Option<[u8; 48]>)
    requires
        blob@.len() == BYTES_PER_BLOB,
    ensures
        r == blob_proof_outcome(context_setup(*ctx), blob@, commitment@),
        r is Some <==> (all_canonical(blob@) && g1_point_valid(commitment@)),
        r matches Some(p) ==> g1_point_valid(p@),
{
    ctx.compute_blob_kzg_proof(blob.try_into().unwrap(), &commitment.into_inner()).ok()
}

/// Calls `DASContext::verify_kzg_proof`. The call reports a malformed input
/// exactly when one of the four does not decode.
#[verifier::external_body]
pub(crate) fn ctx_verify_kzg_proof(
    ctx: &DASContext,
    commitment: &Bytes48,
    z: &Bytes32,
    y: &Bytes32,
    proof: &Bytes48,
) -> (r: Verdict)
    ensures
        r == proof_verdict(context_setup(*ctx), commitment@, z@, y@, proof@),
        r != Verdict::Malformed <==> (g1_point_valid(commitment@) && g1_point_valid(proof@)
            && is_canonical(z@) && is_canonical(y@)),
{
    let (c, p) = (commitment.into_inner(), proof.into_inner());
    match ctx.verify_kzg_proof(&c, z.into_inner(), y.into_inner(), &p) {
        Ok(()) => Verdict::Accepted,
        Err(e) if e.is_proof_invalid() => Verdict::Rejected,
        Err(_) => Verdict::Malformed,
    }
}

/// Calls `DASContext::verify_blob_kzg_proof`. The call reports a malformed
/// input exactly when one of the three does not decode.
#[verifier::external_body]
pub(crate) fn ctx_verify_blob_kzg_proof(
    ctx: &DASContext,
    blob: &[u8],
    commitment: &Bytes48,
    proof: &Bytes48,
) -> (r: Verdict)
    requires
        blob@.len() == BYTES_PER_BLOB,
    ensures
        r == blob_proof_verdict(context_setup(*ctx), blob@, commitment@, proof@),
        r != Verdict::Malformed <==> (all_canonical(blob@) && g1_point_valid(commitment@)
            && g1_point_valid(proof@)),
{
    let (c, p) = (commitment.into_inner(), proof.into_inner());
    match ctx.verify_blob_kzg_proof(blob.try_into().unwrap(), &c, &p) {
        Ok(()) => Verdict::Accepted,
        Err(e) if e.is_proof_invalid() => Verdict::Rejected,
        Err(_) => Verdict::Malformed,
    }
}

/// Calls `DASContext::verify_blob_kzg_proof_batch` on three lists of equal
/// length. The call reports a malformed input exactly when some blob,
/// commitment or proof of the batch does not decode.
#[verifier::external_body]
pub(crate) fn ctx_verify_blob_kzg_proof_batch(
    ctx: &DASContext,
    blobs: &[Blob],
    commitments: &[Bytes48],
    proofs: &[Bytes48],
) -> (r: Verdict)
    requires
        blobs@.len() == commitments@.len(),
        blobs@.len() == proofs@.len(),
        blobs@.len() >= 2,
    ensures
        r == blob_proof_batch_verdict(
            context_setup(*ctx),
            blob_views(blobs@),
            bytes48_views(commitments@),
            bytes48_views(proofs@),
        ),
        r != Verdict::Malformed <==> batch_well_formed(
            blob_views(blobs@),
            bytes48_views(commitments@),
            bytes48_views(proofs@),
        ),
{
    let blobs = blobs.iter().map(|b| b.as_slice().try_into().unwrap()).collect();
    let cs: Vec<[u8; 48]> = commitments.iter().map(|c| c.into_inner()).collect();
    let ps: Vec<[u8; 48]> = proofs.iter().map(|p| p.into_inner()).collect();
    match ctx.verify_blob_kzg_proof_batch(blobs, cs.iter().collect(), ps.iter().collect()) {
        Ok(()) => Verdict::Accepted,
        Err(e) if e.is_proof_invalid() => Verdict::Rejected,
        Err(_) => Verdict::Malformed,
    }
}

/// Calls `DASContext::compute_cells_and_kzg_proofs`. It fails only when the
/// blob does not decode; what it returns is a full cell set: the cells are
/// serialised field elements and the proofs compressed points. A context
/// with tables has to be one of the embedded setup: with tables of other
/// points the call can stop on an identity point or on a point that meets
/// its negative.
#[verifier::external_body]
pub(crate) fn ctx_compute_cells_and_kzg_proofs(ctx: &DASContext, blob: &[u8]) -> (r: Option<
    (Vec<Vec<u8>>, Vec<[u8; 48]>),
>)
    requires
        blob@.len() == BYTES_PER_BLOB,
        tables_are_embedded(context_setup(*ctx)),
    ensures
        r is Some <==> cells_outcome(context_setup(*ctx), blob@) is Some,
        r matches Some(p) ==> cells_outcome(context_setup(*ctx), blob@) == Some(
            (p.0.deep_view(), p.1@),
        ) && full_cell_set(p.0.deep_view(), p.1@),
        r is Some <==> all_canonical(blob@),
{
    let (cells, proofs) = ctx.compute_cells_and_kzg_proofs(blob.try_into().unwrap()).ok()?;
    Some((cells.iter().map(|c| c.to_vec()).collect(), proofs.to_vec()))
}

/// Calls `DASContext::recover_cells_and_kzg_proofs` with one cell for each
/// index. What it returns on success is a full cell set. A context with
/// tables has to be one of the embedded setup, as for
/// `ctx_compute_cells_and_kzg_proofs`.
#[verifier::external_body]
pub(crate) fn ctx_recover_cells_and_kzg_proofs(
    ctx: &DASContext,
    cell_indices: &Vec<u64>,
    cells: &Vec<&Cell>,
) -> (r: Option<(Vec<Vec<u8>>, Vec<[u8; 48]>)>)
    requires
        cell_indices@.len() == cells@.len(),
        tables_are_embedded(context_setup(*ctx)),
    ensures
        r is Some <==> recovery_outcome(
            context_setup(*ctx),
            cell_indices@,
            cell_ref_views(cells@),
        ) is Some,
        r matches Some(p) ==> recovery_outcome(
            context_setup(*ctx),
            cell_indices@,
            cell_ref_views(cells@),
        ) == Some((p.0.deep_view(), p.1@)) && full_cell_set(p.0.deep_view(), p.1@),
{
    let refs = cells.iter().map(|c| c.as_slice().try_into().unwrap()).collect();
    let (cells, proofs) = ctx.recover_cells_and_kzg_proofs(cell_indices.clone(), refs).ok()?;
    Some((cells.iter().map(|c| c.to_vec()).collect(), proofs.to_vec()))
}

/// Calls `DASContext::verify_cell_kzg_proof_batch` with one commitment, one
/// index, one cell and one proof for each cell. The call reports a malformed
/// input exactly when some index is out of range or some cell, commitment
/// or proof does not decode.
#[verifier::external_body]
pub(crate) fn ctx_verify_cell_kzg_proof_batch(
    ctx: &DASContext,
    commitments: &[Bytes48],
    cell_indices: &[u64],
    cells: &[Cell],
    proofs: &[Bytes48],
) -> (r: Verdict)
    requires
        commitments@.len() == cells@.len(),
        cell_indices@.len() == cells@.len(),
        proofs@.len() == cells@.len(),
    ensures
        r == cell_proof_batch_verdict(
            context_setup(*ctx),
            bytes48_views(commitments@),
            cell_indices@,
            cell_views(cells@),
            bytes48_views(proofs@),
        ),
        r != Verdict::Malformed <==> cell_batch_well_formed(
            bytes48_views(commitments@),
            cell_indices@,
            cell_views(cells@),
            bytes48_views(proofs@),
        ),
{
    let cs: Vec<[u8; 48]> = commitments.iter().map(|c| c.into_inner()).collect();
    let ps: Vec<[u8; 48]> = proofs.iter().map(|p| p.into_inner()).collect();
    let cells = cells.iter().map(|c| c.as_slice().try_into().unwrap()).collect();
    let (cs, ps) = (cs.iter().collect(), ps.iter().collect());
    match ctx.verify_cell_kzg_proof_batch(cs, cell_indices, cells, ps) {
        Ok(()) => Verdict::Accepted,
        Err(e) if e.is_proof_invalid() => Verdict::Rejected,
        Err(_) => Verdict::Malformed,
    }
}

} // verus!

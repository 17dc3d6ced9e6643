//! Cells: the erasure-coded pieces of a blob, and their recovery.
//!
//! A blob's polynomial is evaluated on a domain twice as large as the blob
//! and the evaluations are cut into `CELLS_PER_EXT_BLOB` cells, each with a
//! proof. Any half of the cells determines the rest.

use vstd::prelude::*;
use crate::byte_types::{Blob, Cell};
use crate::constants::{BYTES_PER_CELL, CELLS_PER_EXT_BLOB};
use crate::engine::{
    cell_ref_views, cell_views, cells_outcome, ctx_compute_cells_and_kzg_proofs,
    ctx_recover_cells_and_kzg_proofs, full_cell_set, g1_point_valid, recovery_outcome, SetupView,
};
use crate::error::{bad_args, Error, ErrorView, C_KZG_RET};
use crate::field::{all_canonical, check_all_canonical};
use crate::kzg_proof::KZGProof;
use crate::message::{two_count_message, two_count_text};
use crate::settings::KZGSettings;

verus! {

/// Fewest cells from which the others can be recovered: half of them.
pub const RECOVERY_THRESHOLD: usize = CELLS_PER_EXT_BLOB / 2;

/// The views of a sequence of proofs.
pub open spec fn proof_views(proofs: Seq<KZGProof>) -> Seq<Seq<u8>> {
    Seq::new(proofs.len(), |i: int| proofs[i]@)
}

/// The views of a sequence of 48-byte arrays.
pub open spec fn array_views(items: Seq<[u8; 48]>) -> Seq<Seq<u8>> {
    Seq::new(items.len(), |i: int| items[i]@)
}

/// Every index names a cell of the extended blob.
pub open spec fn indices_in_range(indices: Seq<u64>) -> bool {
    forall|k: int| 0 <= k < indices.len() ==> (#[trigger] indices[k]) < CELLS_PER_EXT_BLOB
}

/// Every cell of the list is made of canonical field elements.
pub open spec fn all_cells_canonical(cells: Seq<Seq<u8>>) -> bool {
    forall|i: int| 0 <= i < cells.len() ==> all_canonical(#[trigger] cells[i])
}

/// The indices below `bound` that occur in `indices`, in ascending order.
pub open spec fn ascending_below(indices: Seq<u64>, bound: nat) -> Seq<u64>
    decreases bound,
{
    if bound == 0 {
        Seq::empty()
    } else {
        let rest = ascending_below(indices, (bound - 1) as nat);
        if indices.contains((bound - 1) as u64) {
            rest.push((bound - 1) as u64)
        } else {
            rest
        }
    }
}

/// The cells that belong to the indices of `ascending_below`, in that order:
/// each index brings the cell that stands at its position in the input.
pub open spec fn cells_ascending_below(indices: Seq<u64>, cells: Seq<Seq<u8>>, bound: nat) -> Seq<
    Seq<u8>,
>
    decreases bound,
{
    if bound == 0 {
        Seq::empty()
    } else {
        let rest = cells_ascending_below(indices, cells, (bound - 1) as nat);
        if indices.contains((bound - 1) as u64) {
            rest.push(cells[indices.index_of((bound - 1) as u64)])
        } else {
            rest
        }
    }
}

/// What `compute_cells_and_kzg_proofs` answers: the full cell set of the
/// blob and its proofs, when every field element of the blob is canonical.
pub open spec fn cells_result(setup: SetupView, blob: Seq<u8>) -> Result<
    (Seq<Seq<u8>>, Seq<Seq<u8>>),
    ErrorView,
> {
    if all_canonical(blob) {
        Ok(
            (
                cells_outcome(setup, blob).unwrap().0,
                array_views(cells_outcome(setup, blob).unwrap().1),
            ),
        )
    } else {
        Err(bad_args())
    }
}

/// Every proof of the list is the encoding of a point.
pub open spec fn all_proofs_valid(proofs: Seq<Seq<u8>>) -> bool {
    forall|i: int| 0 <= i < proofs.len() ==> g1_point_valid(#[trigger] proofs[i])
}

/// What holds of an answer `r` that should be `expected`: it is that answer,
/// and a cell set that is handed out is a full one, of `CELLS_PER_EXT_BLOB`
/// canonical cells and as many proofs that decode.
pub open spec fn cell_set_post(
    expected: Result<(Seq<Seq<u8>>, Seq<Seq<u8>>), ErrorView>,
    r: Result<(Vec<Cell>, Vec<KZGProof>), Error>,
) -> bool {
    match expected {
        Ok(set) => {
            &&& r matches Ok(pair)
            &&& cell_views(pair.0@) == set.0
            &&& proof_views(pair.1@) == set.1
            &&& pair.0@.len() == CELLS_PER_EXT_BLOB
            &&& pair.1@.len() == CELLS_PER_EXT_BLOB
            &&& all_cells_canonical(set.0)
            &&& all_proofs_valid(set.1)
        },
        Err(e) => r matches Err(x) && x@ == e,
    }
}

/// Text of the message for a list of indices that does not pair up with the
/// list of cells.
pub open spec fn cell_mismatch_text(cells: nat, indices: nat) -> Seq<char> {
    two_count_text("There are "@, cells, " cells and "@, indices, " cell indices"@)
}

/// The input of a recovery is acceptable: the indices are in range and
/// distinct, there are enough of them, and every cell is canonical.
pub open spec fn recoverable(indices: Seq<u64>, cells: Seq<Seq<u8>>) -> bool {
    &&& indices.len() == cells.len()
    &&& indices_in_range(indices)
    &&& indices.no_duplicates()
    &&& indices.len() >= RECOVERY_THRESHOLD
    &&& all_cells_canonical(cells)
}

/// What `recover_cells_and_kzg_proofs` answers. The engine is handed the
/// indices in ascending order, each with its cell, whatever order the caller
/// gave them in.
pub open spec fn recovery_result(setup: SetupView, indices: Seq<u64>, cells: Seq<Seq<u8>>) -> Result<
    (Seq<Seq<u8>>, Seq<Seq<u8>>),
    ErrorView,
> {
    if indices.len() != cells.len() {
        Err(ErrorView::MismatchLength(cell_mismatch_text(cells.len(), indices.len())))
    } else if !recoverable(indices, cells) {
        Err(bad_args())
    } else {
        match recovery_outcome(
            setup,
            ascending_below(indices, CELLS_PER_EXT_BLOB as nat),
            cells_ascending_below(indices, cells, CELLS_PER_EXT_BLOB as nat),
        ) {
            Some(found) => Ok((found.0, array_views(found.1))),
            None => Err(bad_args()),
        }
    }
}

/// Whether every cell of the list is canonical.
pub fn check_all_cells(cells: &[Cell]) -> (r: bool)
    ensures
        r == all_cells_canonical(cell_views(cells@)),
{
    let n: usize = cells.len();
    let mut i: usize = 0;
    while i < n
        invariant
            n == cells@.len(),
            0 <= i <= n,
            forall|j: int| 0 <= j < i ==> all_canonical(#[trigger] cell_views(cells@)[j]),
        decreases n - i,
    {
        if !check_all_canonical(cells[i].as_slice()) {
            assert(!all_canonical(cell_views(cells@)[i as int]));
            return false;
        }
        i = i + 1;
    }
    true
}

/// Whether every index names a cell of the extended blob.
pub fn check_indices_in_range(indices: &[u64]) -> (r: bool)
    ensures
        r == indices_in_range(indices@),
{
    let n: usize = indices.len();
    let mut i: usize = 0;
    while i < n
        invariant
            n == indices@.len(),
            0 <= i <= n,
            forall|k: int| 0 <= k < i ==> (#[trigger] indices@[k]) < CELLS_PER_EXT_BLOB,
        decreases n - i,
    {
        if indices[i] >= CELLS_PER_EXT_BLOB as u64 {
            return false;
        }
        i = i + 1;
    }
    true
}

/// A table of positions describes `indices`: slot `i` holds the position at
/// which index `i` stands, and is empty when the index does not occur.
spec fn table_describes(table: Seq<Option<usize>>, indices: Seq<u64>, upto: int) -> bool {
    &&& table.len() == CELLS_PER_EXT_BLOB
    &&& forall|i: int|
        0 <= i < table.len() ==> ((#[trigger] table[i]) matches Some(p) ==> p < upto && indices[p as int]
            == i)
    &&& forall|p: int|
        0 <= p < upto ==> (#[trigger] indices[p]) < CELLS_PER_EXT_BLOB && table[indices[p] as int]
            == Some(p as usize)
}

/// Finds where each index stands. Returns `None` when an index is out of
/// range or occurs twice.
fn positions_of(indices: &[u64]) -> (r: Option<Vec<Option<usize>>>)
    ensures
        r is Some <==> (indices_in_range(indices@) && indices@.no_duplicates()),
        r matches Some(table) ==> table_describes(table@, indices@, indices@.len() as int),
{
    let mut table: Vec<Option<usize>> = Vec::new();
    let mut i: usize = 0;
    while i < CELLS_PER_EXT_BLOB
        invariant
            0 <= i <= CELLS_PER_EXT_BLOB,
            table@.len() == i,
            forall|j: int| 0 <= j < i ==> table@[j] is None,
        decreases CELLS_PER_EXT_BLOB - i,
    {
        table.push(None);
        i = i + 1;
    }
    let n: usize = indices.len();
    let mut k: usize = 0;
    while k < n
        invariant
            n == indices@.len(),
            0 <= k <= n,
            table_describes(table@, indices@, k as int),
            forall|a: int, b: int| 0 <= a < b < k ==> indices@[a] != indices@[b],
        decreases n - k,
    {
        let index: u64 = indices[k];
        if index >= CELLS_PER_EXT_BLOB as u64 {
            return None;
        }
        let slot: usize = index as usize;
        if table[slot].is_some() {
            proof {
                let p = table@[slot as int]->0;
                assert(indices@[p as int] == indices@[k as int] && p != k);
            }
            return None;
        }
        proof {
            assert forall|a: int| 0 <= a < k implies indices@[a] != indices@[k as int] by {
                assert(table@[indices@[a] as int] == Some(a as usize));
            }
        }
        table.set(slot, Some(k));
        k = k + 1;
    }
    proof {
        assert(indices@.no_duplicates()) by {
            assert forall|a: int, b: int|
                0 <= a < indices@.len() && 0 <= b < indices@.len() && a != b implies indices@[a]
                != indices@[b] by {
                if a < b {
                    assert(indices@[a] != indices@[b]);
                } else {
                    assert(indices@[b] != indices@[a]);
                }
            }
        }
    }
    Some(table)
}

/// Lists the indices in ascending order, each with its cell.
fn in_ascending_order<'a>(indices: &[u64], cells: &'a [Cell], table: &Vec<Option<usize>>) -> (r: (
    Vec<u64>,
    Vec<&'a Cell>,
))
    requires
        indices@.len() == cells@.len(),
        indices@.no_duplicates(),
        table_describes(table@, indices@, indices@.len() as int),
    ensures
        r.0@ == ascending_below(indices@, CELLS_PER_EXT_BLOB as nat),
        cell_ref_views(r.1@) == cells_ascending_below(
            indices@,
            cell_views(cells@),
            CELLS_PER_EXT_BLOB as nat,
        ),
        r.0@.len() == r.1@.len(),
{
    let mut sorted: Vec<u64> = Vec::new();
    let mut picked: Vec<&'a Cell> = Vec::new();
    let mut i: usize = 0;
    while i < CELLS_PER_EXT_BLOB
        invariant
            0 <= i <= CELLS_PER_EXT_BLOB,
            indices@.len() == cells@.len(),
            indices@.no_duplicates(),
            table_describes(table@, indices@, indices@.len() as int),
            sorted@ == ascending_below(indices@, i as nat),
            cell_ref_views(picked@) == cells_ascending_below(
                indices@,
                cell_views(cells@),
                i as nat,
            ),
            sorted@.len() == picked@.len(),
        decreases CELLS_PER_EXT_BLOB - i,
    {
        let ghost before = picked@;
        match table[i] {
            Some(p) => {
                proof {
                    assert(indices@[p as int] == i as u64);
                    assert(indices@.contains(i as u64));
                    let q = indices@.index_of(i as u64);
                    assert(indices@[q] == i as u64);
                    assert(q == p);
                }
                sorted.push(i as u64);
                picked.push(&cells[p]);
                proof {
                    assert(cell_ref_views(picked@) =~= cell_ref_views(before).push(
                        cell_views(cells@)[p as int],
                    ));
                }
            },
            None => {
                proof {
                    if indices@.contains(i as u64) {
                        let q = indices@.index_of(i as u64);
                        assert(indices@[q] == i as u64);
                        assert(table@[indices@[q] as int] == Some(q as usize));
                    }
                }
            },
        }
        i = i + 1;
    }
    (sorted, picked)
}

/// Puts the cells of a recovery in the order of their indices. Returns the
/// indices in ascending order, each with its cell, or `None` when an index is
/// out of range or occurs twice.
pub fn sort_cells_by_index<'a>(cell_indices: &[u64], cells: &'a [Cell]) -> (r: Option<
    (Vec<u64>, Vec<&'a Cell>),
>)
    requires
        cell_indices@.len() == cells@.len(),
    ensures
        r is Some <==> (indices_in_range(cell_indices@) && cell_indices@.no_duplicates()),
        r matches Some(sorted) ==> {
            &&& sorted.0@ == ascending_below(cell_indices@, CELLS_PER_EXT_BLOB as nat)
            &&& cell_ref_views(sorted.1@) == cells_ascending_below(
                cell_indices@,
                cell_views(cells@),
                CELLS_PER_EXT_BLOB as nat,
            )
            &&& sorted.0@.len() == sorted.1@.len()
        },
{
    match positions_of(cell_indices) {
        Some(table) => Some(in_ascending_order(cell_indices, cells, &table)),
        None => None,
    }
}

/// Wraps the engine's cells and proofs in the types of this crate.
fn wrap_cell_set(cells: Vec<Vec<u8>>, proofs: Vec<[u8; 48]>) -> (r: (Vec<Cell>, Vec<KZGProof>))
    requires
        full_cell_set(cells.deep_view(), proofs@),
    ensures
        cell_views(r.0@) == cells.deep_view(),
        proof_views(r.1@) == array_views(proofs@),
        r.0@.len() == CELLS_PER_EXT_BLOB,
        r.1@.len() == CELLS_PER_EXT_BLOB,
        all_cells_canonical(cells.deep_view()),
        all_proofs_valid(array_views(proofs@)),
{
    let mut out_cells: Vec<Cell> = Vec::new();
    let mut out_proofs: Vec<KZGProof> = Vec::new();
    let mut i: usize = 0;
    while i < CELLS_PER_EXT_BLOB
        invariant
            0 <= i <= CELLS_PER_EXT_BLOB,
            full_cell_set(cells.deep_view(), proofs@),
            cells@.len() == CELLS_PER_EXT_BLOB,
            out_cells@.len() == i,
            out_proofs@.len() == i,
            forall|j: int| 0 <= j < i ==> (#[trigger] out_cells@[j])@ == cells@[j]@,
            forall|j: int| 0 <= j < i ==> (#[trigger] out_proofs@[j])@ == proofs@[j]@,
        decreases CELLS_PER_EXT_BLOB - i,
    {
        proof {
            assert(cells.deep_view()[i as int] == cells@[i as int]@);
            assert(cells.deep_view()[i as int].len() == BYTES_PER_CELL);
        }
        out_cells.push(Cell::from_vec(vstd::slice::slice_to_vec(cells[i].as_slice())));
        out_proofs.push(KZGProof::from_point(proofs[i]));
        i = i + 1;
    }
    proof {
        assert forall|j: int| 0 <= j < cells@.len() implies cell_views(out_cells@)[j]
            == cells.deep_view()[j] by {
            assert(cells.deep_view()[j] =~= cells@[j]@);
        }
        assert(cell_views(out_cells@) =~= cells.deep_view());
        assert(proof_views(out_proofs@) =~= array_views(proofs@));
    }
    (out_cells, out_proofs)
}

impl Cell {
    /// Extends a blob and cuts it into cells: `CELLS_PER_EXT_BLOB` cells and
    /// one proof for each. The blob is checked to be canonical first.
    ///
    /// The proofs are computed with fixed-base tables where the settings
    /// have them, which only settings of the embedded setup do; settings
    /// loaded from points go without, whatever their precompute level.
    pub fn compute_cells_and_kzg_proofs(blob: &Blob, kzg_settings: &KZGSettings) -> (r: Result<
        (Vec<Cell>, Vec<KZGProof>),
        Error,
    >)
        ensures
            cell_set_post(cells_result(kzg_settings@, blob@), r),
    {
        let bytes = blob.as_slice();
        if !check_all_canonical(bytes) {
            return Err(Error::CError(C_KZG_RET::C_KZG_BADARGS));
        }
        match ctx_compute_cells_and_kzg_proofs(kzg_settings.context(), bytes) {
            Some(pair) => Ok(wrap_cell_set(pair.0, pair.1)),
            None => Err(Error::CError(C_KZG_RET::C_KZG_ERROR)),
        }
    }

    /// Recovers every cell and every proof from at least half of the cells.
    ///
    /// `cell_indices[k]` says which cell `cells[k]` is. The indices may come
    /// in any order; they have to be distinct and in range, and there have
    /// to be at least `RECOVERY_THRESHOLD` of them. The proofs are computed
    /// anew from the recovered polynomial, with tables under the same rule
    /// as in `compute_cells_and_kzg_proofs`.
    pub fn recover_cells_and_kzg_proofs(
        cell_indices: &[u64],
        cells: &[Cell],
        kzg_settings: &KZGSettings,
    ) -> (r: Result<(Vec<Cell>, Vec<KZGProof>), Error>)
        ensures
            cell_set_post(recovery_result(kzg_settings@, cell_indices@, cell_views(cells@)), r),
            cell_indices@.len() == cells@.len() && cells@.len() < RECOVERY_THRESHOLD ==> (
            r matches Err(x) && x@ == bad_args()),
    {
        if cell_indices.len() != cells.len() {
            return Err(
                Error::MismatchLength(
                    two_count_message(
                        "There are ",
                        cells.len(),
                        " cells and ",
                        cell_indices.len(),
                        " cell indices",
                    ),
                ),
            );
        }
        if cells.len() < RECOVERY_THRESHOLD {
            return Err(Error::CError(C_KZG_RET::C_KZG_BADARGS));
        }
        if !check_all_cells(cells) {
            return Err(Error::CError(C_KZG_RET::C_KZG_BADARGS));
        }
        let (sorted, picked) = match sort_cells_by_index(cell_indices, cells) {
            Some(sorted) => sorted,
            None => {
                return Err(Error::CError(C_KZG_RET::C_KZG_BADARGS));
            },
        };
        match ctx_recover_cells_and_kzg_proofs(kzg_settings.context(), &sorted, &picked) {
            Some(pair) => Ok(wrap_cell_set(pair.0, pair.1)),
            None => Err(Error::CError(C_KZG_RET::C_KZG_BADARGS)),
        }
    }
}

} // verus!

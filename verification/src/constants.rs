//! Sizes fixed by the production parameter set.

use vstd::prelude::*;

verus! {

/// Bytes in a canonical field element encoding.
pub const BYTES_PER_FIELD_ELEMENT: usize = 32;

/// Bytes in a compressed G1 point.
pub const BYTES_PER_G1_POINT: usize = 48;

/// Bytes in a compressed G2 point.
pub const BYTES_PER_G2_POINT: usize = 96;

/// Bytes in a commitment, which is a compressed G1 point.
pub const BYTES_PER_COMMITMENT: usize = 48;

/// Bytes in a proof, which is a compressed G1 point.
pub const BYTES_PER_PROOF: usize = 48;

/// Field elements in a blob; also the number of G1 points in a trusted setup.
pub const FIELD_ELEMENTS_PER_BLOB: usize = 4096;

/// Bytes in a blob.
pub const BYTES_PER_BLOB: usize = FIELD_ELEMENTS_PER_BLOB * BYTES_PER_FIELD_ELEMENT;

/// Field elements in the extended (erasure-coded) blob.
pub const FIELD_ELEMENTS_PER_EXT_BLOB: usize = 2 * FIELD_ELEMENTS_PER_BLOB;

/// Field elements in a cell.
pub const FIELD_ELEMENTS_PER_CELL: usize = 64;

/// Bytes in a cell.
pub const BYTES_PER_CELL: usize = FIELD_ELEMENTS_PER_CELL * BYTES_PER_FIELD_ELEMENT;

/// Cells in an extended blob.
pub const CELLS_PER_EXT_BLOB: usize = FIELD_ELEMENTS_PER_EXT_BLOB / FIELD_ELEMENTS_PER_CELL;

/// G2 points in a trusted setup: enough to open up to 64 field elements at once.
pub const NUM_G2_POINTS: usize = 65;

/// Largest supported precompute level; level 0 disables precomputation.
pub const MAX_PRECOMPUTE: u64 = 15;

/// The sizes of the production parameter set, in numbers.
pub proof fn lemma_sizes()
    ensures
        BYTES_PER_BLOB == 131072,
        BYTES_PER_CELL == 2048,
        FIELD_ELEMENTS_PER_EXT_BLOB == 8192,
        CELLS_PER_EXT_BLOB == 128,
{
}

} // verus!

//! KZG polynomial commitments over BLS12-381 for blob data: commitments,
//! opening proofs, batched verification, and erasure-coded cells.
//!
//! Every byte string that enters the library is validated by verified code
//! before any group arithmetic is attempted; the group arithmetic itself is
//! delegated to `rust_eth_kzg` through a small set of trusted declarations
//! collected in [`engine`].

pub mod byte_types;
pub mod cache;
pub mod cells;
pub mod commitment;
pub mod constants;
pub mod engine;
pub mod error;
pub mod field;
pub mod hex_codec;
pub mod kzg_proof;
pub mod laws;
pub mod message;
pub mod settings;
pub mod setup_text;

pub use constants::{
    BYTES_PER_BLOB, BYTES_PER_CELL, BYTES_PER_COMMITMENT, BYTES_PER_FIELD_ELEMENT,
    BYTES_PER_G1_POINT, BYTES_PER_G2_POINT, BYTES_PER_PROOF, CELLS_PER_EXT_BLOB,
    FIELD_ELEMENTS_PER_BLOB, FIELD_ELEMENTS_PER_CELL, FIELD_ELEMENTS_PER_EXT_BLOB,
    NUM_G2_POINTS,
};
pub use byte_types::{Blob, Bytes32, Bytes48, Cell};
pub use cache::{ethereum_kzg_settings, ethereum_kzg_settings_arc, SettingsCache};
pub use commitment::KZGCommitment;
pub use error::{Error, C_KZG_RET, C_KZG_RET as CKZGError};
pub use kzg_proof::KZGProof;
pub use settings::KZGSettings;

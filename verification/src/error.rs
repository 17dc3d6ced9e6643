//! The error taxonomy.

use vstd::prelude::*;

verus! {

/// Outcome codes of the cryptographic engine.
#[allow(non_camel_case_types)]
#[derive(Debug, Clone, Copy, PartialEq, Eq, Hash, Structural)]
pub enum C_KZG_RET {
    /// Success.
    C_KZG_OK,
    /// The supplied data is invalid in some way.
    C_KZG_BADARGS,
    /// Internal error: an invariant of the engine was violated.
    C_KZG_ERROR,
    /// Could not allocate memory.
    C_KZG_MALLOC,
}

/// Why an operation was refused.
#[derive(Debug)]
pub enum Error {
    /// Wrong number of bytes.
    InvalidBytesLength(String),
    /// The KZG proof is invalid.
    InvalidKzgProof(String),
    /// The KZG commitment is invalid.
    InvalidKzgCommitment(String),
    /// The provided trusted setup is invalid.
    InvalidTrustedSetup(String),
    /// Paired arguments have different lengths.
    MismatchLength(String),
    /// The engine rejected the input or failed.
    CError(C_KZG_RET),
}

/// An error as contracts speak of it: the same cases, each message as the
/// sequence of its characters.
pub enum ErrorView {
    /// Wrong number of bytes.
    InvalidBytesLength(Seq<char>),
    /// The KZG proof is invalid.
    InvalidKzgProof(Seq<char>),
    /// The KZG commitment is invalid.
    InvalidKzgCommitment(Seq<char>),
    /// The provided trusted setup is invalid.
    InvalidTrustedSetup(Seq<char>),
    /// Paired arguments have different lengths.
    MismatchLength(Seq<char>),
    /// The engine rejected the input or failed.
    CError(C_KZG_RET),
}

impl View for Error {
    type V = ErrorView;

    open spec fn view(&self) -> ErrorView {
        match self {
            Error::InvalidBytesLength(m) => ErrorView::InvalidBytesLength(m@),
            Error::InvalidKzgProof(m) => ErrorView::InvalidKzgProof(m@),
            Error::InvalidKzgCommitment(m) => ErrorView::InvalidKzgCommitment(m@),
            Error::InvalidTrustedSetup(m) => ErrorView::InvalidTrustedSetup(m@),
            Error::MismatchLength(m) => ErrorView::MismatchLength(m@),
            Error::CError(code) => ErrorView::CError(*code),
        }
    }
}

/// The refusal of malformed input, as a view.
pub open spec fn bad_args() -> ErrorView {
    ErrorView::CError(C_KZG_RET::C_KZG_BADARGS)
}

/// Whether a result is the one that a contract names: the same value on
/// success, the same refusal on failure.
pub open spec fn answers<T>(r: Result<T, Error>, expected: Result<T, ErrorView>) -> bool {
    match expected {
        Ok(v) => r == Ok::<T, Error>(v),
        Err(e) => r matches Err(x) && x@ == e,
    }
}

} // verus!

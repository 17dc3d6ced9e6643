//! Untrusted fixed-size byte strings: field elements, group elements, blobs
//! and cells as they arrive from a caller, before any of them is decoded.

use vstd::prelude::*;
use vstd::slice::*;
use crate::constants::{BYTES_PER_BLOB, BYTES_PER_CELL};
use crate::error::Error;
use crate::message::{two_count_message, two_count_text};

verus! {

/// Text of the message that reports a byte string of the wrong length.
pub open spec fn length_text(expected: nat, got: nat) -> Seq<char> {
    two_count_text("Invalid byte length. Expected "@, expected, " got "@, got, ""@)
}

/// Builds the message that `length_text` describes.
pub fn length_message(expected: usize, got: usize) -> (r: String)
    ensures
        r@ == length_text(expected as nat, got as nat),
{
    two_count_message("Invalid byte length. Expected ", expected, " got ", got, "")
}

/// Copies a slice of exactly `N` bytes into an array.
pub fn array_from_slice<const N: usize>(bytes: &[u8]) -> (r: [u8; N])
    requires
        bytes@.len() == N,
    ensures
        r@ == bytes@,
{
    let mut out: [u8; N] = [0u8; N];
    let mut i: usize = 0;
    while i < N
        invariant
            bytes@.len() == N,
            0 <= i <= N,
            forall|j: int| 0 <= j < i ==> out@[j] == bytes@[j],
        decreases N - i,
    {
        out[i] = bytes[i];
        i = i + 1;
    }
    assert(out@ =~= bytes@);
    out
}

/// 32 bytes that may or may not encode a field element.
#[derive(Debug, Clone, Copy, PartialEq, Eq, Hash)]
pub struct Bytes32 {
    bytes: [u8; 32],
}

impl View for Bytes32 {
    type V = Seq<u8>;

    closed spec fn view(&self) -> Seq<u8> {
        self.bytes@
    }
}

impl Bytes32 {
    /// There are always 32 bytes.
    pub proof fn lemma_len(&self)
        ensures
            self@.len() == 32,
    {
    }

    /// Converting from an array keeps the bytes.
    pub proof fn lemma_from_array(value: [u8; 32])
        ensures
            <Self as vstd::std_specs::convert::FromSpec<[u8; 32]>>::from_spec(value)@ == value@,
    {
    }

    /// Takes exactly 32 bytes; any other length is refused.
    pub fn from_bytes(bytes: &[u8]) -> (r: Result<Self, Error>)
        ensures
            bytes@.len() == 32 ==> (r matches Ok(b) && b@ == bytes@),
            bytes@.len() != 32 ==> (r matches Err(Error::InvalidBytesLength(m)) && m@
                == length_text(32, bytes@.len())),
    {
        if bytes.len() != 32 {
            return Err(Error::InvalidBytesLength(length_message(32, bytes.len())));
        }
        Ok(Self { bytes: array_from_slice::<32>(bytes) })
    }

    /// Wraps an array.
    pub fn new(bytes: [u8; 32]) -> (r: Self)
        ensures
            r@ == bytes@,
    {
        Self { bytes }
    }

    /// The bytes.
    pub fn into_inner(self) -> (r: [u8; 32])
        ensures
            r@ == self@,
    {
        self.bytes
    }

    /// The bytes, borrowed.
    pub fn as_slice(&self) -> (r: &[u8])
        ensures
            r@ == self@,
    {
        self.bytes.as_slice()
    }
}

impl From<[u8; 32]> for Bytes32 {
    fn from(value: [u8; 32]) -> (r: Self) {
        Self { bytes: value }
    }
}

impl vstd::std_specs::convert::FromSpecImpl<[u8; 32]> for Bytes32 {
    open spec fn obeys_from_spec() -> bool {
        true
    }

    closed spec fn from_spec(value: [u8; 32]) -> Self {
        Bytes32 { bytes: value }
    }
}

/// 48 bytes that may or may not encode a G1 point.
#[derive(Debug, Clone, Copy, PartialEq, Eq, Hash)]
pub struct Bytes48 {
    bytes: [u8; 48],
}

impl View for Bytes48 {
    type V = Seq<u8>;

    closed spec fn view(&self) -> Seq<u8> {
        self.bytes@
    }
}

impl Bytes48 {
    /// There are always 48 bytes.
    pub proof fn lemma_len(&self)
        ensures
            self@.len() == 48,
    {
    }

    /// Converting from an array keeps the bytes.
    pub proof fn lemma_from_array(value: [u8; 48])
        ensures
            <Self as vstd::std_specs::convert::FromSpec<[u8; 48]>>::from_spec(value)@ == value@,
    {
    }

    /// Takes exactly 48 bytes; any other length is refused.
    pub fn from_bytes(bytes: &[u8]) -> (r: Result<Self, Error>)
        ensures
            bytes@.len() == 48 ==> (r matches Ok(b) && b@ == bytes@),
            bytes@.len() != 48 ==> (r matches Err(Error::InvalidBytesLength(m)) && m@
                == length_text(48, bytes@.len())),
    {
        if bytes.len() != 48 {
            return Err(Error::InvalidBytesLength(length_message(48, bytes.len())));
        }
        Ok(Self { bytes: array_from_slice::<48>(bytes) })
    }

    /// Wraps an array.
    pub fn new(bytes: [u8; 48]) -> (r: Self)
        ensures
            r@ == bytes@,
    {
        Self { bytes }
    }

    /// The bytes.
    pub fn into_inner(self) -> (r: [u8; 48])
        ensures
            r@ == self@,
    {
        self.bytes
    }

    /// The bytes, borrowed.
    pub fn as_slice(&self) -> (r: &[u8])
        ensures
            r@ == self@,
    {
        self.bytes.as_slice()
    }
}

impl From<[u8; 48]> for Bytes48 {
    fn from(value: [u8; 48]) -> (r: Self) {
        Self { bytes: value }
    }
}

impl vstd::std_specs::convert::FromSpecImpl<[u8; 48]> for Bytes48 {
    open spec fn obeys_from_spec() -> bool {
        true
    }

    closed spec fn from_spec(value: [u8; 48]) -> Self {
        Bytes48 { bytes: value }
    }
}

/// A blob: `BYTES_PER_BLOB` bytes, read as consecutive field elements.
///
/// The length is checked once, when the blob is made; whether the field
/// elements are canonical is checked by each operation that consumes it.
#[derive(Debug, PartialEq, Eq, Hash)]
pub struct Blob {
    bytes: [u8; BYTES_PER_BLOB],
}

impl View for Blob {
    type V = Seq<u8>;

    closed spec fn view(&self) -> Seq<u8> {
        self.bytes@
    }
}

impl From<[u8; BYTES_PER_BLOB]> for Blob {
    fn from(value: [u8; BYTES_PER_BLOB]) -> (r: Self) {
        Self { bytes: value }
    }
}

impl vstd::std_specs::convert::FromSpecImpl<[u8; BYTES_PER_BLOB]> for Blob {
    open spec fn obeys_from_spec() -> bool {
        true
    }

    closed spec fn from_spec(value: [u8; BYTES_PER_BLOB]) -> Self {
        Blob { bytes: value }
    }
}

impl Clone for Blob {
    fn clone(&self) -> (r: Self)
        ensures
            r@ == self@,
    {
        Blob { bytes: self.bytes }
    }
}

impl Blob {
    /// A blob always has `BYTES_PER_BLOB` bytes.
    pub proof fn lemma_len(&self)
        ensures
            self@.len() == BYTES_PER_BLOB,
    {
    }

    /// Converting from an array keeps the bytes.
    pub proof fn lemma_from_array(value: [u8; BYTES_PER_BLOB])
        ensures
            <Self as vstd::std_specs::convert::FromSpec<[u8; BYTES_PER_BLOB]>>::from_spec(value)@
                == value@,
    {
    }

    /// Takes exactly `BYTES_PER_BLOB` bytes; any other length is refused.
    pub fn from_bytes(bytes: &[u8]) -> (r: Result<Self, Error>)
        ensures
            bytes@.len() == BYTES_PER_BLOB ==> (r matches Ok(b) && b@ == bytes@),
            bytes@.len() != BYTES_PER_BLOB ==> (r matches Err(Error::InvalidBytesLength(m)) && m@
                == length_text(BYTES_PER_BLOB as nat, bytes@.len())),
    {
        if bytes.len() != BYTES_PER_BLOB {
            return Err(Error::InvalidBytesLength(length_message(BYTES_PER_BLOB, bytes.len())));
        }
        Ok(Self { bytes: array_from_slice::<BYTES_PER_BLOB>(bytes) })
    }

    /// The bytes.
    pub fn into_inner(self) -> (r: [u8; BYTES_PER_BLOB])
        ensures
            r@ == self@,
    {
        self.bytes
    }

    /// The bytes, borrowed.
    pub fn as_slice(&self) -> (r: &[u8])
        ensures
            r@ == self@,
            r@.len() == BYTES_PER_BLOB,
    {
        self.bytes.as_slice()
    }
}

/// A cell: `BYTES_PER_CELL` bytes, one contiguous slice of the extended blob.
#[derive(Debug, PartialEq, Eq, Hash)]
pub struct Cell {
    bytes: Vec<u8>,
}

impl View for Cell {
    type V = Seq<u8>;

    closed spec fn view(&self) -> Seq<u8> {
        self.bytes@
    }
}

impl Clone for Cell {
    fn clone(&self) -> (r: Self)
        ensures
            r@ == self@,
    {
        proof {
            use_type_invariant(self);
        }
        Cell { bytes: slice_to_vec(self.bytes.as_slice()) }
    }
}

impl Cell {
    #[verifier::type_invariant]
    spec fn has_cell_length(self) -> bool {
        self.bytes@.len() == BYTES_PER_CELL
    }

    /// A cell made of bytes that are known to be `BYTES_PER_CELL` long.
    pub(crate) fn from_vec(bytes: Vec<u8>) -> (r: Self)
        requires
            bytes@.len() == BYTES_PER_CELL,
        ensures
            r@ == bytes@,
    {
        Self { bytes }
    }

    /// Takes exactly `BYTES_PER_CELL` bytes; any other length is refused.
    pub fn from_bytes(bytes: &[u8]) -> (r: Result<Self, Error>)
        ensures
            bytes@.len() == BYTES_PER_CELL ==> (r matches Ok(c) && c@ == bytes@),
            bytes@.len() != BYTES_PER_CELL ==> (r matches Err(Error::InvalidBytesLength(m)) && m@
                == length_text(BYTES_PER_CELL as nat, bytes@.len())),
    {
        if bytes.len() != BYTES_PER_CELL {
            return Err(Error::InvalidBytesLength(length_message(BYTES_PER_CELL, bytes.len())));
        }
        Ok(Self { bytes: slice_to_vec(bytes) })
    }

    /// The bytes.
    pub fn to_bytes(&self) -> (r: Vec<u8>)
        ensures
            r@ == self@,
            r@.len() == BYTES_PER_CELL,
    {
        proof {
            use_type_invariant(self);
        }
        slice_to_vec(self.bytes.as_slice())
    }

    /// The bytes, borrowed.
    pub fn as_slice(&self) -> (r: &[u8])
        ensures
            r@ == self@,
            r@.len() == BYTES_PER_CELL,
    {
        proof {
            use_type_invariant(self);
        }
        self.bytes.as_slice()
    }
}

} // verus!

//! Commitments to blobs.

use vstd::prelude::*;
use crate::byte_types::{array_from_slice, length_message, length_text, Blob, Bytes48};
use crate::constants::BYTES_PER_COMMITMENT;
use crate::engine::{
    commitment_outcome, ctx_blob_to_kzg_commitment, decodes_as_g1, g1_point_valid, SetupView,
};
use crate::error::{Error, C_KZG_RET};
use crate::field::{all_canonical, check_all_canonical};
use crate::settings::KZGSettings;

verus! {

/// Text of the message for 48 bytes that are not the encoding of a point.
pub open spec fn not_a_point_text() -> Seq<char> {
    "Invalid point encoding"@
}

/// A KZG commitment: 48 bytes that are the compressed encoding of a point of
/// G1. Bytes that have not been decoded travel as `Bytes48`.
#[derive(Debug, Clone, Copy, PartialEq, Eq, Hash)]
pub struct KZGCommitment {
    bytes: [u8; 48],
}

impl View for KZGCommitment {
    type V = Seq<u8>;

    closed spec fn view(&self) -> Seq<u8> {
        self.bytes@
    }
}

/// What `blob_to_kzg_commitment` answers on a blob: the commitment that the
/// engine computes when every field element is canonical, and a refusal
/// otherwise.
pub open spec fn commitment_result(setup: SetupView, blob: Seq<u8>) -> Result<Seq<u8>, C_KZG_RET> {
    if all_canonical(blob) {
        Ok(commitment_outcome(setup, blob).unwrap()@)
    } else {
        Err(C_KZG_RET::C_KZG_BADARGS)
    }
}

/// What holds of the answer `r` of `blob_to_kzg_commitment`: it is the one
/// that `commitment_result` names, and a commitment that is handed out
/// decodes as a point.
pub open spec fn commitment_post(
    setup: SetupView,
    blob: Seq<u8>,
    r: Result<KZGCommitment, Error>,
) -> bool {
    match commitment_result(setup, blob) {
        Ok(c) => r matches Ok(k) && k@ == c && g1_point_valid(k@),
        Err(code) => r matches Err(Error::CError(e)) && e == code,
    }
}

impl KZGCommitment {
    /// There are always 48 bytes.
    pub proof fn lemma_len(&self)
        ensures
            self@.len() == 48,
    {
    }

    /// Commitments with the same bytes are the same commitment.
    pub proof fn lemma_same_bytes(self, other: Self)
        requires
            self@ == other@,
        ensures
            self == other,
    {
        assert(self.bytes@ =~= other.bytes@);
        assert(self.bytes =~= other.bytes);
    }

    #[verifier::type_invariant]
    spec fn is_a_point(self) -> bool {
        g1_point_valid(self.bytes@)
    }

    /// Takes exactly `BYTES_PER_COMMITMENT` bytes that are the compressed encoding
    /// of a point of G1; anything else is refused: a commitment exists only
    /// once its bytes have been decoded and the point found in the subgroup.
    pub fn from_bytes(bytes: &[u8]) -> (r: Result<Self, Error>)
        ensures
            r is Ok <==> (bytes@.len() == BYTES_PER_COMMITMENT && g1_point_valid(bytes@)),
            r matches Ok(v) ==> v@ == bytes@,
            bytes@.len() != BYTES_PER_COMMITMENT ==> (r matches Err(Error::InvalidKzgCommitment(m)) && m@
                == length_text(BYTES_PER_COMMITMENT as nat, bytes@.len())),
            bytes@.len() == BYTES_PER_COMMITMENT && !g1_point_valid(bytes@) ==> (r matches Err(
                Error::InvalidKzgCommitment(m),
            ) && m@ == not_a_point_text()),
    {
        if bytes.len() != BYTES_PER_COMMITMENT {
            return Err(Error::InvalidKzgCommitment(length_message(BYTES_PER_COMMITMENT, bytes.len())));
        }
        let point = array_from_slice::<48>(bytes);
        if !decodes_as_g1(&point) {
            return Err(Error::InvalidKzgCommitment(String::from_str("Invalid point encoding")));
        }
        Ok(Self { bytes: point })
    }

    /// The same bytes as an untrusted 48-byte string.
    pub fn to_bytes(&self) -> (r: Bytes48)
        ensures
            r@ == self@,
            g1_point_valid(r@),
    {
        proof {
            use_type_invariant(self);
        }
        Bytes48::new(self.bytes)
    }

    /// The bytes, borrowed.
    pub fn as_slice(&self) -> (r: &[u8])
        ensures
            r@ == self@,
    {
        self.bytes.as_slice()
    }

    /// Commits to a blob: checks that every field element of the blob is
    /// canonical, then has the engine combine them with the setup's points.
    pub fn blob_to_kzg_commitment(blob: Blob, kzg_settings: &KZGSettings) -> (r: Result<
        Self,
        Error,
    >)
        ensures
            commitment_post(kzg_settings@, blob@, r),
    {
        let bytes = blob.as_slice();
        if !check_all_canonical(bytes) {
            return Err(Error::CError(C_KZG_RET::C_KZG_BADARGS));
        }
        match ctx_blob_to_kzg_commitment(kzg_settings.context(), bytes) {
            Some(c) => Ok(Self { bytes: c }),
            None => Err(Error::CError(C_KZG_RET::C_KZG_ERROR)),
        }
    }
}

} // verus!

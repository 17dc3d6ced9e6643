//! Hexadecimal text for byte strings.
//!
//! The conversions themselves are those of the `hex` crate; what they
//! compute is short enough to be written down here in full, so the
//! contracts of the two trusted calls state it exactly.

use vstd::prelude::*;
use vstd::slice::*;
use vstd::string::*;
use crate::byte_types::{length_text, Blob, Bytes32, Bytes48, Cell};
use crate::commitment::KZGCommitment;
use crate::constants::{BYTES_PER_BLOB, BYTES_PER_CELL};
use crate::error::{Error, ErrorView};
use crate::kzg_proof::KZGProof;

verus! {

/// The value of a hexadecimal digit in either case; `None` for any other
/// byte.
pub open spec fn hex_value(c: u8) -> Option<u8> {
    if 0x30 <= c <= 0x39 {
        Some((c - 0x30) as u8)
    } else if 0x61 <= c <= 0x66 {
        Some((c - 0x61 + 10) as u8)
    } else if 0x41 <= c <= 0x46 {
        Some((c - 0x41 + 10) as u8)
    } else {
        None
    }
}

/// `text` is hexadecimal: an even number of hexadecimal digits.
pub open spec fn is_hex(text: Seq<u8>) -> bool {
    &&& text.len() % 2 == 0
    &&& forall|i: int| 0 <= i < text.len() ==> hex_value(#[trigger] text[i]) is Some
}

/// The bytes that hexadecimal `text` writes: two digits for each byte, the
/// high four bits first.
pub open spec fn hex_decoded(text: Seq<u8>) -> Seq<u8> {
    Seq::new(
        text.len() / 2,
        |i: int| (hex_value(text[2 * i]).unwrap() * 16 + hex_value(text[2 * i + 1]).unwrap()) as u8,
    )
}

/// The lower-case digit for a value below 16.
pub open spec fn hex_char(v: int) -> char {
    seq!['0', '1', '2', '3', '4', '5', '6', '7', '8', '9', 'a', 'b', 'c', 'd', 'e', 'f'][v]
}

/// `bytes` in lower-case hexadecimal.
pub open spec fn hex_encoded(bytes: Seq<u8>) -> Seq<char> {
    Seq::new(
        2 * bytes.len(),
        |i: int|
            if i % 2 == 0 {
                hex_char(bytes[i / 2] as int / 16)
            } else {
                hex_char(bytes[i / 2] as int % 16)
            },
    )
}

/// Calls `hex::decode`, which accepts exactly the texts of `is_hex`, digits
/// of either case, and returns the bytes they write.
#[verifier::external_body]
pub(crate) fn hex_decode(text: &[u8]) -> (r: Option<Vec<u8>>)
    ensures
        r is Some <==> is_hex(text@),
        r matches Some(v) ==> v@ == hex_decoded(text@),
{
    hex::decode(text).ok()
}

/// Calls `hex::encode`, which writes two lower-case digits for each byte.
#[verifier::external_body]
pub(crate) fn hex_encode(bytes: &[u8]) -> (r: String)
    ensures
        r@ == hex_encoded(bytes@),
{
    hex::encode(bytes)
}

/// The part of a text behind its first two bytes, where a prefix such as
/// `0x` stands.
pub open spec fn after_prefix(text: Seq<u8>) -> Seq<u8> {
    text.skip(2)
}

/// A text that `from_hex` can read: two bytes of prefix, then hexadecimal.
pub open spec fn is_prefixed_hex(text: Seq<u8>) -> bool {
    text.len() >= 2 && is_hex(after_prefix(text))
}

/// Whether a byte is a hexadecimal digit.
fn is_hex_digit(c: u8) -> (r: bool)
    ensures
        r == hex_value(c) is Some,
{
    (0x30 <= c && c <= 0x39) || (0x61 <= c && c <= 0x66) || (0x41 <= c && c <= 0x46)
}

/// Whether `from_hex` can read this text: whether it is two bytes of prefix
/// followed by an even number of hexadecimal digits.
pub fn check_prefixed_hex(hex_str: &str) -> (r: bool)
    ensures
        r == is_prefixed_hex(hex_str.spec_bytes()),
{
    let text = hex_str.as_bytes();
    let n: usize = text.len();
    if n < 2 || n % 2 != 0 {
        proof {
            if n >= 2 {
                assert(after_prefix(text@).len() == n - 2);
            }
        }
        return false;
    }
    let mut i: usize = 2;
    while i < n
        invariant
            text@ == hex_str.spec_bytes(),
            n == text@.len(),
            2 <= i <= n,
            forall|j: int| 2 <= j < i ==> hex_value(#[trigger] text@[j]) is Some,
        decreases n - i,
    {
        if !is_hex_digit(text[i]) {
            proof {
                let rest = after_prefix(text@);
                assert(rest.len() == n - 2);
                assert(rest[i as int - 2] == text@[i as int]);
                assert(hex_value(rest[i as int - 2]) is None);
                assert(!is_hex(rest));
            }
            return false;
        }
        i = i + 1;
    }
    proof {
        assert forall|j: int| 0 <= j < after_prefix(text@).len() implies hex_value(
            #[trigger] after_prefix(text@)[j],
        ) is Some by {
            assert(after_prefix(text@)[j] == text@[j + 2]);
        }
    }
    true
}

/// The bytes that a prefixed hexadecimal text writes.
fn decode_after_prefix(hex_str: &str) -> (r: Vec<u8>)
    requires
        is_prefixed_hex(hex_str.spec_bytes()),
    ensures
        r@ == hex_decoded(after_prefix(hex_str.spec_bytes())),
{
    let text = hex_str.as_bytes();
    let digits = slice_subrange(text, 2, text.len());
    assert(digits@ == after_prefix(text@));
    match hex_decode(digits) {
        Some(v) => v,
        None => Vec::new(),
    }
}

/// A text with an optional `0x` in front, as it stands in serialised data:
/// the hexadecimal part of it.
pub open spec fn without_0x(text: Seq<u8>) -> Seq<u8> {
    if text.len() >= 2 && text[0] == 0x30 && text[1] == 0x78 {
        text.skip(2)
    } else {
        text
    }
}

/// Reads hexadecimal text with or without `0x` in front. `None` when what
/// follows the prefix is not hexadecimal.
pub fn decode_optional_0x(text: &str) -> (r: Option<Vec<u8>>)
    ensures
        r is Some <==> is_hex(without_0x(text.spec_bytes())),
        r matches Some(v) ==> v@ == hex_decoded(without_0x(text.spec_bytes())),
{
    let bytes = text.as_bytes();
    let n: usize = bytes.len();
    if n >= 2 && bytes[0] == 0x30 && bytes[1] == 0x78 {
        hex_decode(slice_subrange(bytes, 2, n))
    } else {
        hex_decode(bytes)
    }
}

/// Writes bytes as lower-case hexadecimal with `0x` in front.
pub fn encode_with_0x(bytes: &[u8]) -> (r: String)
    ensures
        r@ == "0x"@ + hex_encoded(bytes@),
{
    let digits = hex_encode(bytes);
    String::from_str("0x").concat(digits.as_str())
}

/// A digit that `hex_char` writes is read back as the value it stands for.
proof fn lemma_digit_round_trip(v: int)
    requires
        0 <= v < 16,
    ensures
        (hex_char(v) as u32) < 128,
        hex_value(hex_char(v) as u8) == Some(v as u8),
{
}

/// What `encode_with_0x` writes, `decode_optional_0x` reads back unchanged:
/// a text that is `0x` followed by the digits of `bytes` is hexadecimal
/// behind its prefix and writes `bytes`.
pub proof fn law_written_hex_is_read_back(text: &str, bytes: Seq<u8>)
    requires
        text@ == "0x"@ + hex_encoded(bytes),
    ensures
        is_hex(without_0x(text.spec_bytes())),
        hex_decoded(without_0x(text.spec_bytes())) == bytes,
{
    reveal_strlit("0x");
    let digits = hex_encoded(bytes);
    assert forall|i: int| 0 <= i < text@.len() implies (#[trigger] text@[i] as u32) < 128 by {
        if i >= 2 {
            assert(text@[i] == digits[i - 2]);
            let b = bytes[(i - 2) / 2] as int;
            lemma_digit_round_trip(b / 16);
            lemma_digit_round_trip(b % 16);
        }
    }
    assert(is_ascii(text));
    is_ascii_spec_bytes(text);
    let raw = text.spec_bytes();
    assert(raw.len() == text@.len());
    assert(raw[0] == 0x30 && raw[1] == 0x78);
    let rest = without_0x(raw);
    assert(rest == raw.skip(2));
    assert(rest.len() == 2 * bytes.len());
    assert forall|i: int| 0 <= i < rest.len() implies hex_value(#[trigger] rest[i]) is Some by {
        assert(rest[i] == digits[i] as u8);
        let b = bytes[i / 2] as int;
        lemma_digit_round_trip(b / 16);
        lemma_digit_round_trip(b % 16);
    }
    assert forall|k: int| 0 <= k < bytes.len() implies hex_decoded(rest)[k] == bytes[k] by {
        let b = bytes[k] as int;
        assert(rest[2 * k] == digits[2 * k] as u8);
        assert(rest[2 * k + 1] == digits[2 * k + 1] as u8);
        assert(digits[2 * k] == hex_char(b / 16));
        assert(digits[2 * k + 1] == hex_char(b % 16));
        lemma_digit_round_trip(b / 16);
        lemma_digit_round_trip(b % 16);
    }
    assert(hex_decoded(rest) =~= bytes);
}

impl Blob {
    /// Reads a blob from hexadecimal text whose first two bytes, such as
    /// `0x`, are skipped.
    pub fn from_hex(hex_str: &str) -> (r: Result<Self, Error>)
        requires
            is_prefixed_hex(hex_str.spec_bytes()),
        ensures
            ({
                let bytes = hex_decoded(after_prefix(hex_str.spec_bytes()));
                if bytes.len() == BYTES_PER_BLOB {
                    r matches Ok(b) && b@ == bytes
                } else {
                    r matches Err(e) && e@ == ErrorView::InvalidBytesLength(
                        length_text(BYTES_PER_BLOB as nat, bytes.len()),
                    )
                }
            }),
    {
        let bytes = decode_after_prefix(hex_str);
        Self::from_bytes(bytes.as_slice())
    }
}

impl Cell {
    /// Reads a cell from hexadecimal text whose first two bytes, such as
    /// `0x`, are skipped.
    pub fn from_hex(hex_str: &str) -> (r: Result<Self, Error>)
        requires
            is_prefixed_hex(hex_str.spec_bytes()),
        ensures
            ({
                let bytes = hex_decoded(after_prefix(hex_str.spec_bytes()));
                if bytes.len() == BYTES_PER_CELL {
                    r matches Ok(c) && c@ == bytes
                } else {
                    r matches Err(e) && e@ == ErrorView::InvalidBytesLength(
                        length_text(BYTES_PER_CELL as nat, bytes.len()),
                    )
                }
            }),
    {
        let bytes = decode_after_prefix(hex_str);
        Self::from_bytes(bytes.as_slice())
    }
}

impl Bytes32 {
    /// Reads 32 bytes from hexadecimal text whose first two bytes, such as
    /// `0x`, are skipped.
    pub fn from_hex(hex_str: &str) -> (r: Result<Self, Error>)
        requires
            is_prefixed_hex(hex_str.spec_bytes()),
        ensures
            ({
                let bytes = hex_decoded(after_prefix(hex_str.spec_bytes()));
                if bytes.len() == 32 {
                    r matches Ok(b) && b@ == bytes
                } else {
                    r matches Err(e) && e@ == ErrorView::InvalidBytesLength(
                        length_text(32, bytes.len()),
                    )
                }
            }),
    {
        let bytes = decode_after_prefix(hex_str);
        Self::from_bytes(bytes.as_slice())
    }
}

impl Bytes48 {
    /// Reads 48 bytes from hexadecimal text whose first two bytes, such as
    /// `0x`, are skipped.
    pub fn from_hex(hex_str: &str) -> (r: Result<Self, Error>)
        requires
            is_prefixed_hex(hex_str.spec_bytes()),
        ensures
            ({
                let bytes = hex_decoded(after_prefix(hex_str.spec_bytes()));
                if bytes.len() == 48 {
                    r matches Ok(b) && b@ == bytes
                } else {
                    r matches Err(e) && e@ == ErrorView::InvalidBytesLength(
                        length_text(48, bytes.len()),
                    )
                }
            }),
    {
        let bytes = decode_after_prefix(hex_str);
        Self::from_bytes(bytes.as_slice())
    }
}

impl KZGProof {
    /// The proof in lower-case hexadecimal, without a prefix.
    pub fn as_hex_string(&self) -> (r: String)
        ensures
            r@ == hex_encoded(self@),
    {
        hex_encode(self.as_slice())
    }
}

impl KZGCommitment {
    /// The commitment in lower-case hexadecimal, without a prefix.
    pub fn as_hex_string(&self) -> (r: String)
        ensures
            r@ == hex_encoded(self@),
    {
        hex_encode(self.as_slice())
    }
}

} // verus!

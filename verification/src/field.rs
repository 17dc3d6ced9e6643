//! Canonical encodings of scalar field elements.
//!
//! A field element travels as 32 bytes, most significant byte first, and is
//! canonical when the number it writes is smaller than the order of the
//! scalar field.

use vstd::prelude::*;
use vstd::slice::*;
use crate::constants::BYTES_PER_FIELD_ELEMENT;

verus! {

/// The number that `bytes` writes, most significant byte first.
pub open spec fn be_value(bytes: Seq<u8>) -> nat
    decreases bytes.len(),
{
    if bytes.len() == 0 {
        0
    } else {
        be_value(bytes.drop_last()) * 256 + bytes.last() as nat
    }
}

/// The order of the scalar field, most significant byte first.
pub open spec fn modulus_bytes() -> Seq<u8> {
    seq![
        0x73u8, 0xedu8, 0xa7u8, 0x53u8, 0x29u8, 0x9du8, 0x7du8, 0x48u8,
        0x33u8, 0x39u8, 0xd8u8, 0x08u8, 0x09u8, 0xa1u8, 0xd8u8, 0x05u8,
        0x53u8, 0xbdu8, 0xa4u8, 0x02u8, 0xffu8, 0xfeu8, 0x5bu8, 0xfeu8,
        0xffu8, 0xffu8, 0xffu8, 0xffu8, 0x00u8, 0x00u8, 0x00u8, 0x01u8,
    ]
}

/// The order of the scalar field.
pub open spec fn modulus() -> nat {
    be_value(modulus_bytes())
}

/// `bytes` is the canonical encoding of a field element.
pub open spec fn is_canonical(bytes: Seq<u8>) -> bool {
    bytes.len() == BYTES_PER_FIELD_ELEMENT && be_value(bytes) < modulus()
}

/// The `i`-th 32-byte chunk of `bytes`.
pub open spec fn element_at(bytes: Seq<u8>, i: int) -> Seq<u8> {
    bytes.subrange(i * 32, i * 32 + 32)
}

/// `bytes` is a whole number of field elements, each of them canonical.
pub open spec fn all_canonical(bytes: Seq<u8>) -> bool {
    &&& bytes.len() % 32 == 0
    &&& forall|i: int| 0 <= i < bytes.len() / 32 ==> is_canonical(#[trigger] element_at(bytes, i))
}

/// Extending two equally long prefixes by one byte each keeps a strict order
/// between the numbers they write, and keeps equality when the bytes agree.
proof fn lemma_be_value_step(a: Seq<u8>, b: Seq<u8>, k: int)
    requires
        0 <= k < a.len(),
        a.len() == b.len(),
    ensures
        be_value(a.take(k + 1)) == be_value(a.take(k)) * 256 + a[k] as nat,
        be_value(a.take(k)) < be_value(b.take(k)) ==> be_value(a.take(k + 1)) < be_value(
            b.take(k + 1),
        ),
{
    assert(a.take(k + 1).drop_last() =~= a.take(k));
    assert(b.take(k + 1).drop_last() =~= b.take(k));
    assert(a.take(k + 1).last() == a[k]);
    assert(b.take(k + 1).last() == b[k]);
}

/// A strict order between two prefixes of equal length carries over to the
/// whole sequences.
proof fn lemma_be_value_prefix_order(a: Seq<u8>, b: Seq<u8>, k: int)
    requires
        0 <= k <= a.len(),
        a.len() == b.len(),
        be_value(a.take(k)) < be_value(b.take(k)),
    ensures
        be_value(a) < be_value(b),
    decreases a.len() - k,
{
    if k == a.len() {
        assert(a.take(k) =~= a);
        assert(b.take(k) =~= b);
    } else {
        lemma_be_value_step(a, b, k);
        lemma_be_value_prefix_order(a, b, k + 1);
    }
}

/// Compares two field element encodings as numbers: whether `a` writes a
/// smaller number than `b`.
pub fn be_less(a: &[u8], b: &[u8]) -> (r: bool)
    requires
        a@.len() == b@.len(),
    ensures
        r == (be_value(a@) < be_value(b@)),
{
    let n: usize = a.len();
    let mut i: usize = 0;
    while i < n
        invariant
            n == a@.len(),
            n == b@.len(),
            0 <= i <= n,
            a@.take(i as int) == b@.take(i as int),
        decreases n - i,
    {
        let x: u8 = a[i];
        let y: u8 = b[i];
        if x != y {
            proof {
                lemma_be_value_step(a@, b@, i as int);
                lemma_be_value_step(b@, a@, i as int);
                if x < y {
                    lemma_be_value_prefix_order(a@, b@, i as int + 1);
                } else {
                    lemma_be_value_prefix_order(b@, a@, i as int + 1);
                }
            }
            return x < y;
        }
        proof {
            assert(a@.take(i as int + 1) =~= a@.take(i as int).push(a@[i as int]));
            assert(b@.take(i as int + 1) =~= b@.take(i as int).push(b@[i as int]));
        }
        i = i + 1;
    }
    proof {
        assert(a@.take(n as int) =~= a@);
        assert(b@.take(n as int) =~= b@);
    }
    false
}

/// The order of the scalar field as bytes, most significant byte first.
pub fn modulus_be_bytes() -> (r: [u8; 32])
    ensures
        r@ == modulus_bytes(),
{
    let r: [u8; 32] = [
        0x73, 0xed, 0xa7, 0x53, 0x29, 0x9d, 0x7d, 0x48,
        0x33, 0x39, 0xd8, 0x08, 0x09, 0xa1, 0xd8, 0x05,
        0x53, 0xbd, 0xa4, 0x02, 0xff, 0xfe, 0x5b, 0xfe,
        0xff, 0xff, 0xff, 0xff, 0x00, 0x00, 0x00, 0x01,
    ];
    assert(r@ =~= modulus_bytes());
    r
}

/// Whether `bytes` is the canonical encoding of a field element.
pub fn check_canonical(bytes: &[u8]) -> (r: bool)
    ensures
        r == is_canonical(bytes@),
{
    if bytes.len() != BYTES_PER_FIELD_ELEMENT {
        return false;
    }
    let m = modulus_be_bytes();
    be_less(bytes, m.as_slice())
}

/// Whether `bytes` is a whole number of field elements, each canonical.
pub fn check_all_canonical(bytes: &[u8]) -> (r: bool)
    ensures
        r == all_canonical(bytes@),
{
    let n: usize = bytes.len();
    if n % 32 != 0 {
        return false;
    }
    let count: usize = n / 32;
    let m = modulus_be_bytes();
    let mut i: usize = 0;
    while i < count
        invariant
            n == bytes@.len(),
            n % 32 == 0,
            count == n / 32,
            0 <= i <= count,
            m@ == modulus_bytes(),
            forall|j: int| 0 <= j < i ==> is_canonical(#[trigger] element_at(bytes@, j)),
        decreases count - i,
    {
        let element = slice_subrange(bytes, i * 32, i * 32 + 32);
        if !be_less(element, m.as_slice()) {
            assert(!is_canonical(element_at(bytes@, i as int)));
            return false;
        }
        i = i + 1;
    }
    true
}

} // verus!

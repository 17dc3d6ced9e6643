//! The text form of a trusted setup.
//!
//! The text is a list of values separated by white space, usually one on
//! each line:
//!
//! - the number of field elements in a blob, in decimal;
//! - the number of G2 points, in decimal;
//! - the G1 points in monomial form, then the G1 points in Lagrange form,
//!   then the G2 points in monomial form, each point as the hexadecimal
//!   digits of its compressed encoding.
//!
//! Nothing may follow the last point but white space.

use vstd::prelude::*;
use vstd::slice::*;
use crate::byte_types::array_from_slice;
use crate::constants::{FIELD_ELEMENTS_PER_BLOB, NUM_G2_POINTS};
use crate::error::{Error, ErrorView};
use crate::hex_codec::{hex_decode, hex_decoded, is_hex};
use crate::settings::{load_outcome, refused_setup_text, KZGSettings};

verus! {

/// Values in the text of a setup: two counts, then the points.
pub const SETUP_VALUES: usize = 2 + 2 * FIELD_ELEMENTS_PER_BLOB + NUM_G2_POINTS;

/// White space: the space, and the control characters from tab to carriage
/// return.
pub open spec fn is_space(b: u8) -> bool {
    b == 0x20 || (0x09 <= b && b <= 0x0d)
}

/// Length of the run of bytes at the front of `text` that are not white
/// space.
pub open spec fn token_len(text: Seq<u8>) -> nat
    decreases text.len(),
{
    if text.len() == 0 || is_space(text[0]) {
        0
    } else {
        1 + token_len(text.drop_first())
    }
}

/// The run at the front cannot be longer than the text.
pub proof fn lemma_token_len_bound(text: Seq<u8>)
    ensures
        token_len(text) <= text.len(),
    decreases text.len(),
{
    if text.len() != 0 && !is_space(text[0]) {
        lemma_token_len_bound(text.drop_first());
    }
}

/// The values of a text: its maximal runs of bytes that are not white space,
/// in order.
pub open spec fn tokens(text: Seq<u8>) -> Seq<Seq<u8>>
    decreases text.len(),
{
    if text.len() == 0 {
        Seq::empty()
    } else if is_space(text[0]) {
        tokens(text.drop_first())
    } else {
        proof {
            lemma_token_len_bound(text);
        }
        seq![text.take(token_len(text) as int)] + tokens(text.skip(token_len(text) as int))
    }
}

/// A decimal digit.
pub open spec fn is_digit(b: u8) -> bool {
    0x30 <= b && b <= 0x39
}

/// The number that a run of decimal digits writes.
pub open spec fn decimal_value(digits: Seq<u8>) -> nat
    decreases digits.len(),
{
    if digits.len() == 0 {
        0
    } else {
        decimal_value(digits.drop_last()) * 10 + (digits.last() - 0x30) as nat
    }
}

/// `token` writes `value` in decimal: it is made of digits, at least one,
/// and they write that number. Zeros in front are allowed.
pub open spec fn writes_number(token: Seq<u8>, value: nat) -> bool {
    &&& token.len() > 0
    &&& forall|i: int| 0 <= i < token.len() ==> is_digit(#[trigger] token[i])
    &&& decimal_value(token) == value
}

/// `token` writes a point of `size` bytes in hexadecimal.
pub open spec fn writes_point(token: Seq<u8>, size: nat) -> bool {
    is_hex(token) && token.len() == 2 * size
}

/// The values of `tokens` from `first` on are `count` points of `size`
/// bytes.
pub open spec fn are_points(tokens: Seq<Seq<u8>>, first: int, count: int, size: nat) -> bool {
    &&& first + count <= tokens.len()
    &&& forall|i: int| 0 <= i < count ==> writes_point(#[trigger] tokens[first + i], size)
}

/// `text` is the text of a setup.
pub open spec fn is_setup_text(text: Seq<u8>) -> bool {
    let t = tokens(text);
    &&& t.len() == SETUP_VALUES
    &&& writes_number(t[0], FIELD_ELEMENTS_PER_BLOB as nat)
    &&& writes_number(t[1], NUM_G2_POINTS as nat)
    &&& are_points(t, 2, FIELD_ELEMENTS_PER_BLOB as int, 48)
    &&& are_points(t, 2 + FIELD_ELEMENTS_PER_BLOB, FIELD_ELEMENTS_PER_BLOB as int, 48)
    &&& are_points(t, 2 + 2 * FIELD_ELEMENTS_PER_BLOB, NUM_G2_POINTS as int, 96)
}

/// `points` are the points that the values of `tokens` from `first` on
/// write.
pub open spec fn points_of<const N: usize>(
    tokens: Seq<Seq<u8>>,
    first: int,
    points: Seq<[u8; N]>,
) -> bool {
    forall|i: int| 0 <= i < points.len() ==> (#[trigger] points[i])@ == hex_decoded(tokens[first + i])
}

/// The three lists are the points that the text of a setup writes.
pub open spec fn setup_text_points(
    text: Seq<u8>,
    g1_monomial: Seq<[u8; 48]>,
    g1_lagrange: Seq<[u8; 48]>,
    g2_monomial: Seq<[u8; 96]>,
) -> bool {
    let t = tokens(text);
    &&& g1_monomial.len() == FIELD_ELEMENTS_PER_BLOB
    &&& g1_lagrange.len() == FIELD_ELEMENTS_PER_BLOB
    &&& g2_monomial.len() == NUM_G2_POINTS
    &&& points_of(t, 2, g1_monomial)
    &&& points_of(t, 2 + FIELD_ELEMENTS_PER_BLOB, g1_lagrange)
    &&& points_of(t, 2 + 2 * FIELD_ELEMENTS_PER_BLOB, g2_monomial)
}

/// Whether a byte is white space.
fn space(b: u8) -> (r: bool)
    ensures
        r == is_space(b),
{
    b == 0x20 || (0x09 <= b && b <= 0x0d)
}

/// Finds the next value at or behind `pos`: where it starts and where it
/// ends. `done` values stand before `pos`.
fn next_token(text: &[u8], pos: usize, Ghost(done): Ghost<int>) -> (r: Option<(usize, usize)>)
    requires
        pos <= text@.len(),
        0 <= done <= tokens(text@).len(),
        tokens(text@).skip(done) == tokens(text@.skip(pos as int)),
    ensures
        r is None ==> tokens(text@).len() == done,
        r matches Some((start, end)) ==> {
            &&& pos <= start < end <= text@.len()
            &&& done < tokens(text@).len()
            &&& tokens(text@)[done] == text@.subrange(start as int, end as int)
            &&& tokens(text@).skip(done + 1) == tokens(text@.skip(end as int))
        },
{
    let n: usize = text.len();
    let mut start: usize = pos;
    while start < n && space(text[start])
        invariant
            n == text@.len(),
            pos <= start <= n,
            tokens(text@.skip(start as int)) == tokens(text@.skip(pos as int)),
        decreases n - start,
    {
        proof {
            assert(text@.skip(start as int).drop_first() =~= text@.skip(start as int + 1));
        }
        start = start + 1;
    }
    if start == n {
        proof {
            assert(text@.skip(n as int).len() == 0);
            assert(tokens(text@).skip(done).len() == 0);
        }
        return None;
    }
    let mut end: usize = start;
    while end < n && !space(text[end])
        invariant
            n == text@.len(),
            start <= end <= n,
            token_len(text@.skip(start as int)) == (end - start) + token_len(
                text@.skip(end as int),
            ),
        decreases n - end,
    {
        proof {
            assert(text@.skip(end as int).drop_first() =~= text@.skip(end as int + 1));
        }
        end = end + 1;
    }
    proof {
        let rest = text@.skip(start as int);
        assert(token_len(text@.skip(end as int)) == 0);
        assert(token_len(rest) == end - start);
        assert(rest.take((end - start) as int) =~= text@.subrange(start as int, end as int));
        assert(rest.skip((end - start) as int) =~= text@.skip(end as int));
        let found = tokens(rest);
        assert(found == seq![text@.subrange(start as int, end as int)] + tokens(
            text@.skip(end as int),
        ));
        assert(tokens(text@).skip(done) == found);
        assert(found.len() >= 1);
        assert(tokens(text@)[done] == tokens(text@).skip(done)[0]);
        assert(tokens(text@).skip(done + 1) =~= found.skip(1));
        assert(found.skip(1) =~= tokens(text@.skip(end as int)));
    }
    Some((start, end))
}

/// Appending a digit never makes the number smaller.
proof fn lemma_decimal_value_grows(digits: Seq<u8>, upto: int)
    requires
        0 <= upto <= digits.len(),
        forall|i: int| 0 <= i < digits.len() ==> is_digit(#[trigger] digits[i]),
    ensures
        decimal_value(digits.take(upto)) <= decimal_value(digits),
    decreases digits.len() - upto,
{
    if upto == digits.len() {
        assert(digits.take(upto) =~= digits);
    } else {
        assert(digits.take(upto + 1).drop_last() =~= digits.take(upto));
        assert(digits.take(upto + 1).last() == digits[upto]);
        lemma_decimal_value_grows(digits, upto + 1);
    }
}

/// Whether a value writes the number `expected` in decimal.
fn token_is_number(token: &[u8], expected: u32) -> (r: bool)
    ensures
        r == writes_number(token@, expected as nat),
{
    let n: usize = token.len();
    if n == 0 {
        return false;
    }
    let mut acc: u64 = 0;
    let mut over: bool = false;
    let mut i: usize = 0;
    while i < n
        invariant
            n == token@.len(),
            0 <= i <= n,
            forall|j: int| 0 <= j < i ==> is_digit(#[trigger] token@[j]),
            !over ==> acc == decimal_value(token@.take(i as int)) && acc <= expected,
            over ==> decimal_value(token@.take(i as int)) > expected,
        decreases n - i,
    {
        let b: u8 = token[i];
        if !(0x30 <= b && b <= 0x39) {
            return false;
        }
        proof {
            assert(token@.take(i as int + 1).drop_last() =~= token@.take(i as int));
            assert(token@.take(i as int + 1).last() == b);
        }
        if !over {
            let next: u64 = acc * 10 + (b - 0x30) as u64;
            if next > expected as u64 {
                over = true;
            } else {
                acc = next;
            }
        }
        i = i + 1;
    }
    proof {
        assert(token@.take(n as int) =~= token@);
    }
    !over && acc == expected as u64
}

/// Reads `count` points of `N` bytes each, the values from number `done`
/// on, starting at `pos`. Returns the points and the place behind the last
/// of them, or `None` when a value is missing or does not write a point.
fn read_points<const N: usize>(text: &[u8], pos: usize, count: usize, Ghost(done): Ghost<int>) -> (r:
    Option<(Vec<[u8; N]>, usize)>)
    requires
        N < 1000,
        pos <= text@.len(),
        0 <= done <= tokens(text@).len(),
        tokens(text@).skip(done) == tokens(text@.skip(pos as int)),
    ensures
        r is Some <==> are_points(tokens(text@), done, count as int, N as nat),
        r matches Some((points, next)) ==> {
            &&& next <= text@.len()
            &&& points@.len() == count
            &&& points_of(tokens(text@), done, points@)
            &&& tokens(text@).skip(done + count) == tokens(text@.skip(next as int))
        },
{
    let mut points: Vec<[u8; N]> = Vec::new();
    let mut at: usize = pos;
    let mut k: usize = 0;
    while k < count
        invariant
            N < 1000,
            0 <= k <= count,
            at <= text@.len(),
            0 <= done,
            done + k <= tokens(text@).len(),
            tokens(text@).skip(done + k) == tokens(text@.skip(at as int)),
            points@.len() == k,
            points_of(tokens(text@), done, points@),
            forall|i: int| 0 <= i < k ==> writes_point(#[trigger] tokens(text@)[done + i], N as nat),
        decreases count - k,
    {
        let (start, end) = match next_token(text, at, Ghost(done + k)) {
            Some(found) => found,
            None => {
                return None;
            },
        };
        let token = slice_subrange(text, start, end);
        if end - start != 2 * N {
            assert(!writes_point(tokens(text@)[done + k], N as nat));
            return None;
        }
        let bytes = match hex_decode(token) {
            Some(bytes) => bytes,
            None => {
                assert(!writes_point(tokens(text@)[done + k], N as nat));
                return None;
            },
        };
        let point = array_from_slice::<N>(bytes.as_slice());
        points.push(point);
        at = end;
        k = k + 1;
    }
    Some((points, at))
}

/// Reads the text of a setup: the points it writes, or `None` when it is
/// not the text of a setup.
pub fn parse_trusted_setup(text: &[u8]) -> (r: Option<
    (Vec<[u8; 48]>, Vec<[u8; 48]>, Vec<[u8; 96]>),
>)
    ensures
        r is Some <==> is_setup_text(text@),
        r matches Some(p) ==> setup_text_points(text@, p.0@, p.1@, p.2@),
{
    proof {
        assert(text@.skip(0) =~= text@);
        assert(tokens(text@).skip(0) =~= tokens(text@));
    }
    let (start, end) = match next_token(text, 0, Ghost(0)) {
        Some(found) => found,
        None => {
            return None;
        },
    };
    if !token_is_number(slice_subrange(text, start, end), FIELD_ELEMENTS_PER_BLOB as u32) {
        return None;
    }
    let (start, end) = match next_token(text, end, Ghost(1)) {
        Some(found) => found,
        None => {
            return None;
        },
    };
    if !token_is_number(slice_subrange(text, start, end), NUM_G2_POINTS as u32) {
        return None;
    }
    let (g1_monomial, at) = match read_points::<48>(text, end, FIELD_ELEMENTS_PER_BLOB, Ghost(2)) {
        Some(found) => found,
        None => {
            return None;
        },
    };
    let (g1_lagrange, at) = match read_points::<48>(
        text,
        at,
        FIELD_ELEMENTS_PER_BLOB,
        Ghost(2 + FIELD_ELEMENTS_PER_BLOB),
    ) {
        Some(found) => found,
        None => {
            return None;
        },
    };
    let (g2_monomial, at) = match read_points::<96>(
        text,
        at,
        NUM_G2_POINTS,
        Ghost(2 + 2 * FIELD_ELEMENTS_PER_BLOB),
    ) {
        Some(found) => found,
        None => {
            return None;
        },
    };
    match next_token(text, at, Ghost(SETUP_VALUES as int)) {
        Some(_) => None,
        None => Some((g1_monomial, g1_lagrange, g2_monomial)),
    }
}

impl KZGSettings {
    /// Loads a trusted setup from its text form. A text that is not the text
    /// of a setup is refused; the points of one that is go through the same
    /// validation as those handed to `load_trusted_setup`, and are used as
    /// that function uses them: the Lagrange points are only validated, and
    /// no tables are built.
    pub fn load_trusted_setup_text(text: &[u8], precompute: u64) -> (r: Result<Self, Error>)
        ensures
            !is_setup_text(text@) ==> (r matches Err(e) && e@ == ErrorView::InvalidTrustedSetup(
                refused_setup_text(),
            )),
            forall|g1_monomial: Seq<[u8; 48]>, g1_lagrange: Seq<[u8; 48]>, g2_monomial: Seq<[u8; 96]>|
                is_setup_text(text@) && #[trigger] setup_text_points(
                    text@,
                    g1_monomial,
                    g1_lagrange,
                    g2_monomial,
                ) ==> match load_outcome(g1_monomial, g1_lagrange, g2_monomial, precompute) {
                    Ok(setup) => r matches Ok(s) && s@ == setup && s.spec_precompute()
                        == precompute,
                    Err(message) => r matches Err(e) && e@ == ErrorView::InvalidTrustedSetup(
                        message,
                    ),
                },
    {
        match parse_trusted_setup(text) {
            Some(points) => {
                proof {
                    assert forall|
                        g1_monomial: Seq<[u8; 48]>,
                        g1_lagrange: Seq<[u8; 48]>,
                        g2_monomial: Seq<[u8; 96]>,
                    | #[trigger]
                        setup_text_points(
                            text@,
                            g1_monomial,
                            g1_lagrange,
                            g2_monomial,
                        ) implies g1_monomial == points.0@ && g1_lagrange == points.1@
                        && g2_monomial == points.2@ by {
                        lemma_same_points(tokens(text@), 2, g1_monomial, points.0@);
                        lemma_same_points(
                            tokens(text@),
                            2 + FIELD_ELEMENTS_PER_BLOB,
                            g1_lagrange,
                            points.1@,
                        );
                        lemma_same_points(
                            tokens(text@),
                            2 + 2 * FIELD_ELEMENTS_PER_BLOB,
                            g2_monomial,
                            points.2@,
                        );
                    }
                }
                KZGSettings::load_trusted_setup(points.0, points.1, points.2, precompute)
            },
            None => Err(
                Error::InvalidTrustedSetup(String::from_str("Invalid trusted setup: C_KZG_BADARGS")),
            ),
        }
    }
}

/// Two lists of points that the same values write are the same list.
proof fn lemma_same_points<const N: usize>(
    tokens: Seq<Seq<u8>>,
    first: int,
    a: Seq<[u8; N]>,
    b: Seq<[u8; N]>,
)
    requires
        a.len() == b.len(),
        points_of(tokens, first, a),
        points_of(tokens, first, b),
    ensures
        a == b,
{
    assert forall|i: int| 0 <= i < a.len() implies a[i] == b[i] by {
        assert(a[i]@ == b[i]@);
        assert(a[i]@ =~= b[i]@);
        assert(a[i] =~= b[i]);
    }
    assert(a =~= b);
}

} // verus!

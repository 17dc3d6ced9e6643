//! The trusted setup.
//!
//! A `KZGSettings` is made once, by a load that validates every point, and is
//! read-only afterwards: no function takes it by mutable reference.

use vstd::prelude::*;
use rust_eth_kzg::DASContext;
use crate::constants::{FIELD_ELEMENTS_PER_BLOB, MAX_PRECOMPUTE, NUM_G2_POINTS};
use crate::engine::{
    context_setup, decodes_as_g1, decodes_as_g2, g1_point_valid, g2_point_valid, new_context,
    tables_are_embedded, SetupView,
};
use crate::error::Error;
use crate::message::{two_count_message, two_count_text};

verus! {

/// Window width that a precompute level stands for: none at level 0.
pub open spec fn width_of(precompute: u64) -> Option<usize> {
    if precompute == 0 {
        None
    } else {
        Some(precompute as usize)
    }
}

/// Every point of `points` is a valid compressed G1 point.
pub open spec fn all_g1_valid(points: Seq<[u8; 48]>) -> bool {
    forall|i: int| 0 <= i < points.len() ==> g1_point_valid(#[trigger] points[i]@)
}

/// Every point of `points` is a valid compressed G2 point.
pub open spec fn all_g2_valid(points: Seq<[u8; 96]>) -> bool {
    forall|i: int| 0 <= i < points.len() ==> g2_point_valid(#[trigger] points[i]@)
}

/// Text of the message for a wrong number of points of one kind.
pub open spec fn point_count_text(kind: Seq<char>, expected: nat, got: nat) -> Seq<char> {
    two_count_text(
        "Invalid number of "@ + kind + " points in trusted setup. Expected "@,
        expected,
        " got "@,
        got,
        ""@,
    )
}

/// Text of the message for a setup that has the right shape and is refused
/// all the same: a precompute level out of range, or a point that does not
/// decode.
pub open spec fn refused_setup_text() -> Seq<char> {
    "Invalid trusted setup: C_KZG_BADARGS"@
}

/// What a load answers: the setup that the settings stand for, or the text
/// of the refusal. The checks come in this order: the three counts, the
/// precompute level, then the points.
///
/// The setup that comes out holds the monomial points alone, and no tables.
/// The Lagrange points are required to decode and nothing more: the Lagrange
/// basis that commitments are made with is derived from the monomial points,
/// so a Lagrange list that is not their transform changes no answer.
pub open spec fn load_outcome(
    g1_monomial: Seq<[u8; 48]>,
    g1_lagrange: Seq<[u8; 48]>,
    g2_monomial: Seq<[u8; 96]>,
    precompute: u64,
) -> Result<SetupView, Seq<char>> {
    if g1_monomial.len() != FIELD_ELEMENTS_PER_BLOB {
        Err(point_count_text("g1"@, FIELD_ELEMENTS_PER_BLOB as nat, g1_monomial.len()))
    } else if g1_lagrange.len() != FIELD_ELEMENTS_PER_BLOB {
        Err(point_count_text("g1 lagrange"@, FIELD_ELEMENTS_PER_BLOB as nat, g1_lagrange.len()))
    } else if g2_monomial.len() != NUM_G2_POINTS {
        Err(point_count_text("g2"@, NUM_G2_POINTS as nat, g2_monomial.len()))
    } else if precompute > MAX_PRECOMPUTE || !all_g1_valid(g1_monomial) || !all_g1_valid(
        g1_lagrange,
    ) || !all_g2_valid(g2_monomial) {
        Err(refused_setup_text())
    } else {
        Ok(SetupView { g1_monomial, g2_monomial, width: None })
    }
}

/// Whether every point of `points` decodes; stops at the first that does not.
pub fn check_all_g1(points: &Vec<[u8; 48]>) -> (r: bool)
    ensures
        r == all_g1_valid(points@),
{
    let n: usize = points.len();
    let mut i: usize = 0;
    while i < n
        invariant
            n == points@.len(),
            0 <= i <= n,
            forall|j: int| 0 <= j < i ==> g1_point_valid(#[trigger] points@[j]@),
        decreases n - i,
    {
        if !decodes_as_g1(&points[i]) {
            return false;
        }
        i = i + 1;
    }
    true
}

/// Whether every point of `points` decodes; stops at the first that does not.
pub fn check_all_g2(points: &Vec<[u8; 96]>) -> (r: bool)
    ensures
        r == all_g2_valid(points@),
{
    let n: usize = points.len();
    let mut i: usize = 0;
    while i < n
        invariant
            n == points@.len(),
            0 <= i <= n,
            forall|j: int| 0 <= j < i ==> g2_point_valid(#[trigger] points@[j]@),
        decreases n - i,
    {
        if !decodes_as_g2(&points[i]) {
            return false;
        }
        i = i + 1;
    }
    true
}

/// Builds the message that `point_count_text` describes.
fn point_count_message(kind: &str, expected: usize, got: usize) -> (r: String)
    ensures
        r@ == point_count_text(kind@, expected as nat, got as nat),
{
    let mut head = String::from_str("Invalid number of ");
    head.append(kind);
    head.append(" points in trusted setup. Expected ");
    two_count_message(head.as_str(), expected, " got ", got, "")
}

/// A well-formed setup: the point counts are right, every point decodes,
/// and the window width is in range.
pub open spec fn setup_well_formed(setup: SetupView) -> bool {
    &&& setup.g1_monomial.len() == FIELD_ELEMENTS_PER_BLOB
    &&& setup.g2_monomial.len() == NUM_G2_POINTS
    &&& all_g1_valid(setup.g1_monomial)
    &&& all_g2_valid(setup.g2_monomial)
    &&& setup.width matches Some(w) ==> 1 <= w <= MAX_PRECOMPUTE
}

/// The parameters of a trusted setup, validated and ready for use.
pub struct KZGSettings {
    precompute: u64,
    ctx: DASContext,
}

impl View for KZGSettings {
    type V = SetupView;

    closed spec fn view(&self) -> SetupView {
        context_setup(self.ctx)
    }
}

impl KZGSettings {
    #[verifier::type_invariant]
    spec fn well_formed(self) -> bool {
        &&& self.precompute <= MAX_PRECOMPUTE
        &&& setup_well_formed(context_setup(self.ctx))
        &&& tables_are_embedded(context_setup(self.ctx))
        &&& context_setup(self.ctx).width is Some ==> context_setup(self.ctx).width == width_of(
            self.precompute,
        )
    }

    /// The precompute level that the settings were loaded with.
    pub closed spec fn spec_precompute(&self) -> u64 {
        self.precompute
    }

    /// Settings around a context whose setup is known to be well formed.
    pub(crate) fn from_context(ctx: DASContext, precompute: u64) -> (r: Self)
        requires
            precompute <= MAX_PRECOMPUTE,
            context_setup(ctx).width == width_of(precompute),
            setup_well_formed(context_setup(ctx)),
            tables_are_embedded(context_setup(ctx)),
        ensures
            r@ == context_setup(ctx),
            r.spec_precompute() == precompute,
    {
        KZGSettings { precompute, ctx }
    }

    /// Loads a trusted setup from `FIELD_ELEMENTS_PER_BLOB` G1 points in
    /// monomial form, as many in Lagrange form, and 65 G2 points in monomial
    /// form, all compressed. Every point is decoded and checked to lie in
    /// its subgroup; the first one that does not has the whole setup
    /// refused.
    ///
    /// The Lagrange points are validated and not used otherwise: every
    /// answer of the settings is a function of the monomial points. The
    /// precompute level is checked and recorded, and no tables are built
    /// from the points given here, whatever the level: tables exist only for
    /// the embedded setup, see `ethereum_kzg_settings`.
    pub fn load_trusted_setup(
        g1_monomial_bytes: Vec<[u8; 48]>,
        g1_lagrange_bytes: Vec<[u8; 48]>,
        g2_monomial_bytes: Vec<[u8; 96]>,
        precompute: u64,
    ) -> (r: Result<Self, Error>)
        ensures
            match load_outcome(
                g1_monomial_bytes@,
                g1_lagrange_bytes@,
                g2_monomial_bytes@,
                precompute,
            ) {
                Ok(setup) => r matches Ok(s) && s@ == setup && s.spec_precompute() == precompute,
                Err(text) => r matches Err(Error::InvalidTrustedSetup(m)) && m@ == text,
            },
    {
        if g1_monomial_bytes.len() != FIELD_ELEMENTS_PER_BLOB {
            return Err(
                Error::InvalidTrustedSetup(
                    point_count_message("g1", FIELD_ELEMENTS_PER_BLOB, g1_monomial_bytes.len()),
                ),
            );
        }
        if g1_lagrange_bytes.len() != FIELD_ELEMENTS_PER_BLOB {
            return Err(
                Error::InvalidTrustedSetup(
                    point_count_message(
                        "g1 lagrange",
                        FIELD_ELEMENTS_PER_BLOB,
                        g1_lagrange_bytes.len(),
                    ),
                ),
            );
        }
        if g2_monomial_bytes.len() != NUM_G2_POINTS {
            return Err(
                Error::InvalidTrustedSetup(
                    point_count_message("g2", NUM_G2_POINTS, g2_monomial_bytes.len()),
                ),
            );
        }
        if precompute > MAX_PRECOMPUTE || !check_all_g1(&g1_monomial_bytes) || !check_all_g1(
            &g1_lagrange_bytes,
        ) || !check_all_g2(&g2_monomial_bytes) {
            return Err(
                Error::InvalidTrustedSetup(String::from_str("Invalid trusted setup: C_KZG_BADARGS")),
            );
        }
        let ctx = new_context(&g1_monomial_bytes, &g2_monomial_bytes);
        Ok(KZGSettings { precompute, ctx })
    }

    /// The precompute level that the settings were loaded with.
    pub fn precompute(&self) -> (r: u64)
        ensures
            r == self.spec_precompute(),
            r <= MAX_PRECOMPUTE,
            self@.width is Some ==> self@.width == width_of(r),
            setup_well_formed(self@),
            tables_are_embedded(self@),
    {
        proof {
            use_type_invariant(self);
        }
        self.precompute
    }

    /// The context, for the operations of this crate.
    pub(crate) fn context(&self) -> (r: &DASContext)
        ensures
            context_setup(*r) == self@,
            tables_are_embedded(self@),
    {
        proof {
            use_type_invariant(self);
        }
        &self.ctx
    }
}

} // verus!

//! The laws of the Frobenius map: it respects sums and products, its powers
//! compose, and as many applications of it as the field has degree give the
//! identity. All of this rests on the coefficients of the tables being
//! consistent with each other and with the non-residues, which is stated
//! here and proved of each curve's constants where they are defined.

use vstd::prelude::*;
use vstd::arithmetic::div_mod::{lemma_add_mod_noop, lemma_mod_adds, lemma_small_mod};
use crate::fields::cubic::{
    cubic_add_v, cubic_frobenius_v, cubic_mul_v, CubicExt, CubicParams,
};
use crate::fields::field::Field;
use crate::fields::laws::{lemma_ring_laws, RingLaws};
use crate::fields::prime::Fp;
use crate::fields::quadratic::{quad_add_v, quad_frobenius_v, quad_mul_v, QuadExt, QuadParams};
use crate::modular::Modulus;

verus! {

/// The Frobenius map of power one, applied `n` times.
pub open spec fn iterate_frobenius_v<F: Field>(x: F::Value, n: nat, p: &F::Params) -> F::Value
    decreases n,
{
    if n == 0 {
        x
    } else {
        F::frobenius_v(iterate_frobenius_v::<F>(x, (n - 1) as nat, p), 1, p)
    }
}

/// What the Frobenius map of a field obeys once its tables are consistent.
pub trait FrobeniusLaws: RingLaws {
    /// The degree of the field over its prime field.
    spec fn degree(p: &Self::Params) -> nat;

    /// The coefficients of the tables, here and in the fields below, fit
    /// each other and the non-residues: the coefficient for power zero is
    /// one, the coefficient for the next power is the Frobenius image of the
    /// coefficient for this power times the coefficient for power one, and
    /// the Frobenius image of the non-residue is the non-residue times the
    /// power of the coefficient for power one that the extension has degree.
    spec fn tables_consistent(p: &Self::Params) -> bool;

    proof fn lemma_degree_positive(p: &Self::Params)
        requires
            Self::params_wf(p),
        ensures
            Self::degree(p) > 0,
    ;

    proof fn lemma_frobenius_in_field(x: Self::Value, k: nat, p: &Self::Params)
        requires
            Self::params_wf(p),
            Self::in_field(x, p),
        ensures
            Self::in_field(Self::frobenius_v(x, k, p), p),
    ;

    /// The map of power zero is the identity.
    proof fn lemma_frobenius_zero(x: Self::Value, p: &Self::Params)
        requires
            Self::params_wf(p),
            Self::tables_consistent(p),
            Self::in_field(x, p),
        ensures
            Self::frobenius_v(x, 0, p) == x,
    ;

    /// The map keeps zero and one.
    proof fn lemma_frobenius_zero_one(k: nat, p: &Self::Params)
        requires
            Self::params_wf(p),
        ensures
            Self::frobenius_v(Self::zero_v(p), k, p) == Self::zero_v(p),
            Self::frobenius_v(Self::one_v(p), k, p) == Self::one_v(p),
    ;

    /// The map respects sums.
    proof fn lemma_frobenius_additive(x: Self::Value, y: Self::Value, k: nat, p: &Self::Params)
        requires
            Self::params_wf(p),
            Self::in_field(x, p),
            Self::in_field(y, p),
        ensures
            Self::frobenius_v(Self::add_v(x, y, p), k, p) == Self::add_v(
                Self::frobenius_v(x, k, p),
                Self::frobenius_v(y, k, p),
                p,
            ),
    ;

    /// The map of power one respects products.
    proof fn lemma_frobenius_multiplicative(x: Self::Value, y: Self::Value, p: &Self::Params)
        requires
            Self::params_wf(p),
            Self::tables_consistent(p),
            Self::in_field(x, p),
            Self::in_field(y, p),
        ensures
            Self::frobenius_v(Self::mul_v(x, y, p), 1, p) == Self::mul_v(
                Self::frobenius_v(x, 1, p),
                Self::frobenius_v(y, 1, p),
                p,
            ),
    ;

    /// The map of power one after the map of power `j` is the map of power `j + 1`.
    proof fn lemma_frobenius_step(x: Self::Value, j: nat, p: &Self::Params)
        requires
            Self::params_wf(p),
            Self::tables_consistent(p),
            Self::in_field(x, p),
        ensures
            Self::frobenius_v(Self::frobenius_v(x, j, p), 1, p) == Self::frobenius_v(x, j + 1, p),
    ;

    /// The map of a power depends on the power modulo the degree only.
    proof fn lemma_frobenius_period(x: Self::Value, j: nat, p: &Self::Params)
        requires
            Self::params_wf(p),
            Self::tables_consistent(p),
            Self::in_field(x, p),
        ensures
            Self::frobenius_v(x, j + Self::degree(p), p) == Self::frobenius_v(x, j, p),
    ;
}

/// The map of power one, applied `n` times, is the map of power `n`.
pub proof fn lemma_iterate_is_power<F: FrobeniusLaws>(x: F::Value, n: nat, p: &F::Params)
    requires
        F::params_wf(p),
        F::tables_consistent(p),
        F::in_field(x, p),
    ensures
        iterate_frobenius_v::<F>(x, n, p) == F::frobenius_v(x, n, p),
    decreases n,
{
    if n == 0 {
        F::lemma_frobenius_zero(x, p);
    } else {
        lemma_iterate_is_power::<F>(x, (n - 1) as nat, p);
        F::lemma_frobenius_step(x, (n - 1) as nat, p);
    }
}

/// The Frobenius map of power one, applied as many times as the field has
/// degree over its prime field, gives every element back.
pub proof fn lemma_frobenius_order<F: FrobeniusLaws>(x: F::Value, p: &F::Params)
    requires
        F::params_wf(p),
        F::tables_consistent(p),
        F::in_field(x, p),
    ensures
        iterate_frobenius_v::<F>(x, F::degree(p), p) == x,
{
    lemma_iterate_is_power::<F>(x, F::degree(p), p);
    F::lemma_frobenius_period(x, 0, p);
    F::lemma_frobenius_zero(x, p);
}

/// The map of a power depends on the power modulo a multiple of the degree only.
pub proof fn lemma_frobenius_periods<F: FrobeniusLaws>(x: F::Value, j: nat, m: nat, p: &F::Params)
    requires
        F::params_wf(p),
        F::tables_consistent(p),
        F::in_field(x, p),
    ensures
        F::frobenius_v(x, j + m * F::degree(p), p) == F::frobenius_v(x, j, p),
    decreases m,
{
    if m == 0 {
        assert(0 * F::degree(p) == 0);
    } else {
        lemma_frobenius_periods::<F>(x, j, (m - 1) as nat, p);
        F::lemma_frobenius_period(x, j + (m - 1) as nat * F::degree(p), p);
        assert(j + (m - 1) as nat * F::degree(p) + F::degree(p) == j + m * F::degree(p))
            by (nonlinear_arith)
            requires
                m >= 1,
        ;
    }
}

impl FrobeniusLaws for Fp {
    open spec fn degree(p: &Modulus) -> nat {
        1
    }

    open spec fn tables_consistent(p: &Modulus) -> bool {
        true
    }

    proof fn lemma_degree_positive(p: &Modulus) {
    }

    proof fn lemma_frobenius_in_field(x: nat, k: nat, p: &Modulus) {
    }

    proof fn lemma_frobenius_zero_one(k: nat, p: &Modulus) {
    }

    proof fn lemma_frobenius_zero(x: nat, p: &Modulus) {
    }

    proof fn lemma_frobenius_additive(x: nat, y: nat, k: nat, p: &Modulus) {
    }

    proof fn lemma_frobenius_multiplicative(x: nat, y: nat, p: &Modulus) {
    }

    proof fn lemma_frobenius_step(x: nat, j: nat, p: &Modulus) {
    }

    proof fn lemma_frobenius_period(x: nat, j: nat, p: &Modulus) {
    }
}

/// The coefficients of the table of a quadratic extension fit each other
/// and the non-residue.
pub open spec fn quad_table_consistent<B: FrobeniusLaws>(p: &QuadParams<B>) -> bool {
    let d = p.frobenius@.len() as int;
    let c1 = p.frobenius@[1].value();
    &&& d == 2 * B::degree(&p.base)
    &&& p.frobenius@[0].value() == B::one_v(&p.base)
    &&& forall|k: int|
        0 <= k < d ==> (#[trigger] p.frobenius@[(k + 1) % d]).value() == B::mul_v(
            B::frobenius_v(p.frobenius@[k].value(), 1, &p.base),
            c1,
            &p.base,
        )
    &&& B::frobenius_v(p.nonresidue.value(), 1, &p.base) == B::mul_v(
        p.nonresidue.value(),
        B::mul_v(c1, c1, &p.base),
        &p.base,
    )
}

impl<B: FrobeniusLaws> FrobeniusLaws for QuadExt<B> {
    open spec fn degree(p: &QuadParams<B>) -> nat {
        2 * B::degree(&p.base)
    }

    open spec fn tables_consistent(p: &QuadParams<B>) -> bool {
        B::tables_consistent(&p.base) && quad_table_consistent::<B>(p)
    }

    proof fn lemma_degree_positive(p: &QuadParams<B>) {
        B::lemma_degree_positive(&p.base);
    }

    proof fn lemma_frobenius_in_field(x: QuadExt<B::Value>, k: nat, p: &QuadParams<B>) {
        lemma_ring_laws::<B>(&p.base);
        reveal(quad_frobenius_v);
        B::lemma_frobenius_in_field(x.c0, k, &p.base);
        B::lemma_frobenius_in_field(x.c1, k, &p.base);
        let i = (k % p.frobenius@.len()) as int;
        p.frobenius@[i].lemma_wf_in_field(&p.base);
    }

    proof fn lemma_frobenius_zero_one(k: nat, p: &QuadParams<B>) {
        lemma_ring_laws::<B>(&p.base);
        reveal(quad_frobenius_v);
        B::lemma_frobenius_zero_one(k, &p.base);
        let i = (k % p.frobenius@.len()) as int;
        p.frobenius@[i].lemma_wf_in_field(&p.base);
    }

    proof fn lemma_frobenius_zero(x: QuadExt<B::Value>, p: &QuadParams<B>) {
        lemma_ring_laws::<B>(&p.base);
        reveal(quad_frobenius_v);
        B::lemma_frobenius_zero(x.c0, &p.base);
        B::lemma_frobenius_zero(x.c1, &p.base);
    }

    proof fn lemma_frobenius_additive(
        x: QuadExt<B::Value>,
        y: QuadExt<B::Value>,
        k: nat,
        p: &QuadParams<B>,
    ) {
        lemma_ring_laws::<B>(&p.base);
        reveal(quad_frobenius_v);
        reveal(quad_add_v);
        B::lemma_frobenius_additive(x.c0, y.c0, k, &p.base);
        B::lemma_frobenius_additive(x.c1, y.c1, k, &p.base);
        B::lemma_frobenius_in_field(x.c1, k, &p.base);
        B::lemma_frobenius_in_field(y.c1, k, &p.base);
        let i = (k % p.frobenius@.len()) as int;
        p.frobenius@[i].lemma_wf_in_field(&p.base);
    }

    proof fn lemma_frobenius_multiplicative(
        x: QuadExt<B::Value>,
        y: QuadExt<B::Value>,
        p: &QuadParams<B>,
    ) {
        let bp = &p.base;
        lemma_ring_laws::<B>(bp);
        reveal(quad_frobenius_v);
        reveal(quad_mul_v);
        B::lemma_degree_positive(bp);
        let n = p.nonresidue.value();
        p.nonresidue.lemma_wf_in_field(bp);
        let i = (1nat % p.frobenius@.len()) as int;
        assert(i == 1) by {
            lemma_small_mod(1, p.frobenius@.len());
        }
        let c = p.frobenius@[1].value();
        p.frobenius@[1].lemma_wf_in_field(bp);
        let x0 = B::frobenius_v(x.c0, 1, bp);
        let x1 = B::frobenius_v(x.c1, 1, bp);
        let y0 = B::frobenius_v(y.c0, 1, bp);
        let y1 = B::frobenius_v(y.c1, 1, bp);
        B::lemma_frobenius_in_field(x.c0, 1, bp);
        B::lemma_frobenius_in_field(x.c1, 1, bp);
        B::lemma_frobenius_in_field(y.c0, 1, bp);
        B::lemma_frobenius_in_field(y.c1, 1, bp);
        // the images of the four products and of the two sums
        B::lemma_frobenius_multiplicative(x.c0, y.c0, bp);
        B::lemma_frobenius_multiplicative(x.c1, y.c1, bp);
        B::lemma_frobenius_multiplicative(x.c0, y.c1, bp);
        B::lemma_frobenius_multiplicative(x.c1, y.c0, bp);
        B::lemma_frobenius_multiplicative(n, B::mul_v(x.c1, y.c1, bp), bp);
        B::lemma_frobenius_additive(
            B::mul_v(x.c0, y.c0, bp),
            B::mul_v(n, B::mul_v(x.c1, y.c1, bp), bp),
            1,
            bp,
        );
        B::lemma_frobenius_additive(B::mul_v(x.c0, y.c1, bp), B::mul_v(x.c1, y.c0, bp), 1, bp);
        // n (x1 c) (y1 c) = (n c c) (x1 y1)
        assert(B::mul_v(n, B::mul_v(B::mul_v(x1, c, bp), B::mul_v(y1, c, bp), bp), bp) == B::mul_v(
            B::mul_v(n, B::mul_v(c, c, bp), bp),
            B::mul_v(x1, y1, bp),
            bp,
        ));
        // x0 (y1 c) + (x1 c) y0 = (x0 y1 + x1 y0) c
        assert(B::add_v(
            B::mul_v(x0, B::mul_v(y1, c, bp), bp),
            B::mul_v(B::mul_v(x1, c, bp), y0, bp),
            bp,
        ) == B::mul_v(B::add_v(B::mul_v(x0, y1, bp), B::mul_v(x1, y0, bp), bp), c, bp));
    }

    proof fn lemma_frobenius_step(x: QuadExt<B::Value>, j: nat, p: &QuadParams<B>) {
        let bp = &p.base;
        lemma_ring_laws::<B>(bp);
        reveal(quad_frobenius_v);
        B::lemma_degree_positive(bp);
        let d = p.frobenius@.len();
        let i = (j % d) as int;
        assert((1nat % d) as int == 1) by {
            lemma_small_mod(1, d);
        }
        assert((i + 1) % (d as int) == ((j + 1) % d) as int) by {
            lemma_add_mod_noop(j as int, 1, d as int);
        }
        let cj = p.frobenius@[i].value();
        let c1 = p.frobenius@[1].value();
        p.frobenius@[i].lemma_wf_in_field(bp);
        p.frobenius@[1].lemma_wf_in_field(bp);
        p.frobenius@[(i + 1) % (d as int)].lemma_wf_in_field(bp);
        B::lemma_frobenius_step(x.c0, j, bp);
        B::lemma_frobenius_step(x.c1, j, bp);
        B::lemma_frobenius_in_field(x.c1, j, bp);
        B::lemma_frobenius_in_field(x.c1, j + 1, bp);
        B::lemma_frobenius_in_field(cj, 1, bp);
        B::lemma_frobenius_multiplicative(B::frobenius_v(x.c1, j, bp), cj, bp);
    }

    proof fn lemma_frobenius_period(x: QuadExt<B::Value>, j: nat, p: &QuadParams<B>) {
        let bp = &p.base;
        reveal(quad_frobenius_v);
        B::lemma_degree_positive(bp);
        let d = p.frobenius@.len();
        lemma_mod_adds(j as int, d as int, d as int);
        vstd::arithmetic::div_mod::lemma_mod_self_0(d as int);
        lemma_add_mod_noop(j as int, d as int, d as int);
        vstd::arithmetic::div_mod::lemma_mod_twice(j as int, d as int);
        lemma_frobenius_periods::<B>(x.c0, j, 2, bp);
        lemma_frobenius_periods::<B>(x.c1, j, 2, bp);
    }
}

/// The coefficients of the tables of a cubic extension fit each other and
/// the non-residue.
pub open spec fn cubic_table_consistent<B: FrobeniusLaws>(p: &CubicParams<B>) -> bool {
    let d = p.frobenius_c1@.len() as int;
    let c1 = p.frobenius_c1@[1].value();
    let c2 = p.frobenius_c2@[1].value();
    &&& d == 3 * B::degree(&p.base)
    &&& p.frobenius_c2@.len() == d
    &&& p.frobenius_c1@[0].value() == B::one_v(&p.base)
    &&& p.frobenius_c2@[0].value() == B::one_v(&p.base)
    &&& forall|k: int|
        0 <= k < d ==> (#[trigger] p.frobenius_c1@[(k + 1) % d]).value() == B::mul_v(
            B::frobenius_v(p.frobenius_c1@[k].value(), 1, &p.base),
            c1,
            &p.base,
        )
    &&& forall|k: int|
        0 <= k < d ==> (#[trigger] p.frobenius_c2@[(k + 1) % d]).value() == B::mul_v(
            B::frobenius_v(p.frobenius_c2@[k].value(), 1, &p.base),
            c2,
            &p.base,
        )
    &&& c2 == B::mul_v(c1, c1, &p.base)
    &&& B::frobenius_v(p.nonresidue.value(), 1, &p.base) == B::mul_v(
        p.nonresidue.value(),
        B::mul_v(c1, c2, &p.base),
        &p.base,
    )
}

impl<B: FrobeniusLaws> FrobeniusLaws for CubicExt<B> {
    open spec fn degree(p: &CubicParams<B>) -> nat {
        3 * B::degree(&p.base)
    }

    open spec fn tables_consistent(p: &CubicParams<B>) -> bool {
        B::tables_consistent(&p.base) && cubic_table_consistent::<B>(p)
    }

    proof fn lemma_degree_positive(p: &CubicParams<B>) {
        B::lemma_degree_positive(&p.base);
    }

    proof fn lemma_frobenius_in_field(x: CubicExt<B::Value>, k: nat, p: &CubicParams<B>) {
        lemma_ring_laws::<B>(&p.base);
        reveal(cubic_frobenius_v);
        B::lemma_frobenius_in_field(x.c0, k, &p.base);
        B::lemma_frobenius_in_field(x.c1, k, &p.base);
        B::lemma_frobenius_in_field(x.c2, k, &p.base);
        let i1 = (k % p.frobenius_c1@.len()) as int;
        let i2 = (k % p.frobenius_c2@.len()) as int;
        p.frobenius_c1@[i1].lemma_wf_in_field(&p.base);
        p.frobenius_c2@[i2].lemma_wf_in_field(&p.base);
    }

    proof fn lemma_frobenius_zero_one(k: nat, p: &CubicParams<B>) {
        lemma_ring_laws::<B>(&p.base);
        reveal(cubic_frobenius_v);
        B::lemma_frobenius_zero_one(k, &p.base);
        let i1 = (k % p.frobenius_c1@.len()) as int;
        let i2 = (k % p.frobenius_c2@.len()) as int;
        p.frobenius_c1@[i1].lemma_wf_in_field(&p.base);
        p.frobenius_c2@[i2].lemma_wf_in_field(&p.base);
    }

    proof fn lemma_frobenius_zero(x: CubicExt<B::Value>, p: &CubicParams<B>) {
        lemma_ring_laws::<B>(&p.base);
        reveal(cubic_frobenius_v);
        B::lemma_frobenius_zero(x.c0, &p.base);
        B::lemma_frobenius_zero(x.c1, &p.base);
        B::lemma_frobenius_zero(x.c2, &p.base);
    }

    proof fn lemma_frobenius_additive(
        x: CubicExt<B::Value>,
        y: CubicExt<B::Value>,
        k: nat,
        p: &CubicParams<B>,
    ) {
        lemma_ring_laws::<B>(&p.base);
        reveal(cubic_frobenius_v);
        reveal(cubic_add_v);
        B::lemma_frobenius_additive(x.c0, y.c0, k, &p.base);
        B::lemma_frobenius_additive(x.c1, y.c1, k, &p.base);
        B::lemma_frobenius_additive(x.c2, y.c2, k, &p.base);
        B::lemma_frobenius_in_field(x.c1, k, &p.base);
        B::lemma_frobenius_in_field(y.c1, k, &p.base);
        B::lemma_frobenius_in_field(x.c2, k, &p.base);
        B::lemma_frobenius_in_field(y.c2, k, &p.base);
        let i1 = (k % p.frobenius_c1@.len()) as int;
        let i2 = (k % p.frobenius_c2@.len()) as int;
        p.frobenius_c1@[i1].lemma_wf_in_field(&p.base);
        p.frobenius_c2@[i2].lemma_wf_in_field(&p.base);
    }

    proof fn lemma_frobenius_multiplicative(
        x: CubicExt<B::Value>,
        y: CubicExt<B::Value>,
        p: &CubicParams<B>,
    ) {
        let bp = &p.base;
        lemma_ring_laws::<B>(bp);
        reveal(cubic_frobenius_v);
        reveal(cubic_mul_v);
        B::lemma_degree_positive(bp);
        let n = p.nonresidue.value();
        p.nonresidue.lemma_wf_in_field(bp);
        assert((1nat % p.frobenius_c1@.len()) as int == 1) by {
            lemma_small_mod(1, p.frobenius_c1@.len());
        }
        let c1 = p.frobenius_c1@[1].value();
        let c2 = p.frobenius_c2@[1].value();
        p.frobenius_c1@[1].lemma_wf_in_field(bp);
        p.frobenius_c2@[1].lemma_wf_in_field(bp);
        let x0 = B::frobenius_v(x.c0, 1, bp);
        let x1 = B::frobenius_v(x.c1, 1, bp);
        let x2 = B::frobenius_v(x.c2, 1, bp);
        let y0 = B::frobenius_v(y.c0, 1, bp);
        let y1 = B::frobenius_v(y.c1, 1, bp);
        let y2 = B::frobenius_v(y.c2, 1, bp);
        B::lemma_frobenius_in_field(x.c0, 1, bp);
        B::lemma_frobenius_in_field(x.c1, 1, bp);
        B::lemma_frobenius_in_field(x.c2, 1, bp);
        B::lemma_frobenius_in_field(y.c0, 1, bp);
        B::lemma_frobenius_in_field(y.c1, 1, bp);
        B::lemma_frobenius_in_field(y.c2, 1, bp);
        // the images of the nine products
        B::lemma_frobenius_multiplicative(x.c0, y.c0, bp);
        B::lemma_frobenius_multiplicative(x.c0, y.c1, bp);
        B::lemma_frobenius_multiplicative(x.c0, y.c2, bp);
        B::lemma_frobenius_multiplicative(x.c1, y.c0, bp);
        B::lemma_frobenius_multiplicative(x.c1, y.c1, bp);
        B::lemma_frobenius_multiplicative(x.c1, y.c2, bp);
        B::lemma_frobenius_multiplicative(x.c2, y.c0, bp);
        B::lemma_frobenius_multiplicative(x.c2, y.c1, bp);
        B::lemma_frobenius_multiplicative(x.c2, y.c2, bp);
        // first coefficient
        let s0 = B::add_v(B::mul_v(x.c1, y.c2, bp), B::mul_v(x.c2, y.c1, bp), bp);
        B::lemma_frobenius_additive(B::mul_v(x.c1, y.c2, bp), B::mul_v(x.c2, y.c1, bp), 1, bp);
        B::lemma_frobenius_multiplicative(n, s0, bp);
        B::lemma_frobenius_additive(B::mul_v(x.c0, y.c0, bp), B::mul_v(n, s0, bp), 1, bp);
        // second coefficient
        let s1 = B::add_v(B::mul_v(x.c0, y.c1, bp), B::mul_v(x.c1, y.c0, bp), bp);
        B::lemma_frobenius_additive(B::mul_v(x.c0, y.c1, bp), B::mul_v(x.c1, y.c0, bp), 1, bp);
        B::lemma_frobenius_multiplicative(n, B::mul_v(x.c2, y.c2, bp), bp);
        B::lemma_frobenius_additive(s1, B::mul_v(n, B::mul_v(x.c2, y.c2, bp), bp), 1, bp);
        // third coefficient
        let s2 = B::add_v(B::mul_v(x.c0, y.c2, bp), B::mul_v(x.c1, y.c1, bp), bp);
        B::lemma_frobenius_additive(B::mul_v(x.c0, y.c2, bp), B::mul_v(x.c1, y.c1, bp), 1, bp);
        B::lemma_frobenius_additive(s2, B::mul_v(x.c2, y.c0, bp), 1, bp);
        let nf = B::mul_v(n, B::mul_v(c1, c2, bp), bp);
        // n ((x1 c1) (y2 c2) + (x2 c2) (y1 c1)) = (n c1 c2) (x1 y2 + x2 y1)
        assert(B::mul_v(
            n,
            B::add_v(
                B::mul_v(B::mul_v(x1, c1, bp), B::mul_v(y2, c2, bp), bp),
                B::mul_v(B::mul_v(x2, c2, bp), B::mul_v(y1, c1, bp), bp),
                bp,
            ),
            bp,
        ) == B::mul_v(nf, B::add_v(B::mul_v(x1, y2, bp), B::mul_v(x2, y1, bp), bp), bp));
        // x0 (y1 c1) + (x1 c1) y0 + n (x2 c2) (y2 c2) = (x0 y1 + x1 y0 + (n c1 c2) x2 y2) c1
        assert(B::add_v(
            B::add_v(
                B::mul_v(x0, B::mul_v(y1, c1, bp), bp),
                B::mul_v(B::mul_v(x1, c1, bp), y0, bp),
                bp,
            ),
            B::mul_v(n, B::mul_v(B::mul_v(x2, c2, bp), B::mul_v(y2, c2, bp), bp), bp),
            bp,
        ) == B::mul_v(
            B::add_v(
                B::add_v(B::mul_v(x0, y1, bp), B::mul_v(x1, y0, bp), bp),
                B::mul_v(nf, B::mul_v(x2, y2, bp), bp),
                bp,
            ),
            c1,
            bp,
        ));
        // x0 (y2 c2) + (x1 c1) (y1 c1) + (x2 c2) y0 = (x0 y2 + x1 y1 + x2 y0) c2
        assert(B::add_v(
            B::add_v(
                B::mul_v(x0, B::mul_v(y2, c2, bp), bp),
                B::mul_v(B::mul_v(x1, c1, bp), B::mul_v(y1, c1, bp), bp),
                bp,
            ),
            B::mul_v(B::mul_v(x2, c2, bp), y0, bp),
            bp,
        ) == B::mul_v(
            B::add_v(
                B::add_v(B::mul_v(x0, y2, bp), B::mul_v(x1, y1, bp), bp),
                B::mul_v(x2, y0, bp),
                bp,
            ),
            c2,
            bp,
        ));
    }

    proof fn lemma_frobenius_step(x: CubicExt<B::Value>, j: nat, p: &CubicParams<B>) {
        let bp = &p.base;
        lemma_ring_laws::<B>(bp);
        reveal(cubic_frobenius_v);
        B::lemma_degree_positive(bp);
        let d = p.frobenius_c1@.len();
        let i = (j % d) as int;
        assert((1nat % d) as int == 1) by {
            lemma_small_mod(1, d);
        }
        assert((i + 1) % (d as int) == ((j + 1) % d) as int) by {
            lemma_add_mod_noop(j as int, 1, d as int);
        }
        let a1 = p.frobenius_c1@[i].value();
        let a2 = p.frobenius_c2@[i].value();
        p.frobenius_c1@[i].lemma_wf_in_field(bp);
        p.frobenius_c2@[i].lemma_wf_in_field(bp);
        p.frobenius_c1@[1].lemma_wf_in_field(bp);
        p.frobenius_c2@[1].lemma_wf_in_field(bp);
        p.frobenius_c1@[(i + 1) % (d as int)].lemma_wf_in_field(bp);
        p.frobenius_c2@[(i + 1) % (d as int)].lemma_wf_in_field(bp);
        B::lemma_frobenius_step(x.c0, j, bp);
        B::lemma_frobenius_step(x.c1, j, bp);
        B::lemma_frobenius_step(x.c2, j, bp);
        B::lemma_frobenius_in_field(x.c1, j, bp);
        B::lemma_frobenius_in_field(x.c2, j, bp);
        B::lemma_frobenius_in_field(x.c1, j + 1, bp);
        B::lemma_frobenius_in_field(x.c2, j + 1, bp);
        B::lemma_frobenius_in_field(a1, 1, bp);
        B::lemma_frobenius_in_field(a2, 1, bp);
        B::lemma_frobenius_multiplicative(B::frobenius_v(x.c1, j, bp), a1, bp);
        B::lemma_frobenius_multiplicative(B::frobenius_v(x.c2, j, bp), a2, bp);
    }

    proof fn lemma_frobenius_period(x: CubicExt<B::Value>, j: nat, p: &CubicParams<B>) {
        let bp = &p.base;
        reveal(cubic_frobenius_v);
        B::lemma_degree_positive(bp);
        let d = p.frobenius_c1@.len();
        lemma_mod_adds(j as int, d as int, d as int);
        vstd::arithmetic::div_mod::lemma_mod_self_0(d as int);
        lemma_add_mod_noop(j as int, d as int, d as int);
        vstd::arithmetic::div_mod::lemma_mod_twice(j as int, d as int);
        lemma_frobenius_periods::<B>(x.c0, j, 3, bp);
        lemma_frobenius_periods::<B>(x.c1, j, 3, bp);
        lemma_frobenius_periods::<B>(x.c2, j, 3, bp);
    }
}

} // verus!

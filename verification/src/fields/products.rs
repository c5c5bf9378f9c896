//! What inverses, powers and Frobenius images of products are.

use vstd::prelude::*;
use crate::fields::field::Field;
use crate::fields::frobenius::FrobeniusLaws;
use crate::fields::laws::RingLaws;
use crate::fields::power::pow_v;
use crate::fields::quadratic::{quad_mul_v, QuadExt, QuadParams};

verus! {

/// `(a b) (c d) = (a c) (b d)`.
pub proof fn lemma_interchange<F: RingLaws>(
    a: F::Value,
    b: F::Value,
    c: F::Value,
    d: F::Value,
    p: &F::Params,
)
    requires
        F::params_wf(p),
        F::in_field(a, p),
        F::in_field(b, p),
        F::in_field(c, p),
        F::in_field(d, p),
    ensures
        F::mul_v(F::mul_v(a, b, p), F::mul_v(c, d, p), p) == F::mul_v(
            F::mul_v(a, c, p),
            F::mul_v(b, d, p),
            p,
        ),
        F::in_field(F::mul_v(a, b, p), p),
{
    F::lemma_closed(a, b, p);
    F::lemma_closed(c, d, p);
    F::lemma_closed(b, c, p);
    F::lemma_closed(a, c, p);
    F::lemma_closed(b, d, p);
    // (a b) (c d) = a (b (c d)) = a ((b c) d) = a ((c b) d) = a (c (b d)) = (a c) (b d)
    F::lemma_mul_associative(a, b, F::mul_v(c, d, p), p);
    F::lemma_mul_associative(b, c, d, p);
    F::lemma_mul_commutative(b, c, p);
    F::lemma_mul_associative(c, b, d, p);
    F::lemma_mul_associative(a, c, F::mul_v(b, d, p), p);
}

/// Where two values and their product have inverses, the inverse of the
/// product is the product of the inverses.
pub proof fn lemma_inverse_of_product<F: RingLaws>(x: F::Value, y: F::Value, p: &F::Params)
    requires
        F::params_wf(p),
        F::in_field(x, p),
        F::in_field(y, p),
        F::inv_v(x, p) is Some,
        F::inv_v(y, p) is Some,
        F::inv_v(F::mul_v(x, y, p), p) is Some,
    ensures
        F::inv_v(F::mul_v(x, y, p), p)->0 == F::mul_v(F::inv_v(x, p)->0, F::inv_v(y, p)->0, p),
{
    let xi = F::inv_v(x, p)->0;
    let yi = F::inv_v(y, p)->0;
    let xy = F::mul_v(x, y, p);
    let z = F::inv_v(xy, p)->0;
    let one = F::one_v(p);
    F::lemma_inverse(x, p);
    F::lemma_inverse(y, p);
    F::lemma_closed(x, y, p);
    F::lemma_inverse(xy, p);
    F::lemma_closed(xi, yi, p);
    F::lemma_zero_one(p);
    let w = F::mul_v(xi, yi, p);
    // (x y) (xi yi) = (x xi) (y yi) = 1
    lemma_interchange::<F>(x, y, xi, yi, p);
    F::lemma_mul_one(one, p);
    // z = z 1 = z ((x y) w) = (z (x y)) w = ((x y) z) w = 1 w = w
    F::lemma_mul_one(z, p);
    F::lemma_mul_associative(z, xy, w, p);
    F::lemma_mul_commutative(z, xy, p);
    F::lemma_mul_commutative(one, w, p);
    F::lemma_mul_one(w, p);
}

/// The power of a value of the field is one.
pub proof fn lemma_pow_in_field<F: RingLaws>(x: F::Value, e: nat, p: &F::Params)
    requires
        F::params_wf(p),
        F::in_field(x, p),
    ensures
        F::in_field(pow_v::<F>(x, e, p), p),
    decreases e,
{
    F::lemma_zero_one(p);
    if e > 0 {
        lemma_pow_in_field::<F>(x, e / 2, p);
        let h = pow_v::<F>(x, e / 2, p);
        F::lemma_closed(h, h, p);
        F::lemma_closed(F::mul_v(h, h, p), x, p);
    }
}

/// The power of a product is the product of the powers.
pub proof fn lemma_pow_of_product<F: RingLaws>(x: F::Value, y: F::Value, e: nat, p: &F::Params)
    requires
        F::params_wf(p),
        F::in_field(x, p),
        F::in_field(y, p),
    ensures
        pow_v::<F>(F::mul_v(x, y, p), e, p) == F::mul_v(pow_v::<F>(x, e, p), pow_v::<F>(y, e, p), p),
    decreases e,
{
    F::lemma_zero_one(p);
    if e == 0 {
        F::lemma_mul_one(F::one_v(p), p);
    } else {
        lemma_pow_of_product::<F>(x, y, e / 2, p);
        lemma_pow_in_field::<F>(x, e / 2, p);
        lemma_pow_in_field::<F>(y, e / 2, p);
        let hx = pow_v::<F>(x, e / 2, p);
        let hy = pow_v::<F>(y, e / 2, p);
        lemma_interchange::<F>(hx, hy, hx, hy, p);
        F::lemma_closed(hx, hx, p);
        F::lemma_closed(hy, hy, p);
        lemma_interchange::<F>(F::mul_v(hx, hx, p), F::mul_v(hy, hy, p), x, y, p);
    }
}

/// The Frobenius map of any power respects products.
pub proof fn lemma_frobenius_of_product<F: FrobeniusLaws>(
    x: F::Value,
    y: F::Value,
    k: nat,
    p: &F::Params,
)
    requires
        F::params_wf(p),
        F::tables_consistent(p),
        F::in_field(x, p),
        F::in_field(y, p),
    ensures
        F::frobenius_v(F::mul_v(x, y, p), k, p) == F::mul_v(
            F::frobenius_v(x, k, p),
            F::frobenius_v(y, k, p),
            p,
        ),
    decreases k,
{
    F::lemma_closed(x, y, p);
    if k == 0 {
        F::lemma_frobenius_zero(x, p);
        F::lemma_frobenius_zero(y, p);
        F::lemma_frobenius_zero(F::mul_v(x, y, p), p);
    } else {
        let j = (k - 1) as nat;
        lemma_frobenius_of_product::<F>(x, y, j, p);
        F::lemma_frobenius_step(x, j, p);
        F::lemma_frobenius_step(y, j, p);
        F::lemma_frobenius_step(F::mul_v(x, y, p), j, p);
        F::lemma_frobenius_in_field(x, j, p);
        F::lemma_frobenius_in_field(y, j, p);
        F::lemma_frobenius_multiplicative(F::frobenius_v(x, j, p), F::frobenius_v(y, j, p), p);
    }
}

/// The product of two negatives is the product.
pub proof fn lemma_negatives_multiply<B: RingLaws>(a: B::Value, b: B::Value, bp: &B::Params)
    requires
        B::params_wf(bp),
        B::in_field(a, bp),
        B::in_field(b, bp),
    ensures
        B::mul_v(B::neg_v(a, bp), B::neg_v(b, bp), bp) == B::mul_v(a, b, bp),
        B::mul_v(B::neg_v(a, bp), b, bp) == B::neg_v(B::mul_v(a, b, bp), bp),
{
    let na = B::neg_v(a, bp);
    B::lemma_closed(a, a, bp);
    B::lemma_closed(a, b, bp);
    // (-a) b = b (-a) = -(b a) = -(a b)
    B::lemma_mul_commutative(na, b, bp);
    B::lemma_mul_negative(b, a, bp);
    B::lemma_mul_commutative(b, a, bp);
    // (-a) (-b) = -((-a) b) = -(-(a b)) = a b
    B::lemma_mul_negative(na, b, bp);
    B::lemma_negative_of_negative(B::mul_v(a, b, bp), bp);
}

/// The conjugate of a product is the product of the conjugates.
pub proof fn lemma_conjugate_of_product<B: RingLaws>(
    x: QuadExt<B::Value>,
    y: QuadExt<B::Value>,
    p: &QuadParams<B>,
)
    requires
        QuadExt::<B>::params_wf(p),
        QuadExt::<B>::in_field(x, p),
        QuadExt::<B>::in_field(y, p),
    ensures
        QuadExt::<B>::conjugate_v(QuadExt::<B>::mul_v(x, y, p), p) == QuadExt::<B>::mul_v(
            QuadExt::<B>::conjugate_v(x, p),
            QuadExt::<B>::conjugate_v(y, p),
            p,
        ),
        QuadExt::<B>::in_field(QuadExt::<B>::conjugate_v(x, p), p),
{
    let bp = &p.base;
    reveal(quad_mul_v);
    B::lemma_closed(x.c1, x.c1, bp);
    B::lemma_closed(x.c0, y.c1, bp);
    B::lemma_closed(x.c1, y.c0, bp);
    lemma_negatives_multiply::<B>(x.c1, y.c1, bp);
    lemma_negatives_multiply::<B>(x.c1, y.c0, bp);
    B::lemma_mul_negative(x.c0, y.c1, bp);
    B::lemma_negative_of_sum(B::mul_v(x.c0, y.c1, bp), B::mul_v(x.c1, y.c0, bp), bp);
}

/// The conjugate of one is one.
pub proof fn lemma_conjugate_of_one<B: RingLaws>(p: &QuadParams<B>)
    requires
        QuadExt::<B>::params_wf(p),
    ensures
        QuadExt::<B>::conjugate_v(QuadExt::<B>::one_v(p), p) == QuadExt::<B>::one_v(p),
{
    let bp = &p.base;
    let z = B::zero_v(bp);
    B::lemma_zero_one(bp);
    // -0 = 0 + (-0) = 0
    B::lemma_closed(z, z, bp);
    B::lemma_add_negative(z, bp);
    B::lemma_add_zero(B::neg_v(z, bp), bp);
    B::lemma_add_commutative(z, B::neg_v(z, bp), bp);
}

} // verus!

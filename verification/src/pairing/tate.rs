//! The pairing on curves of embedding degree 12 with a sextic twist over the
//! quadratic extension: the second point is unfolded once into the
//! coefficients of all the lines of the loop, the Miller loop reads them in
//! turn, and the final exponentiation follows.

use vstd::prelude::*;
use crate::bigint::limbs_val;
use crate::bits::zip_pairs;
use crate::curves::short_weierstrass::Affine;
use crate::errors::Error;
use crate::fields::cubic::CubicExt;
use crate::fields::field::Field;
use crate::fields::power::pow_v;
use crate::fields::prime::Fp;
use crate::fields::quadratic::{QuadExt, QuadParams};

use crate::pairing::prepared::G1Prepared;

verus! {

/// The quadratic extension of the base field, where the twist lives.
pub type Fq2 = QuadExt<Fp>;

/// The cubic extension of that.
pub type Fq6 = CubicExt<QuadExt<Fp>>;

/// The target field.
pub type Fq12 = QuadExt<CubicExt<QuadExt<Fp>>>;

/// The value of an element of the twist field.
pub type V2 = QuadExt<nat>;

/// The value of an element of the target field.
pub type V12 = QuadExt<CubicExt<QuadExt<nat>>>;

/// The three coefficients of one line.
pub type EllCoeff = (Fq2, Fq2, Fq2);

/// The value of the three coefficients of one line.
pub type EllCoeffValue = (V2, V2, V2);

/// The running point of the unfolding, in homogeneous coordinates, or its value.
pub struct G2HomProjective<T> {
    pub x: T,
    pub y: T,
    pub z: T,
}

/// One term of the hard part of the final exponent: the exponent that the
/// Frobenius image of that index is raised to.
pub struct HardTerm {
    /// The absolute value of the exponent.
    pub exponent: Vec<u64>,
    /// Whether the exponent is negative.
    pub negative: bool,
}

/// What the pairing of one curve family is computed from.
pub struct TateParams {
    /// The target field, which holds the fields below it.
    pub fq12: QuadParams<CubicExt<QuadExt<Fp>>>,
    /// The coefficient `b` of the twisted curve.
    pub twist_b: Fq2,
    /// The inverse of two in the base field.
    pub two_inv: Fp,
    /// The loop count in signed binary digits, most significant first.
    pub loop_digits: Vec<i8>,
    /// The power of the Frobenius map in the easy part of the final exponentiation.
    pub easy_power: usize,
    /// The terms of the hard part of the final exponent, for the Frobenius
    /// images of index 0, 1, and so on.
    pub hard_part: Vec<HardTerm>,
}

/// A point of the second group, unfolded for the Miller loop.
pub struct G2Prepared {
    /// The coefficients of the lines, in the order in which the loop meets them.
    pub ell_coeffs: Vec<EllCoeff>,
    /// Whether the point is the point at infinity.
    pub infinity: bool,
}

/// The value of an unfolded point.
pub struct G2PreparedValue {
    pub ell_coeffs: Seq<EllCoeffValue>,
    pub infinity: bool,
}

/// The value of a pair of prepared points.
pub type PairValue = (Affine<nat>, G2PreparedValue);

/// The sign of a digit.
pub open spec fn sign_of(d: i8) -> i8 {
    if d > 0 {
        1i8
    } else if d < 0 {
        -1i8
    } else {
        0i8
    }
}

/// The signs of the entries of `table`: the signed binary digits that they
/// stand for.
pub fn signed_digits(table: &[i8]) -> (r: Vec<i8>)
    ensures
        r@ == table@.map_values(|d: i8| sign_of(d)),
{
    let mut out: Vec<i8> = Vec::new();
    let mut i: usize = 0;
    while i < table.len()
        invariant
            i <= table@.len(),
            out@.len() == i,
            forall|k: int| 0 <= k < i ==> #[trigger] out@[k] == sign_of(table@[k]),
        decreases table@.len() - i,
    {
        let d = table[i];
        if d > 0 {
            out.push(1);
        } else if d < 0 {
            out.push(-1);
        } else {
            out.push(0);
        }
        i += 1;
    }
    assert(out@ =~= table@.map_values(|d: i8| sign_of(d)));
    out
}

/// The values of a list of points.
pub open spec fn points_value<F: Field>(pts: Seq<Affine<F>>) -> Seq<Affine<F::Value>> {
    pts.map_values(|p: Affine<F>| p.value())
}

/// The value of the coefficients of a line.
pub open spec fn coeff_value(c: EllCoeff) -> EllCoeffValue {
    (c.0.value(), c.1.value(), c.2.value())
}

/// The value of a pair of prepared points.
pub open spec fn pair_value(pq: (G1Prepared, G2Prepared)) -> PairValue {
    (pq.0.value(), pq.1.value())
}

/// The values of a list of pairs.
pub open spec fn pairs_value(pairs: Seq<(G1Prepared, G2Prepared)>) -> Seq<PairValue> {
    pairs.map_values(|pq: (G1Prepared, G2Prepared)| pair_value(pq))
}

/// The pairs among the first `n` of which neither point is the point at infinity.
pub open spec fn keep_nonzero_v(pairs: Seq<PairValue>, n: nat) -> Seq<PairValue>
    decreases n,
{
    if n == 0 {
        Seq::empty()
    } else {
        let rest = keep_nonzero_v(pairs, (n - 1) as nat);
        if !pairs[n - 1].0.infinity && !pairs[n - 1].1.infinity {
            rest.push(pairs[n - 1])
        } else {
            rest
        }
    }
}

impl G2Prepared {
    /// The value of the unfolded point.
    pub open spec fn value(&self) -> G2PreparedValue {
        G2PreparedValue {
            ell_coeffs: self.ell_coeffs@.map_values(|c: EllCoeff| coeff_value(c)),
            infinity: self.infinity,
        }
    }

    /// The coefficients are elements of the twist field, and there are as
    /// many as the loop has lines.
    pub open spec fn wf(&self, pr: &TateParams) -> bool {
        &&& forall|i: int|
            0 <= i < self.ell_coeffs@.len() ==> pr.coeff_wf(#[trigger] self.ell_coeffs@[i])
        &&& if self.infinity {
            self.ell_coeffs@.len() == 0
        } else {
            self.ell_coeffs@.len() == pr.coeff_count((pr.loop_digits@.len() - 1) as nat)
        }
    }

    /// Whether the point is the point at infinity.
    pub fn is_zero(&self) -> (r: bool)
        ensures
            r == self.value().infinity,
    {
        self.infinity
    }
}

impl TateParams {
    /// The target field is usable, the constants are elements of their fields,
    /// every digit of the loop is -1, 0 or 1, and the hard part has one to
    /// four terms.
    pub open spec fn wf(&self) -> bool {
        &&& Fq12::params_wf(&self.fq12)
        &&& self.twist_b.wf(&self.fq12.base.base)
        &&& self.two_inv.wf(&self.fq12.base.base.base)
        &&& 1 <= self.loop_digits@.len() <= 0x7fff_ffff
        &&& forall|i: int|
            0 <= i < self.loop_digits@.len() ==> -1 <= #[trigger] self.loop_digits@[i] <= 1
        &&& 1 <= self.hard_part@.len() <= 4
    }

    /// The three coefficients are elements of the twist field.
    pub open spec fn coeff_wf(&self, c: EllCoeff) -> bool {
        c.0.wf(&self.fq12.base.base) && c.1.wf(&self.fq12.base.base) && c.2.wf(
            &self.fq12.base.base,
        )
    }

    /// The number of lines that the first `n` digits after the leading one bring.
    pub open spec fn coeff_count(&self, n: nat) -> nat
        decreases n,
    {
        if n == 0 {
            0
        } else if self.loop_digits@[n as int] != 0 {
            self.coeff_count((n - 1) as nat) + 2
        } else {
            self.coeff_count((n - 1) as nat) + 1
        }
    }

    /// More digits bring no fewer lines.
    pub proof fn lemma_coeff_count_mono(&self, i: nat, j: nat)
        requires
            i <= j,
        ensures
            self.coeff_count(i) <= self.coeff_count(j),
        decreases j,
    {
        if i < j {
            self.lemma_coeff_count_mono(i, (j - 1) as nat);
        }
    }

    /// The doubling of the running point, and the coefficients of the tangent.
    pub open spec fn doubling_step_v(&self, r: G2HomProjective<V2>) -> (
        G2HomProjective<V2>,
        EllCoeffValue,
    ) {
        let f2 = &self.fq12.base.base;
        let two_inv = self.two_inv.value();
        let a = Fq2::scale_v(Fq2::mul_v(r.x, r.y, f2), two_inv, f2);
        let b = Fq2::mul_v(r.y, r.y, f2);
        let c = Fq2::mul_v(r.z, r.z, f2);
        let e = Fq2::mul_v(self.twist_b.value(), Fq2::add_v(Fq2::add_v(c, c, f2), c, f2), f2);
        let f = Fq2::add_v(Fq2::add_v(e, e, f2), e, f2);
        let g = Fq2::scale_v(Fq2::add_v(b, f, f2), two_inv, f2);
        let yz = Fq2::add_v(r.y, r.z, f2);
        let h = Fq2::sub_v(Fq2::mul_v(yz, yz, f2), Fq2::add_v(b, c, f2), f2);
        let i = Fq2::sub_v(e, b, f2);
        let j = Fq2::mul_v(r.x, r.x, f2);
        let e_square = Fq2::mul_v(e, e, f2);
        (
            G2HomProjective {
                x: Fq2::mul_v(a, Fq2::sub_v(b, f, f2), f2),
                y: Fq2::sub_v(
                    Fq2::mul_v(g, g, f2),
                    Fq2::add_v(Fq2::add_v(e_square, e_square, f2), e_square, f2),
                    f2,
                ),
                z: Fq2::mul_v(b, h, f2),
            },
            (Fq2::neg_v(h, f2), Fq2::add_v(Fq2::add_v(j, j, f2), j, f2), i),
        )
    }

    /// The sum of the running point and `q`, and the coefficients of the line
    /// through them.
    pub open spec fn addition_step_v(&self, r: G2HomProjective<V2>, q: Affine<V2>) -> (
        G2HomProjective<V2>,
        EllCoeffValue,
    ) {
        let f2 = &self.fq12.base.base;
        let theta = Fq2::sub_v(r.y, Fq2::mul_v(q.y, r.z, f2), f2);
        let lambda = Fq2::sub_v(r.x, Fq2::mul_v(q.x, r.z, f2), f2);
        let c = Fq2::mul_v(theta, theta, f2);
        let d = Fq2::mul_v(lambda, lambda, f2);
        let e = Fq2::mul_v(lambda, d, f2);
        let f = Fq2::mul_v(r.z, c, f2);
        let g = Fq2::mul_v(r.x, d, f2);
        let h = Fq2::sub_v(Fq2::add_v(e, f, f2), Fq2::add_v(g, g, f2), f2);
        let j = Fq2::sub_v(Fq2::mul_v(theta, q.x, f2), Fq2::mul_v(lambda, q.y, f2), f2);
        (
            G2HomProjective {
                x: Fq2::mul_v(lambda, h, f2),
                y: Fq2::sub_v(
                    Fq2::mul_v(theta, Fq2::sub_v(g, h, f2), f2),
                    Fq2::mul_v(e, r.y, f2),
                    f2,
                ),
                z: Fq2::mul_v(r.z, e, f2),
            },
            (lambda, Fq2::neg_v(theta, f2), j),
        )
    }

    /// The running point and the coefficients after the first `n` digits that
    /// follow the leading one: each digit brings a doubling, a digit 1 an
    /// addition of `q` after it, a digit -1 an addition of `-q`.
    pub open spec fn prepare_steps_v(&self, q: Affine<V2>, n: nat) -> (
        G2HomProjective<V2>,
        Seq<EllCoeffValue>,
    )
        decreases n,
    {
        let f2 = &self.fq12.base.base;
        if n == 0 {
            (G2HomProjective { x: q.x, y: q.y, z: Fq2::one_v(f2) }, Seq::empty())
        } else {
            let before = self.prepare_steps_v(q, (n - 1) as nat);
            let doubled = self.doubling_step_v(before.0);
            let digit = self.loop_digits@[n as int];
            if digit == 1 {
                let added = self.addition_step_v(doubled.0, q);
                (added.0, before.1.push(doubled.1).push(added.1))
            } else if digit == -1 {
                let added = self.addition_step_v(doubled.0, Affine::<Fq2>::neg_v(q, f2));
                (added.0, before.1.push(doubled.1).push(added.1))
            } else {
                (doubled.0, before.1.push(doubled.1))
            }
        }
    }

    /// The unfolding of `q`.
    pub open spec fn prepare_v(&self, q: Affine<V2>) -> G2PreparedValue {
        if q.infinity {
            G2PreparedValue { ell_coeffs: Seq::empty(), infinity: true }
        } else {
            G2PreparedValue {
                ell_coeffs: self.prepare_steps_v(q, (self.loop_digits@.len() - 1) as nat).1,
                infinity: false,
            }
        }
    }

    /// The unfolding holds one triple for each line.
    pub proof fn lemma_prepare_len(&self, q: Affine<V2>, n: nat)
        requires
            self.wf(),
            n < self.loop_digits@.len(),
        ensures
            self.prepare_steps_v(q, n).1.len() == self.coeff_count(n),
        decreases n,
    {
        if n > 0 {
            self.lemma_prepare_len(q, (n - 1) as nat);
        }
    }

    /// The element of the target field with the three given coefficients at
    /// the places 0, 3 and 4, and zero elsewhere.
    pub open spec fn sparse_034_v(&self, c0: V2, d0: V2, d1: V2) -> V12 {
        let z = Fq2::zero_v(&self.fq12.base.base);
        QuadExt { c0: CubicExt { c0: c0, c1: z, c2: z }, c1: CubicExt { c0: d0, c1: d1, c2: z } }
    }

    /// `f` times the line with coefficients `c`, evaluated at the point `p`.
    pub open spec fn ell_v(&self, f: V12, c: EllCoeffValue, p: Affine<nat>) -> V12 {
        let f2 = &self.fq12.base.base;
        Fq12::mul_v(
            f,
            self.sparse_034_v(Fq2::scale_v(c.0, p.y, f2), Fq2::scale_v(c.1, p.x, f2), c.2),
            &self.fq12,
        )
    }

    /// `f` times the lines of index `idx` of the first `count` pairs.
    pub open spec fn ell_all_v(&self, f: V12, pairs: Seq<PairValue>, count: nat, idx: int) -> V12
        decreases count,
    {
        if count == 0 {
            f
        } else {
            self.ell_v(
                self.ell_all_v(f, pairs, (count - 1) as nat, idx),
                pairs[count - 1].1.ell_coeffs[idx],
                pairs[count - 1].0,
            )
        }
    }

    /// The accumulator of the Miller loop on `pairs` after the first `n`
    /// digits that follow the leading one.
    pub open spec fn chunk_steps_v(&self, pairs: Seq<PairValue>, n: nat) -> V12
        decreases n,
    {
        if n == 0 {
            Fq12::one_v(&self.fq12)
        } else {
            let before = self.chunk_steps_v(pairs, (n - 1) as nat);
            let idx = self.coeff_count((n - 1) as nat) as int;
            let squared = Fq12::mul_v(before, before, &self.fq12);
            let first = self.ell_all_v(squared, pairs, pairs.len(), idx);
            if self.loop_digits@[n as int] != 0 {
                self.ell_all_v(first, pairs, pairs.len(), idx + 1)
            } else {
                first
            }
        }
    }

    /// The Miller loop on a list of pairs, all in one accumulator.
    pub open spec fn chunk_miller_v(&self, pairs: Seq<PairValue>) -> V12 {
        self.chunk_steps_v(pairs, (self.loop_digits@.len() - 1) as nat)
    }

    /// The product of the Miller loops of the first `j` chunks of four pairs.
    pub open spec fn chunks_product_v(&self, kept: Seq<PairValue>, j: nat) -> V12
        decreases j,
    {
        if j == 0 {
            Fq12::one_v(&self.fq12)
        } else {
            let lo: int = 4 * (j - 1);
            let hi: int = if 4 * j <= kept.len() {
                4 * j as int
            } else {
                kept.len() as int
            };
            Fq12::mul_v(
                self.chunks_product_v(kept, (j - 1) as nat),
                self.chunk_miller_v(kept.subrange(lo, hi)),
                &self.fq12,
            )
        }
    }

    /// The Miller loop of a list of pairs: those with a point at infinity are
    /// left out, the others go through the loop four in a chunk, and the
    /// chunks are multiplied.
    pub open spec fn multi_miller_loop_v(&self, pairs: Seq<PairValue>) -> V12 {
        let kept = keep_nonzero_v(pairs, pairs.len());
        self.chunks_product_v(kept, ((kept.len() + 3) / 4) as nat)
    }

    /// The easy part of the final exponentiation: `f^(q^6 - 1)`, from the
    /// conjugate and the inverse, and then, with `k` the configured power,
    /// the power `q^k + 1` of that.
    pub open spec fn easy_part_v(&self, f: V12) -> Option<V12> {
        let f1 = Fq12::conjugate_v(f, &self.fq12);
        match Fq12::inv_v(f, &self.fq12) {
            None => None,
            Some(f2) => {
                let r = Fq12::mul_v(f1, f2, &self.fq12);
                Some(
                    Fq12::mul_v(
                        Fq12::frobenius_v(r, self.easy_power as nat, &self.fq12),
                        r,
                        &self.fq12,
                    ),
                )
            },
        }
    }

    /// The term of index `i` of the hard part: the Frobenius image of index
    /// `i` of `r`, inverted first where the exponent is negative, raised to
    /// the absolute value of the exponent.
    pub open spec fn hard_term_v(&self, r: V12, i: int) -> Option<V12> {
        let image = if i == 0 {
            r
        } else {
            Fq12::frobenius_v(r, i as nat, &self.fq12)
        };
        let e = limbs_val(self.hard_part@[i].exponent@);
        if self.hard_part@[i].negative {
            match Fq12::inv_v(image, &self.fq12) {
                None => None,
                Some(inv) => Some(pow_v::<Fq12>(inv, e, &self.fq12)),
            }
        } else {
            Some(pow_v::<Fq12>(image, e, &self.fq12))
        }
    }

    /// The product of the terms of the hard part from the last down to index `i`.
    pub open spec fn hard_part_v(&self, r: V12, i: int) -> Option<V12>
        decreases self.hard_part@.len() - i,
    {
        if i >= self.hard_part@.len() - 1 {
            self.hard_term_v(r, self.hard_part@.len() - 1)
        } else {
            match self.hard_part_v(r, i + 1) {
                None => None,
                Some(acc) => match self.hard_term_v(r, i) {
                    None => None,
                    Some(t) => Some(Fq12::mul_v(acc, t, &self.fq12)),
                },
            }
        }
    }

    /// A hard part that has failed stays failed.
    pub proof fn lemma_hard_part_fail(&self, r: V12, i: int, j: int)
        requires
            0 <= j <= i,
            self.hard_part_v(r, i) is None,
        ensures
            self.hard_part_v(r, j) is None,
        decreases i - j,
    {
        if j < i {
            self.lemma_hard_part_fail(r, i, j + 1);
            if j + 1 >= self.hard_part@.len() - 1 {
                assert(self.hard_part_v(r, j + 1) == self.hard_part_v(r, j));
            }
        }
    }

    /// The final exponentiation.
    pub open spec fn final_exponentiation_v(&self, f: V12) -> Option<V12> {
        match self.easy_part_v(f) {
            None => None,
            Some(r) => self.hard_part_v(r, 0),
        }
    }

    /// The doubling of the running point, which it replaces, and the
    /// coefficients of the tangent.
    pub fn doubling_step(&self, r: &mut G2HomProjective<Fq2>) -> (c: EllCoeff)
        requires
            self.wf(),
            old(r).x.wf(&self.fq12.base.base),
            old(r).y.wf(&self.fq12.base.base),
            old(r).z.wf(&self.fq12.base.base),
        ensures
            final(r).x.wf(&self.fq12.base.base),
            final(r).y.wf(&self.fq12.base.base),
            final(r).z.wf(&self.fq12.base.base),
            self.coeff_wf(c),
            (
                G2HomProjective { x: final(r).x.value(), y: final(r).y.value(), z: final(r).z.value() },
                coeff_value(c),
            ) == self.doubling_step_v(
                G2HomProjective { x: old(r).x.value(), y: old(r).y.value(), z: old(r).z.value() },
            ),
    {
        // Formula for line function when working with
        // homogeneous projective coordinates.
        let f2 = &self.fq12.base.base;
        let xy = r.x.mul(&r.y, f2);
        let a = xy.scale(&self.two_inv, f2);
        let b = r.y.square(f2);
        let c = r.z.square(f2);
        let c2 = c.double(f2);
        let c3 = c2.add(&c, f2);
        let e = self.twist_b.mul(&c3, f2);
        let e2 = e.double(f2);
        let f = e2.add(&e, f2);
        let bf = b.add(&f, f2);
        let g = bf.scale(&self.two_inv, f2);
        let yz = r.y.add(&r.z, f2);
        let yz2 = yz.square(f2);
        let bc = b.add(&c, f2);
        let h = yz2.sub(&bc, f2);
        let i = e.sub(&b, f2);
        let j = r.x.square(f2);
        let e_square = e.square(f2);
        let b_f = b.sub(&f, f2);
        let g2 = g.square(f2);
        let es2 = e_square.double(f2);
        let es3 = es2.add(&e_square, f2);
        r.x = a.mul(&b_f, f2);
        r.y = g2.sub(&es3, f2);
        r.z = b.mul(&h, f2);
        let j2 = j.double(f2);
        // This is a divisive twist
        (h.neg(f2), j2.add(&j, f2), i)
    }

    /// The sum of the running point, which it replaces, and `q`, and the
    /// coefficients of the line through them.
    pub fn addition_step(&self, r: &mut G2HomProjective<Fq2>, q: &Affine<Fq2>) -> (c: EllCoeff)
        requires
            self.wf(),
            old(r).x.wf(&self.fq12.base.base),
            old(r).y.wf(&self.fq12.base.base),
            old(r).z.wf(&self.fq12.base.base),
            q.x.wf(&self.fq12.base.base),
            q.y.wf(&self.fq12.base.base),
        ensures
            final(r).x.wf(&self.fq12.base.base),
            final(r).y.wf(&self.fq12.base.base),
            final(r).z.wf(&self.fq12.base.base),
            self.coeff_wf(c),
            (
                G2HomProjective { x: final(r).x.value(), y: final(r).y.value(), z: final(r).z.value() },
                coeff_value(c),
            ) == self.addition_step_v(
                G2HomProjective { x: old(r).x.value(), y: old(r).y.value(), z: old(r).z.value() },
                q.value(),
            ),
    {
        // Formula for line function when working with
        // homogeneous projective coordinates.
        let f2 = &self.fq12.base.base;
        let qy_rz = q.y.mul(&r.z, f2);
        let theta = r.y.sub(&qy_rz, f2);
        let qx_rz = q.x.mul(&r.z, f2);
        let lambda = r.x.sub(&qx_rz, f2);
        let c = theta.square(f2);
        let d = lambda.square(f2);
        let e = lambda.mul(&d, f2);
        let f = r.z.mul(&c, f2);
        let g = r.x.mul(&d, f2);
        let ef = e.add(&f, f2);
        let g2 = g.double(f2);
        let h = ef.sub(&g2, f2);
        let gh = g.sub(&h, f2);
        let t_gh = theta.mul(&gh, f2);
        let e_ry = e.mul(&r.y, f2);
        let new_z = r.z.mul(&e, f2);
        r.x = lambda.mul(&h, f2);
        r.y = t_gh.sub(&e_ry, f2);
        r.z = new_z;
        let t_qx = theta.mul(&q.x, f2);
        let l_qy = lambda.mul(&q.y, f2);
        let j = t_qx.sub(&l_qy, f2);
        // This is a divisive twist
        (lambda, theta.neg(f2), j)
    }

    /// The unfolding of a point of the second group.
    pub fn prepare(&self, q: &Affine<Fq2>) -> (r: G2Prepared)
        requires
            self.wf(),
            q.wf(&self.fq12.base.base),
        ensures
            r.wf(self),
            r.value() == self.prepare_v(q.value()),
    {
        let f2 = &self.fq12.base.base;
        if q.is_identity() {
            let r = G2Prepared { ell_coeffs: Vec::new(), infinity: true };
            assert(r.value().ell_coeffs =~= Seq::<EllCoeffValue>::empty());
            return r;
        }
        let mut ell_coeffs: Vec<EllCoeff> = Vec::new();
        let mut r = G2HomProjective { x: q.x.dup(f2), y: q.y.dup(f2), z: Fq2::one(f2) };
        let neg_q = q.neg(f2);
        let ghost qv = q.value();
        let mut n: usize = 1;
        assert(ell_coeffs@.map_values(|c: EllCoeff| coeff_value(c)) =~= Seq::<EllCoeffValue>::empty());
        while n < self.loop_digits.len()
            invariant
                1 <= n <= self.loop_digits.len(),
                self.wf(),
                f2 == &self.fq12.base.base,
                q.wf(f2),
                qv == q.value(),
                neg_q.x.wf(f2),
                neg_q.y.wf(f2),
                neg_q.value() == Affine::<Fq2>::neg_v(qv, f2),
                r.x.wf(f2),
                r.y.wf(f2),
                r.z.wf(f2),
                forall|i: int| 0 <= i < ell_coeffs@.len() ==> self.coeff_wf(#[trigger] ell_coeffs@[i]),
                ell_coeffs@.len() == self.coeff_count((n - 1) as nat),
                (
                    G2HomProjective { x: r.x.value(), y: r.y.value(), z: r.z.value() },
                    ell_coeffs@.map_values(|c: EllCoeff| coeff_value(c)),
                ) == self.prepare_steps_v(qv, (n - 1) as nat),
            decreases self.loop_digits.len() - n,
        {
            let ghost before = ell_coeffs@;
            let c1 = self.doubling_step(&mut r);
            ell_coeffs.push(c1);
            assert(ell_coeffs@.map_values(|c: EllCoeff| coeff_value(c)) =~= before.map_values(
                |c: EllCoeff| coeff_value(c),
            ).push(coeff_value(c1)));
            let digit = self.loop_digits[n];
            if digit == 1 {
                let ghost middle = ell_coeffs@;
                let c2 = self.addition_step(&mut r, q);
                ell_coeffs.push(c2);
                assert(ell_coeffs@.map_values(|c: EllCoeff| coeff_value(c)) =~= middle.map_values(
                    |c: EllCoeff| coeff_value(c),
                ).push(coeff_value(c2)));
            } else if digit == -1 {
                let ghost middle = ell_coeffs@;
                let c2 = self.addition_step(&mut r, &neg_q);
                ell_coeffs.push(c2);
                assert(ell_coeffs@.map_values(|c: EllCoeff| coeff_value(c)) =~= middle.map_values(
                    |c: EllCoeff| coeff_value(c),
                ).push(coeff_value(c2)));
            }
            n += 1;
        }
        G2Prepared { ell_coeffs, infinity: false }
    }

    /// A copy of an unfolded point.
    pub fn dup_prepared(&self, q: &G2Prepared) -> (r: G2Prepared)
        requires
            self.wf(),
            q.wf(self),
        ensures
            r.wf(self),
            r.value() == q.value(),
    {
        let f2 = &self.fq12.base.base;
        let mut ell_coeffs: Vec<EllCoeff> = Vec::new();
        let mut i: usize = 0;
        while i < q.ell_coeffs.len()
            invariant
                i <= q.ell_coeffs.len(),
                self.wf(),
                q.wf(self),
                f2 == &self.fq12.base.base,
                ell_coeffs@.len() == i,
                forall|k: int| 0 <= k < i ==> self.coeff_wf(#[trigger] ell_coeffs@[k]),
                forall|k: int| 0 <= k < i ==> coeff_value(#[trigger] ell_coeffs@[k]) == coeff_value(q.ell_coeffs@[k]),
            decreases q.ell_coeffs.len() - i,
        {
            let c = &q.ell_coeffs[i];
            assert(self.coeff_wf(q.ell_coeffs@[i as int]));
            ell_coeffs.push((c.0.dup(f2), c.1.dup(f2), c.2.dup(f2)));
            i += 1;
        }
        let r = G2Prepared { ell_coeffs, infinity: q.infinity };
        assert(r.value().ell_coeffs =~= q.value().ell_coeffs);
        r
    }

    /// Multiplies `f` by the element with the three given coefficients at
    /// the places 0, 3 and 4.
    pub fn mul_by_034(&self, f: &mut Fq12, c0: Fq2, d0: Fq2, d1: Fq2)
        requires
            self.wf(),
            old(f).wf(&self.fq12),
            c0.wf(&self.fq12.base.base),
            d0.wf(&self.fq12.base.base),
            d1.wf(&self.fq12.base.base),
        ensures
            final(f).wf(&self.fq12),
            final(f).value() == Fq12::mul_v(
                old(f).value(),
                self.sparse_034_v(c0.value(), d0.value(), d1.value()),
                &self.fq12,
            ),
    {
        let f2 = &self.fq12.base.base;
        let sparse = QuadExt {
            c0: CubicExt { c0: c0, c1: Fq2::zero(f2), c2: Fq2::zero(f2) },
            c1: CubicExt { c0: d0, c1: d1, c2: Fq2::zero(f2) },
        };
        let product = f.mul(&sparse, &self.fq12);
        *f = product;
    }

    /// Evaluates the line with the coefficients `coeffs` at the point `p` and
    /// multiplies `f` by it.
    pub fn ell(&self, f: &mut Fq12, coeffs: &EllCoeff, p: &G1Prepared)
        requires
            self.wf(),
            old(f).wf(&self.fq12),
            self.coeff_wf(*coeffs),
            p.wf(&self.fq12.base.base.base),
        ensures
            final(f).wf(&self.fq12),
            final(f).value() == self.ell_v(old(f).value(), coeff_value(*coeffs), p.value()),
    {
        let f2 = &self.fq12.base.base;
        // This is a divisive twist
        let c0 = coeffs.0.scale(&p.0.y, f2);
        let c1 = coeffs.1.scale(&p.0.x, f2);
        let c2 = coeffs.2.dup(f2);
        self.mul_by_034(f, c0, c1, c2);
    }

    /// The pairs from `lo` up to `hi` are usable in a Miller loop: none has a
    /// point at infinity.
    pub open spec fn chunk_wf(&self, pairs: Seq<(G1Prepared, G2Prepared)>, lo: int, hi: int) -> bool {
        &&& 0 <= lo <= hi <= pairs.len()
        &&& forall|k: int|
            lo <= k < hi ==> (#[trigger] pairs[k]).0.wf(&self.fq12.base.base.base) && pairs[k].1.wf(
                self,
            ) && !pairs[k].1.infinity
    }

    fn ell_all(&self, f: &mut Fq12, pairs: &Vec<(G1Prepared, G2Prepared)>, lo: usize, hi: usize, idx: usize)
        requires
            self.wf(),
            old(f).wf(&self.fq12),
            self.chunk_wf(pairs@, lo as int, hi as int),
            idx < self.coeff_count((self.loop_digits@.len() - 1) as nat),
        ensures
            final(f).wf(&self.fq12),
            final(f).value() == self.ell_all_v(
                old(f).value(),
                pairs_value(pairs@).subrange(lo as int, hi as int),
                (hi - lo) as nat,
                idx as int,
            ),
    {
        let ghost chunk = pairs_value(pairs@).subrange(lo as int, hi as int);
        let ghost start = f.value();
        let mut k: usize = lo;
        while k < hi
            invariant
                lo <= k <= hi,
                self.wf(),
                f.wf(&self.fq12),
                self.chunk_wf(pairs@, lo as int, hi as int),
                idx < self.coeff_count((self.loop_digits@.len() - 1) as nat),
                chunk == pairs_value(pairs@).subrange(lo as int, hi as int),
                f.value() == self.ell_all_v(start, chunk, (k - lo) as nat, idx as int),
            decreases hi - k,
        {
            assert(pairs@[k as int].1.wf(self));
            assert(self.coeff_wf(pairs@[k as int].1.ell_coeffs@[idx as int]));
            assert(chunk[k - lo] == pair_value(pairs@[k as int]));
            self.ell(f, &pairs[k].1.ell_coeffs[idx], &pairs[k].0);
            k += 1;
        }
    }

    /// The Miller loop on the pairs from `lo` up to `hi`, all in one accumulator.
    pub fn miller_loop_chunk(&self, pairs: &Vec<(G1Prepared, G2Prepared)>, lo: usize, hi: usize) -> (r:
        Fq12)
        requires
            self.wf(),
            self.chunk_wf(pairs@, lo as int, hi as int),
        ensures
            r.wf(&self.fq12),
            r.value() == self.chunk_miller_v(pairs_value(pairs@).subrange(lo as int, hi as int)),
    {
        let ghost chunk = pairs_value(pairs@).subrange(lo as int, hi as int);
        let mut f = Fq12::one(&self.fq12);
        let mut idx: usize = 0;
        let mut n: usize = 1;
        let total = self.loop_digits.len();
        while n < total
            invariant
                1 <= n <= total,
                total == self.loop_digits.len(),
                self.wf(),
                self.chunk_wf(pairs@, lo as int, hi as int),
                chunk == pairs_value(pairs@).subrange(lo as int, hi as int),
                f.wf(&self.fq12),
                idx == self.coeff_count((n - 1) as nat),
                idx <= 2 * (n - 1),
                f.value() == self.chunk_steps_v(chunk, (n - 1) as nat),
            decreases total - n,
        {
            proof {
                self.lemma_coeff_count_mono(n as nat, (total - 1) as nat);
            }
            f = f.square(&self.fq12);
            self.ell_all(&mut f, pairs, lo, hi, idx);
            idx += 1;
            if self.loop_digits[n] != 0 {
                self.ell_all(&mut f, pairs, lo, hi, idx);
                idx += 1;
            }
            n += 1;
        }
        f
    }

    /// The Miller loop of two lists of prepared points, pair by pair: the
    /// pairs with a point at infinity are left out, the others go through
    /// the loop four in a chunk, and the chunks are multiplied. The lists
    /// have to be of one length.
    pub fn multi_miller_loop(&self, a: Vec<G1Prepared>, b: Vec<G2Prepared>) -> (r: Result<Fq12, Error>)
        requires
            self.wf(),
            forall|i: int| 0 <= i < a@.len() ==> (#[trigger] a@[i]).wf(&self.fq12.base.base.base),
            forall|i: int| 0 <= i < b@.len() ==> (#[trigger] b@[i]).wf(self),
        ensures
            a@.len() != b@.len() ==> r == Err::<Fq12, Error>(Error::MismatchedPairingLists),
            a@.len() == b@.len() ==> r is Ok && r->Ok_0.wf(&self.fq12) && r->Ok_0.value()
                == self.multi_miller_loop_v(pairs_value(a@.zip_with(b@))),
    {
        if a.len() != b.len() {
            return Err(Error::MismatchedPairingLists);
        }
        let ghost zipped = a@.zip_with(b@);
        let pairs = zip_pairs(a, b);
        assert(pairs@ =~= zipped);
        let ghost all = pairs_value(pairs@);
        let fq = &self.fq12.base.base.base;
        let mut kept: Vec<(G1Prepared, G2Prepared)> = Vec::new();
        let mut i: usize = 0;
        assert(pairs_value(kept@) =~= keep_nonzero_v(all, 0));
        while i < pairs.len()
            invariant
                i <= pairs.len(),
                self.wf(),
                fq == &self.fq12.base.base.base,
                all == pairs_value(pairs@),
                forall|k: int|
                    0 <= k < pairs@.len() ==> (#[trigger] pairs@[k]).0.wf(fq) && pairs@[k].1.wf(self),
                self.chunk_wf(kept@, 0, kept@.len() as int),
                pairs_value(kept@) == keep_nonzero_v(all, i as nat),
            decreases pairs.len() - i,
        {
            let p = &pairs[i].0;
            let q = &pairs[i].1;
            assert(pairs@[i as int].0.wf(fq) && pairs@[i as int].1.wf(self));
            if !p.is_zero() && !q.is_zero() {
                let ghost before = kept@;
                let pc = p.dup(fq);
                let qc = self.dup_prepared(q);
                kept.push((pc, qc));
                assert(pairs_value(kept@) =~= pairs_value(before).push(all[i as int]));
            }
            i += 1;
        }
        let ghost kept_v = pairs_value(kept@);
        let mut f = Fq12::one(&self.fq12);
        let ghost mut j: nat = 0;
        let mut lo: usize = 0;
        let len = kept.len();
        while lo < len
            invariant
                self.wf(),
                len == kept.len(),
                self.chunk_wf(kept@, 0, len as int),
                kept_v == pairs_value(kept@),
                f.wf(&self.fq12),
                f.value() == self.chunks_product_v(kept_v, j),
                (lo == 4 * j && lo <= len) || (lo == len && j == (len + 3) / 4),
            decreases len - lo,
        {
            let hi = if len - lo >= 4 {
                lo + 4
            } else {
                len
            };
            let m = self.miller_loop_chunk(&kept, lo, hi);
            f = f.mul(&m, &self.fq12);
            proof {
                j = j + 1;
            }
            lo = hi;
        }
        Ok(f)
    }

    /// One term of the hard part of the final exponentiation.
    pub fn hard_term(&self, r: &Fq12, i: usize) -> (t: Result<Fq12, Error>)
        requires
            self.wf(),
            r.wf(&self.fq12),
            i < self.hard_part@.len(),
        ensures
            match self.hard_term_v(r.value(), i as int) {
                Some(v) => t is Ok && t->Ok_0.wf(&self.fq12) && t->Ok_0.value() == v,
                None => t == Err::<Fq12, Error>(Error::NonInvertible),
            },
    {
        let image = if i == 0 {
            r.dup(&self.fq12)
        } else {
            r.frobenius_map(i, &self.fq12)
        };
        let term = &self.hard_part[i];
        if term.negative {
            match image.inverse(&self.fq12) {
                Some(inv) => Ok(inv.cyclotomic_exp(&term.exponent, &self.fq12)),
                None => Err(Error::NonInvertible),
            }
        } else {
            Ok(image.cyclotomic_exp(&term.exponent, &self.fq12))
        }
    }

    /// The final exponentiation: the power `(q^12 - 1) / r` of `f`. It fails
    /// where `f`, or a base that has to be inverted, has no inverse.
    pub fn final_exponentiation(&self, f: &Fq12) -> (r: Result<Fq12, Error>)
        requires
            self.wf(),
            f.wf(&self.fq12),
        ensures
            match self.final_exponentiation_v(f.value()) {
                Some(v) => r is Ok && r->Ok_0.wf(&self.fq12) && r->Ok_0.value() == v,
                None => r == Err::<Fq12, Error>(Error::NonInvertible),
            },
    {
        let f12 = &self.fq12;
        // f1 = f.conjugate() = f^(q^6)
        let f1 = f.conjugate(f12);
        let f2 = match f.inverse(f12) {
            Some(v) => v,
            None => {
                return Err(Error::NonInvertible);
            },
        };
        // Easy part
        // r = f^(q^6 - 1)
        let r0 = f1.mul(&f2, f12);
        // r = f^((q^6 - 1)(q^2 + 1))
        let r1 = r0.frobenius_map(self.easy_power, f12);
        let r = r1.mul(&r0, f12);
        // Hard part
        let ghost rv = r.value();
        let count = self.hard_part.len();
        let mut i: usize = count - 1;
        let mut acc = match self.hard_term(&r, i) {
            Ok(t) => t,
            Err(e) => {
                proof {
                    self.lemma_hard_part_fail(rv, i as int, 0);
                }
                return Err(Error::NonInvertible);
            },
        };
        while i > 0
            invariant
                i < count,
                count == self.hard_part@.len(),
                self.wf(),
                f12 == &self.fq12,
                r.wf(f12),
                rv == r.value(),
                self.easy_part_v(f.value()) == Some(rv),
                acc.wf(f12),
                self.hard_part_v(rv, i as int) == Some(acc.value()),
            decreases i,
        {
            i -= 1;
            let t = match self.hard_term(&r, i) {
                Ok(t) => t,
                Err(e) => {
                    proof {
                        assert(self.hard_part_v(rv, i as int) is None);
                        self.lemma_hard_part_fail(rv, i as int, 0);
                    }
                    return Err(Error::NonInvertible);
                },
            };
            acc = acc.mul(&t, f12);
        }
        Ok(acc)
    }

    /// The pairs of the points of `ps` with the unfoldings of the points of `qs`.
    pub open spec fn prepared_pairs_v(&self, ps: Seq<Affine<nat>>, qs: Seq<Affine<V2>>) -> Seq<
        PairValue,
    > {
        Seq::new(ps.len(), |i: int| (ps[i], self.prepare_v(qs[i])))
    }

    /// The product of the pairings of the points of `ps` with the points of
    /// `qs` at the same places: one Miller loop over all the pairs, and one
    /// final exponentiation.
    pub open spec fn multi_pairing_v(&self, ps: Seq<Affine<nat>>, qs: Seq<Affine<V2>>) -> Option<V12> {
        self.final_exponentiation_v(self.multi_miller_loop_v(self.prepared_pairs_v(ps, qs)))
    }

    /// The pairing of `p` and `q`.
    pub open spec fn pairing_v(&self, p: Affine<nat>, q: Affine<V2>) -> Option<V12> {
        self.multi_pairing_v(seq![p], seq![q])
    }

    /// The product of the pairings of the points of `ps` with the points of
    /// `qs` at the same places. The lists have to be of one length; the
    /// final exponentiation fails where the Miller loop gives an element
    /// without an inverse.
    pub fn multi_pairing(&self, ps: &Vec<Affine<Fp>>, qs: &Vec<Affine<Fq2>>) -> (r: Result<Fq12, Error>)
        requires
            self.wf(),
            forall|i: int| 0 <= i < ps@.len() ==> (#[trigger] ps@[i]).wf(&self.fq12.base.base.base),
            forall|i: int| 0 <= i < qs@.len() ==> (#[trigger] qs@[i]).wf(&self.fq12.base.base),
        ensures
            ps@.len() != qs@.len() ==> r == Err::<Fq12, Error>(Error::MismatchedPairingLists),
            ps@.len() == qs@.len() ==> match self.multi_pairing_v(
                points_value::<Fp>(ps@),
                points_value::<Fq2>(qs@),
            ) {
                Some(v) => r is Ok && r->Ok_0.wf(&self.fq12) && r->Ok_0.value() == v,
                None => r == Err::<Fq12, Error>(Error::NonInvertible),
            },
    {
        if ps.len() != qs.len() {
            return Err(Error::MismatchedPairingLists);
        }
        let fq = &self.fq12.base.base.base;
        let mut a: Vec<G1Prepared> = Vec::new();
        let mut b: Vec<G2Prepared> = Vec::new();
        let mut i: usize = 0;
        while i < ps.len()
            invariant
                i <= ps.len(),
                ps.len() == qs.len(),
                self.wf(),
                fq == &self.fq12.base.base.base,
                forall|k: int| 0 <= k < ps@.len() ==> (#[trigger] ps@[k]).wf(fq),
                forall|k: int| 0 <= k < qs@.len() ==> (#[trigger] qs@[k]).wf(&self.fq12.base.base),
                a@.len() == i,
                b@.len() == i,
                forall|k: int| 0 <= k < i ==> (#[trigger] a@[k]).wf(fq) && a@[k].value() == ps@[k].value(),
                forall|k: int|
                    0 <= k < i ==> (#[trigger] b@[k]).wf(self) && b@[k].value() == self.prepare_v(
                        qs@[k].value(),
                    ),
            decreases ps.len() - i,
        {
            a.push(G1Prepared(ps[i].dup(fq)));
            b.push(self.prepare(&qs[i]));
            i += 1;
        }
        proof {
            assert(pairs_value(a@.zip_with(b@)) =~= self.prepared_pairs_v(
                points_value::<Fp>(ps@),
                points_value::<Fq2>(qs@),
            ));
        }
        match self.multi_miller_loop(a, b) {
            Ok(m) => self.final_exponentiation(&m),
            Err(e) => Err(e),
        }
    }

    /// The pairing of `p` and `q`.
    pub fn pairing(&self, p: &Affine<Fp>, q: &Affine<Fq2>) -> (r: Result<Fq12, Error>)
        requires
            self.wf(),
            p.wf(&self.fq12.base.base.base),
            q.wf(&self.fq12.base.base),
        ensures
            match self.pairing_v(p.value(), q.value()) {
                Some(v) => r is Ok && r->Ok_0.wf(&self.fq12) && r->Ok_0.value() == v,
                None => r == Err::<Fq12, Error>(Error::NonInvertible),
            },
    {
        let mut ps: Vec<Affine<Fp>> = Vec::new();
        ps.push(p.dup(&self.fq12.base.base.base));
        let mut qs: Vec<Affine<Fq2>> = Vec::new();
        qs.push(q.dup(&self.fq12.base.base));
        proof {
            assert(points_value::<Fp>(ps@) =~= seq![p.value()]);
            assert(points_value::<Fq2>(qs@) =~= seq![q.value()]);
        }
        self.multi_pairing(&ps, &qs)
    }
}

} // verus!

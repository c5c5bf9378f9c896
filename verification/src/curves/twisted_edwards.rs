//! Curves `a x^2 + y^2 = 1 + d x^2 y^2` over any field, in affine and in
//! extended projective coordinates, with the one addition law that holds
//! for every pair of points.

use vstd::prelude::*;
use crate::bigint::limbs_val;
use crate::bits::{bits_be, bits_of};
use crate::errors::Error;
use crate::fields::field::Field;

verus! {

/// A point `(x, y)`, or the value of one. The neutral point is `(0, 1)`.
pub struct TeAffine<T> {
    pub x: T,
    pub y: T,
}

/// A point `(x : y : t : z)` in extended coordinates, with `x y = t z`, or
/// the value of one.
pub struct TeProjective<T> {
    pub x: T,
    pub y: T,
    pub t: T,
    pub z: T,
}

/// The coefficients of a curve `a x^2 + y^2 = 1 + d x^2 y^2`.
pub struct TeCurve<F: Field> {
    pub a: F,
    pub d: F,
}

impl<F: Field> TeCurve<F> {
    /// The coefficients are elements of the field `fp`.
    pub open spec fn wf(&self, fp: &F::Params) -> bool {
        F::params_wf(fp) && self.a.wf(fp) && self.d.wf(fp)
    }

    /// The point satisfies the curve equation.
    pub open spec fn on_curve_v(&self, pt: TeAffine<F::Value>, fp: &F::Params) -> bool {
        let xx = F::mul_v(pt.x, pt.x, fp);
        let yy = F::mul_v(pt.y, pt.y, fp);
        F::add_v(F::mul_v(self.a.value(), xx, fp), yy, fp) == F::add_v(
            F::one_v(fp),
            F::mul_v(self.d.value(), F::mul_v(xx, yy, fp), fp),
            fp,
        )
    }

    /// The value of the neutral point in extended coordinates.
    pub open spec fn identity_v(fp: &F::Params) -> TeProjective<F::Value> {
        TeProjective { x: F::zero_v(fp), y: F::one_v(fp), t: F::zero_v(fp), z: F::one_v(fp) }
    }

    /// The extended point that stands for an affine one.
    pub open spec fn lift_v(q: TeAffine<F::Value>, fp: &F::Params) -> TeProjective<
        F::Value,
    > {
        TeProjective { x: q.x, y: q.y, t: F::mul_v(q.x, q.y, fp), z: F::one_v(fp) }
    }

    /// The sum of two points, by the unified addition law.
    pub open spec fn add_v(
        &self,
        p: TeProjective<F::Value>,
        q: TeProjective<F::Value>,
        fp: &F::Params,
    ) -> TeProjective<F::Value> {
        let a = F::mul_v(p.x, q.x, fp);
        let b = F::mul_v(p.y, q.y, fp);
        let c = F::mul_v(F::mul_v(p.t, self.d.value(), fp), q.t, fp);
        let d = F::mul_v(p.z, q.z, fp);
        let e = F::sub_v(
            F::sub_v(F::mul_v(F::add_v(p.x, p.y, fp), F::add_v(q.x, q.y, fp), fp), a, fp),
            b,
            fp,
        );
        let f = F::sub_v(d, c, fp);
        let g = F::add_v(d, c, fp);
        let h = F::sub_v(b, F::mul_v(self.a.value(), a, fp), fp);
        TeProjective {
            x: F::mul_v(e, f, fp),
            y: F::mul_v(g, h, fp),
            t: F::mul_v(e, h, fp),
            z: F::mul_v(f, g, fp),
        }
    }

    /// `n` times the affine point `q`, by the binary expansion of `n`: the
    /// double of `n / 2` times `q`, plus `q` where `n` is odd.
    pub open spec fn scalar_mul_v(
        &self,
        q: TeAffine<F::Value>,
        n: nat,
        fp: &F::Params,
    ) -> TeProjective<F::Value>
        decreases n,
    {
        if n == 0 {
            Self::identity_v(fp)
        } else {
            let h = self.scalar_mul_v(q, n / 2, fp);
            let d = self.add_v(h, h, fp);
            if n % 2 == 1 {
                self.add_v(d, Self::lift_v(q, fp), fp)
            } else {
                d
            }
        }
    }

    /// The same over a list of binary digits, most significant first.
    pub open spec fn scalar_mul_bits_v(
        &self,
        q: TeAffine<F::Value>,
        bits: Seq<bool>,
        fp: &F::Params,
    ) -> TeProjective<F::Value>
        decreases bits.len(),
    {
        if bits.len() == 0 {
            Self::identity_v(fp)
        } else {
            let h = self.scalar_mul_bits_v(q, bits.drop_last(), fp);
            let d = self.add_v(h, h, fp);
            if bits.last() {
                self.add_v(d, Self::lift_v(q, fp), fp)
            } else {
                d
            }
        }
    }

    /// The multiple over the binary digits of `n` is the multiple by `n`.
    pub proof fn lemma_scalar_mul_bits(&self, q: TeAffine<F::Value>, n: nat, fp: &F::Params)
        ensures
            self.scalar_mul_bits_v(q, bits_of(n), fp) == self.scalar_mul_v(q, n, fp),
        decreases n,
    {
        if n > 0 {
            self.lemma_scalar_mul_bits(q, n / 2, fp);
            assert(bits_of(n).drop_last() =~= bits_of(n / 2));
        }
    }

    /// Whether an extended point stands for the neutral point: `x` is zero
    /// and `y` equals `z`.
    pub open spec fn is_identity_v(p: TeProjective<F::Value>, fp: &F::Params) -> bool {
        p.x == F::zero_v(fp) && p.y == p.z
    }

    /// Whether `n` times `q` is the neutral point.
    pub open spec fn killed_by_v(&self, q: TeAffine<F::Value>, n: nat, fp: &F::Params) -> bool {
        Self::is_identity_v(self.scalar_mul_v(q, n, fp), fp)
    }

    /// Whether two extended points stand for the same point.
    pub open spec fn same_point_v(
        p: TeProjective<F::Value>,
        q: TeProjective<F::Value>,
        fp: &F::Params,
    ) -> bool {
        F::mul_v(p.x, q.z, fp) == F::mul_v(q.x, p.z, fp) && F::mul_v(p.y, q.z, fp) == F::mul_v(
            q.y,
            p.z,
            fp,
        )
    }

    /// The affine point that an extended point stands for, where `z` has an inverse.
    pub open spec fn to_affine_v(p: TeProjective<F::Value>, fp: &F::Params) -> Option<
        TeAffine<F::Value>,
    > {
        match F::inv_v(p.z, fp) {
            Some(zi) => Some(TeAffine { x: F::mul_v(p.x, zi, fp), y: F::mul_v(p.y, zi, fp) }),
            None => None,
        }
    }

    /// The coefficients `(A, B)` of the Montgomery form `B v^2 = u^3 + A u^2 + u`
    /// of the curve: `A = 2 (a + d) / (a - d)` and `B = 4 / (a - d)`, where
    /// `a - d` has an inverse.
    pub open spec fn montgomery_v(&self, fp: &F::Params) -> Option<(F::Value, F::Value)> {
        let two = F::add_v(F::one_v(fp), F::one_v(fp), fp);
        let four = F::add_v(two, two, fp);
        match F::inv_v(F::sub_v(self.a.value(), self.d.value(), fp), fp) {
            None => None,
            Some(inv) => Some(
                (
                    F::mul_v(F::mul_v(two, F::add_v(self.a.value(), self.d.value(), fp), fp), inv, fp),
                    F::mul_v(four, inv, fp),
                ),
            ),
        }
    }

    /// The coefficients `(A, B)` of the Montgomery form of the curve.
    pub fn montgomery_coefficients(&self, fp: &F::Params) -> (r: Result<(F, F), Error>)
        requires
            self.wf(fp),
        ensures
            match self.montgomery_v(fp) {
                Some(v) => r is Ok && r->Ok_0.0.wf(fp) && r->Ok_0.1.wf(fp) && r->Ok_0.0.value() == v.0
                    && r->Ok_0.1.value() == v.1,
                None => r == Err::<(F, F), Error>(Error::NonInvertible),
            },
    {
        let one = F::one(fp);
        let two = one.double(fp);
        let four = two.double(fp);
        let diff = self.a.sub(&self.d, fp);
        match diff.inverse(fp) {
            Some(inv) => {
                let sum = self.a.add(&self.d, fp);
                let t = two.mul(&sum, fp);
                Ok((t.mul(&inv, fp), four.mul(&inv, fp)))
            },
            None => Err(Error::NonInvertible),
        }
    }

    /// Whether the point satisfies the curve equation.
    pub fn is_on_curve(&self, pt: &TeAffine<F>, fp: &F::Params) -> (r: bool)
        requires
            self.wf(fp),
            pt.wf(fp),
        ensures
            r == self.on_curve_v(pt.value(), fp),
    {
        let xx = pt.x.mul(&pt.x, fp);
        let yy = pt.y.mul(&pt.y, fp);
        let axx = self.a.mul(&xx, fp);
        let lhs = axx.add(&yy, fp);
        let xxyy = xx.mul(&yy, fp);
        let dxxyy = self.d.mul(&xxyy, fp);
        let one = F::one(fp);
        let rhs = one.add(&dxxyy, fp);
        lhs.same(&rhs, fp)
    }

    /// The point `(x, y)`, which has to lie on the curve.
    pub fn point(&self, x: F, y: F, fp: &F::Params) -> (r: Result<TeAffine<F>, Error>)
        requires
            self.wf(fp),
            x.wf(fp),
            y.wf(fp),
        ensures
            match r {
                Ok(pt) => pt.wf(fp) && pt.value() == (TeAffine { x: x.value(), y: y.value() })
                    && self.on_curve_v(pt.value(), fp),
                Err(e) => e == Error::NotOnCurve && !self.on_curve_v(
                    TeAffine { x: x.value(), y: y.value() },
                    fp,
                ),
            },
    {
        let pt = TeAffine { x, y };
        if self.is_on_curve(&pt, fp) {
            Ok(pt)
        } else {
            Err(Error::NotOnCurve)
        }
    }

    /// The point `(x, y)`, which has to lie on the curve and to be killed by `order`.
    pub fn point_in_subgroup(&self, x: F, y: F, order: &Vec<u64>, fp: &F::Params) -> (r: Result<
        TeAffine<F>,
        Error,
    >)
        requires
            self.wf(fp),
            x.wf(fp),
            y.wf(fp),
        ensures
            ({
                let v = TeAffine { x: x.value(), y: y.value() };
                match r {
                    Ok(pt) => pt.wf(fp) && pt.value() == v && self.on_curve_v(v, fp)
                        && self.killed_by_v(v, limbs_val(order@), fp),
                    Err(e) => if self.on_curve_v(v, fp) {
                        e == Error::NotInSubgroup && !self.killed_by_v(v, limbs_val(order@), fp)
                    } else {
                        e == Error::NotOnCurve
                    },
                }
            }),
    {
        let pt = TeAffine { x, y };
        if !self.is_on_curve(&pt, fp) {
            return Err(Error::NotOnCurve);
        }
        if self.is_in_subgroup(&pt, order, fp) {
            Ok(pt)
        } else {
            Err(Error::NotInSubgroup)
        }
    }

    /// The sum of two points, by the unified addition law.
    pub fn add(&self, p: &TeProjective<F>, q: &TeProjective<F>, fp: &F::Params) -> (r:
        TeProjective<F>)
        requires
            self.wf(fp),
            p.wf(fp),
            q.wf(fp),
        ensures
            r.wf(fp),
            r.value() == self.add_v(p.value(), q.value(), fp),
    {
        let a = p.x.mul(&q.x, fp);
        let b = p.y.mul(&q.y, fp);
        let td = p.t.mul(&self.d, fp);
        let c = td.mul(&q.t, fp);
        let d = p.z.mul(&q.z, fp);
        let s1 = p.x.add(&p.y, fp);
        let s2 = q.x.add(&q.y, fp);
        let m = s1.mul(&s2, fp);
        let ma = m.sub(&a, fp);
        let e = ma.sub(&b, fp);
        let f = d.sub(&c, fp);
        let g = d.add(&c, fp);
        let aa = self.a.mul(&a, fp);
        let h = b.sub(&aa, fp);
        TeProjective { x: e.mul(&f, fp), y: g.mul(&h, fp), t: e.mul(&h, fp), z: f.mul(&g, fp) }
    }

    /// The double of a point: its sum with itself.
    pub fn double(&self, p: &TeProjective<F>, fp: &F::Params) -> (r: TeProjective<F>)
        requires
            self.wf(fp),
            p.wf(fp),
        ensures
            r.wf(fp),
            r.value() == self.add_v(p.value(), p.value(), fp),
    {
        self.add(p, p, fp)
    }

    /// The multiple of an affine point by the number that the limbs `k` stand
    /// for, by doubling and adding from the most significant bit down.
    pub fn mul_bigint(&self, q: &TeAffine<F>, k: &Vec<u64>, fp: &F::Params) -> (r:
        TeProjective<F>)
        requires
            self.wf(fp),
            q.wf(fp),
        ensures
            r.wf(fp),
            r.value() == self.scalar_mul_v(q.value(), limbs_val(k@), fp),
    {
        let bits = bits_be(k);
        let lifted = q.to_projective(fp);
        let mut acc: TeProjective<F> = TeProjective::identity(fp);
        let mut i: usize = 0;
        assert(bits@.take(0).len() == 0);
        while i < bits.len()
            invariant
                i <= bits.len(),
                self.wf(fp),
                q.wf(fp),
                lifted.wf(fp),
                lifted.value() == Self::lift_v(q.value(), fp),
                acc.wf(fp),
                acc.value() == self.scalar_mul_bits_v(q.value(), bits@.take(i as int), fp),
            decreases bits.len() - i,
        {
            let d = self.add(&acc, &acc, fp);
            proof {
                assert(bits@.take(i + 1).drop_last() =~= bits@.take(i as int));
            }
            if bits[i] {
                acc = self.add(&d, &lifted, fp);
            } else {
                acc = d;
            }
            i += 1;
        }
        proof {
            assert(bits@.take(bits.len() as int) =~= bits@);
            self.lemma_scalar_mul_bits(q.value(), limbs_val(k@), fp);
        }
        acc
    }

    /// The point with the cofactor cleared: the cofactor times the point,
    /// which lies in the subgroup of prime order.
    pub fn clear_cofactor(&self, q: &TeAffine<F>, cofactor: &Vec<u64>, fp: &F::Params) -> (r:
        TeProjective<F>)
        requires
            self.wf(fp),
            q.wf(fp),
        ensures
            r.wf(fp),
            r.value() == self.scalar_mul_v(q.value(), limbs_val(cofactor@), fp),
    {
        self.mul_bigint(q, cofactor, fp)
    }

    /// Whether `order` times the point is the neutral point.
    pub fn is_in_subgroup(&self, q: &TeAffine<F>, order: &Vec<u64>, fp: &F::Params) -> (r: bool)
        requires
            self.wf(fp),
            q.wf(fp),
        ensures
            r == self.killed_by_v(q.value(), limbs_val(order@), fp),
    {
        let m = self.mul_bigint(q, order, fp);
        m.is_identity(fp)
    }
}

impl<F: Field> TeAffine<F> {
    /// The value that the point stands for.
    pub open spec fn value(&self) -> TeAffine<F::Value> {
        TeAffine { x: self.x.value(), y: self.y.value() }
    }

    /// The coordinates are elements of the field `fp`.
    pub open spec fn wf(&self, fp: &F::Params) -> bool {
        self.x.wf(fp) && self.y.wf(fp)
    }

    /// The value of the negative of a point.
    pub open spec fn neg_v(q: TeAffine<F::Value>, fp: &F::Params) -> TeAffine<F::Value> {
        TeAffine { x: F::neg_v(q.x, fp), y: q.y }
    }

    /// The neutral point `(0, 1)`.
    pub fn identity(fp: &F::Params) -> (r: Self)
        requires
            F::params_wf(fp),
        ensures
            r.wf(fp),
            r.value() == (TeAffine { x: F::zero_v(fp), y: F::one_v(fp) }),
    {
        TeAffine { x: F::zero(fp), y: F::one(fp) }
    }

    /// The point `(x, y)`, whether or not it lies on any curve.
    pub fn new_unchecked(x: F, y: F) -> (r: Self)
        ensures
            r.x == x,
            r.y == y,
    {
        TeAffine { x, y }
    }

    /// Whether the point is the neutral point.
    pub fn is_identity(&self, fp: &F::Params) -> (r: bool)
        requires
            F::params_wf(fp),
            self.wf(fp),
        ensures
            r == (self.value() == TeAffine { x: F::zero_v(fp), y: F::one_v(fp) }),
    {
        let one = F::one(fp);
        self.x.is_zero(fp) && self.y.same(&one, fp)
    }

    /// Whether two points are the same.
    pub fn same(&self, rhs: &Self, fp: &F::Params) -> (r: bool)
        requires
            F::params_wf(fp),
            self.wf(fp),
            rhs.wf(fp),
        ensures
            r == (self.value() == rhs.value()),
    {
        self.x.same(&rhs.x, fp) && self.y.same(&rhs.y, fp)
    }

    /// The negative of the point.
    pub fn neg(&self, fp: &F::Params) -> (r: Self)
        requires
            F::params_wf(fp),
            self.wf(fp),
        ensures
            r.wf(fp),
            r.value() == Self::neg_v(self.value(), fp),
    {
        TeAffine { x: self.x.neg(fp), y: self.y.dup(fp) }
    }

    /// The point in extended coordinates.
    pub fn to_projective(&self, fp: &F::Params) -> (r: TeProjective<F>)
        requires
            F::params_wf(fp),
            self.wf(fp),
        ensures
            r.wf(fp),
            r.value() == TeCurve::<F>::lift_v(self.value(), fp),
    {
        TeProjective {
            x: self.x.dup(fp),
            y: self.y.dup(fp),
            t: self.x.mul(&self.y, fp),
            z: F::one(fp),
        }
    }
}

impl<F: Field> TeProjective<F> {
    /// The value that the point stands for.
    pub open spec fn value(&self) -> TeProjective<F::Value> {
        TeProjective {
            x: self.x.value(),
            y: self.y.value(),
            t: self.t.value(),
            z: self.z.value(),
        }
    }

    /// The coordinates are elements of the field `fp`.
    pub open spec fn wf(&self, fp: &F::Params) -> bool {
        self.x.wf(fp) && self.y.wf(fp) && self.t.wf(fp) && self.z.wf(fp)
    }

    /// The value of the negative of a point.
    pub open spec fn neg_v(p: TeProjective<F::Value>, fp: &F::Params) -> TeProjective<
        F::Value,
    > {
        TeProjective { x: F::neg_v(p.x, fp), y: p.y, t: F::neg_v(p.t, fp), z: p.z }
    }

    /// The neutral point.
    pub fn identity(fp: &F::Params) -> (r: Self)
        requires
            F::params_wf(fp),
        ensures
            r.wf(fp),
            r.value() == TeCurve::<F>::identity_v(fp),
    {
        TeProjective { x: F::zero(fp), y: F::one(fp), t: F::zero(fp), z: F::one(fp) }
    }

    /// Whether the point stands for the neutral point.
    pub fn is_identity(&self, fp: &F::Params) -> (r: bool)
        requires
            F::params_wf(fp),
            self.wf(fp),
        ensures
            r == TeCurve::<F>::is_identity_v(self.value(), fp),
    {
        self.x.is_zero(fp) && self.y.same(&self.z, fp)
    }

    /// The negative of the point.
    pub fn neg(&self, fp: &F::Params) -> (r: Self)
        requires
            F::params_wf(fp),
            self.wf(fp),
        ensures
            r.wf(fp),
            r.value() == Self::neg_v(self.value(), fp),
    {
        TeProjective {
            x: self.x.neg(fp),
            y: self.y.dup(fp),
            t: self.t.neg(fp),
            z: self.z.dup(fp),
        }
    }

    /// Whether two extended points stand for the same point.
    pub fn same(&self, rhs: &Self, fp: &F::Params) -> (r: bool)
        requires
            F::params_wf(fp),
            self.wf(fp),
            rhs.wf(fp),
        ensures
            r == TeCurve::<F>::same_point_v(self.value(), rhs.value(), fp),
    {
        let x1z2 = self.x.mul(&rhs.z, fp);
        let x2z1 = rhs.x.mul(&self.z, fp);
        let y1z2 = self.y.mul(&rhs.z, fp);
        let y2z1 = rhs.y.mul(&self.z, fp);
        x1z2.same(&x2z1, fp) && y1z2.same(&y2z1, fp)
    }

    /// The affine point that this point stands for. The one division that
    /// this takes fails where `z` has no inverse.
    pub fn to_affine(&self, fp: &F::Params) -> (r: Result<TeAffine<F>, Error>)
        requires
            F::params_wf(fp),
            self.wf(fp),
        ensures
            match TeCurve::<F>::to_affine_v(self.value(), fp) {
                Some(v) => r is Ok && r->Ok_0.wf(fp) && r->Ok_0.value() == v,
                None => r == Err::<TeAffine<F>, Error>(Error::NonInvertible),
            },
    {
        match self.z.inverse(fp) {
            Some(zi) => Ok(TeAffine { x: self.x.mul(&zi, fp), y: self.y.mul(&zi, fp) }),
            None => Err(Error::NonInvertible),
        }
    }
}

} // verus!

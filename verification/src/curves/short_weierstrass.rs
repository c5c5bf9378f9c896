//! Curves `y^2 = x^3 + a x + b` over any field, in affine and in homogeneous
//! projective coordinates.

use vstd::prelude::*;
use crate::bigint::limbs_val;
use crate::bits::{bits_be, bits_of};
use crate::encoding::slice_bytes;
use crate::errors::Error;
use crate::fields::field::Field;

verus! {

/// A point `(x, y)`, or the point at infinity; also the value of one.
///
/// The point at infinity is held with both coordinates zero.
pub struct Affine<T> {
    pub x: T,
    pub y: T,
    pub infinity: bool,
}

/// A point `(x : y : z)` in homogeneous coordinates, or the value of one.
/// The points with `z = 0` stand for the point at infinity.
pub struct Projective<T> {
    pub x: T,
    pub y: T,
    pub z: T,
}

/// The coefficients of a curve `y^2 = x^3 + a x + b`.
pub struct SwCurve<F: Field> {
    pub a: F,
    pub b: F,
}

impl<F: Field> SwCurve<F> {
    /// The coefficients are elements of the field `fp`.
    pub open spec fn wf(&self, fp: &F::Params) -> bool {
        F::params_wf(fp) && self.a.wf(fp) && self.b.wf(fp)
    }

    /// `x^3 + a x + b`.
    pub open spec fn rhs_v(&self, x: F::Value, fp: &F::Params) -> F::Value {
        F::add_v(
            F::add_v(F::mul_v(F::mul_v(x, x, fp), x, fp), F::mul_v(self.a.value(), x, fp), fp),
            self.b.value(),
            fp,
        )
    }

    /// The point is the point at infinity or satisfies the curve equation.
    pub open spec fn on_curve_v(&self, pt: Affine<F::Value>, fp: &F::Params) -> bool {
        pt.infinity || F::mul_v(pt.y, pt.y, fp) == self.rhs_v(pt.x, fp)
    }

    /// The value of the point at infinity in projective coordinates.
    pub open spec fn identity_v(fp: &F::Params) -> Projective<F::Value> {
        Projective { x: F::zero_v(fp), y: F::one_v(fp), z: F::zero_v(fp) }
    }

    /// The double of a projective point.
    pub open spec fn double_v(&self, p: Projective<F::Value>, fp: &F::Params) -> Projective<
        F::Value,
    > {
        let xx = F::mul_v(p.x, p.x, fp);
        let zz = F::mul_v(p.z, p.z, fp);
        let w = F::add_v(F::mul_v(self.a.value(), zz, fp), F::add_v(F::add_v(xx, xx, fp), xx, fp), fp);
        let yz = F::mul_v(p.y, p.z, fp);
        let s = F::add_v(yz, yz, fp);
        let ss = F::mul_v(s, s, fp);
        let sss = F::mul_v(s, ss, fp);
        let r = F::mul_v(p.y, s, fp);
        let rr = F::mul_v(r, r, fp);
        let xr = F::add_v(p.x, r, fp);
        let b = F::sub_v(F::sub_v(F::mul_v(xr, xr, fp), xx, fp), rr, fp);
        let h = F::sub_v(F::mul_v(w, w, fp), F::add_v(b, b, fp), fp);
        Projective {
            x: F::mul_v(h, s, fp),
            y: F::sub_v(F::mul_v(w, F::sub_v(b, h, fp), fp), F::add_v(rr, rr, fp), fp),
            z: sss,
        }
    }

    /// The sum of two projective points whose `x`-coordinates differ as
    /// points: `u` and `v` are the differences of the cross products.
    pub open spec fn add_distinct_v(
        p: Projective<F::Value>,
        y1z2: F::Value,
        x1z2: F::Value,
        z1z2: F::Value,
        u: F::Value,
        v: F::Value,
        fp: &F::Params,
    ) -> Projective<F::Value> {
        let uu = F::mul_v(u, u, fp);
        let vv = F::mul_v(v, v, fp);
        let vvv = F::mul_v(v, vv, fp);
        let r = F::mul_v(vv, x1z2, fp);
        let a = F::sub_v(F::sub_v(F::mul_v(uu, z1z2, fp), vvv, fp), F::add_v(r, r, fp), fp);
        Projective {
            x: F::mul_v(v, a, fp),
            y: F::sub_v(F::mul_v(u, F::sub_v(r, a, fp), fp), F::mul_v(vvv, y1z2, fp), fp),
            z: F::mul_v(vvv, z1z2, fp),
        }
    }

    /// The sum of two projective points.
    pub open spec fn add_v(
        &self,
        p: Projective<F::Value>,
        q: Projective<F::Value>,
        fp: &F::Params,
    ) -> Projective<F::Value> {
        if p.z == F::zero_v(fp) {
            q
        } else if q.z == F::zero_v(fp) {
            p
        } else {
            let y1z2 = F::mul_v(p.y, q.z, fp);
            let x1z2 = F::mul_v(p.x, q.z, fp);
            let z1z2 = F::mul_v(p.z, q.z, fp);
            let u = F::sub_v(F::mul_v(q.y, p.z, fp), y1z2, fp);
            let v = F::sub_v(F::mul_v(q.x, p.z, fp), x1z2, fp);
            if v == F::zero_v(fp) {
                if u == F::zero_v(fp) {
                    self.double_v(p, fp)
                } else {
                    Self::identity_v(fp)
                }
            } else {
                Self::add_distinct_v(p, y1z2, x1z2, z1z2, u, v, fp)
            }
        }
    }

    /// The projective point that stands for an affine one.
    pub open spec fn lift_v(q: Affine<F::Value>, fp: &F::Params) -> Projective<F::Value> {
        if q.infinity {
            Self::identity_v(fp)
        } else {
            Projective { x: q.x, y: q.y, z: F::one_v(fp) }
        }
    }

    /// The sum of a projective and an affine point.
    pub open spec fn add_mixed_v(
        &self,
        p: Projective<F::Value>,
        q: Affine<F::Value>,
        fp: &F::Params,
    ) -> Projective<F::Value> {
        if q.infinity {
            p
        } else if p.z == F::zero_v(fp) {
            Projective { x: q.x, y: q.y, z: F::one_v(fp) }
        } else {
            let u = F::sub_v(F::mul_v(q.y, p.z, fp), p.y, fp);
            let v = F::sub_v(F::mul_v(q.x, p.z, fp), p.x, fp);
            if v == F::zero_v(fp) {
                if u == F::zero_v(fp) {
                    self.double_v(p, fp)
                } else {
                    Self::identity_v(fp)
                }
            } else {
                Self::add_distinct_v(p, p.y, p.x, p.z, u, v, fp)
            }
        }
    }

    /// `n` times the affine point `q`, by the binary expansion of `n`: the
    /// double of `n / 2` times `q`, plus `q` where `n` is odd.
    pub open spec fn scalar_mul_v(&self, q: Affine<F::Value>, n: nat, fp: &F::Params) -> Projective<
        F::Value,
    >
        decreases n,
    {
        if n == 0 {
            Self::identity_v(fp)
        } else {
            let d = self.double_v(self.scalar_mul_v(q, n / 2, fp), fp);
            if n % 2 == 1 {
                self.add_mixed_v(d, q, fp)
            } else {
                d
            }
        }
    }

    /// The same over a list of binary digits, most significant first.
    pub open spec fn scalar_mul_bits_v(
        &self,
        q: Affine<F::Value>,
        bits: Seq<bool>,
        fp: &F::Params,
    ) -> Projective<F::Value>
        decreases bits.len(),
    {
        if bits.len() == 0 {
            Self::identity_v(fp)
        } else {
            let d = self.double_v(self.scalar_mul_bits_v(q, bits.drop_last(), fp), fp);
            if bits.last() {
                self.add_mixed_v(d, q, fp)
            } else {
                d
            }
        }
    }

    /// The multiple over the binary digits of `n` is the multiple by `n`.
    pub proof fn lemma_scalar_mul_bits(&self, q: Affine<F::Value>, n: nat, fp: &F::Params)
        ensures
            self.scalar_mul_bits_v(q, bits_of(n), fp) == self.scalar_mul_v(q, n, fp),
        decreases n,
    {
        if n > 0 {
            self.lemma_scalar_mul_bits(q, n / 2, fp);
            assert(bits_of(n).drop_last() =~= bits_of(n / 2));
        }
    }

    /// Whether `n` times `q` is the point at infinity.
    pub open spec fn killed_by_v(&self, q: Affine<F::Value>, n: nat, fp: &F::Params) -> bool {
        self.scalar_mul_v(q, n, fp).z == F::zero_v(fp)
    }

    /// The affine point that a projective point stands for, where `z` is zero
    /// or has an inverse.
    pub open spec fn to_affine_v(p: Projective<F::Value>, fp: &F::Params) -> Option<
        Affine<F::Value>,
    > {
        if p.z == F::zero_v(fp) {
            Some(Affine { x: F::zero_v(fp), y: F::zero_v(fp), infinity: true })
        } else {
            match F::inv_v(p.z, fp) {
                Some(zi) => Some(
                    Affine { x: F::mul_v(p.x, zi, fp), y: F::mul_v(p.y, zi, fp), infinity: false },
                ),
                None => None,
            }
        }
    }

    /// Whether two projective points stand for the same point.
    pub open spec fn same_point_v(
        p: Projective<F::Value>,
        q: Projective<F::Value>,
        fp: &F::Params,
    ) -> bool {
        if p.z == F::zero_v(fp) || q.z == F::zero_v(fp) {
            p.z == F::zero_v(fp) && q.z == F::zero_v(fp)
        } else {
            F::mul_v(p.x, q.z, fp) == F::mul_v(q.x, p.z, fp) && F::mul_v(p.y, q.z, fp) == F::mul_v(
                q.y,
                p.z,
                fp,
            )
        }
    }

    /// The encoding of an affine point: `x`, then `y`, then one byte that is
    /// 1 for the point at infinity and 0 for every other point.
    pub open spec fn encode_point_v(q: Affine<F::Value>, fp: &F::Params) -> Seq<u8> {
        F::encode_v(q.x, fp) + F::encode_v(q.y, fp) + seq![if q.infinity { 1u8 } else { 0u8 }]
    }

    /// The point that `bytes` encode, if they encode one.
    pub open spec fn decode_point_v(bytes: Seq<u8>, fp: &F::Params) -> Option<Affine<F::Value>> {
        let len = F::byte_len(fp) as int;
        if bytes.len() == 2 * len + 1 && bytes[2 * len] <= 1 {
            match (F::decode_v(bytes.subrange(0, len), fp), F::decode_v(bytes.subrange(len, 2 * len), fp)) {
                (Some(x), Some(y)) => {
                    if bytes[2 * len] == 1 {
                        if x == F::zero_v(fp) && y == F::zero_v(fp) {
                            Some(Affine { x, y, infinity: true })
                        } else {
                            None
                        }
                    } else {
                        Some(Affine { x, y, infinity: false })
                    }
                },
                _ => None,
            }
        } else {
            None
        }
    }

    /// Whether the point is the point at infinity or satisfies the curve equation.
    pub fn is_on_curve(&self, pt: &Affine<F>, fp: &F::Params) -> (r: bool)
        requires
            self.wf(fp),
            pt.wf(fp),
        ensures
            r == self.on_curve_v(pt.value(), fp),
    {
        if pt.infinity {
            return true;
        }
        let yy = pt.y.mul(&pt.y, fp);
        let xx = pt.x.mul(&pt.x, fp);
        let xxx = xx.mul(&pt.x, fp);
        let ax = self.a.mul(&pt.x, fp);
        let s = xxx.add(&ax, fp);
        let rhs = s.add(&self.b, fp);
        yy.same(&rhs, fp)
    }

    /// The point `(x, y)`, which has to lie on the curve.
    pub fn point(&self, x: F, y: F, fp: &F::Params) -> (r: Result<Affine<F>, Error>)
        requires
            self.wf(fp),
            x.wf(fp),
            y.wf(fp),
        ensures
            match r {
                Ok(pt) => pt.wf(fp) && pt.value() == (Affine {
                    x: x.value(),
                    y: y.value(),
                    infinity: false,
                }) && self.on_curve_v(pt.value(), fp),
                Err(e) => e == Error::NotOnCurve && !self.on_curve_v(
                    Affine { x: x.value(), y: y.value(), infinity: false },
                    fp,
                ),
            },
    {
        let pt = Affine { x, y, infinity: false };
        if self.is_on_curve(&pt, fp) {
            Ok(pt)
        } else {
            Err(Error::NotOnCurve)
        }
    }

    /// The point `(x, y)`, which has to lie on the curve and to be killed by `order`.
    pub fn point_in_subgroup(&self, x: F, y: F, order: &Vec<u64>, fp: &F::Params) -> (r: Result<
        Affine<F>,
        Error,
    >)
        requires
            self.wf(fp),
            x.wf(fp),
            y.wf(fp),
        ensures
            ({
                let v = Affine { x: x.value(), y: y.value(), infinity: false };
                match r {
                    Ok(pt) => pt.wf(fp) && pt.value() == v && self.on_curve_v(v, fp)
                        && self.killed_by_v(v, limbs_val(order@), fp),
                    Err(e) => if self.on_curve_v(v, fp) {
                        e == Error::NotInSubgroup && !self.killed_by_v(v, limbs_val(order@), fp)
                    } else {
                        e == Error::NotOnCurve
                    },
                }
            }),
    {
        let pt = Affine { x, y, infinity: false };
        if !self.is_on_curve(&pt, fp) {
            return Err(Error::NotOnCurve);
        }
        if self.is_in_subgroup(&pt, order, fp) {
            Ok(pt)
        } else {
            Err(Error::NotInSubgroup)
        }
    }

    /// The double of a projective point.
    pub fn double(&self, p: &Projective<F>, fp: &F::Params) -> (r: Projective<F>)
        requires
            self.wf(fp),
            p.wf(fp),
        ensures
            r.wf(fp),
            r.value() == self.double_v(p.value(), fp),
    {
        let xx = p.x.mul(&p.x, fp);
        let zz = p.z.mul(&p.z, fp);
        let azz = self.a.mul(&zz, fp);
        let xx2 = xx.add(&xx, fp);
        let xx3 = xx2.add(&xx, fp);
        let w = azz.add(&xx3, fp);
        let yz = p.y.mul(&p.z, fp);
        let s = yz.add(&yz, fp);
        let ss = s.mul(&s, fp);
        let sss = s.mul(&ss, fp);
        let r = p.y.mul(&s, fp);
        let rr = r.mul(&r, fp);
        let xr = p.x.add(&r, fp);
        let xr2 = xr.mul(&xr, fp);
        let t = xr2.sub(&xx, fp);
        let b = t.sub(&rr, fp);
        let ww = w.mul(&w, fp);
        let b2 = b.add(&b, fp);
        let h = ww.sub(&b2, fp);
        let x3 = h.mul(&s, fp);
        let bh = b.sub(&h, fp);
        let wbh = w.mul(&bh, fp);
        let rr2 = rr.add(&rr, fp);
        let y3 = wbh.sub(&rr2, fp);
        Projective { x: x3, y: y3, z: sss }
    }

    fn add_distinct(
        p: &Projective<F>,
        y1z2: &F,
        x1z2: &F,
        z1z2: &F,
        u: &F,
        v: &F,
        fp: &F::Params,
    ) -> (r: Projective<F>)
        requires
            F::params_wf(fp),
            p.wf(fp),
            y1z2.wf(fp),
            x1z2.wf(fp),
            z1z2.wf(fp),
            u.wf(fp),
            v.wf(fp),
        ensures
            r.wf(fp),
            r.value() == Self::add_distinct_v(
                p.value(),
                y1z2.value(),
                x1z2.value(),
                z1z2.value(),
                u.value(),
                v.value(),
                fp,
            ),
    {
        let uu = u.mul(u, fp);
        let vv = v.mul(v, fp);
        let vvv = v.mul(&vv, fp);
        let r = vv.mul(x1z2, fp);
        let uz = uu.mul(z1z2, fp);
        let t = uz.sub(&vvv, fp);
        let r2 = r.add(&r, fp);
        let a = t.sub(&r2, fp);
        let x3 = v.mul(&a, fp);
        let ra = r.sub(&a, fp);
        let ura = u.mul(&ra, fp);
        let vy = vvv.mul(y1z2, fp);
        let y3 = ura.sub(&vy, fp);
        let z3 = vvv.mul(z1z2, fp);
        Projective { x: x3, y: y3, z: z3 }
    }

    /// The sum of two projective points.
    pub fn add(&self, p: &Projective<F>, q: &Projective<F>, fp: &F::Params) -> (r: Projective<F>)
        requires
            self.wf(fp),
            p.wf(fp),
            q.wf(fp),
        ensures
            r.wf(fp),
            r.value() == self.add_v(p.value(), q.value(), fp),
    {
        if p.z.is_zero(fp) {
            return q.dup(fp);
        }
        if q.z.is_zero(fp) {
            return p.dup(fp);
        }
        let y1z2 = p.y.mul(&q.z, fp);
        let x1z2 = p.x.mul(&q.z, fp);
        let z1z2 = p.z.mul(&q.z, fp);
        let y2z1 = q.y.mul(&p.z, fp);
        let x2z1 = q.x.mul(&p.z, fp);
        let u = y2z1.sub(&y1z2, fp);
        let v = x2z1.sub(&x1z2, fp);
        if v.is_zero(fp) {
            if u.is_zero(fp) {
                self.double(p, fp)
            } else {
                Projective::identity(fp)
            }
        } else {
            Self::add_distinct(p, &y1z2, &x1z2, &z1z2, &u, &v, fp)
        }
    }

    /// The sum of a projective and an affine point.
    pub fn add_mixed(&self, p: &Projective<F>, q: &Affine<F>, fp: &F::Params) -> (r: Projective<F>)
        requires
            self.wf(fp),
            p.wf(fp),
            q.wf(fp),
        ensures
            r.wf(fp),
            r.value() == self.add_mixed_v(p.value(), q.value(), fp),
    {
        if q.infinity {
            return p.dup(fp);
        }
        if p.z.is_zero(fp) {
            return Projective { x: q.x.dup(fp), y: q.y.dup(fp), z: F::one(fp) };
        }
        let y2z1 = q.y.mul(&p.z, fp);
        let x2z1 = q.x.mul(&p.z, fp);
        let u = y2z1.sub(&p.y, fp);
        let v = x2z1.sub(&p.x, fp);
        if v.is_zero(fp) {
            if u.is_zero(fp) {
                self.double(p, fp)
            } else {
                Projective::identity(fp)
            }
        } else {
            Self::add_distinct(p, &p.y, &p.x, &p.z, &u, &v, fp)
        }
    }

    /// The multiple of an affine point by the number that the limbs `k` stand
    /// for, by doubling and adding from the most significant bit down.
    pub fn mul_bigint(&self, q: &Affine<F>, k: &Vec<u64>, fp: &F::Params) -> (r: Projective<F>)
        requires
            self.wf(fp),
            q.wf(fp),
        ensures
            r.wf(fp),
            r.value() == self.scalar_mul_v(q.value(), limbs_val(k@), fp),
    {
        let bits = bits_be(k);
        let mut acc: Projective<F> = Projective::identity(fp);
        let mut i: usize = 0;
        assert(bits@.take(0).len() == 0);
        while i < bits.len()
            invariant
                i <= bits.len(),
                self.wf(fp),
                q.wf(fp),
                acc.wf(fp),
                acc.value() == self.scalar_mul_bits_v(q.value(), bits@.take(i as int), fp),
            decreases bits.len() - i,
        {
            let d = self.double(&acc, fp);
            proof {
                assert(bits@.take(i + 1).drop_last() =~= bits@.take(i as int));
            }
            if bits[i] {
                acc = self.add_mixed(&d, q, fp);
            } else {
                acc = d;
            }
            i += 1;
        }
        proof {
            assert(bits@.take(bits.len() as int) =~= bits@);
            self.lemma_scalar_mul_bits(q.value(), limbs_val(k@), fp);
        }
        acc
    }

    /// The point with the cofactor cleared: the cofactor times the point,
    /// which lies in the subgroup of prime order.
    pub fn clear_cofactor(&self, q: &Affine<F>, cofactor: &Vec<u64>, fp: &F::Params) -> (r:
        Projective<F>)
        requires
            self.wf(fp),
            q.wf(fp),
        ensures
            r.wf(fp),
            r.value() == self.scalar_mul_v(q.value(), limbs_val(cofactor@), fp),
    {
        self.mul_bigint(q, cofactor, fp)
    }

    /// Whether `order` times the point is the point at infinity.
    pub fn is_in_subgroup(&self, q: &Affine<F>, order: &Vec<u64>, fp: &F::Params) -> (r: bool)
        requires
            self.wf(fp),
            q.wf(fp),
        ensures
            r == self.killed_by_v(q.value(), limbs_val(order@), fp),
    {
        let m = self.mul_bigint(q, order, fp);
        m.z.is_zero(fp)
    }
}

impl<F: Field> Affine<F> {
    /// The value that the point stands for.
    pub open spec fn value(&self) -> Affine<F::Value> {
        Affine { x: self.x.value(), y: self.y.value(), infinity: self.infinity }
    }

    /// The coordinates are elements of the field `fp`, and the point at
    /// infinity is held with both of them zero.
    pub open spec fn wf(&self, fp: &F::Params) -> bool {
        &&& self.x.wf(fp)
        &&& self.y.wf(fp)
        &&& self.infinity ==> self.x.value() == F::zero_v(fp) && self.y.value() == F::zero_v(fp)
    }

    /// The value of the negative of a point.
    pub open spec fn neg_v(q: Affine<F::Value>, fp: &F::Params) -> Affine<F::Value> {
        Affine { x: q.x, y: F::neg_v(q.y, fp), infinity: q.infinity }
    }

    /// The point at infinity.
    pub fn identity(fp: &F::Params) -> (r: Self)
        requires
            F::params_wf(fp),
        ensures
            r.wf(fp),
            r.value() == (Affine { x: F::zero_v(fp), y: F::zero_v(fp), infinity: true }),
    {
        Affine { x: F::zero(fp), y: F::zero(fp), infinity: true }
    }

    /// The point `(x, y)`, whether or not it lies on any curve.
    pub fn new_unchecked(x: F, y: F) -> (r: Self)
        ensures
            r.x == x,
            r.y == y,
            !r.infinity,
    {
        Affine { x, y, infinity: false }
    }

    /// Whether the point is the point at infinity.
    pub fn is_identity(&self) -> (r: bool)
        ensures
            r == self.infinity,
    {
        self.infinity
    }

    /// A copy of the point.
    pub fn dup(&self, fp: &F::Params) -> (r: Self)
        requires
            F::params_wf(fp),
            self.wf(fp),
        ensures
            r.wf(fp),
            r.value() == self.value(),
    {
        Affine { x: self.x.dup(fp), y: self.y.dup(fp), infinity: self.infinity }
    }

    /// Whether two points are the same.
    pub fn same(&self, rhs: &Self, fp: &F::Params) -> (r: bool)
        requires
            F::params_wf(fp),
            self.wf(fp),
            rhs.wf(fp),
        ensures
            r == (self.value() == rhs.value()),
    {
        self.infinity == rhs.infinity && self.x.same(&rhs.x, fp) && self.y.same(&rhs.y, fp)
    }

    /// The negative of the point.
    pub fn neg(&self, fp: &F::Params) -> (r: Self)
        requires
            F::params_wf(fp),
            self.wf(fp),
        ensures
            r.x.wf(fp),
            r.y.wf(fp),
            r.value() == Self::neg_v(self.value(), fp),
    {
        Affine { x: self.x.dup(fp), y: self.y.neg(fp), infinity: self.infinity }
    }

    /// The point in projective coordinates.
    pub fn to_projective(&self, fp: &F::Params) -> (r: Projective<F>)
        requires
            F::params_wf(fp),
            self.wf(fp),
        ensures
            r.wf(fp),
            r.value() == SwCurve::<F>::lift_v(self.value(), fp),
    {
        if self.infinity {
            Projective::identity(fp)
        } else {
            Projective { x: self.x.dup(fp), y: self.y.dup(fp), z: F::one(fp) }
        }
    }

    /// Appends the encoding of the point to `out`.
    pub fn write(&self, out: &mut Vec<u8>, fp: &F::Params)
        requires
            F::params_wf(fp),
            self.wf(fp),
        ensures
            final(out)@ == old(out)@ + SwCurve::<F>::encode_point_v(self.value(), fp),
    {
        let ghost start = out@;
        self.x.write(out, fp);
        self.y.write(out, fp);
        let flag: u8 = if self.infinity {
            1
        } else {
            0
        };
        out.push(flag);
        assert(out@ =~= start + (F::encode_v(self.x.value(), fp) + F::encode_v(self.y.value(), fp)
            + seq![flag]));
    }

    /// Reads a point from `bytes`, which has to be the encoding of one.
    /// Whether the point lies on a curve is not looked at.
    pub fn read(bytes: &Vec<u8>, fp: &F::Params) -> (r: Result<Self, Error>)
        requires
            F::params_wf(fp),
        ensures
            match SwCurve::<F>::decode_point_v(bytes@, fp) {
                Some(v) => r is Ok && r->Ok_0.wf(fp) && r->Ok_0.value() == v,
                None => r == Err::<Self, Error>(Error::DeserializationRangeError),
            },
    {
        let len = F::encoded_len(fp);
        if bytes.len() < len || bytes.len() - len < len || bytes.len() - len - len != 1 {
            return Err(Error::DeserializationRangeError);
        }
        let flag = bytes[2 * len];
        if flag > 1 {
            return Err(Error::DeserializationRangeError);
        }
        let first = slice_bytes(bytes, 0, len);
        let second = slice_bytes(bytes, len, 2 * len);
        match F::read(&first, fp) {
            Ok(x) => match F::read(&second, fp) {
                Ok(y) => {
                    if flag == 1 {
                        if x.is_zero(fp) && y.is_zero(fp) {
                            Ok(Affine { x, y, infinity: true })
                        } else {
                            Err(Error::DeserializationRangeError)
                        }
                    } else {
                        Ok(Affine { x, y, infinity: false })
                    }
                },
                Err(e) => Err(Error::DeserializationRangeError),
            },
            Err(e) => Err(Error::DeserializationRangeError),
        }
    }
}

impl<F: Field> Projective<F> {
    /// The value that the point stands for.
    pub open spec fn value(&self) -> Projective<F::Value> {
        Projective { x: self.x.value(), y: self.y.value(), z: self.z.value() }
    }

    /// The coordinates are elements of the field `fp`.
    pub open spec fn wf(&self, fp: &F::Params) -> bool {
        self.x.wf(fp) && self.y.wf(fp) && self.z.wf(fp)
    }

    /// The value of the negative of a point.
    pub open spec fn neg_v(p: Projective<F::Value>, fp: &F::Params) -> Projective<F::Value> {
        Projective { x: p.x, y: F::neg_v(p.y, fp), z: p.z }
    }

    /// The point at infinity.
    pub fn identity(fp: &F::Params) -> (r: Self)
        requires
            F::params_wf(fp),
        ensures
            r.wf(fp),
            r.value() == SwCurve::<F>::identity_v(fp),
    {
        Projective { x: F::zero(fp), y: F::one(fp), z: F::zero(fp) }
    }

    /// Whether the point is the point at infinity.
    pub fn is_identity(&self, fp: &F::Params) -> (r: bool)
        requires
            F::params_wf(fp),
            self.wf(fp),
        ensures
            r == (self.value().z == F::zero_v(fp)),
    {
        self.z.is_zero(fp)
    }

    /// A copy of the point.
    pub fn dup(&self, fp: &F::Params) -> (r: Self)
        requires
            F::params_wf(fp),
            self.wf(fp),
        ensures
            r.wf(fp),
            r.value() == self.value(),
    {
        Projective { x: self.x.dup(fp), y: self.y.dup(fp), z: self.z.dup(fp) }
    }

    /// The negative of the point.
    pub fn neg(&self, fp: &F::Params) -> (r: Self)
        requires
            F::params_wf(fp),
            self.wf(fp),
        ensures
            r.wf(fp),
            r.value() == Self::neg_v(self.value(), fp),
    {
        Projective { x: self.x.dup(fp), y: self.y.neg(fp), z: self.z.dup(fp) }
    }

    /// Whether two projective points stand for the same point.
    pub fn same(&self, rhs: &Self, fp: &F::Params) -> (r: bool)
        requires
            F::params_wf(fp),
            self.wf(fp),
            rhs.wf(fp),
        ensures
            r == SwCurve::<F>::same_point_v(self.value(), rhs.value(), fp),
    {
        let z1 = self.z.is_zero(fp);
        let z2 = rhs.z.is_zero(fp);
        if z1 || z2 {
            return z1 && z2;
        }
        let x1z2 = self.x.mul(&rhs.z, fp);
        let x2z1 = rhs.x.mul(&self.z, fp);
        let y1z2 = self.y.mul(&rhs.z, fp);
        let y2z1 = rhs.y.mul(&self.z, fp);
        x1z2.same(&x2z1, fp) && y1z2.same(&y2z1, fp)
    }

    /// The affine point that this point stands for. The one division that
    /// this takes fails where `z` is neither zero nor invertible.
    pub fn to_affine(&self, fp: &F::Params) -> (r: Result<Affine<F>, Error>)
        requires
            F::params_wf(fp),
            self.wf(fp),
        ensures
            match SwCurve::<F>::to_affine_v(self.value(), fp) {
                Some(v) => r is Ok && r->Ok_0.wf(fp) && r->Ok_0.value() == v,
                None => r == Err::<Affine<F>, Error>(Error::NonInvertible),
            },
    {
        if self.z.is_zero(fp) {
            return Ok(Affine::identity(fp));
        }
        match self.z.inverse(fp) {
            Some(zi) => Ok(
                Affine { x: self.x.mul(&zi, fp), y: self.y.mul(&zi, fp), infinity: false },
            ),
            None => Err(Error::NonInvertible),
        }
    }
}

} // verus!

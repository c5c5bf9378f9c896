//! Cubic extensions `B[X] / (X^3 - nonresidue)` of any field `B`.

use vstd::prelude::*;
use crate::encoding::slice_bytes;
use crate::errors::Error;
use crate::fields::field::Field;

verus! {

/// An element `c0 + c1 * X + c2 * X^2` of a cubic extension, or the value of one.
pub struct CubicExt<T> {
    pub c0: T,
    pub c1: T,
    pub c2: T,
}

/// The description of a cubic extension of `B`.
pub struct CubicParams<B: Field> {
    /// The base field.
    pub base: B::Params,
    /// The cube of `X`: an element of `B` that has no cube root there.
    pub nonresidue: B,
    /// The factor that the Frobenius map of power `k` puts on `c1`, at index
    /// `k` modulo the length of the table.
    pub frobenius_c1: Vec<B>,
    /// The same for `c2`.
    pub frobenius_c2: Vec<B>,
}

impl<B: Field> CubicExt<B> {
    /// The value of the product with an element `k` of the base field.
    pub open spec fn scale_v(a: CubicExt<B::Value>, k: B::Value, p: &CubicParams<B>) -> CubicExt<
        B::Value,
    > {
        CubicExt {
            c0: B::mul_v(a.c0, k, &p.base),
            c1: B::mul_v(a.c1, k, &p.base),
            c2: B::mul_v(a.c2, k, &p.base),
        }
    }

    /// The first cofactor of the inverse: `c0^2 - nonresidue * c1 * c2`.
    pub open spec fn cofactor0_v(a: CubicExt<B::Value>, p: &CubicParams<B>) -> B::Value {
        B::sub_v(
            B::mul_v(a.c0, a.c0, &p.base),
            B::mul_v(p.nonresidue.value(), B::mul_v(a.c1, a.c2, &p.base), &p.base),
            &p.base,
        )
    }

    /// The second cofactor of the inverse: `nonresidue * c2^2 - c0 * c1`.
    pub open spec fn cofactor1_v(a: CubicExt<B::Value>, p: &CubicParams<B>) -> B::Value {
        B::sub_v(
            B::mul_v(p.nonresidue.value(), B::mul_v(a.c2, a.c2, &p.base), &p.base),
            B::mul_v(a.c0, a.c1, &p.base),
            &p.base,
        )
    }

    /// The third cofactor of the inverse: `c1^2 - c0 * c2`.
    pub open spec fn cofactor2_v(a: CubicExt<B::Value>, p: &CubicParams<B>) -> B::Value {
        B::sub_v(B::mul_v(a.c1, a.c1, &p.base), B::mul_v(a.c0, a.c2, &p.base), &p.base)
    }

    /// The norm down to the base field:
    /// `c0 * t0 + nonresidue * (c2 * t1 + c1 * t2)` with the three cofactors `t`.
    pub open spec fn norm_v(a: CubicExt<B::Value>, p: &CubicParams<B>) -> B::Value {
        B::add_v(
            B::mul_v(a.c0, Self::cofactor0_v(a, p), &p.base),
            B::mul_v(
                p.nonresidue.value(),
                B::add_v(
                    B::mul_v(a.c2, Self::cofactor1_v(a, p), &p.base),
                    B::mul_v(a.c1, Self::cofactor2_v(a, p), &p.base),
                    &p.base,
                ),
                &p.base,
            ),
            &p.base,
        )
    }

    /// The element of the base field `c0`, as an element of the extension.
    pub fn from_base(c0: B, p: &CubicParams<B>) -> (r: Self)
        requires
            Self::params_wf(p),
            c0.wf(&p.base),
        ensures
            r.wf(p),
            r.value() == (CubicExt {
                c0: c0.value(),
                c1: B::zero_v(&p.base),
                c2: B::zero_v(&p.base),
            }),
    {
        CubicExt { c0, c1: B::zero(&p.base), c2: B::zero(&p.base) }
    }

    /// The element `c0 + c1 * X + c2 * X^2`.
    pub fn new(c0: B, c1: B, c2: B) -> (r: Self)
        ensures
            r.c0 == c0,
            r.c1 == c1,
            r.c2 == c2,
    {
        CubicExt { c0, c1, c2 }
    }

    /// The product with an element of the base field.
    pub fn scale(&self, k: &B, p: &CubicParams<B>) -> (r: Self)
        requires
            Self::params_wf(p),
            self.wf(p),
            k.wf(&p.base),
        ensures
            r.wf(p),
            r.value() == Self::scale_v(self.value(), k.value(), p),
    {
        CubicExt {
            c0: self.c0.mul(k, &p.base),
            c1: self.c1.mul(k, &p.base),
            c2: self.c2.mul(k, &p.base),
        }
    }
}

/// The sum, coefficient by coefficient.
#[verifier::opaque]
pub open spec fn cubic_add_v<B: Field>(
    a: CubicExt<B::Value>,
    b: CubicExt<B::Value>,
    p: &CubicParams<B>,
) -> CubicExt<B::Value> {
    CubicExt {
        c0: B::add_v(a.c0, b.c0, &p.base),
        c1: B::add_v(a.c1, b.c1, &p.base),
        c2: B::add_v(a.c2, b.c2, &p.base),
    }
}

/// The difference, coefficient by coefficient.
#[verifier::opaque]
pub open spec fn cubic_sub_v<B: Field>(
    a: CubicExt<B::Value>,
    b: CubicExt<B::Value>,
    p: &CubicParams<B>,
) -> CubicExt<B::Value> {
    CubicExt {
        c0: B::sub_v(a.c0, b.c0, &p.base),
        c1: B::sub_v(a.c1, b.c1, &p.base),
        c2: B::sub_v(a.c2, b.c2, &p.base),
    }
}

/// The negative, coefficient by coefficient.
#[verifier::opaque]
pub open spec fn cubic_neg_v<B: Field>(a: CubicExt<B::Value>, p: &CubicParams<B>) -> CubicExt<B::Value> {
    CubicExt {
        c0: B::neg_v(a.c0, &p.base),
        c1: B::neg_v(a.c1, &p.base),
        c2: B::neg_v(a.c2, &p.base),
    }
}

/// The product of two elements as polynomials in `X`, reduced by `X^3 = n`
/// with `n` the non-residue.
#[verifier::opaque]
pub open spec fn cubic_mul_v<B: Field>(
    a: CubicExt<B::Value>,
    b: CubicExt<B::Value>,
    p: &CubicParams<B>,
) -> CubicExt<B::Value> {
    let n = p.nonresidue.value();
    CubicExt {
        // a0 b0 + n (a1 b2 + a2 b1)
        c0: B::add_v(
            B::mul_v(a.c0, b.c0, &p.base),
            B::mul_v(
                n,
                B::add_v(
                    B::mul_v(a.c1, b.c2, &p.base),
                    B::mul_v(a.c2, b.c1, &p.base),
                    &p.base,
                ),
                &p.base,
            ),
            &p.base,
        ),
        // a0 b1 + a1 b0 + n a2 b2
        c1: B::add_v(
            B::add_v(B::mul_v(a.c0, b.c1, &p.base), B::mul_v(a.c1, b.c0, &p.base), &p.base),
            B::mul_v(n, B::mul_v(a.c2, b.c2, &p.base), &p.base),
            &p.base,
        ),
        // a0 b2 + a1 b1 + a2 b0
        c2: B::add_v(
            B::add_v(B::mul_v(a.c0, b.c2, &p.base), B::mul_v(a.c1, b.c1, &p.base), &p.base),
            B::mul_v(a.c2, b.c0, &p.base),
            &p.base,
        ),
    }
}

/// The inverse: the three cofactors over the norm, where the norm has an
/// inverse in the base field.
#[verifier::opaque]
pub open spec fn cubic_inv_v<B: Field>(a: CubicExt<B::Value>, p: &CubicParams<B>) -> Option<CubicExt<B::Value>> {
    match B::inv_v(CubicExt::<B>::norm_v(a, p), &p.base) {
        Some(ni) => Some(
            CubicExt {
                c0: B::mul_v(CubicExt::<B>::cofactor0_v(a, p), ni, &p.base),
                c1: B::mul_v(CubicExt::<B>::cofactor1_v(a, p), ni, &p.base),
                c2: B::mul_v(CubicExt::<B>::cofactor2_v(a, p), ni, &p.base),
            },
        ),
        None => None,
    }
}

/// The Frobenius image: that of each coefficient, the second and the third
/// times the coefficients of the tables for this power.
#[verifier::opaque]
pub open spec fn cubic_frobenius_v<B: Field>(a: CubicExt<B::Value>, power: nat, p: &CubicParams<B>) -> CubicExt<
    B::Value,
> {
    CubicExt {
        c0: B::frobenius_v(a.c0, power, &p.base),
        c1: B::mul_v(
            B::frobenius_v(a.c1, power, &p.base),
            p.frobenius_c1@[(power % p.frobenius_c1@.len()) as int].value(),
            &p.base,
        ),
        c2: B::mul_v(
            B::frobenius_v(a.c2, power, &p.base),
            p.frobenius_c2@[(power % p.frobenius_c2@.len()) as int].value(),
            &p.base,
        ),
    }
}

impl<B: Field> Field for CubicExt<B> {
    type Params = CubicParams<B>;

    type Value = CubicExt<B::Value>;

    open spec fn params_wf(p: &CubicParams<B>) -> bool {
        &&& B::params_wf(&p.base)
        &&& p.nonresidue.wf(&p.base)
        &&& p.frobenius_c1@.len() >= 1
        &&& p.frobenius_c2@.len() >= 1
        &&& forall|i: int|
            0 <= i < p.frobenius_c1@.len() ==> (#[trigger] p.frobenius_c1@[i]).wf(&p.base)
        &&& forall|i: int|
            0 <= i < p.frobenius_c2@.len() ==> (#[trigger] p.frobenius_c2@[i]).wf(&p.base)
        &&& 3 * B::byte_len(&p.base) <= usize::MAX
    }

    open spec fn value(&self) -> CubicExt<B::Value> {
        CubicExt { c0: self.c0.value(), c1: self.c1.value(), c2: self.c2.value() }
    }

    open spec fn in_field(v: CubicExt<B::Value>, p: &CubicParams<B>) -> bool {
        B::in_field(v.c0, &p.base) && B::in_field(v.c1, &p.base) && B::in_field(v.c2, &p.base)
    }

    open spec fn wf(&self, p: &CubicParams<B>) -> bool {
        self.c0.wf(&p.base) && self.c1.wf(&p.base) && self.c2.wf(&p.base)
    }

    open spec fn zero_v(p: &CubicParams<B>) -> CubicExt<B::Value> {
        CubicExt { c0: B::zero_v(&p.base), c1: B::zero_v(&p.base), c2: B::zero_v(&p.base) }
    }

    open spec fn one_v(p: &CubicParams<B>) -> CubicExt<B::Value> {
        CubicExt { c0: B::one_v(&p.base), c1: B::zero_v(&p.base), c2: B::zero_v(&p.base) }
    }

    open spec fn add_v(
        a: CubicExt<B::Value>,
        b: CubicExt<B::Value>,
        p: &CubicParams<B>,
    ) -> CubicExt<B::Value> {
        cubic_add_v::<B>(a, b, p)
    }

    open spec fn sub_v(
        a: CubicExt<B::Value>,
        b: CubicExt<B::Value>,
        p: &CubicParams<B>,
    ) -> CubicExt<B::Value> {
        cubic_sub_v::<B>(a, b, p)
    }

    open spec fn neg_v(a: CubicExt<B::Value>, p: &CubicParams<B>) -> CubicExt<B::Value> {
        cubic_neg_v::<B>(a, p)
    }

    open spec fn mul_v(
        a: CubicExt<B::Value>,
        b: CubicExt<B::Value>,
        p: &CubicParams<B>,
    ) -> CubicExt<B::Value> {
        cubic_mul_v::<B>(a, b, p)
    }

    open spec fn inv_v(a: CubicExt<B::Value>, p: &CubicParams<B>) -> Option<CubicExt<B::Value>> {
        cubic_inv_v::<B>(a, p)
    }

    open spec fn frobenius_v(a: CubicExt<B::Value>, power: nat, p: &CubicParams<B>) -> CubicExt<
        B::Value,
    > {
        cubic_frobenius_v::<B>(a, power, p)
    }

    open spec fn byte_len(p: &CubicParams<B>) -> nat {
        3 * B::byte_len(&p.base)
    }

    open spec fn encode_v(a: CubicExt<B::Value>, p: &CubicParams<B>) -> Seq<u8> {
        B::encode_v(a.c0, &p.base) + B::encode_v(a.c1, &p.base) + B::encode_v(a.c2, &p.base)
    }

    open spec fn decode_v(bytes: Seq<u8>, p: &CubicParams<B>) -> Option<CubicExt<B::Value>> {
        let len = B::byte_len(&p.base) as int;
        if bytes.len() == 3 * len {
            match (
                B::decode_v(bytes.subrange(0, len), &p.base),
                B::decode_v(bytes.subrange(len, 2 * len), &p.base),
                B::decode_v(bytes.subrange(2 * len, 3 * len), &p.base),
            ) {
                (Some(c0), Some(c1), Some(c2)) => Some(CubicExt { c0, c1, c2 }),
                _ => None,
            }
        } else {
            None
        }
    }

    proof fn lemma_wf_in_field(&self, p: &CubicParams<B>) {
        self.c0.lemma_wf_in_field(&p.base);
        self.c1.lemma_wf_in_field(&p.base);
        self.c2.lemma_wf_in_field(&p.base);
    }

    fn zero(p: &CubicParams<B>) -> (r: Self) {
        CubicExt { c0: B::zero(&p.base), c1: B::zero(&p.base), c2: B::zero(&p.base) }
    }

    fn one(p: &CubicParams<B>) -> (r: Self) {
        CubicExt { c0: B::one(&p.base), c1: B::zero(&p.base), c2: B::zero(&p.base) }
    }

    fn dup(&self, p: &CubicParams<B>) -> (r: Self) {
        CubicExt {
            c0: self.c0.dup(&p.base),
            c1: self.c1.dup(&p.base),
            c2: self.c2.dup(&p.base),
        }
    }

    fn is_zero(&self, p: &CubicParams<B>) -> (r: bool) {
        self.c0.is_zero(&p.base) && self.c1.is_zero(&p.base) && self.c2.is_zero(&p.base)
    }

    fn same(&self, rhs: &Self, p: &CubicParams<B>) -> (r: bool) {
        self.c0.same(&rhs.c0, &p.base) && self.c1.same(&rhs.c1, &p.base) && self.c2.same(
            &rhs.c2,
            &p.base,
        )
    }

    fn add(&self, rhs: &Self, p: &CubicParams<B>) -> (r: Self) {
        proof {
            reveal(cubic_add_v);
        }
        CubicExt {
            c0: self.c0.add(&rhs.c0, &p.base),
            c1: self.c1.add(&rhs.c1, &p.base),
            c2: self.c2.add(&rhs.c2, &p.base),
        }
    }

    fn sub(&self, rhs: &Self, p: &CubicParams<B>) -> (r: Self) {
        proof {
            reveal(cubic_sub_v);
        }
        CubicExt {
            c0: self.c0.sub(&rhs.c0, &p.base),
            c1: self.c1.sub(&rhs.c1, &p.base),
            c2: self.c2.sub(&rhs.c2, &p.base),
        }
    }

    fn neg(&self, p: &CubicParams<B>) -> (r: Self) {
        proof {
            reveal(cubic_neg_v);
        }
        CubicExt {
            c0: self.c0.neg(&p.base),
            c1: self.c1.neg(&p.base),
            c2: self.c2.neg(&p.base),
        }
    }

    fn double(&self, p: &CubicParams<B>) -> (r: Self) {
        proof {
            reveal(cubic_add_v);
        }
        CubicExt {
            c0: self.c0.double(&p.base),
            c1: self.c1.double(&p.base),
            c2: self.c2.double(&p.base),
        }
    }

    fn mul(&self, rhs: &Self, p: &CubicParams<B>) -> (r: Self) {
        proof {
            reveal(cubic_mul_v);
        }
        let bp = &p.base;
        let a0b0 = self.c0.mul(&rhs.c0, bp);
        let a1b2 = self.c1.mul(&rhs.c2, bp);
        let a2b1 = self.c2.mul(&rhs.c1, bp);
        let s0 = a1b2.add(&a2b1, bp);
        let n0 = p.nonresidue.mul(&s0, bp);
        let c0 = a0b0.add(&n0, bp);
        let a0b1 = self.c0.mul(&rhs.c1, bp);
        let a1b0 = self.c1.mul(&rhs.c0, bp);
        let a2b2 = self.c2.mul(&rhs.c2, bp);
        let s1 = a0b1.add(&a1b0, bp);
        let n1 = p.nonresidue.mul(&a2b2, bp);
        let c1 = s1.add(&n1, bp);
        let a0b2 = self.c0.mul(&rhs.c2, bp);
        let a1b1 = self.c1.mul(&rhs.c1, bp);
        let a2b0 = self.c2.mul(&rhs.c0, bp);
        let s2 = a0b2.add(&a1b1, bp);
        let c2 = s2.add(&a2b0, bp);
        CubicExt { c0, c1, c2 }
    }

    fn square(&self, p: &CubicParams<B>) -> (r: Self) {
        self.mul(self, p)
    }

    fn inverse(&self, p: &CubicParams<B>) -> (r: Option<Self>) {
        proof {
            reveal(cubic_inv_v);
        }
        let bp = &p.base;
        let a0a0 = self.c0.mul(&self.c0, bp);
        let a1a2 = self.c1.mul(&self.c2, bp);
        let na1a2 = p.nonresidue.mul(&a1a2, bp);
        let t0 = a0a0.sub(&na1a2, bp);
        let a2a2 = self.c2.mul(&self.c2, bp);
        let na2a2 = p.nonresidue.mul(&a2a2, bp);
        let a0a1 = self.c0.mul(&self.c1, bp);
        let t1 = na2a2.sub(&a0a1, bp);
        let a1a1 = self.c1.mul(&self.c1, bp);
        let a0a2 = self.c0.mul(&self.c2, bp);
        let t2 = a1a1.sub(&a0a2, bp);
        let a0t0 = self.c0.mul(&t0, bp);
        let a2t1 = self.c2.mul(&t1, bp);
        let a1t2 = self.c1.mul(&t2, bp);
        let s = a2t1.add(&a1t2, bp);
        let ns = p.nonresidue.mul(&s, bp);
        let norm = a0t0.add(&ns, bp);
        match norm.inverse(bp) {
            Some(ni) => Some(
                CubicExt { c0: t0.mul(&ni, bp), c1: t1.mul(&ni, bp), c2: t2.mul(&ni, bp) },
            ),
            None => None,
        }
    }

    fn frobenius_map(&self, power: usize, p: &CubicParams<B>) -> (r: Self) {
        proof {
            reveal(cubic_frobenius_v);
        }
        let bp = &p.base;
        let c0 = self.c0.frobenius_map(power, bp);
        let t1 = self.c1.frobenius_map(power, bp);
        let t2 = self.c2.frobenius_map(power, bp);
        let i1 = power % p.frobenius_c1.len();
        let i2 = power % p.frobenius_c2.len();
        let c1 = t1.mul(&p.frobenius_c1[i1], bp);
        let c2 = t2.mul(&p.frobenius_c2[i2], bp);
        CubicExt { c0, c1, c2 }
    }

    fn encoded_len(p: &CubicParams<B>) -> (r: usize) {
        3 * B::encoded_len(&p.base)
    }

    fn write(&self, out: &mut Vec<u8>, p: &CubicParams<B>) {
        let ghost start = out@;
        self.c0.write(out, &p.base);
        self.c1.write(out, &p.base);
        self.c2.write(out, &p.base);
        assert(out@ =~= start + (B::encode_v(self.c0.value(), &p.base) + B::encode_v(
            self.c1.value(),
            &p.base,
        ) + B::encode_v(self.c2.value(), &p.base)));
    }

    fn read(bytes: &Vec<u8>, p: &CubicParams<B>) -> (r: Result<Self, Error>) {
        let len = B::encoded_len(&p.base);
        if bytes.len() != 3 * len {
            return Err(Error::DeserializationRangeError);
        }
        let first = slice_bytes(bytes, 0, len);
        let second = slice_bytes(bytes, len, 2 * len);
        let third = slice_bytes(bytes, 2 * len, 3 * len);
        match B::read(&first, &p.base) {
            Ok(c0) => match B::read(&second, &p.base) {
                Ok(c1) => match B::read(&third, &p.base) {
                    Ok(c2) => Ok(CubicExt { c0, c1, c2 }),
                    Err(e) => Err(Error::DeserializationRangeError),
                },
                Err(e) => Err(Error::DeserializationRangeError),
            },
            Err(e) => Err(Error::DeserializationRangeError),
        }
    }
}

} // verus!

//! Quadratic extensions `B[X] / (X^2 - nonresidue)` of any field `B`.

use vstd::prelude::*;
use crate::encoding::slice_bytes;
use crate::errors::Error;
use crate::bigint::limbs_val;
use crate::fields::field::Field;
use crate::fields::power::{pow, pow_v};
use crate::fields::prime::{entry_v, Fp};
use crate::modular::{add_mod, mul_mod, Modulus};

verus! {

/// An element `c0 + c1 * X` of a quadratic extension, or the value of one.
pub struct QuadExt<T> {
    pub c0: T,
    pub c1: T,
}

/// The description of a quadratic extension of `B`.
pub struct QuadParams<B: Field> {
    /// The base field.
    pub base: B::Params,
    /// The square of `X`: an element of `B` that has no square root there.
    pub nonresidue: B,
    /// The factor that the Frobenius map of power `k` puts on `c1`, at index
    /// `k` modulo the length of the table.
    pub frobenius: Vec<B>,
}

impl<B: Field> QuadExt<B> {
    /// The value of the conjugate `c0 - c1 * X`.
    pub open spec fn conjugate_v(a: QuadExt<B::Value>, p: &QuadParams<B>) -> QuadExt<B::Value> {
        QuadExt { c0: a.c0, c1: B::neg_v(a.c1, &p.base) }
    }

    /// The value of the product with an element `k` of the base field.
    pub open spec fn scale_v(a: QuadExt<B::Value>, k: B::Value, p: &QuadParams<B>) -> QuadExt<
        B::Value,
    > {
        QuadExt { c0: B::mul_v(a.c0, k, &p.base), c1: B::mul_v(a.c1, k, &p.base) }
    }

    /// The norm `c0^2 - nonresidue * c1^2` down to the base field.
    pub open spec fn norm_v(a: QuadExt<B::Value>, p: &QuadParams<B>) -> B::Value {
        B::sub_v(
            B::mul_v(a.c0, a.c0, &p.base),
            B::mul_v(p.nonresidue.value(), B::mul_v(a.c1, a.c1, &p.base), &p.base),
            &p.base,
        )
    }

    /// The element of the base field `c0`, as an element of the extension.
    pub fn from_base(c0: B, p: &QuadParams<B>) -> (r: Self)
        requires
            Self::params_wf(p),
            c0.wf(&p.base),
        ensures
            r.wf(p),
            r.value() == (QuadExt { c0: c0.value(), c1: B::zero_v(&p.base) }),
    {
        QuadExt { c0, c1: B::zero(&p.base) }
    }

    /// The element `c0 + c1 * X`.
    pub fn new(c0: B, c1: B) -> (r: Self)
        ensures
            r.c0 == c0,
            r.c1 == c1,
    {
        QuadExt { c0, c1 }
    }

    /// The conjugate `c0 - c1 * X`.
    pub fn conjugate(&self, p: &QuadParams<B>) -> (r: Self)
        requires
            Self::params_wf(p),
            self.wf(p),
        ensures
            r.wf(p),
            r.value() == Self::conjugate_v(self.value(), p),
    {
        QuadExt { c0: self.c0.dup(&p.base), c1: self.c1.neg(&p.base) }
    }

    /// The power of an element of the cyclotomic subgroup, where the hard
    /// part of a final exponentiation takes its powers: `self` raised to the
    /// number that the limbs `e` stand for, by squaring and multiplying from
    /// the most significant bit down. For every element this is the power.
    pub fn cyclotomic_exp(&self, e: &Vec<u64>, p: &QuadParams<B>) -> (r: Self)
        requires
            Self::params_wf(p),
            self.wf(p),
        ensures
            r.wf(p),
            r.value() == pow_v::<QuadExt<B>>(self.value(), limbs_val(e@), p),
    {
        pow(self, e, p)
    }

    /// The product with an element of the base field.
    pub fn scale(&self, k: &B, p: &QuadParams<B>) -> (r: Self)
        requires
            Self::params_wf(p),
            self.wf(p),
            k.wf(&p.base),
        ensures
            r.wf(p),
            r.value() == Self::scale_v(self.value(), k.value(), p),
    {
        QuadExt { c0: self.c0.mul(k, &p.base), c1: self.c1.mul(k, &p.base) }
    }
}

/// The sum, coefficient by coefficient.
#[verifier::opaque]
pub open spec fn quad_add_v<B: Field>(a: QuadExt<B::Value>, b: QuadExt<B::Value>, p: &QuadParams<B>) -> QuadExt<
    B::Value,
> {
    QuadExt { c0: B::add_v(a.c0, b.c0, &p.base), c1: B::add_v(a.c1, b.c1, &p.base) }
}

/// The difference, coefficient by coefficient.
#[verifier::opaque]
pub open spec fn quad_sub_v<B: Field>(a: QuadExt<B::Value>, b: QuadExt<B::Value>, p: &QuadParams<B>) -> QuadExt<
    B::Value,
> {
    QuadExt { c0: B::sub_v(a.c0, b.c0, &p.base), c1: B::sub_v(a.c1, b.c1, &p.base) }
}

/// The negative, coefficient by coefficient.
#[verifier::opaque]
pub open spec fn quad_neg_v<B: Field>(a: QuadExt<B::Value>, p: &QuadParams<B>) -> QuadExt<B::Value> {
    QuadExt { c0: B::neg_v(a.c0, &p.base), c1: B::neg_v(a.c1, &p.base) }
}

/// The product `(a0 b0 + n a1 b1) + (a0 b1 + a1 b0) X`, with `n` the non-residue.
#[verifier::opaque]
pub open spec fn quad_mul_v<B: Field>(a: QuadExt<B::Value>, b: QuadExt<B::Value>, p: &QuadParams<B>) -> QuadExt<
    B::Value,
> {
    QuadExt {
        c0: B::add_v(
            B::mul_v(a.c0, b.c0, &p.base),
            B::mul_v(p.nonresidue.value(), B::mul_v(a.c1, b.c1, &p.base), &p.base),
            &p.base,
        ),
        c1: B::add_v(B::mul_v(a.c0, b.c1, &p.base), B::mul_v(a.c1, b.c0, &p.base), &p.base),
    }
}

/// The inverse `(a0 - a1 X) / norm`, where the norm has an inverse in the base field.
#[verifier::opaque]
pub open spec fn quad_inv_v<B: Field>(a: QuadExt<B::Value>, p: &QuadParams<B>) -> Option<QuadExt<B::Value>> {
    match B::inv_v(QuadExt::<B>::norm_v(a, p), &p.base) {
        Some(ni) => Some(
            QuadExt {
                c0: B::mul_v(a.c0, ni, &p.base),
                c1: B::neg_v(B::mul_v(a.c1, ni, &p.base), &p.base),
            },
        ),
        None => None,
    }
}

/// The Frobenius image: that of each coefficient, the second times the
/// coefficient of the table for this power.
#[verifier::opaque]
pub open spec fn quad_frobenius_v<B: Field>(a: QuadExt<B::Value>, power: nat, p: &QuadParams<B>) -> QuadExt<
    B::Value,
> {
    QuadExt {
        c0: B::frobenius_v(a.c0, power, &p.base),
        c1: B::mul_v(
            B::frobenius_v(a.c1, power, &p.base),
            p.frobenius@[(power % p.frobenius@.len()) as int].value(),
            &p.base,
        ),
    }
}

impl<B: Field> Field for QuadExt<B> {
    type Params = QuadParams<B>;

    type Value = QuadExt<B::Value>;

    open spec fn params_wf(p: &QuadParams<B>) -> bool {
        &&& B::params_wf(&p.base)
        &&& p.nonresidue.wf(&p.base)
        &&& p.frobenius@.len() >= 1
        &&& forall|i: int| 0 <= i < p.frobenius@.len() ==> (#[trigger] p.frobenius@[i]).wf(&p.base)
        &&& 2 * B::byte_len(&p.base) <= usize::MAX
    }

    open spec fn value(&self) -> QuadExt<B::Value> {
        QuadExt { c0: self.c0.value(), c1: self.c1.value() }
    }

    open spec fn in_field(v: QuadExt<B::Value>, p: &QuadParams<B>) -> bool {
        B::in_field(v.c0, &p.base) && B::in_field(v.c1, &p.base)
    }

    open spec fn wf(&self, p: &QuadParams<B>) -> bool {
        self.c0.wf(&p.base) && self.c1.wf(&p.base)
    }

    open spec fn zero_v(p: &QuadParams<B>) -> QuadExt<B::Value> {
        QuadExt { c0: B::zero_v(&p.base), c1: B::zero_v(&p.base) }
    }

    open spec fn one_v(p: &QuadParams<B>) -> QuadExt<B::Value> {
        QuadExt { c0: B::one_v(&p.base), c1: B::zero_v(&p.base) }
    }

    open spec fn add_v(a: QuadExt<B::Value>, b: QuadExt<B::Value>, p: &QuadParams<B>) -> QuadExt<
        B::Value,
    > {
        quad_add_v::<B>(a, b, p)
    }

    open spec fn sub_v(a: QuadExt<B::Value>, b: QuadExt<B::Value>, p: &QuadParams<B>) -> QuadExt<
        B::Value,
    > {
        quad_sub_v::<B>(a, b, p)
    }

    open spec fn neg_v(a: QuadExt<B::Value>, p: &QuadParams<B>) -> QuadExt<B::Value> {
        quad_neg_v::<B>(a, p)
    }

    open spec fn mul_v(a: QuadExt<B::Value>, b: QuadExt<B::Value>, p: &QuadParams<B>) -> QuadExt<
        B::Value,
    > {
        quad_mul_v::<B>(a, b, p)
    }

    open spec fn inv_v(a: QuadExt<B::Value>, p: &QuadParams<B>) -> Option<QuadExt<B::Value>> {
        quad_inv_v::<B>(a, p)
    }

    open spec fn frobenius_v(a: QuadExt<B::Value>, power: nat, p: &QuadParams<B>) -> QuadExt<
        B::Value,
    > {
        quad_frobenius_v::<B>(a, power, p)
    }

    open spec fn byte_len(p: &QuadParams<B>) -> nat {
        2 * B::byte_len(&p.base)
    }

    open spec fn encode_v(a: QuadExt<B::Value>, p: &QuadParams<B>) -> Seq<u8> {
        B::encode_v(a.c0, &p.base) + B::encode_v(a.c1, &p.base)
    }

    open spec fn decode_v(bytes: Seq<u8>, p: &QuadParams<B>) -> Option<QuadExt<B::Value>> {
        let len = B::byte_len(&p.base) as int;
        if bytes.len() == 2 * len {
            match (
                B::decode_v(bytes.subrange(0, len), &p.base),
                B::decode_v(bytes.subrange(len, 2 * len), &p.base),
            ) {
                (Some(c0), Some(c1)) => Some(QuadExt { c0, c1 }),
                _ => None,
            }
        } else {
            None
        }
    }

    proof fn lemma_wf_in_field(&self, p: &QuadParams<B>) {
        self.c0.lemma_wf_in_field(&p.base);
        self.c1.lemma_wf_in_field(&p.base);
    }

    fn zero(p: &QuadParams<B>) -> (r: Self) {
        QuadExt { c0: B::zero(&p.base), c1: B::zero(&p.base) }
    }

    fn one(p: &QuadParams<B>) -> (r: Self) {
        QuadExt { c0: B::one(&p.base), c1: B::zero(&p.base) }
    }

    fn dup(&self, p: &QuadParams<B>) -> (r: Self) {
        QuadExt { c0: self.c0.dup(&p.base), c1: self.c1.dup(&p.base) }
    }

    fn is_zero(&self, p: &QuadParams<B>) -> (r: bool) {
        self.c0.is_zero(&p.base) && self.c1.is_zero(&p.base)
    }

    fn same(&self, rhs: &Self, p: &QuadParams<B>) -> (r: bool) {
        self.c0.same(&rhs.c0, &p.base) && self.c1.same(&rhs.c1, &p.base)
    }

    fn add(&self, rhs: &Self, p: &QuadParams<B>) -> (r: Self) {
        proof {
            reveal(quad_add_v);
        }
        QuadExt { c0: self.c0.add(&rhs.c0, &p.base), c1: self.c1.add(&rhs.c1, &p.base) }
    }

    fn sub(&self, rhs: &Self, p: &QuadParams<B>) -> (r: Self) {
        proof {
            reveal(quad_sub_v);
        }
        QuadExt { c0: self.c0.sub(&rhs.c0, &p.base), c1: self.c1.sub(&rhs.c1, &p.base) }
    }

    fn neg(&self, p: &QuadParams<B>) -> (r: Self) {
        proof {
            reveal(quad_neg_v);
        }
        QuadExt { c0: self.c0.neg(&p.base), c1: self.c1.neg(&p.base) }
    }

    fn double(&self, p: &QuadParams<B>) -> (r: Self) {
        proof {
            reveal(quad_add_v);
        }
        QuadExt { c0: self.c0.double(&p.base), c1: self.c1.double(&p.base) }
    }

    fn mul(&self, rhs: &Self, p: &QuadParams<B>) -> (r: Self) {
        proof {
            reveal(quad_mul_v);
        }
        let bp = &p.base;
        let v0 = self.c0.mul(&rhs.c0, bp);
        let v1 = self.c1.mul(&rhs.c1, bp);
        let nv1 = p.nonresidue.mul(&v1, bp);
        let m01 = self.c0.mul(&rhs.c1, bp);
        let m10 = self.c1.mul(&rhs.c0, bp);
        QuadExt { c0: v0.add(&nv1, bp), c1: m01.add(&m10, bp) }
    }

    fn square(&self, p: &QuadParams<B>) -> (r: Self) {
        self.mul(self, p)
    }

    fn inverse(&self, p: &QuadParams<B>) -> (r: Option<Self>) {
        proof {
            reveal(quad_inv_v);
        }
        let bp = &p.base;
        let s0 = self.c0.mul(&self.c0, bp);
        let s1 = self.c1.mul(&self.c1, bp);
        let ns1 = p.nonresidue.mul(&s1, bp);
        let norm = s0.sub(&ns1, bp);
        match norm.inverse(bp) {
            Some(ni) => {
                let c0 = self.c0.mul(&ni, bp);
                let t = self.c1.mul(&ni, bp);
                Some(QuadExt { c0, c1: t.neg(bp) })
            },
            None => None,
        }
    }

    fn frobenius_map(&self, power: usize, p: &QuadParams<B>) -> (r: Self) {
        proof {
            reveal(quad_frobenius_v);
        }
        let bp = &p.base;
        let c0 = self.c0.frobenius_map(power, bp);
        let t = self.c1.frobenius_map(power, bp);
        let idx = power % p.frobenius.len();
        let c1 = t.mul(&p.frobenius[idx], bp);
        QuadExt { c0, c1 }
    }

    fn encoded_len(p: &QuadParams<B>) -> (r: usize) {
        2 * B::encoded_len(&p.base)
    }

    fn write(&self, out: &mut Vec<u8>, p: &QuadParams<B>) {
        let ghost start = out@;
        self.c0.write(out, &p.base);
        self.c1.write(out, &p.base);
        assert(out@ =~= start + (B::encode_v(self.c0.value(), &p.base) + B::encode_v(
            self.c1.value(),
            &p.base,
        )));
    }

    fn read(bytes: &Vec<u8>, p: &QuadParams<B>) -> (r: Result<Self, Error>) {
        let len = B::encoded_len(&p.base);
        if bytes.len() != 2 * len {
            return Err(Error::DeserializationRangeError);
        }
        let first = slice_bytes(bytes, 0, len);
        let second = slice_bytes(bytes, len, 2 * len);
        match B::read(&first, &p.base) {
            Ok(c0) => match B::read(&second, &p.base) {
                Ok(c1) => Ok(QuadExt { c0, c1 }),
                Err(e) => Err(Error::DeserializationRangeError),
            },
            Err(e) => Err(Error::DeserializationRangeError),
        }
    }
}

/// The element whose coefficients are the entries `2k` and `2k + 1` of a
/// table of numbers, each as long as the modulus `m`.
pub open spec fn quad_entry_v(table: Seq<u64>, k: int, m: &Modulus) -> QuadExt<nat> {
    QuadExt { c0: entry_v(table, 2 * k, m), c1: entry_v(table, 2 * k + 1, m) }
}

/// The elements of a quadratic extension of a prime field that the first
/// `count` pairs of entries of a table stand for.
pub fn quad_table(table: &[u64], count: usize, m: &Modulus) -> (r: Vec<QuadExt<Fp>>)
    requires
        m.wf(),
        2 * count * m.limbs@.len() <= table@.len(),
    ensures
        r@.len() == count,
        forall|k: int|
            0 <= k < count ==> (#[trigger] r@[k]).c0.wf(m) && r@[k].c1.wf(m) && r@[k].value()
                == quad_entry_v(table@, k, m),
{
    let mut out: Vec<QuadExt<Fp>> = Vec::new();
    let mut i: usize = 0;
    let total = table.len();
    while i < count
        invariant
            i <= count,
            m.wf(),
            total == table@.len(),
            2 * count * m.limbs@.len() <= table@.len(),
            out@.len() == i,
            forall|k: int|
                0 <= k < i ==> (#[trigger] out@[k]).c0.wf(m) && out@[k].c1.wf(m) && out@[k].value()
                    == quad_entry_v(table@, k, m),
        decreases count - i,
    {
        assert((2 * i + 2) * m.limbs@.len() <= 2 * count * m.limbs@.len()) by (nonlinear_arith)
            requires
                i + 1 <= count,
        ;
        assert(2 * i + 2 <= total) by (nonlinear_arith)
            requires
                (2 * i + 2) * m.limbs@.len() <= total,
                m.limbs@.len() >= 1,
        ;
        assert((2 * i + 1) * m.limbs@.len() <= (2 * i + 2) * m.limbs@.len()) by (nonlinear_arith)
            requires
                m.limbs@.len() >= 0,
                i >= 0,
        ;
        let c0 = Fp::from_table(table, 2 * i, m);
        let c1 = Fp::from_table(table, 2 * i + 1, m);
        out.push(QuadExt { c0, c1 });
        i += 1;
    }
    out
}

/// The product in a quadratic extension of a prime field, written out over
/// the residues: `n` is the non-residue and `q` the modulus.
pub open spec fn quad_mul_fp(x: QuadExt<nat>, y: QuadExt<nat>, n: nat, q: nat) -> QuadExt<nat> {
    QuadExt {
        c0: add_mod(mul_mod(x.c0, y.c0, q), mul_mod(n, mul_mod(x.c1, y.c1, q), q), q),
        c1: add_mod(mul_mod(x.c0, y.c1, q), mul_mod(x.c1, y.c0, q), q),
    }
}

/// The Frobenius image in a quadratic extension of a prime field, written
/// out over the residues: `c` is the coefficient of the table.
pub open spec fn quad_frobenius_fp(x: QuadExt<nat>, c: nat, q: nat) -> QuadExt<nat> {
    QuadExt { c0: x.c0, c1: mul_mod(x.c1, c, q) }
}

/// The operations of a quadratic extension of a prime field are those
/// written out over the residues.
pub proof fn lemma_quad_fp(x: QuadExt<nat>, y: QuadExt<nat>, p: &QuadParams<Fp>)
    requires
        p.frobenius@.len() == 2,
    ensures
        QuadExt::<Fp>::mul_v(x, y, p) == quad_mul_fp(x, y, p.nonresidue.value(), p.base.value()),
        QuadExt::<Fp>::frobenius_v(x, 1, p) == quad_frobenius_fp(
            x,
            p.frobenius@[1].value(),
            p.base.value(),
        ),
{
    reveal(quad_mul_v);
    reveal(quad_frobenius_v);
}

} // verus!

//! Powers of field elements by the binary method.

use vstd::prelude::*;
use crate::bigint::limbs_val;
use crate::bits::{bits_be, bits_of};
use crate::fields::field::Field;

verus! {

/// `a^e`, by the binary expansion of `e`: the square of `a^(e / 2)`, times
/// `a` where `e` is odd.
pub open spec fn pow_v<F: Field>(a: F::Value, e: nat, p: &F::Params) -> F::Value
    decreases e,
{
    if e == 0 {
        F::one_v(p)
    } else {
        let h = pow_v::<F>(a, e / 2, p);
        let s = F::mul_v(h, h, p);
        if e % 2 == 1 {
            F::mul_v(s, a, p)
        } else {
            s
        }
    }
}

/// The same over a list of binary digits, most significant first.
pub open spec fn pow_bits_v<F: Field>(a: F::Value, bits: Seq<bool>, p: &F::Params) -> F::Value
    decreases bits.len(),
{
    if bits.len() == 0 {
        F::one_v(p)
    } else {
        let h = pow_bits_v::<F>(a, bits.drop_last(), p);
        let s = F::mul_v(h, h, p);
        if bits.last() {
            F::mul_v(s, a, p)
        } else {
            s
        }
    }
}

/// The power over the binary digits of `e` is the power by `e`.
pub proof fn lemma_pow_bits<F: Field>(a: F::Value, e: nat, p: &F::Params)
    ensures
        pow_bits_v::<F>(a, bits_of(e), p) == pow_v::<F>(a, e, p),
    decreases e,
{
    if e > 0 {
        lemma_pow_bits::<F>(a, e / 2, p);
        assert(bits_of(e).drop_last() =~= bits_of(e / 2));
    }
}

/// `base` raised to the number that the limbs `exp` stand for, by squaring
/// and multiplying from the most significant bit down.
pub fn pow<F: Field>(base: &F, exp: &Vec<u64>, p: &F::Params) -> (r: F)
    requires
        F::params_wf(p),
        base.wf(p),
    ensures
        r.wf(p),
        r.value() == pow_v::<F>(base.value(), limbs_val(exp@), p),
{
    let bits = bits_be(exp);
    let mut acc = F::one(p);
    let mut i: usize = 0;
    assert(bits@.take(0).len() == 0);
    while i < bits.len()
        invariant
            i <= bits.len(),
            F::params_wf(p),
            base.wf(p),
            acc.wf(p),
            acc.value() == pow_bits_v::<F>(base.value(), bits@.take(i as int), p),
        decreases bits.len() - i,
    {
        let s = acc.square(p);
        proof {
            assert(bits@.take(i + 1).drop_last() =~= bits@.take(i as int));
        }
        if bits[i] {
            acc = s.mul(base, p);
        } else {
            acc = s;
        }
        i += 1;
    }
    proof {
        assert(bits@.take(bits.len() as int) =~= bits@);
        lemma_pow_bits::<F>(base.value(), limbs_val(exp@), p);
    }
    acc
}

} // verus!

//! The quadratic extension of the base field of Yafa-146.

use vstd::prelude::*;
use crate::fields::field::Field;
use crate::fields::prime::{entry_v, fp_table, Fp};
use crate::fields::quadratic::{QuadExt, QuadParams};
use crate::bigint::lemma_val_nine_limbs;
use crate::fields::frobenius::FrobeniusLaws;
use crate::modular::{mul_mod, Modulus};
use crate::yafa_146::fields::fq::{is_fq, lemma_modulus_value, modulus_value};

verus! {

/// An element of the quadratic extension `Fq[u] / (u^2 - 17)`.
pub type Fq2 = QuadExt<Fp>;

/// The configuration of the quadratic extension.
pub struct Fq2Config;

/// NONRESIDUE = 17
pub const NONRESIDUE: u64 = 17;

/// Coefficients for the Frobenius automorphism:
/// NONRESIDUE^((q^0 - 1) / 2) = 1,
/// NONRESIDUE^((q^1 - 1) / 2) = -1.
pub const FROBENIUS_COEFF_FP2_C1: [u64; 18] = [
    0x0000000000000001, 0x0000000000000000, 0x0000000000000000,
    0x0000000000000000, 0x0000000000000000, 0x0000000000000000,
    0x0000000000000000, 0x0000000000000000, 0x0000000000000000,
    0x08158152f773f0e8, 0xdf6ac56be2355158, 0x1495b477826bab3d,
    0x25a8234845d13371, 0x05064729b44e4107, 0x6d59daeda3de1b8b,
    0xb181e5db10149dfb, 0xec9e36d5dd45d227, 0x2400009dc9f03804,
];

impl Fq2Config {
    /// `p` describes the quadratic extension.
    pub open spec fn describes(p: &QuadParams<Fp>) -> bool {
        &&& is_fq(&p.base)
        &&& Fq2::params_wf(p)
        &&& p.nonresidue.value() == NONRESIDUE as nat % p.base.value()
        &&& p.frobenius@.len() == 2
        &&& forall|k: int|
            0 <= k < 2 ==> (#[trigger] p.frobenius@[k]).value() == entry_v(
                FROBENIUS_COEFF_FP2_C1@,
                k,
                &p.base,
            )
    }

    /// The description of the quadratic extension of the base field `fq`.
    pub fn params(fq: Modulus) -> (r: QuadParams<Fp>)
        requires
            is_fq(&fq),
        ensures
            Self::describes(&r),
            r.base == fq,
    {
        let nonresidue = Fp::from_u64(NONRESIDUE, &fq);
        let frobenius = fp_table(FROBENIUS_COEFF_FP2_C1.as_slice(), 2, &fq);
        QuadParams { base: fq, nonresidue, frobenius }
    }
}

// ---- constants of the Frobenius map

/// The coefficients of the table as numbers: one and minus one.
pub proof fn lemma_frobenius_coefficients(fq: &Modulus)
    requires
        is_fq(fq),
    ensures
        fq.value() == modulus_value(),
        entry_v(FROBENIUS_COEFF_FP2_C1@, 0, fq) == 1,
        entry_v(FROBENIUS_COEFF_FP2_C1@, 1, fq) == modulus_value() - 1,
{
    lemma_modulus_value();
    lemma_val_nine_limbs(FROBENIUS_COEFF_FP2_C1@.subrange(0, 9));
    lemma_val_nine_limbs(FROBENIUS_COEFF_FP2_C1@.subrange(9, 18));
}

/// The constants of the quadratic extension as numbers.
pub proof fn lemma_constants(p: &QuadParams<Fp>)
    requires
        Fq2Config::describes(p),
    ensures
        p.base.value() == modulus_value(),
        p.nonresidue.value() == 17,
        p.frobenius@.len() == 2,
        p.frobenius@[0].value() == 1,
        p.frobenius@[1].value() == modulus_value() - 1,
{
    lemma_frobenius_coefficients(&p.base);
    vstd::arithmetic::div_mod::lemma_small_mod(17, modulus_value());
    assert(p.frobenius@[0].value() == entry_v(FROBENIUS_COEFF_FP2_C1@, 0, &p.base));
    assert(p.frobenius@[1].value() == entry_v(FROBENIUS_COEFF_FP2_C1@, 1, &p.base));
}

/// Minus one times minus one is one.
proof fn lemma_minus_one_squared()
    ensures
        mul_mod((modulus_value() - 1) as nat, (modulus_value() - 1) as nat, modulus_value()) == 1,
        mul_mod(1, (modulus_value() - 1) as nat, modulus_value()) == modulus_value() - 1,
        mul_mod(NONRESIDUE as nat % modulus_value(), 1, modulus_value()) == NONRESIDUE as nat
            % modulus_value(),
{
    let q = modulus_value();
    let m = (q - 1) as nat;
    let n = NONRESIDUE as nat % q;
    assert((m * m) % q == 1 && (1 * m) % q == m && (n * 1) % q == n) by (nonlinear_arith)
        requires
            q == 0x2400009dc9f03804ec9e36d5dd45d227b181e5db10149dfb6d59daeda3de1b8b05064729b44e410725a8234845d133711495b477826bab3ddf6ac56be235515808158152f773f0e9nat,
            m == 0x2400009dc9f03804ec9e36d5dd45d227b181e5db10149dfb6d59daeda3de1b8b05064729b44e410725a8234845d133711495b477826bab3ddf6ac56be235515808158152f773f0e8nat,
            n == 17,
    ;
}

/// The table of the quadratic extension is consistent.
pub proof fn lemma_tables_consistent(p: &QuadParams<Fp>)
    requires
        Fq2Config::describes(p),
    ensures
        Fq2::tables_consistent(p),
{
    lemma_frobenius_coefficients(&p.base);
    lemma_minus_one_squared();
    assert forall|k: int| 0 <= k < 2 implies (#[trigger] p.frobenius@[(k + 1) % 2]).value()
        == Fp::mul_v(
        Fp::frobenius_v(p.frobenius@[k].value(), 1, &p.base),
        p.frobenius@[1].value(),
        &p.base,
    ) by {
        if k == 0 {
            assert(p.frobenius@[(k + 1) % 2] == p.frobenius@[1]);
        } else {
            assert(p.frobenius@[(k + 1) % 2] == p.frobenius@[0]);
        }
    }
}

} // verus!

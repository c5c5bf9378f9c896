//! The target field of Yafa-146: the quadratic extension of the cubic extension.

use vstd::prelude::*;
use crate::fields::cubic::{CubicExt, CubicParams};
use crate::fields::field::Field;
use crate::bigint::{lemma_val_nine_limbs, limbs_val};
use crate::fields::embedded::{embed_v, lemma_quad_over_cubic_consistent};
use crate::fields::frobenius::FrobeniusLaws;
use crate::fields::prime::Fp;
use crate::fields::quadratic::{
    lemma_quad_fp, quad_entry_v, quad_frobenius_fp, quad_mul_fp, quad_table, QuadExt, QuadParams,
};
use crate::modular::Modulus;
use crate::yafa_146::fields::fq::{is_fq, lemma_modulus_value};
use crate::yafa_146::fields::fq2::{lemma_constants, Fq2, Fq2Config};
use crate::yafa_146::fields::fq6::{Fq6, Fq6Config};

verus! {

/// An element of the target field `Fq6[w] / (w^2 - v)`.
pub type Fq12 = QuadExt<CubicExt<QuadExt<Fp>>>;

/// The configuration of the target field.
pub struct Fq12Config;

/// Coefficients for the Frobenius automorphism:
/// NONRESIDUE^((q^k - 1) / 2) for k = 0, ..., 11. Each lies in the quadratic
/// extension and is given by its two coefficients.
pub const FROBENIUS_COEFF_FP12_C1: [u64; 216] = [
    0x0000000000000001, 0x0000000000000000, 0x0000000000000000,
    0x0000000000000000, 0x0000000000000000, 0x0000000000000000,
    0x0000000000000000, 0x0000000000000000, 0x0000000000000000,
    0x0000000000000000, 0x0000000000000000, 0x0000000000000000,
    0x0000000000000000, 0x0000000000000000, 0x0000000000000000,
    0x0000000000000000, 0x0000000000000000, 0x0000000000000000,
    0xdbdce41a58dbeffa, 0x858980cfcd2685b4, 0x6f554f296c83582f,
    0x9678c61122e8ee28, 0x59c56e269af7df24, 0x92395765b3ed1536,
    0xc489a52cc8f6c389, 0xa8738d32bca7eaaf, 0x0a196fef8f43a9cb,
    0x0000000000000000, 0x0000000000000000, 0x0000000000000000,
    0x0000000000000000, 0x0000000000000000, 0x0000000000000000,
    0x0000000000000000, 0x0000000000000000, 0x0000000000000000,
    0x3c7c20d2a925e4c4, 0x4d2edd502eb496fa, 0x5985e6027b615899,
    0x3a30dd5a49ae5782, 0x21bfc4870137b37d, 0xb29b1708a5d1ad40,
    0x5c8218b2a8d13d53, 0x8f772c40d42a593e, 0x177ad70dc69dd7cd,
    0x0000000000000000, 0x0000000000000000, 0x0000000000000000,
    0x0000000000000000, 0x0000000000000000, 0x0000000000000000,
    0x0000000000000000, 0x0000000000000000, 0x0000000000000000,
    0xf63f5287856455e7, 0xbde213dea6afec74, 0x84280df06b43e031,
    0xf987b65b98babfb5, 0xf057d867b08e8428, 0xb78e005f863eeee2,
    0x76c25c7a9d07a67d, 0x790733c1f910ecc1, 0x0b4a22a7d7741f4b,
    0x0000000000000000, 0x0000000000000000, 0x0000000000000000,
    0x0000000000000000, 0x0000000000000000, 0x0000000000000000,
    0x0000000000000000, 0x0000000000000000, 0x0000000000000000,
    0x3c7c20d2a925e4c3, 0x4d2edd502eb496fa, 0x5985e6027b615899,
    0x3a30dd5a49ae5782, 0x21bfc4870137b37d, 0xb29b1708a5d1ad40,
    0x5c8218b2a8d13d53, 0x8f772c40d42a593e, 0x177ad70dc69dd7cd,
    0x0000000000000000, 0x0000000000000000, 0x0000000000000000,
    0x0000000000000000, 0x0000000000000000, 0x0000000000000000,
    0x0000000000000000, 0x0000000000000000, 0x0000000000000000,
    0x1a626e6d2c8865ed, 0x3858930ed98966c0, 0x14d2bec6fec08802,
    0x630ef04a75d1d18d, 0x96926a411596a504, 0x2554a8f9d251d9ac,
    0xb238b74dd410e2f4, 0xd093a68f3c690211, 0x0130b2b84830757f,
    0x0000000000000000, 0x0000000000000000, 0x0000000000000000,
    0x0000000000000000, 0x0000000000000000, 0x0000000000000000,
    0x0000000000000000, 0x0000000000000000, 0x0000000000000000,
    0x08158152f773f0e8, 0xdf6ac56be2355158, 0x1495b477826bab3d,
    0x25a8234845d13371, 0x05064729b44e4107, 0x6d59daeda3de1b8b,
    0xb181e5db10149dfb, 0xec9e36d5dd45d227, 0x2400009dc9f03804,
    0x0000000000000000, 0x0000000000000000, 0x0000000000000000,
    0x0000000000000000, 0x0000000000000000, 0x0000000000000000,
    0x0000000000000000, 0x0000000000000000, 0x0000000000000000,
    0x2c389d389e9800ef, 0x59e1449c150ecba3, 0xa540654e15e8530e,
    0x8f2f5d3722e84548, 0xab40d903195661e2, 0xdb208387eff10654,
    0xecf840ae471dda71, 0x442aa9a3209de777, 0x19e690ae3aac8e39,
    0x0000000000000000, 0x0000000000000000, 0x0000000000000000,
    0x0000000000000000, 0x0000000000000000, 0x0000000000000000,
    0x0000000000000000, 0x0000000000000000, 0x0000000000000000,
    0xcb9960804e4e0c25, 0x923be81bb380ba5d, 0xbb0fce75070a52a4,
    0xeb7745edfc22dbee, 0xe34682a2b3168d89, 0xbabec3e4fe0c6e4a,
    0x54ffcd28674360a7, 0x5d270a95091b78e9, 0x0c85299003526037,
    0x0000000000000000, 0x0000000000000000, 0x0000000000000000,
    0x0000000000000000, 0x0000000000000000, 0x0000000000000000,
    0x0000000000000000, 0x0000000000000000, 0x0000000000000000,
    0x11d62ecb720f9b02, 0x2188b18d3b8564e3, 0x906da6871727cb0c,
    0x2c206cecad1673bb, 0x14ae6ec203bfbcde, 0xb5cbda8e1d9f2ca8,
    0x3abf8960730cf77d, 0x73970313e434e566, 0x18b5ddf5f27c18b9,
    0x0000000000000000, 0x0000000000000000, 0x0000000000000000,
    0x0000000000000000, 0x0000000000000000, 0x0000000000000000,
    0x0000000000000000, 0x0000000000000000, 0x0000000000000000,
    0xcb9960804e4e0c26, 0x923be81bb380ba5d, 0xbb0fce75070a52a4,
    0xeb7745edfc22dbee, 0xe34682a2b3168d89, 0xbabec3e4fe0c6e4a,
    0x54ffcd28674360a7, 0x5d270a95091b78e9, 0x0c85299003526037,
    0x0000000000000000, 0x0000000000000000, 0x0000000000000000,
    0x0000000000000000, 0x0000000000000000, 0x0000000000000000,
    0x0000000000000000, 0x0000000000000000, 0x0000000000000000,
    0xedb312e5caeb8afc, 0xa712325d08abea97, 0xffc2f5b083ab233b,
    0xc29932fdcfff61e3, 0x6e73dce89eb79c02, 0x480531f3d18c41de,
    0xff492e8d3c03bb07, 0x1c0a9046a0dcd015, 0x22cf4de581bfc285,
    0x0000000000000000, 0x0000000000000000, 0x0000000000000000,
    0x0000000000000000, 0x0000000000000000, 0x0000000000000000,
    0x0000000000000000, 0x0000000000000000, 0x0000000000000000,
];

impl Fq12Config {
    /// `p` describes the target field.
    pub open spec fn describes(p: &QuadParams<Fq6>) -> bool {
        &&& Fq6Config::describes(&p.base)
        &&& Fq12::params_wf(p)
        &&& p.nonresidue.value() == (CubicExt {
            c0: Fq2::zero_v(&p.base.base),
            c1: Fq2::one_v(&p.base.base),
            c2: Fq2::zero_v(&p.base.base),
        })
        &&& p.frobenius@.len() == 12
        &&& forall|k: int|
            0 <= k < 12 ==> (#[trigger] p.frobenius@[k]).value() == (CubicExt {
                c0: quad_entry_v(FROBENIUS_COEFF_FP12_C1@, k, &p.base.base.base),
                c1: Fq2::zero_v(&p.base.base),
                c2: Fq2::zero_v(&p.base.base),
            })
    }

    /// The description of the target field over the cubic extension `fq6`.
    pub fn params(fq6: CubicParams<Fq2>) -> (r: QuadParams<Fq6>)
        requires
            Fq6Config::describes(&fq6),
        ensures
            Self::describes(&r),
            r.base == fq6,
    {
        let nonresidue = CubicExt {
            c0: Fq2::zero(&fq6.base),
            c1: Fq2::one(&fq6.base),
            c2: Fq2::zero(&fq6.base),
        };
        let coefficients = quad_table(FROBENIUS_COEFF_FP12_C1.as_slice(), 12, &fq6.base.base);
        let mut frobenius: Vec<Fq6> = Vec::new();
        let mut i: usize = 0;
        while i < 12
            invariant
                i <= 12,
                Fq6Config::describes(&fq6),
                coefficients@.len() == 12,
                forall|k: int|
                    0 <= k < 12 ==> (#[trigger] coefficients@[k]).c0.wf(&fq6.base.base)
                        && coefficients@[k].c1.wf(&fq6.base.base) && coefficients@[k].value()
                        == quad_entry_v(FROBENIUS_COEFF_FP12_C1@, k, &fq6.base.base),
                frobenius@.len() == i,
                forall|k: int|
                    0 <= k < i ==> (#[trigger] frobenius@[k]).wf(&fq6) && frobenius@[k].value() == (
                    CubicExt {
                        c0: quad_entry_v(FROBENIUS_COEFF_FP12_C1@, k, &fq6.base.base),
                        c1: Fq2::zero_v(&fq6.base),
                        c2: Fq2::zero_v(&fq6.base),
                    }),
            decreases 12 - i,
        {
            let c0 = coefficients[i].dup(&fq6.base);
            frobenius.push(Fq6::from_base(c0, &fq6));
            i += 1;
        }
        QuadParams { base: fq6, nonresidue, frobenius }
    }
}

// ---- constants of the Frobenius map

/// The coefficient of the table for power 0 as a number.
proof fn lemma_c1_value_0(fq: &Modulus)
    requires
        is_fq(fq),
    ensures
        quad_entry_v(FROBENIUS_COEFF_FP12_C1@, 0, fq) == (QuadExt { c0: 0x1nat, c1: 0x0nat }),
{
    lemma_modulus_value();
    let n = fq.limbs@.len() as int;
    assert(0 * n == 0 && (0 + 1) * n == 9 && (1 + 1) * n == 18) by (nonlinear_arith)
        requires
            n == 9,
    ;
    lemma_val_nine_limbs(FROBENIUS_COEFF_FP12_C1@.subrange(0, 9));
    lemma_val_nine_limbs(FROBENIUS_COEFF_FP12_C1@.subrange(9, 18));
}

/// The coefficient of the table for power 1 as a number.
proof fn lemma_c1_value_1(fq: &Modulus)
    requires
        is_fq(fq),
    ensures
        quad_entry_v(FROBENIUS_COEFF_FP12_C1@, 1, fq) == (QuadExt { c0: 0xa196fef8f43a9cba8738d32bca7eaafc489a52cc8f6c38992395765b3ed153659c56e269af7df249678c61122e8ee286f554f296c83582f858980cfcd2685b4dbdce41a58dbeffanat, c1: 0x0nat }),
{
    lemma_modulus_value();
    let n = fq.limbs@.len() as int;
    assert(2 * n == 18 && (2 + 1) * n == 27 && (3 + 1) * n == 36) by (nonlinear_arith)
        requires
            n == 9,
    ;
    lemma_val_nine_limbs(FROBENIUS_COEFF_FP12_C1@.subrange(18, 27));
    lemma_val_nine_limbs(FROBENIUS_COEFF_FP12_C1@.subrange(27, 36));
}

/// The coefficient of the table for power 2 as a number.
proof fn lemma_c1_value_2(fq: &Modulus)
    requires
        is_fq(fq),
    ensures
        quad_entry_v(FROBENIUS_COEFF_FP12_C1@, 2, fq) == (QuadExt { c0: 0x177ad70dc69dd7cd8f772c40d42a593e5c8218b2a8d13d53b29b1708a5d1ad4021bfc4870137b37d3a30dd5a49ae57825985e6027b6158994d2edd502eb496fa3c7c20d2a925e4c4nat, c1: 0x0nat }),
{
    lemma_modulus_value();
    let n = fq.limbs@.len() as int;
    assert(4 * n == 36 && (4 + 1) * n == 45 && (5 + 1) * n == 54) by (nonlinear_arith)
        requires
            n == 9,
    ;
    lemma_val_nine_limbs(FROBENIUS_COEFF_FP12_C1@.subrange(36, 45));
    lemma_val_nine_limbs(FROBENIUS_COEFF_FP12_C1@.subrange(45, 54));
}

/// The coefficient of the table for power 3 as a number.
proof fn lemma_c1_value_3(fq: &Modulus)
    requires
        is_fq(fq),
    ensures
        quad_entry_v(FROBENIUS_COEFF_FP12_C1@, 3, fq) == (QuadExt { c0: 0xb4a22a7d7741f4b790733c1f910ecc176c25c7a9d07a67db78e005f863eeee2f057d867b08e8428f987b65b98babfb584280df06b43e031bde213dea6afec74f63f5287856455e7nat, c1: 0x0nat }),
{
    lemma_modulus_value();
    let n = fq.limbs@.len() as int;
    assert(6 * n == 54 && (6 + 1) * n == 63 && (7 + 1) * n == 72) by (nonlinear_arith)
        requires
            n == 9,
    ;
    lemma_val_nine_limbs(FROBENIUS_COEFF_FP12_C1@.subrange(54, 63));
    lemma_val_nine_limbs(FROBENIUS_COEFF_FP12_C1@.subrange(63, 72));
}

/// The coefficient of the table for power 4 as a number.
proof fn lemma_c1_value_4(fq: &Modulus)
    requires
        is_fq(fq),
    ensures
        quad_entry_v(FROBENIUS_COEFF_FP12_C1@, 4, fq) == (QuadExt { c0: 0x177ad70dc69dd7cd8f772c40d42a593e5c8218b2a8d13d53b29b1708a5d1ad4021bfc4870137b37d3a30dd5a49ae57825985e6027b6158994d2edd502eb496fa3c7c20d2a925e4c3nat, c1: 0x0nat }),
{
    lemma_modulus_value();
    let n = fq.limbs@.len() as int;
    assert(8 * n == 72 && (8 + 1) * n == 81 && (9 + 1) * n == 90) by (nonlinear_arith)
        requires
            n == 9,
    ;
    lemma_val_nine_limbs(FROBENIUS_COEFF_FP12_C1@.subrange(72, 81));
    lemma_val_nine_limbs(FROBENIUS_COEFF_FP12_C1@.subrange(81, 90));
}

/// The coefficient of the table for power 5 as a number.
proof fn lemma_c1_value_5(fq: &Modulus)
    requires
        is_fq(fq),
    ensures
        quad_entry_v(FROBENIUS_COEFF_FP12_C1@, 5, fq) == (QuadExt { c0: 0x130b2b84830757fd093a68f3c690211b238b74dd410e2f42554a8f9d251d9ac96926a411596a504630ef04a75d1d18d14d2bec6fec088023858930ed98966c01a626e6d2c8865ednat, c1: 0x0nat }),
{
    lemma_modulus_value();
    let n = fq.limbs@.len() as int;
    assert(10 * n == 90 && (10 + 1) * n == 99 && (11 + 1) * n == 108) by (nonlinear_arith)
        requires
            n == 9,
    ;
    lemma_val_nine_limbs(FROBENIUS_COEFF_FP12_C1@.subrange(90, 99));
    lemma_val_nine_limbs(FROBENIUS_COEFF_FP12_C1@.subrange(99, 108));
}

/// The coefficient of the table for power 6 as a number.
proof fn lemma_c1_value_6(fq: &Modulus)
    requires
        is_fq(fq),
    ensures
        quad_entry_v(FROBENIUS_COEFF_FP12_C1@, 6, fq) == (QuadExt { c0: 0x2400009dc9f03804ec9e36d5dd45d227b181e5db10149dfb6d59daeda3de1b8b05064729b44e410725a8234845d133711495b477826bab3ddf6ac56be235515808158152f773f0e8nat, c1: 0x0nat }),
{
    lemma_modulus_value();
    let n = fq.limbs@.len() as int;
    assert(12 * n == 108 && (12 + 1) * n == 117 && (13 + 1) * n == 126) by (nonlinear_arith)
        requires
            n == 9,
    ;
    lemma_val_nine_limbs(FROBENIUS_COEFF_FP12_C1@.subrange(108, 117));
    lemma_val_nine_limbs(FROBENIUS_COEFF_FP12_C1@.subrange(117, 126));
}

/// The coefficient of the table for power 7 as a number.
proof fn lemma_c1_value_7(fq: &Modulus)
    requires
        is_fq(fq),
    ensures
        quad_entry_v(FROBENIUS_COEFF_FP12_C1@, 7, fq) == (QuadExt { c0: 0x19e690ae3aac8e39442aa9a3209de777ecf840ae471dda71db208387eff10654ab40d903195661e28f2f5d3722e84548a540654e15e8530e59e1449c150ecba32c389d389e9800efnat, c1: 0x0nat }),
{
    lemma_modulus_value();
    let n = fq.limbs@.len() as int;
    assert(14 * n == 126 && (14 + 1) * n == 135 && (15 + 1) * n == 144) by (nonlinear_arith)
        requires
            n == 9,
    ;
    lemma_val_nine_limbs(FROBENIUS_COEFF_FP12_C1@.subrange(126, 135));
    lemma_val_nine_limbs(FROBENIUS_COEFF_FP12_C1@.subrange(135, 144));
}

/// The coefficient of the table for power 8 as a number.
proof fn lemma_c1_value_8(fq: &Modulus)
    requires
        is_fq(fq),
    ensures
        quad_entry_v(FROBENIUS_COEFF_FP12_C1@, 8, fq) == (QuadExt { c0: 0xc852990035260375d270a95091b78e954ffcd28674360a7babec3e4fe0c6e4ae34682a2b3168d89eb7745edfc22dbeebb0fce75070a52a4923be81bb380ba5dcb9960804e4e0c25nat, c1: 0x0nat }),
{
    lemma_modulus_value();
    let n = fq.limbs@.len() as int;
    assert(16 * n == 144 && (16 + 1) * n == 153 && (17 + 1) * n == 162) by (nonlinear_arith)
        requires
            n == 9,
    ;
    lemma_val_nine_limbs(FROBENIUS_COEFF_FP12_C1@.subrange(144, 153));
    lemma_val_nine_limbs(FROBENIUS_COEFF_FP12_C1@.subrange(153, 162));
}

/// The coefficient of the table for power 9 as a number.
proof fn lemma_c1_value_9(fq: &Modulus)
    requires
        is_fq(fq),
    ensures
        quad_entry_v(FROBENIUS_COEFF_FP12_C1@, 9, fq) == (QuadExt { c0: 0x18b5ddf5f27c18b973970313e434e5663abf8960730cf77db5cbda8e1d9f2ca814ae6ec203bfbcde2c206cecad1673bb906da6871727cb0c2188b18d3b8564e311d62ecb720f9b02nat, c1: 0x0nat }),
{
    lemma_modulus_value();
    let n = fq.limbs@.len() as int;
    assert(18 * n == 162 && (18 + 1) * n == 171 && (19 + 1) * n == 180) by (nonlinear_arith)
        requires
            n == 9,
    ;
    lemma_val_nine_limbs(FROBENIUS_COEFF_FP12_C1@.subrange(162, 171));
    lemma_val_nine_limbs(FROBENIUS_COEFF_FP12_C1@.subrange(171, 180));
}

/// The coefficient of the table for power 10 as a number.
proof fn lemma_c1_value_10(fq: &Modulus)
    requires
        is_fq(fq),
    ensures
        quad_entry_v(FROBENIUS_COEFF_FP12_C1@, 10, fq) == (QuadExt { c0: 0xc852990035260375d270a95091b78e954ffcd28674360a7babec3e4fe0c6e4ae34682a2b3168d89eb7745edfc22dbeebb0fce75070a52a4923be81bb380ba5dcb9960804e4e0c26nat, c1: 0x0nat }),
{
    lemma_modulus_value();
    let n = fq.limbs@.len() as int;
    assert(20 * n == 180 && (20 + 1) * n == 189 && (21 + 1) * n == 198) by (nonlinear_arith)
        requires
            n == 9,
    ;
    lemma_val_nine_limbs(FROBENIUS_COEFF_FP12_C1@.subrange(180, 189));
    lemma_val_nine_limbs(FROBENIUS_COEFF_FP12_C1@.subrange(189, 198));
}

/// The coefficient of the table for power 11 as a number.
proof fn lemma_c1_value_11(fq: &Modulus)
    requires
        is_fq(fq),
    ensures
        quad_entry_v(FROBENIUS_COEFF_FP12_C1@, 11, fq) == (QuadExt { c0: 0x22cf4de581bfc2851c0a9046a0dcd015ff492e8d3c03bb07480531f3d18c41de6e73dce89eb79c02c29932fdcfff61e3ffc2f5b083ab233ba712325d08abea97edb312e5caeb8afcnat, c1: 0x0nat }),
{
    lemma_modulus_value();
    let n = fq.limbs@.len() as int;
    assert(22 * n == 198 && (22 + 1) * n == 207 && (23 + 1) * n == 216) by (nonlinear_arith)
        requires
            n == 9,
    ;
    lemma_val_nine_limbs(FROBENIUS_COEFF_FP12_C1@.subrange(198, 207));
    lemma_val_nine_limbs(FROBENIUS_COEFF_FP12_C1@.subrange(207, 216));
}

/// The product behind the step from power 0 to power 1.
proof fn lemma_c1_step_0_numbers()
    ensures
        quad_mul_fp(quad_frobenius_fp((QuadExt { c0: 0x1nat, c1: 0x0nat }), 0x2400009dc9f03804ec9e36d5dd45d227b181e5db10149dfb6d59daeda3de1b8b05064729b44e410725a8234845d133711495b477826bab3ddf6ac56be235515808158152f773f0e8nat, 0x2400009dc9f03804ec9e36d5dd45d227b181e5db10149dfb6d59daeda3de1b8b05064729b44e410725a8234845d133711495b477826bab3ddf6ac56be235515808158152f773f0e9nat), (QuadExt { c0: 0xa196fef8f43a9cba8738d32bca7eaafc489a52cc8f6c38992395765b3ed153659c56e269af7df249678c61122e8ee286f554f296c83582f858980cfcd2685b4dbdce41a58dbeffanat, c1: 0x0nat }), 0x11nat, 0x2400009dc9f03804ec9e36d5dd45d227b181e5db10149dfb6d59daeda3de1b8b05064729b44e410725a8234845d133711495b477826bab3ddf6ac56be235515808158152f773f0e9nat) == (QuadExt { c0: 0xa196fef8f43a9cba8738d32bca7eaafc489a52cc8f6c38992395765b3ed153659c56e269af7df249678c61122e8ee286f554f296c83582f858980cfcd2685b4dbdce41a58dbeffanat, c1: 0x0nat }),
{
    let q: nat = 0x2400009dc9f03804ec9e36d5dd45d227b181e5db10149dfb6d59daeda3de1b8b05064729b44e410725a8234845d133711495b477826bab3ddf6ac56be235515808158152f773f0e9nat;
    let n: nat = 0x11nat;
    let f: nat = 0x0nat;
    let c: nat = 0x2400009dc9f03804ec9e36d5dd45d227b181e5db10149dfb6d59daeda3de1b8b05064729b44e410725a8234845d133711495b477826bab3ddf6ac56be235515808158152f773f0e8nat;
    assert((f * c) % q == 0x0nat) by (nonlinear_arith)
        requires
            f == 0x0nat,
            c == 0x2400009dc9f03804ec9e36d5dd45d227b181e5db10149dfb6d59daeda3de1b8b05064729b44e410725a8234845d133711495b477826bab3ddf6ac56be235515808158152f773f0e8nat,
            q == 0x2400009dc9f03804ec9e36d5dd45d227b181e5db10149dfb6d59daeda3de1b8b05064729b44e410725a8234845d133711495b477826bab3ddf6ac56be235515808158152f773f0e9nat,
    ;
    let x0: nat = 0x1nat;
    let x1: nat = 0x0nat;
    let y0: nat = 0xa196fef8f43a9cba8738d32bca7eaafc489a52cc8f6c38992395765b3ed153659c56e269af7df249678c61122e8ee286f554f296c83582f858980cfcd2685b4dbdce41a58dbeffanat;
    let y1: nat = 0x0nat;
    assert((x0 * y0) % q == 0xa196fef8f43a9cba8738d32bca7eaafc489a52cc8f6c38992395765b3ed153659c56e269af7df249678c61122e8ee286f554f296c83582f858980cfcd2685b4dbdce41a58dbeffanat && (x1 * y1) % q == 0x0nat && (x0 * y1) % q == 0x0nat && (x1 * y0) % q == 0x0nat) by (nonlinear_arith)
        requires
            x0 == 0x1nat,
            x1 == 0x0nat,
            y0 == 0xa196fef8f43a9cba8738d32bca7eaafc489a52cc8f6c38992395765b3ed153659c56e269af7df249678c61122e8ee286f554f296c83582f858980cfcd2685b4dbdce41a58dbeffanat,
            y1 == 0x0nat,
            q == 0x2400009dc9f03804ec9e36d5dd45d227b181e5db10149dfb6d59daeda3de1b8b05064729b44e410725a8234845d133711495b477826bab3ddf6ac56be235515808158152f773f0e9nat,
    ;
    let m11: nat = 0x0nat;
    assert((n * m11) % q == 0x0nat) by (nonlinear_arith)
        requires
            n == 0x11nat,
            m11 == 0x0nat,
            q == 0x2400009dc9f03804ec9e36d5dd45d227b181e5db10149dfb6d59daeda3de1b8b05064729b44e410725a8234845d133711495b477826bab3ddf6ac56be235515808158152f773f0e9nat,
    ;
    let m00: nat = 0xa196fef8f43a9cba8738d32bca7eaafc489a52cc8f6c38992395765b3ed153659c56e269af7df249678c61122e8ee286f554f296c83582f858980cfcd2685b4dbdce41a58dbeffanat;
    let bm: nat = 0x0nat;
    let m01: nat = 0x0nat;
    let m10: nat = 0x0nat;
    assert((m00 + bm) % q == 0xa196fef8f43a9cba8738d32bca7eaafc489a52cc8f6c38992395765b3ed153659c56e269af7df249678c61122e8ee286f554f296c83582f858980cfcd2685b4dbdce41a58dbeffanat && (m01 + m10) % q == 0x0nat) by (nonlinear_arith)
        requires
            m00 == 0xa196fef8f43a9cba8738d32bca7eaafc489a52cc8f6c38992395765b3ed153659c56e269af7df249678c61122e8ee286f554f296c83582f858980cfcd2685b4dbdce41a58dbeffanat,
            bm == 0x0nat,
            m01 == 0x0nat,
            m10 == 0x0nat,
            q == 0x2400009dc9f03804ec9e36d5dd45d227b181e5db10149dfb6d59daeda3de1b8b05064729b44e410725a8234845d133711495b477826bab3ddf6ac56be235515808158152f773f0e9nat,
    ;
}

/// The coefficient of the table for power 1 is the Frobenius image of the
/// one for power 0 times the one for power one.
proof fn lemma_c1_step_0(p: &QuadParams<Fp>)
    requires
        Fq2Config::describes(p),
    ensures
        quad_entry_v(FROBENIUS_COEFF_FP12_C1@, 1, &p.base) == Fq2::mul_v(
            Fq2::frobenius_v(quad_entry_v(FROBENIUS_COEFF_FP12_C1@, 0, &p.base), 1, p),
            quad_entry_v(FROBENIUS_COEFF_FP12_C1@, 1, &p.base),
            p,
        ),
{
    lemma_constants(p);
    lemma_c1_value_0(&p.base);
    lemma_c1_value_1(&p.base);
    lemma_c1_value_1(&p.base);
    let x = quad_entry_v(FROBENIUS_COEFF_FP12_C1@, 0, &p.base);
    let y = quad_entry_v(FROBENIUS_COEFF_FP12_C1@, 1, &p.base);
    lemma_quad_fp(x, y, p);
    lemma_quad_fp(Fq2::frobenius_v(x, 1, p), y, p);
    lemma_c1_step_0_numbers();
}

/// The product behind the step from power 1 to power 2.
proof fn lemma_c1_step_1_numbers()
    ensures
        quad_mul_fp(quad_frobenius_fp((QuadExt { c0: 0xa196fef8f43a9cba8738d32bca7eaafc489a52cc8f6c38992395765b3ed153659c56e269af7df249678c61122e8ee286f554f296c83582f858980cfcd2685b4dbdce41a58dbeffanat, c1: 0x0nat }), 0x2400009dc9f03804ec9e36d5dd45d227b181e5db10149dfb6d59daeda3de1b8b05064729b44e410725a8234845d133711495b477826bab3ddf6ac56be235515808158152f773f0e8nat, 0x2400009dc9f03804ec9e36d5dd45d227b181e5db10149dfb6d59daeda3de1b8b05064729b44e410725a8234845d133711495b477826bab3ddf6ac56be235515808158152f773f0e9nat), (QuadExt { c0: 0xa196fef8f43a9cba8738d32bca7eaafc489a52cc8f6c38992395765b3ed153659c56e269af7df249678c61122e8ee286f554f296c83582f858980cfcd2685b4dbdce41a58dbeffanat, c1: 0x0nat }), 0x11nat, 0x2400009dc9f03804ec9e36d5dd45d227b181e5db10149dfb6d59daeda3de1b8b05064729b44e410725a8234845d133711495b477826bab3ddf6ac56be235515808158152f773f0e9nat) == (QuadExt { c0: 0x177ad70dc69dd7cd8f772c40d42a593e5c8218b2a8d13d53b29b1708a5d1ad4021bfc4870137b37d3a30dd5a49ae57825985e6027b6158994d2edd502eb496fa3c7c20d2a925e4c4nat, c1: 0x0nat }),
{
    let q: nat = 0x2400009dc9f03804ec9e36d5dd45d227b181e5db10149dfb6d59daeda3de1b8b05064729b44e410725a8234845d133711495b477826bab3ddf6ac56be235515808158152f773f0e9nat;
    let n: nat = 0x11nat;
    let f: nat = 0x0nat;
    let c: nat = 0x2400009dc9f03804ec9e36d5dd45d227b181e5db10149dfb6d59daeda3de1b8b05064729b44e410725a8234845d133711495b477826bab3ddf6ac56be235515808158152f773f0e8nat;
    assert((f * c) % q == 0x0nat) by (nonlinear_arith)
        requires
            f == 0x0nat,
            c == 0x2400009dc9f03804ec9e36d5dd45d227b181e5db10149dfb6d59daeda3de1b8b05064729b44e410725a8234845d133711495b477826bab3ddf6ac56be235515808158152f773f0e8nat,
            q == 0x2400009dc9f03804ec9e36d5dd45d227b181e5db10149dfb6d59daeda3de1b8b05064729b44e410725a8234845d133711495b477826bab3ddf6ac56be235515808158152f773f0e9nat,
    ;
    let x0: nat = 0xa196fef8f43a9cba8738d32bca7eaafc489a52cc8f6c38992395765b3ed153659c56e269af7df249678c61122e8ee286f554f296c83582f858980cfcd2685b4dbdce41a58dbeffanat;
    let x1: nat = 0x0nat;
    let y0: nat = 0xa196fef8f43a9cba8738d32bca7eaafc489a52cc8f6c38992395765b3ed153659c56e269af7df249678c61122e8ee286f554f296c83582f858980cfcd2685b4dbdce41a58dbeffanat;
    let y1: nat = 0x0nat;
    assert((x0 * y0) % q == 0x177ad70dc69dd7cd8f772c40d42a593e5c8218b2a8d13d53b29b1708a5d1ad4021bfc4870137b37d3a30dd5a49ae57825985e6027b6158994d2edd502eb496fa3c7c20d2a925e4c4nat && (x1 * y1) % q == 0x0nat && (x0 * y1) % q == 0x0nat && (x1 * y0) % q == 0x0nat) by (nonlinear_arith)
        requires
            x0 == 0xa196fef8f43a9cba8738d32bca7eaafc489a52cc8f6c38992395765b3ed153659c56e269af7df249678c61122e8ee286f554f296c83582f858980cfcd2685b4dbdce41a58dbeffanat,
            x1 == 0x0nat,
            y0 == 0xa196fef8f43a9cba8738d32bca7eaafc489a52cc8f6c38992395765b3ed153659c56e269af7df249678c61122e8ee286f554f296c83582f858980cfcd2685b4dbdce41a58dbeffanat,
            y1 == 0x0nat,
            q == 0x2400009dc9f03804ec9e36d5dd45d227b181e5db10149dfb6d59daeda3de1b8b05064729b44e410725a8234845d133711495b477826bab3ddf6ac56be235515808158152f773f0e9nat,
    ;
    let m11: nat = 0x0nat;
    assert((n * m11) % q == 0x0nat) by (nonlinear_arith)
        requires
            n == 0x11nat,
            m11 == 0x0nat,
            q == 0x2400009dc9f03804ec9e36d5dd45d227b181e5db10149dfb6d59daeda3de1b8b05064729b44e410725a8234845d133711495b477826bab3ddf6ac56be235515808158152f773f0e9nat,
    ;
    let m00: nat = 0x177ad70dc69dd7cd8f772c40d42a593e5c8218b2a8d13d53b29b1708a5d1ad4021bfc4870137b37d3a30dd5a49ae57825985e6027b6158994d2edd502eb496fa3c7c20d2a925e4c4nat;
    let bm: nat = 0x0nat;
    let m01: nat = 0x0nat;
    let m10: nat = 0x0nat;
    assert((m00 + bm) % q == 0x177ad70dc69dd7cd8f772c40d42a593e5c8218b2a8d13d53b29b1708a5d1ad4021bfc4870137b37d3a30dd5a49ae57825985e6027b6158994d2edd502eb496fa3c7c20d2a925e4c4nat && (m01 + m10) % q == 0x0nat) by (nonlinear_arith)
        requires
            m00 == 0x177ad70dc69dd7cd8f772c40d42a593e5c8218b2a8d13d53b29b1708a5d1ad4021bfc4870137b37d3a30dd5a49ae57825985e6027b6158994d2edd502eb496fa3c7c20d2a925e4c4nat,
            bm == 0x0nat,
            m01 == 0x0nat,
            m10 == 0x0nat,
            q == 0x2400009dc9f03804ec9e36d5dd45d227b181e5db10149dfb6d59daeda3de1b8b05064729b44e410725a8234845d133711495b477826bab3ddf6ac56be235515808158152f773f0e9nat,
    ;
}

/// The coefficient of the table for power 2 is the Frobenius image of the
/// one for power 1 times the one for power one.
proof fn lemma_c1_step_1(p: &QuadParams<Fp>)
    requires
        Fq2Config::describes(p),
    ensures
        quad_entry_v(FROBENIUS_COEFF_FP12_C1@, 2, &p.base) == Fq2::mul_v(
            Fq2::frobenius_v(quad_entry_v(FROBENIUS_COEFF_FP12_C1@, 1, &p.base), 1, p),
            quad_entry_v(FROBENIUS_COEFF_FP12_C1@, 1, &p.base),
            p,
        ),
{
    lemma_constants(p);
    lemma_c1_value_1(&p.base);
    lemma_c1_value_2(&p.base);
    lemma_c1_value_1(&p.base);
    let x = quad_entry_v(FROBENIUS_COEFF_FP12_C1@, 1, &p.base);
    let y = quad_entry_v(FROBENIUS_COEFF_FP12_C1@, 1, &p.base);
    lemma_quad_fp(x, y, p);
    lemma_quad_fp(Fq2::frobenius_v(x, 1, p), y, p);
    lemma_c1_step_1_numbers();
}

/// The product behind the step from power 2 to power 3.
proof fn lemma_c1_step_2_numbers()
    ensures
        quad_mul_fp(quad_frobenius_fp((QuadExt { c0: 0x177ad70dc69dd7cd8f772c40d42a593e5c8218b2a8d13d53b29b1708a5d1ad4021bfc4870137b37d3a30dd5a49ae57825985e6027b6158994d2edd502eb496fa3c7c20d2a925e4c4nat, c1: 0x0nat }), 0x2400009dc9f03804ec9e36d5dd45d227b181e5db10149dfb6d59daeda3de1b8b05064729b44e410725a8234845d133711495b477826bab3ddf6ac56be235515808158152f773f0e8nat, 0x2400009dc9f03804ec9e36d5dd45d227b181e5db10149dfb6d59daeda3de1b8b05064729b44e410725a8234845d133711495b477826bab3ddf6ac56be235515808158152f773f0e9nat), (QuadExt { c0: 0xa196fef8f43a9cba8738d32bca7eaafc489a52cc8f6c38992395765b3ed153659c56e269af7df249678c61122e8ee286f554f296c83582f858980cfcd2685b4dbdce41a58dbeffanat, c1: 0x0nat }), 0x11nat, 0x2400009dc9f03804ec9e36d5dd45d227b181e5db10149dfb6d59daeda3de1b8b05064729b44e410725a8234845d133711495b477826bab3ddf6ac56be235515808158152f773f0e9nat) == (QuadExt { c0: 0xb4a22a7d7741f4b790733c1f910ecc176c25c7a9d07a67db78e005f863eeee2f057d867b08e8428f987b65b98babfb584280df06b43e031bde213dea6afec74f63f5287856455e7nat, c1: 0x0nat }),
{
    let q: nat = 0x2400009dc9f03804ec9e36d5dd45d227b181e5db10149dfb6d59daeda3de1b8b05064729b44e410725a8234845d133711495b477826bab3ddf6ac56be235515808158152f773f0e9nat;
    let n: nat = 0x11nat;
    let f: nat = 0x0nat;
    let c: nat = 0x2400009dc9f03804ec9e36d5dd45d227b181e5db10149dfb6d59daeda3de1b8b05064729b44e410725a8234845d133711495b477826bab3ddf6ac56be235515808158152f773f0e8nat;
    assert((f * c) % q == 0x0nat) by (nonlinear_arith)
        requires
            f == 0x0nat,
            c == 0x2400009dc9f03804ec9e36d5dd45d227b181e5db10149dfb6d59daeda3de1b8b05064729b44e410725a8234845d133711495b477826bab3ddf6ac56be235515808158152f773f0e8nat,
            q == 0x2400009dc9f03804ec9e36d5dd45d227b181e5db10149dfb6d59daeda3de1b8b05064729b44e410725a8234845d133711495b477826bab3ddf6ac56be235515808158152f773f0e9nat,
    ;
    let x0: nat = 0x177ad70dc69dd7cd8f772c40d42a593e5c8218b2a8d13d53b29b1708a5d1ad4021bfc4870137b37d3a30dd5a49ae57825985e6027b6158994d2edd502eb496fa3c7c20d2a925e4c4nat;
    let x1: nat = 0x0nat;
    let y0: nat = 0xa196fef8f43a9cba8738d32bca7eaafc489a52cc8f6c38992395765b3ed153659c56e269af7df249678c61122e8ee286f554f296c83582f858980cfcd2685b4dbdce41a58dbeffanat;
    let y1: nat = 0x0nat;
    assert((x0 * y0) % q == 0xb4a22a7d7741f4b790733c1f910ecc176c25c7a9d07a67db78e005f863eeee2f057d867b08e8428f987b65b98babfb584280df06b43e031bde213dea6afec74f63f5287856455e7nat && (x1 * y1) % q == 0x0nat && (x0 * y1) % q == 0x0nat && (x1 * y0) % q == 0x0nat) by (nonlinear_arith)
        requires
            x0 == 0x177ad70dc69dd7cd8f772c40d42a593e5c8218b2a8d13d53b29b1708a5d1ad4021bfc4870137b37d3a30dd5a49ae57825985e6027b6158994d2edd502eb496fa3c7c20d2a925e4c4nat,
            x1 == 0x0nat,
            y0 == 0xa196fef8f43a9cba8738d32bca7eaafc489a52cc8f6c38992395765b3ed153659c56e269af7df249678c61122e8ee286f554f296c83582f858980cfcd2685b4dbdce41a58dbeffanat,
            y1 == 0x0nat,
            q == 0x2400009dc9f03804ec9e36d5dd45d227b181e5db10149dfb6d59daeda3de1b8b05064729b44e410725a8234845d133711495b477826bab3ddf6ac56be235515808158152f773f0e9nat,
    ;
    let m11: nat = 0x0nat;
    assert((n * m11) % q == 0x0nat) by (nonlinear_arith)
        requires
            n == 0x11nat,
            m11 == 0x0nat,
            q == 0x2400009dc9f03804ec9e36d5dd45d227b181e5db10149dfb6d59daeda3de1b8b05064729b44e410725a8234845d133711495b477826bab3ddf6ac56be235515808158152f773f0e9nat,
    ;
    let m00: nat = 0xb4a22a7d7741f4b790733c1f910ecc176c25c7a9d07a67db78e005f863eeee2f057d867b08e8428f987b65b98babfb584280df06b43e031bde213dea6afec74f63f5287856455e7nat;
    let bm: nat = 0x0nat;
    let m01: nat = 0x0nat;
    let m10: nat = 0x0nat;
    assert((m00 + bm) % q == 0xb4a22a7d7741f4b790733c1f910ecc176c25c7a9d07a67db78e005f863eeee2f057d867b08e8428f987b65b98babfb584280df06b43e031bde213dea6afec74f63f5287856455e7nat && (m01 + m10) % q == 0x0nat) by (nonlinear_arith)
        requires
            m00 == 0xb4a22a7d7741f4b790733c1f910ecc176c25c7a9d07a67db78e005f863eeee2f057d867b08e8428f987b65b98babfb584280df06b43e031bde213dea6afec74f63f5287856455e7nat,
            bm == 0x0nat,
            m01 == 0x0nat,
            m10 == 0x0nat,
            q == 0x2400009dc9f03804ec9e36d5dd45d227b181e5db10149dfb6d59daeda3de1b8b05064729b44e410725a8234845d133711495b477826bab3ddf6ac56be235515808158152f773f0e9nat,
    ;
}

/// The coefficient of the table for power 3 is the Frobenius image of the
/// one for power 2 times the one for power one.
proof fn lemma_c1_step_2(p: &QuadParams<Fp>)
    requires
        Fq2Config::describes(p),
    ensures
        quad_entry_v(FROBENIUS_COEFF_FP12_C1@, 3, &p.base) == Fq2::mul_v(
            Fq2::frobenius_v(quad_entry_v(FROBENIUS_COEFF_FP12_C1@, 2, &p.base), 1, p),
            quad_entry_v(FROBENIUS_COEFF_FP12_C1@, 1, &p.base),
            p,
        ),
{
    lemma_constants(p);
    lemma_c1_value_2(&p.base);
    lemma_c1_value_3(&p.base);
    lemma_c1_value_1(&p.base);
    let x = quad_entry_v(FROBENIUS_COEFF_FP12_C1@, 2, &p.base);
    let y = quad_entry_v(FROBENIUS_COEFF_FP12_C1@, 1, &p.base);
    lemma_quad_fp(x, y, p);
    lemma_quad_fp(Fq2::frobenius_v(x, 1, p), y, p);
    lemma_c1_step_2_numbers();
}

/// The product behind the step from power 3 to power 4.
proof fn lemma_c1_step_3_numbers()
    ensures
        quad_mul_fp(quad_frobenius_fp((QuadExt { c0: 0xb4a22a7d7741f4b790733c1f910ecc176c25c7a9d07a67db78e005f863eeee2f057d867b08e8428f987b65b98babfb584280df06b43e031bde213dea6afec74f63f5287856455e7nat, c1: 0x0nat }), 0x2400009dc9f03804ec9e36d5dd45d227b181e5db10149dfb6d59daeda3de1b8b05064729b44e410725a8234845d133711495b477826bab3ddf6ac56be235515808158152f773f0e8nat, 0x2400009dc9f03804ec9e36d5dd45d227b181e5db10149dfb6d59daeda3de1b8b05064729b44e410725a8234845d133711495b477826bab3ddf6ac56be235515808158152f773f0e9nat), (QuadExt { c0: 0xa196fef8f43a9cba8738d32bca7eaafc489a52cc8f6c38992395765b3ed153659c56e269af7df249678c61122e8ee286f554f296c83582f858980cfcd2685b4dbdce41a58dbeffanat, c1: 0x0nat }), 0x11nat, 0x2400009dc9f03804ec9e36d5dd45d227b181e5db10149dfb6d59daeda3de1b8b05064729b44e410725a8234845d133711495b477826bab3ddf6ac56be235515808158152f773f0e9nat) == (QuadExt { c0: 0x177ad70dc69dd7cd8f772c40d42a593e5c8218b2a8d13d53b29b1708a5d1ad4021bfc4870137b37d3a30dd5a49ae57825985e6027b6158994d2edd502eb496fa3c7c20d2a925e4c3nat, c1: 0x0nat }),
{
    let q: nat = 0x2400009dc9f03804ec9e36d5dd45d227b181e5db10149dfb6d59daeda3de1b8b05064729b44e410725a8234845d133711495b477826bab3ddf6ac56be235515808158152f773f0e9nat;
    let n: nat = 0x11nat;
    let f: nat = 0x0nat;
    let c: nat = 0x2400009dc9f03804ec9e36d5dd45d227b181e5db10149dfb6d59daeda3de1b8b05064729b44e410725a8234845d133711495b477826bab3ddf6ac56be235515808158152f773f0e8nat;
    assert((f * c) % q == 0x0nat) by (nonlinear_arith)
        requires
            f == 0x0nat,
            c == 0x2400009dc9f03804ec9e36d5dd45d227b181e5db10149dfb6d59daeda3de1b8b05064729b44e410725a8234845d133711495b477826bab3ddf6ac56be235515808158152f773f0e8nat,
            q == 0x2400009dc9f03804ec9e36d5dd45d227b181e5db10149dfb6d59daeda3de1b8b05064729b44e410725a8234845d133711495b477826bab3ddf6ac56be235515808158152f773f0e9nat,
    ;
    let x0: nat = 0xb4a22a7d7741f4b790733c1f910ecc176c25c7a9d07a67db78e005f863eeee2f057d867b08e8428f987b65b98babfb584280df06b43e031bde213dea6afec74f63f5287856455e7nat;
    let x1: nat = 0x0nat;
    let y0: nat = 0xa196fef8f43a9cba8738d32bca7eaafc489a52cc8f6c38992395765b3ed153659c56e269af7df249678c61122e8ee286f554f296c83582f858980cfcd2685b4dbdce41a58dbeffanat;
    let y1: nat = 0x0nat;
    assert((x0 * y0) % q == 0x177ad70dc69dd7cd8f772c40d42a593e5c8218b2a8d13d53b29b1708a5d1ad4021bfc4870137b37d3a30dd5a49ae57825985e6027b6158994d2edd502eb496fa3c7c20d2a925e4c3nat && (x1 * y1) % q == 0x0nat && (x0 * y1) % q == 0x0nat && (x1 * y0) % q == 0x0nat) by (nonlinear_arith)
        requires
            x0 == 0xb4a22a7d7741f4b790733c1f910ecc176c25c7a9d07a67db78e005f863eeee2f057d867b08e8428f987b65b98babfb584280df06b43e031bde213dea6afec74f63f5287856455e7nat,
            x1 == 0x0nat,
            y0 == 0xa196fef8f43a9cba8738d32bca7eaafc489a52cc8f6c38992395765b3ed153659c56e269af7df249678c61122e8ee286f554f296c83582f858980cfcd2685b4dbdce41a58dbeffanat,
            y1 == 0x0nat,
            q == 0x2400009dc9f03804ec9e36d5dd45d227b181e5db10149dfb6d59daeda3de1b8b05064729b44e410725a8234845d133711495b477826bab3ddf6ac56be235515808158152f773f0e9nat,
    ;
    let m11: nat = 0x0nat;
    assert((n * m11) % q == 0x0nat) by (nonlinear_arith)
        requires
            n == 0x11nat,
            m11 == 0x0nat,
            q == 0x2400009dc9f03804ec9e36d5dd45d227b181e5db10149dfb6d59daeda3de1b8b05064729b44e410725a8234845d133711495b477826bab3ddf6ac56be235515808158152f773f0e9nat,
    ;
    let m00: nat = 0x177ad70dc69dd7cd8f772c40d42a593e5c8218b2a8d13d53b29b1708a5d1ad4021bfc4870137b37d3a30dd5a49ae57825985e6027b6158994d2edd502eb496fa3c7c20d2a925e4c3nat;
    let bm: nat = 0x0nat;
    let m01: nat = 0x0nat;
    let m10: nat = 0x0nat;
    assert((m00 + bm) % q == 0x177ad70dc69dd7cd8f772c40d42a593e5c8218b2a8d13d53b29b1708a5d1ad4021bfc4870137b37d3a30dd5a49ae57825985e6027b6158994d2edd502eb496fa3c7c20d2a925e4c3nat && (m01 + m10) % q == 0x0nat) by (nonlinear_arith)
        requires
            m00 == 0x177ad70dc69dd7cd8f772c40d42a593e5c8218b2a8d13d53b29b1708a5d1ad4021bfc4870137b37d3a30dd5a49ae57825985e6027b6158994d2edd502eb496fa3c7c20d2a925e4c3nat,
            bm == 0x0nat,
            m01 == 0x0nat,
            m10 == 0x0nat,
            q == 0x2400009dc9f03804ec9e36d5dd45d227b181e5db10149dfb6d59daeda3de1b8b05064729b44e410725a8234845d133711495b477826bab3ddf6ac56be235515808158152f773f0e9nat,
    ;
}

/// The coefficient of the table for power 4 is the Frobenius image of the
/// one for power 3 times the one for power one.
proof fn lemma_c1_step_3(p: &QuadParams<Fp>)
    requires
        Fq2Config::describes(p),
    ensures
        quad_entry_v(FROBENIUS_COEFF_FP12_C1@, 4, &p.base) == Fq2::mul_v(
            Fq2::frobenius_v(quad_entry_v(FROBENIUS_COEFF_FP12_C1@, 3, &p.base), 1, p),
            quad_entry_v(FROBENIUS_COEFF_FP12_C1@, 1, &p.base),
            p,
        ),
{
    lemma_constants(p);
    lemma_c1_value_3(&p.base);
    lemma_c1_value_4(&p.base);
    lemma_c1_value_1(&p.base);
    let x = quad_entry_v(FROBENIUS_COEFF_FP12_C1@, 3, &p.base);
    let y = quad_entry_v(FROBENIUS_COEFF_FP12_C1@, 1, &p.base);
    lemma_quad_fp(x, y, p);
    lemma_quad_fp(Fq2::frobenius_v(x, 1, p), y, p);
    lemma_c1_step_3_numbers();
}

/// The product behind the step from power 4 to power 5.
proof fn lemma_c1_step_4_numbers()
    ensures
        quad_mul_fp(quad_frobenius_fp((QuadExt { c0: 0x177ad70dc69dd7cd8f772c40d42a593e5c8218b2a8d13d53b29b1708a5d1ad4021bfc4870137b37d3a30dd5a49ae57825985e6027b6158994d2edd502eb496fa3c7c20d2a925e4c3nat, c1: 0x0nat }), 0x2400009dc9f03804ec9e36d5dd45d227b181e5db10149dfb6d59daeda3de1b8b05064729b44e410725a8234845d133711495b477826bab3ddf6ac56be235515808158152f773f0e8nat, 0x2400009dc9f03804ec9e36d5dd45d227b181e5db10149dfb6d59daeda3de1b8b05064729b44e410725a8234845d133711495b477826bab3ddf6ac56be235515808158152f773f0e9nat), (QuadExt { c0: 0xa196fef8f43a9cba8738d32bca7eaafc489a52cc8f6c38992395765b3ed153659c56e269af7df249678c61122e8ee286f554f296c83582f858980cfcd2685b4dbdce41a58dbeffanat, c1: 0x0nat }), 0x11nat, 0x2400009dc9f03804ec9e36d5dd45d227b181e5db10149dfb6d59daeda3de1b8b05064729b44e410725a8234845d133711495b477826bab3ddf6ac56be235515808158152f773f0e9nat) == (QuadExt { c0: 0x130b2b84830757fd093a68f3c690211b238b74dd410e2f42554a8f9d251d9ac96926a411596a504630ef04a75d1d18d14d2bec6fec088023858930ed98966c01a626e6d2c8865ednat, c1: 0x0nat }),
{
    let q: nat = 0x2400009dc9f03804ec9e36d5dd45d227b181e5db10149dfb6d59daeda3de1b8b05064729b44e410725a8234845d133711495b477826bab3ddf6ac56be235515808158152f773f0e9nat;
    let n: nat = 0x11nat;
    let f: nat = 0x0nat;
    let c: nat = 0x2400009dc9f03804ec9e36d5dd45d227b181e5db10149dfb6d59daeda3de1b8b05064729b44e410725a8234845d133711495b477826bab3ddf6ac56be235515808158152f773f0e8nat;
    assert((f * c) % q == 0x0nat) by (nonlinear_arith)
        requires
            f == 0x0nat,
            c == 0x2400009dc9f03804ec9e36d5dd45d227b181e5db10149dfb6d59daeda3de1b8b05064729b44e410725a8234845d133711495b477826bab3ddf6ac56be235515808158152f773f0e8nat,
            q == 0x2400009dc9f03804ec9e36d5dd45d227b181e5db10149dfb6d59daeda3de1b8b05064729b44e410725a8234845d133711495b477826bab3ddf6ac56be235515808158152f773f0e9nat,
    ;
    let x0: nat = 0x177ad70dc69dd7cd8f772c40d42a593e5c8218b2a8d13d53b29b1708a5d1ad4021bfc4870137b37d3a30dd5a49ae57825985e6027b6158994d2edd502eb496fa3c7c20d2a925e4c3nat;
    let x1: nat = 0x0nat;
    let y0: nat = 0xa196fef8f43a9cba8738d32bca7eaafc489a52cc8f6c38992395765b3ed153659c56e269af7df249678c61122e8ee286f554f296c83582f858980cfcd2685b4dbdce41a58dbeffanat;
    let y1: nat = 0x0nat;
    assert((x0 * y0) % q == 0x130b2b84830757fd093a68f3c690211b238b74dd410e2f42554a8f9d251d9ac96926a411596a504630ef04a75d1d18d14d2bec6fec088023858930ed98966c01a626e6d2c8865ednat && (x1 * y1) % q == 0x0nat && (x0 * y1) % q == 0x0nat && (x1 * y0) % q == 0x0nat) by (nonlinear_arith)
        requires
            x0 == 0x177ad70dc69dd7cd8f772c40d42a593e5c8218b2a8d13d53b29b1708a5d1ad4021bfc4870137b37d3a30dd5a49ae57825985e6027b6158994d2edd502eb496fa3c7c20d2a925e4c3nat,
            x1 == 0x0nat,
            y0 == 0xa196fef8f43a9cba8738d32bca7eaafc489a52cc8f6c38992395765b3ed153659c56e269af7df249678c61122e8ee286f554f296c83582f858980cfcd2685b4dbdce41a58dbeffanat,
            y1 == 0x0nat,
            q == 0x2400009dc9f03804ec9e36d5dd45d227b181e5db10149dfb6d59daeda3de1b8b05064729b44e410725a8234845d133711495b477826bab3ddf6ac56be235515808158152f773f0e9nat,
    ;
    let m11: nat = 0x0nat;
    assert((n * m11) % q == 0x0nat) by (nonlinear_arith)
        requires
            n == 0x11nat,
            m11 == 0x0nat,
            q == 0x2400009dc9f03804ec9e36d5dd45d227b181e5db10149dfb6d59daeda3de1b8b05064729b44e410725a8234845d133711495b477826bab3ddf6ac56be235515808158152f773f0e9nat,
    ;
    let m00: nat = 0x130b2b84830757fd093a68f3c690211b238b74dd410e2f42554a8f9d251d9ac96926a411596a504630ef04a75d1d18d14d2bec6fec088023858930ed98966c01a626e6d2c8865ednat;
    let bm: nat = 0x0nat;
    let m01: nat = 0x0nat;
    let m10: nat = 0x0nat;
    assert((m00 + bm) % q == 0x130b2b84830757fd093a68f3c690211b238b74dd410e2f42554a8f9d251d9ac96926a411596a504630ef04a75d1d18d14d2bec6fec088023858930ed98966c01a626e6d2c8865ednat && (m01 + m10) % q == 0x0nat) by (nonlinear_arith)
        requires
            m00 == 0x130b2b84830757fd093a68f3c690211b238b74dd410e2f42554a8f9d251d9ac96926a411596a504630ef04a75d1d18d14d2bec6fec088023858930ed98966c01a626e6d2c8865ednat,
            bm == 0x0nat,
            m01 == 0x0nat,
            m10 == 0x0nat,
            q == 0x2400009dc9f03804ec9e36d5dd45d227b181e5db10149dfb6d59daeda3de1b8b05064729b44e410725a8234845d133711495b477826bab3ddf6ac56be235515808158152f773f0e9nat,
    ;
}

/// The coefficient of the table for power 5 is the Frobenius image of the
/// one for power 4 times the one for power one.
proof fn lemma_c1_step_4(p: &QuadParams<Fp>)
    requires
        Fq2Config::describes(p),
    ensures
        quad_entry_v(FROBENIUS_COEFF_FP12_C1@, 5, &p.base) == Fq2::mul_v(
            Fq2::frobenius_v(quad_entry_v(FROBENIUS_COEFF_FP12_C1@, 4, &p.base), 1, p),
            quad_entry_v(FROBENIUS_COEFF_FP12_C1@, 1, &p.base),
            p,
        ),
{
    lemma_constants(p);
    lemma_c1_value_4(&p.base);
    lemma_c1_value_5(&p.base);
    lemma_c1_value_1(&p.base);
    let x = quad_entry_v(FROBENIUS_COEFF_FP12_C1@, 4, &p.base);
    let y = quad_entry_v(FROBENIUS_COEFF_FP12_C1@, 1, &p.base);
    lemma_quad_fp(x, y, p);
    lemma_quad_fp(Fq2::frobenius_v(x, 1, p), y, p);
    lemma_c1_step_4_numbers();
}

/// The product behind the step from power 5 to power 6.
proof fn lemma_c1_step_5_numbers()
    ensures
        quad_mul_fp(quad_frobenius_fp((QuadExt { c0: 0x130b2b84830757fd093a68f3c690211b238b74dd410e2f42554a8f9d251d9ac96926a411596a504630ef04a75d1d18d14d2bec6fec088023858930ed98966c01a626e6d2c8865ednat, c1: 0x0nat }), 0x2400009dc9f03804ec9e36d5dd45d227b181e5db10149dfb6d59daeda3de1b8b05064729b44e410725a8234845d133711495b477826bab3ddf6ac56be235515808158152f773f0e8nat, 0x2400009dc9f03804ec9e36d5dd45d227b181e5db10149dfb6d59daeda3de1b8b05064729b44e410725a8234845d133711495b477826bab3ddf6ac56be235515808158152f773f0e9nat), (QuadExt { c0: 0xa196fef8f43a9cba8738d32bca7eaafc489a52cc8f6c38992395765b3ed153659c56e269af7df249678c61122e8ee286f554f296c83582f858980cfcd2685b4dbdce41a58dbeffanat, c1: 0x0nat }), 0x11nat, 0x2400009dc9f03804ec9e36d5dd45d227b181e5db10149dfb6d59daeda3de1b8b05064729b44e410725a8234845d133711495b477826bab3ddf6ac56be235515808158152f773f0e9nat) == (QuadExt { c0: 0x2400009dc9f03804ec9e36d5dd45d227b181e5db10149dfb6d59daeda3de1b8b05064729b44e410725a8234845d133711495b477826bab3ddf6ac56be235515808158152f773f0e8nat, c1: 0x0nat }),
{
    let q: nat = 0x2400009dc9f03804ec9e36d5dd45d227b181e5db10149dfb6d59daeda3de1b8b05064729b44e410725a8234845d133711495b477826bab3ddf6ac56be235515808158152f773f0e9nat;
    let n: nat = 0x11nat;
    let f: nat = 0x0nat;
    let c: nat = 0x2400009dc9f03804ec9e36d5dd45d227b181e5db10149dfb6d59daeda3de1b8b05064729b44e410725a8234845d133711495b477826bab3ddf6ac56be235515808158152f773f0e8nat;
    assert((f * c) % q == 0x0nat) by (nonlinear_arith)
        requires
            f == 0x0nat,
            c == 0x2400009dc9f03804ec9e36d5dd45d227b181e5db10149dfb6d59daeda3de1b8b05064729b44e410725a8234845d133711495b477826bab3ddf6ac56be235515808158152f773f0e8nat,
            q == 0x2400009dc9f03804ec9e36d5dd45d227b181e5db10149dfb6d59daeda3de1b8b05064729b44e410725a8234845d133711495b477826bab3ddf6ac56be235515808158152f773f0e9nat,
    ;
    let x0: nat = 0x130b2b84830757fd093a68f3c690211b238b74dd410e2f42554a8f9d251d9ac96926a411596a504630ef04a75d1d18d14d2bec6fec088023858930ed98966c01a626e6d2c8865ednat;
    let x1: nat = 0x0nat;
    let y0: nat = 0xa196fef8f43a9cba8738d32bca7eaafc489a52cc8f6c38992395765b3ed153659c56e269af7df249678c61122e8ee286f554f296c83582f858980cfcd2685b4dbdce41a58dbeffanat;
    let y1: nat = 0x0nat;
    assert((x0 * y0) % q == 0x2400009dc9f03804ec9e36d5dd45d227b181e5db10149dfb6d59daeda3de1b8b05064729b44e410725a8234845d133711495b477826bab3ddf6ac56be235515808158152f773f0e8nat && (x1 * y1) % q == 0x0nat && (x0 * y1) % q == 0x0nat && (x1 * y0) % q == 0x0nat) by (nonlinear_arith)
        requires
            x0 == 0x130b2b84830757fd093a68f3c690211b238b74dd410e2f42554a8f9d251d9ac96926a411596a504630ef04a75d1d18d14d2bec6fec088023858930ed98966c01a626e6d2c8865ednat,
            x1 == 0x0nat,
            y0 == 0xa196fef8f43a9cba8738d32bca7eaafc489a52cc8f6c38992395765b3ed153659c56e269af7df249678c61122e8ee286f554f296c83582f858980cfcd2685b4dbdce41a58dbeffanat,
            y1 == 0x0nat,
            q == 0x2400009dc9f03804ec9e36d5dd45d227b181e5db10149dfb6d59daeda3de1b8b05064729b44e410725a8234845d133711495b477826bab3ddf6ac56be235515808158152f773f0e9nat,
    ;
    let m11: nat = 0x0nat;
    assert((n * m11) % q == 0x0nat) by (nonlinear_arith)
        requires
            n == 0x11nat,
            m11 == 0x0nat,
            q == 0x2400009dc9f03804ec9e36d5dd45d227b181e5db10149dfb6d59daeda3de1b8b05064729b44e410725a8234845d133711495b477826bab3ddf6ac56be235515808158152f773f0e9nat,
    ;
    let m00: nat = 0x2400009dc9f03804ec9e36d5dd45d227b181e5db10149dfb6d59daeda3de1b8b05064729b44e410725a8234845d133711495b477826bab3ddf6ac56be235515808158152f773f0e8nat;
    let bm: nat = 0x0nat;
    let m01: nat = 0x0nat;
    let m10: nat = 0x0nat;
    assert((m00 + bm) % q == 0x2400009dc9f03804ec9e36d5dd45d227b181e5db10149dfb6d59daeda3de1b8b05064729b44e410725a8234845d133711495b477826bab3ddf6ac56be235515808158152f773f0e8nat && (m01 + m10) % q == 0x0nat) by (nonlinear_arith)
        requires
            m00 == 0x2400009dc9f03804ec9e36d5dd45d227b181e5db10149dfb6d59daeda3de1b8b05064729b44e410725a8234845d133711495b477826bab3ddf6ac56be235515808158152f773f0e8nat,
            bm == 0x0nat,
            m01 == 0x0nat,
            m10 == 0x0nat,
            q == 0x2400009dc9f03804ec9e36d5dd45d227b181e5db10149dfb6d59daeda3de1b8b05064729b44e410725a8234845d133711495b477826bab3ddf6ac56be235515808158152f773f0e9nat,
    ;
}

/// The coefficient of the table for power 6 is the Frobenius image of the
/// one for power 5 times the one for power one.
proof fn lemma_c1_step_5(p: &QuadParams<Fp>)
    requires
        Fq2Config::describes(p),
    ensures
        quad_entry_v(FROBENIUS_COEFF_FP12_C1@, 6, &p.base) == Fq2::mul_v(
            Fq2::frobenius_v(quad_entry_v(FROBENIUS_COEFF_FP12_C1@, 5, &p.base), 1, p),
            quad_entry_v(FROBENIUS_COEFF_FP12_C1@, 1, &p.base),
            p,
        ),
{
    lemma_constants(p);
    lemma_c1_value_5(&p.base);
    lemma_c1_value_6(&p.base);
    lemma_c1_value_1(&p.base);
    let x = quad_entry_v(FROBENIUS_COEFF_FP12_C1@, 5, &p.base);
    let y = quad_entry_v(FROBENIUS_COEFF_FP12_C1@, 1, &p.base);
    lemma_quad_fp(x, y, p);
    lemma_quad_fp(Fq2::frobenius_v(x, 1, p), y, p);
    lemma_c1_step_5_numbers();
}

/// The product behind the step from power 6 to power 7.
proof fn lemma_c1_step_6_numbers()
    ensures
        quad_mul_fp(quad_frobenius_fp((QuadExt { c0: 0x2400009dc9f03804ec9e36d5dd45d227b181e5db10149dfb6d59daeda3de1b8b05064729b44e410725a8234845d133711495b477826bab3ddf6ac56be235515808158152f773f0e8nat, c1: 0x0nat }), 0x2400009dc9f03804ec9e36d5dd45d227b181e5db10149dfb6d59daeda3de1b8b05064729b44e410725a8234845d133711495b477826bab3ddf6ac56be235515808158152f773f0e8nat, 0x2400009dc9f03804ec9e36d5dd45d227b181e5db10149dfb6d59daeda3de1b8b05064729b44e410725a8234845d133711495b477826bab3ddf6ac56be235515808158152f773f0e9nat), (QuadExt { c0: 0xa196fef8f43a9cba8738d32bca7eaafc489a52cc8f6c38992395765b3ed153659c56e269af7df249678c61122e8ee286f554f296c83582f858980cfcd2685b4dbdce41a58dbeffanat, c1: 0x0nat }), 0x11nat, 0x2400009dc9f03804ec9e36d5dd45d227b181e5db10149dfb6d59daeda3de1b8b05064729b44e410725a8234845d133711495b477826bab3ddf6ac56be235515808158152f773f0e9nat) == (QuadExt { c0: 0x19e690ae3aac8e39442aa9a3209de777ecf840ae471dda71db208387eff10654ab40d903195661e28f2f5d3722e84548a540654e15e8530e59e1449c150ecba32c389d389e9800efnat, c1: 0x0nat }),
{
    let q: nat = 0x2400009dc9f03804ec9e36d5dd45d227b181e5db10149dfb6d59daeda3de1b8b05064729b44e410725a8234845d133711495b477826bab3ddf6ac56be235515808158152f773f0e9nat;
    let n: nat = 0x11nat;
    let f: nat = 0x0nat;
    let c: nat = 0x2400009dc9f03804ec9e36d5dd45d227b181e5db10149dfb6d59daeda3de1b8b05064729b44e410725a8234845d133711495b477826bab3ddf6ac56be235515808158152f773f0e8nat;
    assert((f * c) % q == 0x0nat) by (nonlinear_arith)
        requires
            f == 0x0nat,
            c == 0x2400009dc9f03804ec9e36d5dd45d227b181e5db10149dfb6d59daeda3de1b8b05064729b44e410725a8234845d133711495b477826bab3ddf6ac56be235515808158152f773f0e8nat,
            q == 0x2400009dc9f03804ec9e36d5dd45d227b181e5db10149dfb6d59daeda3de1b8b05064729b44e410725a8234845d133711495b477826bab3ddf6ac56be235515808158152f773f0e9nat,
    ;
    let x0: nat = 0x2400009dc9f03804ec9e36d5dd45d227b181e5db10149dfb6d59daeda3de1b8b05064729b44e410725a8234845d133711495b477826bab3ddf6ac56be235515808158152f773f0e8nat;
    let x1: nat = 0x0nat;
    let y0: nat = 0xa196fef8f43a9cba8738d32bca7eaafc489a52cc8f6c38992395765b3ed153659c56e269af7df249678c61122e8ee286f554f296c83582f858980cfcd2685b4dbdce41a58dbeffanat;
    let y1: nat = 0x0nat;
    assert((x0 * y0) % q == 0x19e690ae3aac8e39442aa9a3209de777ecf840ae471dda71db208387eff10654ab40d903195661e28f2f5d3722e84548a540654e15e8530e59e1449c150ecba32c389d389e9800efnat && (x1 * y1) % q == 0x0nat && (x0 * y1) % q == 0x0nat && (x1 * y0) % q == 0x0nat) by (nonlinear_arith)
        requires
            x0 == 0x2400009dc9f03804ec9e36d5dd45d227b181e5db10149dfb6d59daeda3de1b8b05064729b44e410725a8234845d133711495b477826bab3ddf6ac56be235515808158152f773f0e8nat,
            x1 == 0x0nat,
            y0 == 0xa196fef8f43a9cba8738d32bca7eaafc489a52cc8f6c38992395765b3ed153659c56e269af7df249678c61122e8ee286f554f296c83582f858980cfcd2685b4dbdce41a58dbeffanat,
            y1 == 0x0nat,
            q == 0x2400009dc9f03804ec9e36d5dd45d227b181e5db10149dfb6d59daeda3de1b8b05064729b44e410725a8234845d133711495b477826bab3ddf6ac56be235515808158152f773f0e9nat,
    ;
    let m11: nat = 0x0nat;
    assert((n * m11) % q == 0x0nat) by (nonlinear_arith)
        requires
            n == 0x11nat,
            m11 == 0x0nat,
            q == 0x2400009dc9f03804ec9e36d5dd45d227b181e5db10149dfb6d59daeda3de1b8b05064729b44e410725a8234845d133711495b477826bab3ddf6ac56be235515808158152f773f0e9nat,
    ;
    let m00: nat = 0x19e690ae3aac8e39442aa9a3209de777ecf840ae471dda71db208387eff10654ab40d903195661e28f2f5d3722e84548a540654e15e8530e59e1449c150ecba32c389d389e9800efnat;
    let bm: nat = 0x0nat;
    let m01: nat = 0x0nat;
    let m10: nat = 0x0nat;
    assert((m00 + bm) % q == 0x19e690ae3aac8e39442aa9a3209de777ecf840ae471dda71db208387eff10654ab40d903195661e28f2f5d3722e84548a540654e15e8530e59e1449c150ecba32c389d389e9800efnat && (m01 + m10) % q == 0x0nat) by (nonlinear_arith)
        requires
            m00 == 0x19e690ae3aac8e39442aa9a3209de777ecf840ae471dda71db208387eff10654ab40d903195661e28f2f5d3722e84548a540654e15e8530e59e1449c150ecba32c389d389e9800efnat,
            bm == 0x0nat,
            m01 == 0x0nat,
            m10 == 0x0nat,
            q == 0x2400009dc9f03804ec9e36d5dd45d227b181e5db10149dfb6d59daeda3de1b8b05064729b44e410725a8234845d133711495b477826bab3ddf6ac56be235515808158152f773f0e9nat,
    ;
}

/// The coefficient of the table for power 7 is the Frobenius image of the
/// one for power 6 times the one for power one.
proof fn lemma_c1_step_6(p: &QuadParams<Fp>)
    requires
        Fq2Config::describes(p),
    ensures
        quad_entry_v(FROBENIUS_COEFF_FP12_C1@, 7, &p.base) == Fq2::mul_v(
            Fq2::frobenius_v(quad_entry_v(FROBENIUS_COEFF_FP12_C1@, 6, &p.base), 1, p),
            quad_entry_v(FROBENIUS_COEFF_FP12_C1@, 1, &p.base),
            p,
        ),
{
    lemma_constants(p);
    lemma_c1_value_6(&p.base);
    lemma_c1_value_7(&p.base);
    lemma_c1_value_1(&p.base);
    let x = quad_entry_v(FROBENIUS_COEFF_FP12_C1@, 6, &p.base);
    let y = quad_entry_v(FROBENIUS_COEFF_FP12_C1@, 1, &p.base);
    lemma_quad_fp(x, y, p);
    lemma_quad_fp(Fq2::frobenius_v(x, 1, p), y, p);
    lemma_c1_step_6_numbers();
}

/// The product behind the step from power 7 to power 8.
proof fn lemma_c1_step_7_numbers()
    ensures
        quad_mul_fp(quad_frobenius_fp((QuadExt { c0: 0x19e690ae3aac8e39442aa9a3209de777ecf840ae471dda71db208387eff10654ab40d903195661e28f2f5d3722e84548a540654e15e8530e59e1449c150ecba32c389d389e9800efnat, c1: 0x0nat }), 0x2400009dc9f03804ec9e36d5dd45d227b181e5db10149dfb6d59daeda3de1b8b05064729b44e410725a8234845d133711495b477826bab3ddf6ac56be235515808158152f773f0e8nat, 0x2400009dc9f03804ec9e36d5dd45d227b181e5db10149dfb6d59daeda3de1b8b05064729b44e410725a8234845d133711495b477826bab3ddf6ac56be235515808158152f773f0e9nat), (QuadExt { c0: 0xa196fef8f43a9cba8738d32bca7eaafc489a52cc8f6c38992395765b3ed153659c56e269af7df249678c61122e8ee286f554f296c83582f858980cfcd2685b4dbdce41a58dbeffanat, c1: 0x0nat }), 0x11nat, 0x2400009dc9f03804ec9e36d5dd45d227b181e5db10149dfb6d59daeda3de1b8b05064729b44e410725a8234845d133711495b477826bab3ddf6ac56be235515808158152f773f0e9nat) == (QuadExt { c0: 0xc852990035260375d270a95091b78e954ffcd28674360a7babec3e4fe0c6e4ae34682a2b3168d89eb7745edfc22dbeebb0fce75070a52a4923be81bb380ba5dcb9960804e4e0c25nat, c1: 0x0nat }),
{
    let q: nat = 0x2400009dc9f03804ec9e36d5dd45d227b181e5db10149dfb6d59daeda3de1b8b05064729b44e410725a8234845d133711495b477826bab3ddf6ac56be235515808158152f773f0e9nat;
    let n: nat = 0x11nat;
    let f: nat = 0x0nat;
    let c: nat = 0x2400009dc9f03804ec9e36d5dd45d227b181e5db10149dfb6d59daeda3de1b8b05064729b44e410725a8234845d133711495b477826bab3ddf6ac56be235515808158152f773f0e8nat;
    assert((f * c) % q == 0x0nat) by (nonlinear_arith)
        requires
            f == 0x0nat,
            c == 0x2400009dc9f03804ec9e36d5dd45d227b181e5db10149dfb6d59daeda3de1b8b05064729b44e410725a8234845d133711495b477826bab3ddf6ac56be235515808158152f773f0e8nat,
            q == 0x2400009dc9f03804ec9e36d5dd45d227b181e5db10149dfb6d59daeda3de1b8b05064729b44e410725a8234845d133711495b477826bab3ddf6ac56be235515808158152f773f0e9nat,
    ;
    let x0: nat = 0x19e690ae3aac8e39442aa9a3209de777ecf840ae471dda71db208387eff10654ab40d903195661e28f2f5d3722e84548a540654e15e8530e59e1449c150ecba32c389d389e9800efnat;
    let x1: nat = 0x0nat;
    let y0: nat = 0xa196fef8f43a9cba8738d32bca7eaafc489a52cc8f6c38992395765b3ed153659c56e269af7df249678c61122e8ee286f554f296c83582f858980cfcd2685b4dbdce41a58dbeffanat;
    let y1: nat = 0x0nat;
    assert((x0 * y0) % q == 0xc852990035260375d270a95091b78e954ffcd28674360a7babec3e4fe0c6e4ae34682a2b3168d89eb7745edfc22dbeebb0fce75070a52a4923be81bb380ba5dcb9960804e4e0c25nat && (x1 * y1) % q == 0x0nat && (x0 * y1) % q == 0x0nat && (x1 * y0) % q == 0x0nat) by (nonlinear_arith)
        requires
            x0 == 0x19e690ae3aac8e39442aa9a3209de777ecf840ae471dda71db208387eff10654ab40d903195661e28f2f5d3722e84548a540654e15e8530e59e1449c150ecba32c389d389e9800efnat,
            x1 == 0x0nat,
            y0 == 0xa196fef8f43a9cba8738d32bca7eaafc489a52cc8f6c38992395765b3ed153659c56e269af7df249678c61122e8ee286f554f296c83582f858980cfcd2685b4dbdce41a58dbeffanat,
            y1 == 0x0nat,
            q == 0x2400009dc9f03804ec9e36d5dd45d227b181e5db10149dfb6d59daeda3de1b8b05064729b44e410725a8234845d133711495b477826bab3ddf6ac56be235515808158152f773f0e9nat,
    ;
    let m11: nat = 0x0nat;
    assert((n * m11) % q == 0x0nat) by (nonlinear_arith)
        requires
            n == 0x11nat,
            m11 == 0x0nat,
            q == 0x2400009dc9f03804ec9e36d5dd45d227b181e5db10149dfb6d59daeda3de1b8b05064729b44e410725a8234845d133711495b477826bab3ddf6ac56be235515808158152f773f0e9nat,
    ;
    let m00: nat = 0xc852990035260375d270a95091b78e954ffcd28674360a7babec3e4fe0c6e4ae34682a2b3168d89eb7745edfc22dbeebb0fce75070a52a4923be81bb380ba5dcb9960804e4e0c25nat;
    let bm: nat = 0x0nat;
    let m01: nat = 0x0nat;
    let m10: nat = 0x0nat;
    assert((m00 + bm) % q == 0xc852990035260375d270a95091b78e954ffcd28674360a7babec3e4fe0c6e4ae34682a2b3168d89eb7745edfc22dbeebb0fce75070a52a4923be81bb380ba5dcb9960804e4e0c25nat && (m01 + m10) % q == 0x0nat) by (nonlinear_arith)
        requires
            m00 == 0xc852990035260375d270a95091b78e954ffcd28674360a7babec3e4fe0c6e4ae34682a2b3168d89eb7745edfc22dbeebb0fce75070a52a4923be81bb380ba5dcb9960804e4e0c25nat,
            bm == 0x0nat,
            m01 == 0x0nat,
            m10 == 0x0nat,
            q == 0x2400009dc9f03804ec9e36d5dd45d227b181e5db10149dfb6d59daeda3de1b8b05064729b44e410725a8234845d133711495b477826bab3ddf6ac56be235515808158152f773f0e9nat,
    ;
}

/// The coefficient of the table for power 8 is the Frobenius image of the
/// one for power 7 times the one for power one.
proof fn lemma_c1_step_7(p: &QuadParams<Fp>)
    requires
        Fq2Config::describes(p),
    ensures
        quad_entry_v(FROBENIUS_COEFF_FP12_C1@, 8, &p.base) == Fq2::mul_v(
            Fq2::frobenius_v(quad_entry_v(FROBENIUS_COEFF_FP12_C1@, 7, &p.base), 1, p),
            quad_entry_v(FROBENIUS_COEFF_FP12_C1@, 1, &p.base),
            p,
        ),
{
    lemma_constants(p);
    lemma_c1_value_7(&p.base);
    lemma_c1_value_8(&p.base);
    lemma_c1_value_1(&p.base);
    let x = quad_entry_v(FROBENIUS_COEFF_FP12_C1@, 7, &p.base);
    let y = quad_entry_v(FROBENIUS_COEFF_FP12_C1@, 1, &p.base);
    lemma_quad_fp(x, y, p);
    lemma_quad_fp(Fq2::frobenius_v(x, 1, p), y, p);
    lemma_c1_step_7_numbers();
}

/// The product behind the step from power 8 to power 9.
proof fn lemma_c1_step_8_numbers()
    ensures
        quad_mul_fp(quad_frobenius_fp((QuadExt { c0: 0xc852990035260375d270a95091b78e954ffcd28674360a7babec3e4fe0c6e4ae34682a2b3168d89eb7745edfc22dbeebb0fce75070a52a4923be81bb380ba5dcb9960804e4e0c25nat, c1: 0x0nat }), 0x2400009dc9f03804ec9e36d5dd45d227b181e5db10149dfb6d59daeda3de1b8b05064729b44e410725a8234845d133711495b477826bab3ddf6ac56be235515808158152f773f0e8nat, 0x2400009dc9f03804ec9e36d5dd45d227b181e5db10149dfb6d59daeda3de1b8b05064729b44e410725a8234845d133711495b477826bab3ddf6ac56be235515808158152f773f0e9nat), (QuadExt { c0: 0xa196fef8f43a9cba8738d32bca7eaafc489a52cc8f6c38992395765b3ed153659c56e269af7df249678c61122e8ee286f554f296c83582f858980cfcd2685b4dbdce41a58dbeffanat, c1: 0x0nat }), 0x11nat, 0x2400009dc9f03804ec9e36d5dd45d227b181e5db10149dfb6d59daeda3de1b8b05064729b44e410725a8234845d133711495b477826bab3ddf6ac56be235515808158152f773f0e9nat) == (QuadExt { c0: 0x18b5ddf5f27c18b973970313e434e5663abf8960730cf77db5cbda8e1d9f2ca814ae6ec203bfbcde2c206cecad1673bb906da6871727cb0c2188b18d3b8564e311d62ecb720f9b02nat, c1: 0x0nat }),
{
    let q: nat = 0x2400009dc9f03804ec9e36d5dd45d227b181e5db10149dfb6d59daeda3de1b8b05064729b44e410725a8234845d133711495b477826bab3ddf6ac56be235515808158152f773f0e9nat;
    let n: nat = 0x11nat;
    let f: nat = 0x0nat;
    let c: nat = 0x2400009dc9f03804ec9e36d5dd45d227b181e5db10149dfb6d59daeda3de1b8b05064729b44e410725a8234845d133711495b477826bab3ddf6ac56be235515808158152f773f0e8nat;
    assert((f * c) % q == 0x0nat) by (nonlinear_arith)
        requires
            f == 0x0nat,
            c == 0x2400009dc9f03804ec9e36d5dd45d227b181e5db10149dfb6d59daeda3de1b8b05064729b44e410725a8234845d133711495b477826bab3ddf6ac56be235515808158152f773f0e8nat,
            q == 0x2400009dc9f03804ec9e36d5dd45d227b181e5db10149dfb6d59daeda3de1b8b05064729b44e410725a8234845d133711495b477826bab3ddf6ac56be235515808158152f773f0e9nat,
    ;
    let x0: nat = 0xc852990035260375d270a95091b78e954ffcd28674360a7babec3e4fe0c6e4ae34682a2b3168d89eb7745edfc22dbeebb0fce75070a52a4923be81bb380ba5dcb9960804e4e0c25nat;
    let x1: nat = 0x0nat;
    let y0: nat = 0xa196fef8f43a9cba8738d32bca7eaafc489a52cc8f6c38992395765b3ed153659c56e269af7df249678c61122e8ee286f554f296c83582f858980cfcd2685b4dbdce41a58dbeffanat;
    let y1: nat = 0x0nat;
    assert((x0 * y0) % q == 0x18b5ddf5f27c18b973970313e434e5663abf8960730cf77db5cbda8e1d9f2ca814ae6ec203bfbcde2c206cecad1673bb906da6871727cb0c2188b18d3b8564e311d62ecb720f9b02nat && (x1 * y1) % q == 0x0nat && (x0 * y1) % q == 0x0nat && (x1 * y0) % q == 0x0nat) by (nonlinear_arith)
        requires
            x0 == 0xc852990035260375d270a95091b78e954ffcd28674360a7babec3e4fe0c6e4ae34682a2b3168d89eb7745edfc22dbeebb0fce75070a52a4923be81bb380ba5dcb9960804e4e0c25nat,
            x1 == 0x0nat,
            y0 == 0xa196fef8f43a9cba8738d32bca7eaafc489a52cc8f6c38992395765b3ed153659c56e269af7df249678c61122e8ee286f554f296c83582f858980cfcd2685b4dbdce41a58dbeffanat,
            y1 == 0x0nat,
            q == 0x2400009dc9f03804ec9e36d5dd45d227b181e5db10149dfb6d59daeda3de1b8b05064729b44e410725a8234845d133711495b477826bab3ddf6ac56be235515808158152f773f0e9nat,
    ;
    let m11: nat = 0x0nat;
    assert((n * m11) % q == 0x0nat) by (nonlinear_arith)
        requires
            n == 0x11nat,
            m11 == 0x0nat,
            q == 0x2400009dc9f03804ec9e36d5dd45d227b181e5db10149dfb6d59daeda3de1b8b05064729b44e410725a8234845d133711495b477826bab3ddf6ac56be235515808158152f773f0e9nat,
    ;
    let m00: nat = 0x18b5ddf5f27c18b973970313e434e5663abf8960730cf77db5cbda8e1d9f2ca814ae6ec203bfbcde2c206cecad1673bb906da6871727cb0c2188b18d3b8564e311d62ecb720f9b02nat;
    let bm: nat = 0x0nat;
    let m01: nat = 0x0nat;
    let m10: nat = 0x0nat;
    assert((m00 + bm) % q == 0x18b5ddf5f27c18b973970313e434e5663abf8960730cf77db5cbda8e1d9f2ca814ae6ec203bfbcde2c206cecad1673bb906da6871727cb0c2188b18d3b8564e311d62ecb720f9b02nat && (m01 + m10) % q == 0x0nat) by (nonlinear_arith)
        requires
            m00 == 0x18b5ddf5f27c18b973970313e434e5663abf8960730cf77db5cbda8e1d9f2ca814ae6ec203bfbcde2c206cecad1673bb906da6871727cb0c2188b18d3b8564e311d62ecb720f9b02nat,
            bm == 0x0nat,
            m01 == 0x0nat,
            m10 == 0x0nat,
            q == 0x2400009dc9f03804ec9e36d5dd45d227b181e5db10149dfb6d59daeda3de1b8b05064729b44e410725a8234845d133711495b477826bab3ddf6ac56be235515808158152f773f0e9nat,
    ;
}

/// The coefficient of the table for power 9 is the Frobenius image of the
/// one for power 8 times the one for power one.
proof fn lemma_c1_step_8(p: &QuadParams<Fp>)
    requires
        Fq2Config::describes(p),
    ensures
        quad_entry_v(FROBENIUS_COEFF_FP12_C1@, 9, &p.base) == Fq2::mul_v(
            Fq2::frobenius_v(quad_entry_v(FROBENIUS_COEFF_FP12_C1@, 8, &p.base), 1, p),
            quad_entry_v(FROBENIUS_COEFF_FP12_C1@, 1, &p.base),
            p,
        ),
{
    lemma_constants(p);
    lemma_c1_value_8(&p.base);
    lemma_c1_value_9(&p.base);
    lemma_c1_value_1(&p.base);
    let x = quad_entry_v(FROBENIUS_COEFF_FP12_C1@, 8, &p.base);
    let y = quad_entry_v(FROBENIUS_COEFF_FP12_C1@, 1, &p.base);
    lemma_quad_fp(x, y, p);
    lemma_quad_fp(Fq2::frobenius_v(x, 1, p), y, p);
    lemma_c1_step_8_numbers();
}

/// The product behind the step from power 9 to power 10.
proof fn lemma_c1_step_9_numbers()
    ensures
        quad_mul_fp(quad_frobenius_fp((QuadExt { c0: 0x18b5ddf5f27c18b973970313e434e5663abf8960730cf77db5cbda8e1d9f2ca814ae6ec203bfbcde2c206cecad1673bb906da6871727cb0c2188b18d3b8564e311d62ecb720f9b02nat, c1: 0x0nat }), 0x2400009dc9f03804ec9e36d5dd45d227b181e5db10149dfb6d59daeda3de1b8b05064729b44e410725a8234845d133711495b477826bab3ddf6ac56be235515808158152f773f0e8nat, 0x2400009dc9f03804ec9e36d5dd45d227b181e5db10149dfb6d59daeda3de1b8b05064729b44e410725a8234845d133711495b477826bab3ddf6ac56be235515808158152f773f0e9nat), (QuadExt { c0: 0xa196fef8f43a9cba8738d32bca7eaafc489a52cc8f6c38992395765b3ed153659c56e269af7df249678c61122e8ee286f554f296c83582f858980cfcd2685b4dbdce41a58dbeffanat, c1: 0x0nat }), 0x11nat, 0x2400009dc9f03804ec9e36d5dd45d227b181e5db10149dfb6d59daeda3de1b8b05064729b44e410725a8234845d133711495b477826bab3ddf6ac56be235515808158152f773f0e9nat) == (QuadExt { c0: 0xc852990035260375d270a95091b78e954ffcd28674360a7babec3e4fe0c6e4ae34682a2b3168d89eb7745edfc22dbeebb0fce75070a52a4923be81bb380ba5dcb9960804e4e0c26nat, c1: 0x0nat }),
{
    let q: nat = 0x2400009dc9f03804ec9e36d5dd45d227b181e5db10149dfb6d59daeda3de1b8b05064729b44e410725a8234845d133711495b477826bab3ddf6ac56be235515808158152f773f0e9nat;
    let n: nat = 0x11nat;
    let f: nat = 0x0nat;
    let c: nat = 0x2400009dc9f03804ec9e36d5dd45d227b181e5db10149dfb6d59daeda3de1b8b05064729b44e410725a8234845d133711495b477826bab3ddf6ac56be235515808158152f773f0e8nat;
    assert((f * c) % q == 0x0nat) by (nonlinear_arith)
        requires
            f == 0x0nat,
            c == 0x2400009dc9f03804ec9e36d5dd45d227b181e5db10149dfb6d59daeda3de1b8b05064729b44e410725a8234845d133711495b477826bab3ddf6ac56be235515808158152f773f0e8nat,
            q == 0x2400009dc9f03804ec9e36d5dd45d227b181e5db10149dfb6d59daeda3de1b8b05064729b44e410725a8234845d133711495b477826bab3ddf6ac56be235515808158152f773f0e9nat,
    ;
    let x0: nat = 0x18b5ddf5f27c18b973970313e434e5663abf8960730cf77db5cbda8e1d9f2ca814ae6ec203bfbcde2c206cecad1673bb906da6871727cb0c2188b18d3b8564e311d62ecb720f9b02nat;
    let x1: nat = 0x0nat;
    let y0: nat = 0xa196fef8f43a9cba8738d32bca7eaafc489a52cc8f6c38992395765b3ed153659c56e269af7df249678c61122e8ee286f554f296c83582f858980cfcd2685b4dbdce41a58dbeffanat;
    let y1: nat = 0x0nat;
    assert((x0 * y0) % q == 0xc852990035260375d270a95091b78e954ffcd28674360a7babec3e4fe0c6e4ae34682a2b3168d89eb7745edfc22dbeebb0fce75070a52a4923be81bb380ba5dcb9960804e4e0c26nat && (x1 * y1) % q == 0x0nat && (x0 * y1) % q == 0x0nat && (x1 * y0) % q == 0x0nat) by (nonlinear_arith)
        requires
            x0 == 0x18b5ddf5f27c18b973970313e434e5663abf8960730cf77db5cbda8e1d9f2ca814ae6ec203bfbcde2c206cecad1673bb906da6871727cb0c2188b18d3b8564e311d62ecb720f9b02nat,
            x1 == 0x0nat,
            y0 == 0xa196fef8f43a9cba8738d32bca7eaafc489a52cc8f6c38992395765b3ed153659c56e269af7df249678c61122e8ee286f554f296c83582f858980cfcd2685b4dbdce41a58dbeffanat,
            y1 == 0x0nat,
            q == 0x2400009dc9f03804ec9e36d5dd45d227b181e5db10149dfb6d59daeda3de1b8b05064729b44e410725a8234845d133711495b477826bab3ddf6ac56be235515808158152f773f0e9nat,
    ;
    let m11: nat = 0x0nat;
    assert((n * m11) % q == 0x0nat) by (nonlinear_arith)
        requires
            n == 0x11nat,
            m11 == 0x0nat,
            q == 0x2400009dc9f03804ec9e36d5dd45d227b181e5db10149dfb6d59daeda3de1b8b05064729b44e410725a8234845d133711495b477826bab3ddf6ac56be235515808158152f773f0e9nat,
    ;
    let m00: nat = 0xc852990035260375d270a95091b78e954ffcd28674360a7babec3e4fe0c6e4ae34682a2b3168d89eb7745edfc22dbeebb0fce75070a52a4923be81bb380ba5dcb9960804e4e0c26nat;
    let bm: nat = 0x0nat;
    let m01: nat = 0x0nat;
    let m10: nat = 0x0nat;
    assert((m00 + bm) % q == 0xc852990035260375d270a95091b78e954ffcd28674360a7babec3e4fe0c6e4ae34682a2b3168d89eb7745edfc22dbeebb0fce75070a52a4923be81bb380ba5dcb9960804e4e0c26nat && (m01 + m10) % q == 0x0nat) by (nonlinear_arith)
        requires
            m00 == 0xc852990035260375d270a95091b78e954ffcd28674360a7babec3e4fe0c6e4ae34682a2b3168d89eb7745edfc22dbeebb0fce75070a52a4923be81bb380ba5dcb9960804e4e0c26nat,
            bm == 0x0nat,
            m01 == 0x0nat,
            m10 == 0x0nat,
            q == 0x2400009dc9f03804ec9e36d5dd45d227b181e5db10149dfb6d59daeda3de1b8b05064729b44e410725a8234845d133711495b477826bab3ddf6ac56be235515808158152f773f0e9nat,
    ;
}

/// The coefficient of the table for power 10 is the Frobenius image of the
/// one for power 9 times the one for power one.
proof fn lemma_c1_step_9(p: &QuadParams<Fp>)
    requires
        Fq2Config::describes(p),
    ensures
        quad_entry_v(FROBENIUS_COEFF_FP12_C1@, 10, &p.base) == Fq2::mul_v(
            Fq2::frobenius_v(quad_entry_v(FROBENIUS_COEFF_FP12_C1@, 9, &p.base), 1, p),
            quad_entry_v(FROBENIUS_COEFF_FP12_C1@, 1, &p.base),
            p,
        ),
{
    lemma_constants(p);
    lemma_c1_value_9(&p.base);
    lemma_c1_value_10(&p.base);
    lemma_c1_value_1(&p.base);
    let x = quad_entry_v(FROBENIUS_COEFF_FP12_C1@, 9, &p.base);
    let y = quad_entry_v(FROBENIUS_COEFF_FP12_C1@, 1, &p.base);
    lemma_quad_fp(x, y, p);
    lemma_quad_fp(Fq2::frobenius_v(x, 1, p), y, p);
    lemma_c1_step_9_numbers();
}

/// The product behind the step from power 10 to power 11.
proof fn lemma_c1_step_10_numbers()
    ensures
        quad_mul_fp(quad_frobenius_fp((QuadExt { c0: 0xc852990035260375d270a95091b78e954ffcd28674360a7babec3e4fe0c6e4ae34682a2b3168d89eb7745edfc22dbeebb0fce75070a52a4923be81bb380ba5dcb9960804e4e0c26nat, c1: 0x0nat }), 0x2400009dc9f03804ec9e36d5dd45d227b181e5db10149dfb6d59daeda3de1b8b05064729b44e410725a8234845d133711495b477826bab3ddf6ac56be235515808158152f773f0e8nat, 0x2400009dc9f03804ec9e36d5dd45d227b181e5db10149dfb6d59daeda3de1b8b05064729b44e410725a8234845d133711495b477826bab3ddf6ac56be235515808158152f773f0e9nat), (QuadExt { c0: 0xa196fef8f43a9cba8738d32bca7eaafc489a52cc8f6c38992395765b3ed153659c56e269af7df249678c61122e8ee286f554f296c83582f858980cfcd2685b4dbdce41a58dbeffanat, c1: 0x0nat }), 0x11nat, 0x2400009dc9f03804ec9e36d5dd45d227b181e5db10149dfb6d59daeda3de1b8b05064729b44e410725a8234845d133711495b477826bab3ddf6ac56be235515808158152f773f0e9nat) == (QuadExt { c0: 0x22cf4de581bfc2851c0a9046a0dcd015ff492e8d3c03bb07480531f3d18c41de6e73dce89eb79c02c29932fdcfff61e3ffc2f5b083ab233ba712325d08abea97edb312e5caeb8afcnat, c1: 0x0nat }),
{
    let q: nat = 0x2400009dc9f03804ec9e36d5dd45d227b181e5db10149dfb6d59daeda3de1b8b05064729b44e410725a8234845d133711495b477826bab3ddf6ac56be235515808158152f773f0e9nat;
    let n: nat = 0x11nat;
    let f: nat = 0x0nat;
    let c: nat = 0x2400009dc9f03804ec9e36d5dd45d227b181e5db10149dfb6d59daeda3de1b8b05064729b44e410725a8234845d133711495b477826bab3ddf6ac56be235515808158152f773f0e8nat;
    assert((f * c) % q == 0x0nat) by (nonlinear_arith)
        requires
            f == 0x0nat,
            c == 0x2400009dc9f03804ec9e36d5dd45d227b181e5db10149dfb6d59daeda3de1b8b05064729b44e410725a8234845d133711495b477826bab3ddf6ac56be235515808158152f773f0e8nat,
            q == 0x2400009dc9f03804ec9e36d5dd45d227b181e5db10149dfb6d59daeda3de1b8b05064729b44e410725a8234845d133711495b477826bab3ddf6ac56be235515808158152f773f0e9nat,
    ;
    let x0: nat = 0xc852990035260375d270a95091b78e954ffcd28674360a7babec3e4fe0c6e4ae34682a2b3168d89eb7745edfc22dbeebb0fce75070a52a4923be81bb380ba5dcb9960804e4e0c26nat;
    let x1: nat = 0x0nat;
    let y0: nat = 0xa196fef8f43a9cba8738d32bca7eaafc489a52cc8f6c38992395765b3ed153659c56e269af7df249678c61122e8ee286f554f296c83582f858980cfcd2685b4dbdce41a58dbeffanat;
    let y1: nat = 0x0nat;
    assert((x0 * y0) % q == 0x22cf4de581bfc2851c0a9046a0dcd015ff492e8d3c03bb07480531f3d18c41de6e73dce89eb79c02c29932fdcfff61e3ffc2f5b083ab233ba712325d08abea97edb312e5caeb8afcnat && (x1 * y1) % q == 0x0nat && (x0 * y1) % q == 0x0nat && (x1 * y0) % q == 0x0nat) by (nonlinear_arith)
        requires
            x0 == 0xc852990035260375d270a95091b78e954ffcd28674360a7babec3e4fe0c6e4ae34682a2b3168d89eb7745edfc22dbeebb0fce75070a52a4923be81bb380ba5dcb9960804e4e0c26nat,
            x1 == 0x0nat,
            y0 == 0xa196fef8f43a9cba8738d32bca7eaafc489a52cc8f6c38992395765b3ed153659c56e269af7df249678c61122e8ee286f554f296c83582f858980cfcd2685b4dbdce41a58dbeffanat,
            y1 == 0x0nat,
            q == 0x2400009dc9f03804ec9e36d5dd45d227b181e5db10149dfb6d59daeda3de1b8b05064729b44e410725a8234845d133711495b477826bab3ddf6ac56be235515808158152f773f0e9nat,
    ;
    let m11: nat = 0x0nat;
    assert((n * m11) % q == 0x0nat) by (nonlinear_arith)
        requires
            n == 0x11nat,
            m11 == 0x0nat,
            q == 0x2400009dc9f03804ec9e36d5dd45d227b181e5db10149dfb6d59daeda3de1b8b05064729b44e410725a8234845d133711495b477826bab3ddf6ac56be235515808158152f773f0e9nat,
    ;
    let m00: nat = 0x22cf4de581bfc2851c0a9046a0dcd015ff492e8d3c03bb07480531f3d18c41de6e73dce89eb79c02c29932fdcfff61e3ffc2f5b083ab233ba712325d08abea97edb312e5caeb8afcnat;
    let bm: nat = 0x0nat;
    let m01: nat = 0x0nat;
    let m10: nat = 0x0nat;
    assert((m00 + bm) % q == 0x22cf4de581bfc2851c0a9046a0dcd015ff492e8d3c03bb07480531f3d18c41de6e73dce89eb79c02c29932fdcfff61e3ffc2f5b083ab233ba712325d08abea97edb312e5caeb8afcnat && (m01 + m10) % q == 0x0nat) by (nonlinear_arith)
        requires
            m00 == 0x22cf4de581bfc2851c0a9046a0dcd015ff492e8d3c03bb07480531f3d18c41de6e73dce89eb79c02c29932fdcfff61e3ffc2f5b083ab233ba712325d08abea97edb312e5caeb8afcnat,
            bm == 0x0nat,
            m01 == 0x0nat,
            m10 == 0x0nat,
            q == 0x2400009dc9f03804ec9e36d5dd45d227b181e5db10149dfb6d59daeda3de1b8b05064729b44e410725a8234845d133711495b477826bab3ddf6ac56be235515808158152f773f0e9nat,
    ;
}

/// The coefficient of the table for power 11 is the Frobenius image of the
/// one for power 10 times the one for power one.
proof fn lemma_c1_step_10(p: &QuadParams<Fp>)
    requires
        Fq2Config::describes(p),
    ensures
        quad_entry_v(FROBENIUS_COEFF_FP12_C1@, 11, &p.base) == Fq2::mul_v(
            Fq2::frobenius_v(quad_entry_v(FROBENIUS_COEFF_FP12_C1@, 10, &p.base), 1, p),
            quad_entry_v(FROBENIUS_COEFF_FP12_C1@, 1, &p.base),
            p,
        ),
{
    lemma_constants(p);
    lemma_c1_value_10(&p.base);
    lemma_c1_value_11(&p.base);
    lemma_c1_value_1(&p.base);
    let x = quad_entry_v(FROBENIUS_COEFF_FP12_C1@, 10, &p.base);
    let y = quad_entry_v(FROBENIUS_COEFF_FP12_C1@, 1, &p.base);
    lemma_quad_fp(x, y, p);
    lemma_quad_fp(Fq2::frobenius_v(x, 1, p), y, p);
    lemma_c1_step_10_numbers();
}

/// The product behind the step from power 11 to power 12.
proof fn lemma_c1_step_11_numbers()
    ensures
        quad_mul_fp(quad_frobenius_fp((QuadExt { c0: 0x22cf4de581bfc2851c0a9046a0dcd015ff492e8d3c03bb07480531f3d18c41de6e73dce89eb79c02c29932fdcfff61e3ffc2f5b083ab233ba712325d08abea97edb312e5caeb8afcnat, c1: 0x0nat }), 0x2400009dc9f03804ec9e36d5dd45d227b181e5db10149dfb6d59daeda3de1b8b05064729b44e410725a8234845d133711495b477826bab3ddf6ac56be235515808158152f773f0e8nat, 0x2400009dc9f03804ec9e36d5dd45d227b181e5db10149dfb6d59daeda3de1b8b05064729b44e410725a8234845d133711495b477826bab3ddf6ac56be235515808158152f773f0e9nat), (QuadExt { c0: 0xa196fef8f43a9cba8738d32bca7eaafc489a52cc8f6c38992395765b3ed153659c56e269af7df249678c61122e8ee286f554f296c83582f858980cfcd2685b4dbdce41a58dbeffanat, c1: 0x0nat }), 0x11nat, 0x2400009dc9f03804ec9e36d5dd45d227b181e5db10149dfb6d59daeda3de1b8b05064729b44e410725a8234845d133711495b477826bab3ddf6ac56be235515808158152f773f0e9nat) == (QuadExt { c0: 0x1nat, c1: 0x0nat }),
{
    let q: nat = 0x2400009dc9f03804ec9e36d5dd45d227b181e5db10149dfb6d59daeda3de1b8b05064729b44e410725a8234845d133711495b477826bab3ddf6ac56be235515808158152f773f0e9nat;
    let n: nat = 0x11nat;
    let f: nat = 0x0nat;
    let c: nat = 0x2400009dc9f03804ec9e36d5dd45d227b181e5db10149dfb6d59daeda3de1b8b05064729b44e410725a8234845d133711495b477826bab3ddf6ac56be235515808158152f773f0e8nat;
    assert((f * c) % q == 0x0nat) by (nonlinear_arith)
        requires
            f == 0x0nat,
            c == 0x2400009dc9f03804ec9e36d5dd45d227b181e5db10149dfb6d59daeda3de1b8b05064729b44e410725a8234845d133711495b477826bab3ddf6ac56be235515808158152f773f0e8nat,
            q == 0x2400009dc9f03804ec9e36d5dd45d227b181e5db10149dfb6d59daeda3de1b8b05064729b44e410725a8234845d133711495b477826bab3ddf6ac56be235515808158152f773f0e9nat,
    ;
    let x0: nat = 0x22cf4de581bfc2851c0a9046a0dcd015ff492e8d3c03bb07480531f3d18c41de6e73dce89eb79c02c29932fdcfff61e3ffc2f5b083ab233ba712325d08abea97edb312e5caeb8afcnat;
    let x1: nat = 0x0nat;
    let y0: nat = 0xa196fef8f43a9cba8738d32bca7eaafc489a52cc8f6c38992395765b3ed153659c56e269af7df249678c61122e8ee286f554f296c83582f858980cfcd2685b4dbdce41a58dbeffanat;
    let y1: nat = 0x0nat;
    assert((x0 * y0) % q == 0x1nat && (x1 * y1) % q == 0x0nat && (x0 * y1) % q == 0x0nat && (x1 * y0) % q == 0x0nat) by (nonlinear_arith)
        requires
            x0 == 0x22cf4de581bfc2851c0a9046a0dcd015ff492e8d3c03bb07480531f3d18c41de6e73dce89eb79c02c29932fdcfff61e3ffc2f5b083ab233ba712325d08abea97edb312e5caeb8afcnat,
            x1 == 0x0nat,
            y0 == 0xa196fef8f43a9cba8738d32bca7eaafc489a52cc8f6c38992395765b3ed153659c56e269af7df249678c61122e8ee286f554f296c83582f858980cfcd2685b4dbdce41a58dbeffanat,
            y1 == 0x0nat,
            q == 0x2400009dc9f03804ec9e36d5dd45d227b181e5db10149dfb6d59daeda3de1b8b05064729b44e410725a8234845d133711495b477826bab3ddf6ac56be235515808158152f773f0e9nat,
    ;
    let m11: nat = 0x0nat;
    assert((n * m11) % q == 0x0nat) by (nonlinear_arith)
        requires
            n == 0x11nat,
            m11 == 0x0nat,
            q == 0x2400009dc9f03804ec9e36d5dd45d227b181e5db10149dfb6d59daeda3de1b8b05064729b44e410725a8234845d133711495b477826bab3ddf6ac56be235515808158152f773f0e9nat,
    ;
    let m00: nat = 0x1nat;
    let bm: nat = 0x0nat;
    let m01: nat = 0x0nat;
    let m10: nat = 0x0nat;
    assert((m00 + bm) % q == 0x1nat && (m01 + m10) % q == 0x0nat) by (nonlinear_arith)
        requires
            m00 == 0x1nat,
            bm == 0x0nat,
            m01 == 0x0nat,
            m10 == 0x0nat,
            q == 0x2400009dc9f03804ec9e36d5dd45d227b181e5db10149dfb6d59daeda3de1b8b05064729b44e410725a8234845d133711495b477826bab3ddf6ac56be235515808158152f773f0e9nat,
    ;
}

/// The coefficient of the table for power 12 is the Frobenius image of the
/// one for power 11 times the one for power one.
proof fn lemma_c1_step_11(p: &QuadParams<Fp>)
    requires
        Fq2Config::describes(p),
    ensures
        quad_entry_v(FROBENIUS_COEFF_FP12_C1@, 0, &p.base) == Fq2::mul_v(
            Fq2::frobenius_v(quad_entry_v(FROBENIUS_COEFF_FP12_C1@, 11, &p.base), 1, p),
            quad_entry_v(FROBENIUS_COEFF_FP12_C1@, 1, &p.base),
            p,
        ),
{
    lemma_constants(p);
    lemma_c1_value_11(&p.base);
    lemma_c1_value_0(&p.base);
    lemma_c1_value_1(&p.base);
    let x = quad_entry_v(FROBENIUS_COEFF_FP12_C1@, 11, &p.base);
    let y = quad_entry_v(FROBENIUS_COEFF_FP12_C1@, 1, &p.base);
    lemma_quad_fp(x, y, p);
    lemma_quad_fp(Fq2::frobenius_v(x, 1, p), y, p);
    lemma_c1_step_11_numbers();
}

/// The square of the coefficient of the table for power one.
proof fn lemma_c1_squared_numbers()
    ensures
        quad_mul_fp((QuadExt { c0: 0xa196fef8f43a9cba8738d32bca7eaafc489a52cc8f6c38992395765b3ed153659c56e269af7df249678c61122e8ee286f554f296c83582f858980cfcd2685b4dbdce41a58dbeffanat, c1: 0x0nat }), (QuadExt { c0: 0xa196fef8f43a9cba8738d32bca7eaafc489a52cc8f6c38992395765b3ed153659c56e269af7df249678c61122e8ee286f554f296c83582f858980cfcd2685b4dbdce41a58dbeffanat, c1: 0x0nat }), 0x11nat, 0x2400009dc9f03804ec9e36d5dd45d227b181e5db10149dfb6d59daeda3de1b8b05064729b44e410725a8234845d133711495b477826bab3ddf6ac56be235515808158152f773f0e9nat) == (QuadExt { c0: 0x177ad70dc69dd7cd8f772c40d42a593e5c8218b2a8d13d53b29b1708a5d1ad4021bfc4870137b37d3a30dd5a49ae57825985e6027b6158994d2edd502eb496fa3c7c20d2a925e4c4nat, c1: 0x0nat }),
{
    let q: nat = 0x2400009dc9f03804ec9e36d5dd45d227b181e5db10149dfb6d59daeda3de1b8b05064729b44e410725a8234845d133711495b477826bab3ddf6ac56be235515808158152f773f0e9nat;
    let n: nat = 0x11nat;
    let x0: nat = 0xa196fef8f43a9cba8738d32bca7eaafc489a52cc8f6c38992395765b3ed153659c56e269af7df249678c61122e8ee286f554f296c83582f858980cfcd2685b4dbdce41a58dbeffanat;
    let x1: nat = 0x0nat;
    let y0: nat = 0xa196fef8f43a9cba8738d32bca7eaafc489a52cc8f6c38992395765b3ed153659c56e269af7df249678c61122e8ee286f554f296c83582f858980cfcd2685b4dbdce41a58dbeffanat;
    let y1: nat = 0x0nat;
    assert((x0 * y0) % q == 0x177ad70dc69dd7cd8f772c40d42a593e5c8218b2a8d13d53b29b1708a5d1ad4021bfc4870137b37d3a30dd5a49ae57825985e6027b6158994d2edd502eb496fa3c7c20d2a925e4c4nat && (x1 * y1) % q == 0x0nat && (x0 * y1) % q == 0x0nat && (x1 * y0) % q == 0x0nat) by (nonlinear_arith)
        requires
            x0 == 0xa196fef8f43a9cba8738d32bca7eaafc489a52cc8f6c38992395765b3ed153659c56e269af7df249678c61122e8ee286f554f296c83582f858980cfcd2685b4dbdce41a58dbeffanat,
            x1 == 0x0nat,
            y0 == 0xa196fef8f43a9cba8738d32bca7eaafc489a52cc8f6c38992395765b3ed153659c56e269af7df249678c61122e8ee286f554f296c83582f858980cfcd2685b4dbdce41a58dbeffanat,
            y1 == 0x0nat,
            q == 0x2400009dc9f03804ec9e36d5dd45d227b181e5db10149dfb6d59daeda3de1b8b05064729b44e410725a8234845d133711495b477826bab3ddf6ac56be235515808158152f773f0e9nat,
    ;
    let m11: nat = 0x0nat;
    assert((n * m11) % q == 0x0nat) by (nonlinear_arith)
        requires
            n == 0x11nat,
            m11 == 0x0nat,
            q == 0x2400009dc9f03804ec9e36d5dd45d227b181e5db10149dfb6d59daeda3de1b8b05064729b44e410725a8234845d133711495b477826bab3ddf6ac56be235515808158152f773f0e9nat,
    ;
    let m00: nat = 0x177ad70dc69dd7cd8f772c40d42a593e5c8218b2a8d13d53b29b1708a5d1ad4021bfc4870137b37d3a30dd5a49ae57825985e6027b6158994d2edd502eb496fa3c7c20d2a925e4c4nat;
    let bm: nat = 0x0nat;
    let m01: nat = 0x0nat;
    let m10: nat = 0x0nat;
    assert((m00 + bm) % q == 0x177ad70dc69dd7cd8f772c40d42a593e5c8218b2a8d13d53b29b1708a5d1ad4021bfc4870137b37d3a30dd5a49ae57825985e6027b6158994d2edd502eb496fa3c7c20d2a925e4c4nat && (m01 + m10) % q == 0x0nat) by (nonlinear_arith)
        requires
            m00 == 0x177ad70dc69dd7cd8f772c40d42a593e5c8218b2a8d13d53b29b1708a5d1ad4021bfc4870137b37d3a30dd5a49ae57825985e6027b6158994d2edd502eb496fa3c7c20d2a925e4c4nat,
            bm == 0x0nat,
            m01 == 0x0nat,
            m10 == 0x0nat,
            q == 0x2400009dc9f03804ec9e36d5dd45d227b181e5db10149dfb6d59daeda3de1b8b05064729b44e410725a8234845d133711495b477826bab3ddf6ac56be235515808158152f773f0e9nat,
    ;
}

/// The table of the target field is consistent, and so are all the tables
/// below it.
pub proof fn lemma_tables_consistent(p: &QuadParams<Fq6>)
    requires
        Fq12Config::describes(p),
    ensures
        Fq12::tables_consistent(p),
{
    crate::yafa_146::fields::fq6::lemma_tables_consistent(&p.base);
    let f2 = &p.base.base;
    let fq = &p.base.base.base;
    let c = Seq::new(12, |k: int| quad_entry_v(FROBENIUS_COEFF_FP12_C1@, k, fq));
    lemma_constants(f2);
    assert forall|k: int| 0 <= k < 12 implies Fq2::in_field(#[trigger] c[k], f2) && p.frobenius@[k].value()
        == embed_v::<Fq2>(c[k], f2) by {
        vstd::arithmetic::div_mod::lemma_mod_bound(
            limbs_val(FROBENIUS_COEFF_FP12_C1@.subrange(2 * k * 9, (2 * k + 1) * 9)) as int,
            fq.value() as int,
        );
        vstd::arithmetic::div_mod::lemma_mod_bound(
            limbs_val(FROBENIUS_COEFF_FP12_C1@.subrange((2 * k + 1) * 9, (2 * k + 1 + 1) * 9)) as int,
            fq.value() as int,
        );
    }
    lemma_c1_value_0(fq);
    assert forall|k: int| 0 <= k < 12 implies #[trigger] c[(k + 1) % 12] == Fq2::mul_v(
        Fq2::frobenius_v(c[k], 1, f2),
        c[1],
        f2,
    ) by {
        if k == 0 {
            lemma_c1_step_0(f2);
        } else if k == 1 {
            lemma_c1_step_1(f2);
        } else if k == 2 {
            lemma_c1_step_2(f2);
        } else if k == 3 {
            lemma_c1_step_3(f2);
        } else if k == 4 {
            lemma_c1_step_4(f2);
        } else if k == 5 {
            lemma_c1_step_5(f2);
        } else if k == 6 {
            lemma_c1_step_6(f2);
        } else if k == 7 {
            lemma_c1_step_7(f2);
        } else if k == 8 {
            lemma_c1_step_8(f2);
        } else if k == 9 {
            lemma_c1_step_9(f2);
        } else if k == 10 {
            lemma_c1_step_10(f2);
        } else {
            lemma_c1_step_11(f2);
        }
    }
    // the first table of the cubic extension holds the squares
    lemma_c1_value_1(fq);
    crate::yafa_146::fields::fq6::lemma_c1_value_1(fq);
    lemma_quad_fp(c[1], c[1], f2);
    lemma_c1_squared_numbers();
    lemma_quad_over_cubic_consistent::<Fq2>(p, c);
}

} // verus!

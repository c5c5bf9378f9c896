//! The cubic extension of the quadratic extension of Yafa-146.

use vstd::prelude::*;
use crate::fields::cubic::{CubicExt, CubicParams};
use crate::fields::field::Field;
use crate::bigint::lemma_val_nine_limbs;
use crate::fields::frobenius::FrobeniusLaws;
use crate::fields::prime::Fp;
use crate::fields::quadratic::{
    lemma_quad_fp, quad_entry_v, quad_frobenius_fp, quad_mul_fp, quad_table, QuadExt, QuadParams,
};
use crate::modular::{mul_mod, Modulus};
use crate::yafa_146::fields::fq::{is_fq, lemma_modulus_value, modulus_value};
use crate::yafa_146::fields::fq2::{lemma_constants, Fq2, Fq2Config};

verus! {

/// An element of the cubic extension `Fq2[v] / (v^3 - 7u)`.
pub type Fq6 = CubicExt<QuadExt<Fp>>;

/// The configuration of the cubic extension.
pub struct Fq6Config;

/// The coefficient of `u` in NONRESIDUE = 7u
pub const NONRESIDUE_C1: u64 = 7;

/// Coefficients for the Frobenius automorphism:
/// NONRESIDUE^((q^k - 1) / 3) for k = 0, ..., 5, each with its two coefficients.
pub const FROBENIUS_COEFF_FP6_C1: [u64; 108] = [
    0x0000000000000001, 0x0000000000000000, 0x0000000000000000,
    0x0000000000000000, 0x0000000000000000, 0x0000000000000000,
    0x0000000000000000, 0x0000000000000000, 0x0000000000000000,
    0x0000000000000000, 0x0000000000000000, 0x0000000000000000,
    0x0000000000000000, 0x0000000000000000, 0x0000000000000000,
    0x0000000000000000, 0x0000000000000000, 0x0000000000000000,
    0x3c7c20d2a925e4c4, 0x4d2edd502eb496fa, 0x5985e6027b615899,
    0x3a30dd5a49ae5782, 0x21bfc4870137b37d, 0xb29b1708a5d1ad40,
    0x5c8218b2a8d13d53, 0x8f772c40d42a593e, 0x177ad70dc69dd7cd,
    0x0000000000000000, 0x0000000000000000, 0x0000000000000000,
    0x0000000000000000, 0x0000000000000000, 0x0000000000000000,
    0x0000000000000000, 0x0000000000000000, 0x0000000000000000,
    0x3c7c20d2a925e4c3, 0x4d2edd502eb496fa, 0x5985e6027b615899,
    0x3a30dd5a49ae5782, 0x21bfc4870137b37d, 0xb29b1708a5d1ad40,
    0x5c8218b2a8d13d53, 0x8f772c40d42a593e, 0x177ad70dc69dd7cd,
    0x0000000000000000, 0x0000000000000000, 0x0000000000000000,
    0x0000000000000000, 0x0000000000000000, 0x0000000000000000,
    0x0000000000000000, 0x0000000000000000, 0x0000000000000000,
    0x08158152f773f0e8, 0xdf6ac56be2355158, 0x1495b477826bab3d,
    0x25a8234845d13371, 0x05064729b44e4107, 0x6d59daeda3de1b8b,
    0xb181e5db10149dfb, 0xec9e36d5dd45d227, 0x2400009dc9f03804,
    0x0000000000000000, 0x0000000000000000, 0x0000000000000000,
    0x0000000000000000, 0x0000000000000000, 0x0000000000000000,
    0x0000000000000000, 0x0000000000000000, 0x0000000000000000,
    0xcb9960804e4e0c25, 0x923be81bb380ba5d, 0xbb0fce75070a52a4,
    0xeb7745edfc22dbee, 0xe34682a2b3168d89, 0xbabec3e4fe0c6e4a,
    0x54ffcd28674360a7, 0x5d270a95091b78e9, 0x0c85299003526037,
    0x0000000000000000, 0x0000000000000000, 0x0000000000000000,
    0x0000000000000000, 0x0000000000000000, 0x0000000000000000,
    0x0000000000000000, 0x0000000000000000, 0x0000000000000000,
    0xcb9960804e4e0c26, 0x923be81bb380ba5d, 0xbb0fce75070a52a4,
    0xeb7745edfc22dbee, 0xe34682a2b3168d89, 0xbabec3e4fe0c6e4a,
    0x54ffcd28674360a7, 0x5d270a95091b78e9, 0x0c85299003526037,
    0x0000000000000000, 0x0000000000000000, 0x0000000000000000,
    0x0000000000000000, 0x0000000000000000, 0x0000000000000000,
    0x0000000000000000, 0x0000000000000000, 0x0000000000000000,
];

/// NONRESIDUE^(2 (q^k - 1) / 3) for k = 0, ..., 5, each with its two coefficients.
pub const FROBENIUS_COEFF_FP6_C2: [u64; 108] = [
    0x0000000000000001, 0x0000000000000000, 0x0000000000000000,
    0x0000000000000000, 0x0000000000000000, 0x0000000000000000,
    0x0000000000000000, 0x0000000000000000, 0x0000000000000000,
    0x0000000000000000, 0x0000000000000000, 0x0000000000000000,
    0x0000000000000000, 0x0000000000000000, 0x0000000000000000,
    0x0000000000000000, 0x0000000000000000, 0x0000000000000000,
    0x3c7c20d2a925e4c3, 0x4d2edd502eb496fa, 0x5985e6027b615899,
    0x3a30dd5a49ae5782, 0x21bfc4870137b37d, 0xb29b1708a5d1ad40,
    0x5c8218b2a8d13d53, 0x8f772c40d42a593e, 0x177ad70dc69dd7cd,
    0x0000000000000000, 0x0000000000000000, 0x0000000000000000,
    0x0000000000000000, 0x0000000000000000, 0x0000000000000000,
    0x0000000000000000, 0x0000000000000000, 0x0000000000000000,
    0xcb9960804e4e0c25, 0x923be81bb380ba5d, 0xbb0fce75070a52a4,
    0xeb7745edfc22dbee, 0xe34682a2b3168d89, 0xbabec3e4fe0c6e4a,
    0x54ffcd28674360a7, 0x5d270a95091b78e9, 0x0c85299003526037,
    0x0000000000000000, 0x0000000000000000, 0x0000000000000000,
    0x0000000000000000, 0x0000000000000000, 0x0000000000000000,
    0x0000000000000000, 0x0000000000000000, 0x0000000000000000,
    0x0000000000000001, 0x0000000000000000, 0x0000000000000000,
    0x0000000000000000, 0x0000000000000000, 0x0000000000000000,
    0x0000000000000000, 0x0000000000000000, 0x0000000000000000,
    0x0000000000000000, 0x0000000000000000, 0x0000000000000000,
    0x0000000000000000, 0x0000000000000000, 0x0000000000000000,
    0x0000000000000000, 0x0000000000000000, 0x0000000000000000,
    0x3c7c20d2a925e4c3, 0x4d2edd502eb496fa, 0x5985e6027b615899,
    0x3a30dd5a49ae5782, 0x21bfc4870137b37d, 0xb29b1708a5d1ad40,
    0x5c8218b2a8d13d53, 0x8f772c40d42a593e, 0x177ad70dc69dd7cd,
    0x0000000000000000, 0x0000000000000000, 0x0000000000000000,
    0x0000000000000000, 0x0000000000000000, 0x0000000000000000,
    0x0000000000000000, 0x0000000000000000, 0x0000000000000000,
    0xcb9960804e4e0c25, 0x923be81bb380ba5d, 0xbb0fce75070a52a4,
    0xeb7745edfc22dbee, 0xe34682a2b3168d89, 0xbabec3e4fe0c6e4a,
    0x54ffcd28674360a7, 0x5d270a95091b78e9, 0x0c85299003526037,
    0x0000000000000000, 0x0000000000000000, 0x0000000000000000,
    0x0000000000000000, 0x0000000000000000, 0x0000000000000000,
    0x0000000000000000, 0x0000000000000000, 0x0000000000000000,
];

impl Fq6Config {
    /// `p` describes the cubic extension.
    pub open spec fn describes(p: &CubicParams<Fq2>) -> bool {
        &&& Fq2Config::describes(&p.base)
        &&& Fq6::params_wf(p)
        &&& p.nonresidue.value() == (QuadExt {
            c0: 0nat,
            c1: NONRESIDUE_C1 as nat % p.base.base.value(),
        })
        &&& p.frobenius_c1@.len() == 6
        &&& p.frobenius_c2@.len() == 6
        &&& forall|k: int|
            0 <= k < 6 ==> (#[trigger] p.frobenius_c1@[k]).value() == quad_entry_v(
                FROBENIUS_COEFF_FP6_C1@,
                k,
                &p.base.base,
            )
        &&& forall|k: int|
            0 <= k < 6 ==> (#[trigger] p.frobenius_c2@[k]).value() == quad_entry_v(
                FROBENIUS_COEFF_FP6_C2@,
                k,
                &p.base.base,
            )
    }

    /// The description of the cubic extension of the quadratic extension `fq2`.
    pub fn params(fq2: QuadParams<Fp>) -> (r: CubicParams<Fq2>)
        requires
            Fq2Config::describes(&fq2),
        ensures
            Self::describes(&r),
            r.base == fq2,
    {
        let nonresidue = QuadExt {
            c0: Fp::zero(&fq2.base),
            c1: Fp::from_u64(NONRESIDUE_C1, &fq2.base),
        };
        let frobenius_c1 = quad_table(FROBENIUS_COEFF_FP6_C1.as_slice(), 6, &fq2.base);
        let frobenius_c2 = quad_table(FROBENIUS_COEFF_FP6_C2.as_slice(), 6, &fq2.base);
        CubicParams { base: fq2, nonresidue, frobenius_c1, frobenius_c2 }
    }
}

// ---- constants of the Frobenius map

/// The coefficient of the first table for power 0 as a number.
proof fn lemma_c1_value_0(fq: &Modulus)
    requires
        is_fq(fq),
    ensures
        quad_entry_v(FROBENIUS_COEFF_FP6_C1@, 0, fq) == (QuadExt { c0: 0x1nat, c1: 0x0nat }),
{
    lemma_modulus_value();
    let n = fq.limbs@.len() as int;
    assert(0 * n == 0 && (0 + 1) * n == 9 && (1 + 1) * n == 18) by (nonlinear_arith)
        requires
            n == 9,
    ;
    lemma_val_nine_limbs(FROBENIUS_COEFF_FP6_C1@.subrange(0, 9));
    lemma_val_nine_limbs(FROBENIUS_COEFF_FP6_C1@.subrange(9, 18));
}

/// The coefficient of the first table for power 1 as a number.
pub proof fn lemma_c1_value_1(fq: &Modulus)
    requires
        is_fq(fq),
    ensures
        quad_entry_v(FROBENIUS_COEFF_FP6_C1@, 1, fq) == (QuadExt { c0: 0x177ad70dc69dd7cd8f772c40d42a593e5c8218b2a8d13d53b29b1708a5d1ad4021bfc4870137b37d3a30dd5a49ae57825985e6027b6158994d2edd502eb496fa3c7c20d2a925e4c4nat, c1: 0x0nat }),
{
    lemma_modulus_value();
    let n = fq.limbs@.len() as int;
    assert(2 * n == 18 && (2 + 1) * n == 27 && (3 + 1) * n == 36) by (nonlinear_arith)
        requires
            n == 9,
    ;
    lemma_val_nine_limbs(FROBENIUS_COEFF_FP6_C1@.subrange(18, 27));
    lemma_val_nine_limbs(FROBENIUS_COEFF_FP6_C1@.subrange(27, 36));
}

/// The coefficient of the first table for power 2 as a number.
proof fn lemma_c1_value_2(fq: &Modulus)
    requires
        is_fq(fq),
    ensures
        quad_entry_v(FROBENIUS_COEFF_FP6_C1@, 2, fq) == (QuadExt { c0: 0x177ad70dc69dd7cd8f772c40d42a593e5c8218b2a8d13d53b29b1708a5d1ad4021bfc4870137b37d3a30dd5a49ae57825985e6027b6158994d2edd502eb496fa3c7c20d2a925e4c3nat, c1: 0x0nat }),
{
    lemma_modulus_value();
    let n = fq.limbs@.len() as int;
    assert(4 * n == 36 && (4 + 1) * n == 45 && (5 + 1) * n == 54) by (nonlinear_arith)
        requires
            n == 9,
    ;
    lemma_val_nine_limbs(FROBENIUS_COEFF_FP6_C1@.subrange(36, 45));
    lemma_val_nine_limbs(FROBENIUS_COEFF_FP6_C1@.subrange(45, 54));
}

/// The coefficient of the first table for power 3 as a number.
proof fn lemma_c1_value_3(fq: &Modulus)
    requires
        is_fq(fq),
    ensures
        quad_entry_v(FROBENIUS_COEFF_FP6_C1@, 3, fq) == (QuadExt { c0: 0x2400009dc9f03804ec9e36d5dd45d227b181e5db10149dfb6d59daeda3de1b8b05064729b44e410725a8234845d133711495b477826bab3ddf6ac56be235515808158152f773f0e8nat, c1: 0x0nat }),
{
    lemma_modulus_value();
    let n = fq.limbs@.len() as int;
    assert(6 * n == 54 && (6 + 1) * n == 63 && (7 + 1) * n == 72) by (nonlinear_arith)
        requires
            n == 9,
    ;
    lemma_val_nine_limbs(FROBENIUS_COEFF_FP6_C1@.subrange(54, 63));
    lemma_val_nine_limbs(FROBENIUS_COEFF_FP6_C1@.subrange(63, 72));
}

/// The coefficient of the first table for power 4 as a number.
proof fn lemma_c1_value_4(fq: &Modulus)
    requires
        is_fq(fq),
    ensures
        quad_entry_v(FROBENIUS_COEFF_FP6_C1@, 4, fq) == (QuadExt { c0: 0xc852990035260375d270a95091b78e954ffcd28674360a7babec3e4fe0c6e4ae34682a2b3168d89eb7745edfc22dbeebb0fce75070a52a4923be81bb380ba5dcb9960804e4e0c25nat, c1: 0x0nat }),
{
    lemma_modulus_value();
    let n = fq.limbs@.len() as int;
    assert(8 * n == 72 && (8 + 1) * n == 81 && (9 + 1) * n == 90) by (nonlinear_arith)
        requires
            n == 9,
    ;
    lemma_val_nine_limbs(FROBENIUS_COEFF_FP6_C1@.subrange(72, 81));
    lemma_val_nine_limbs(FROBENIUS_COEFF_FP6_C1@.subrange(81, 90));
}

/// The coefficient of the first table for power 5 as a number.
proof fn lemma_c1_value_5(fq: &Modulus)
    requires
        is_fq(fq),
    ensures
        quad_entry_v(FROBENIUS_COEFF_FP6_C1@, 5, fq) == (QuadExt { c0: 0xc852990035260375d270a95091b78e954ffcd28674360a7babec3e4fe0c6e4ae34682a2b3168d89eb7745edfc22dbeebb0fce75070a52a4923be81bb380ba5dcb9960804e4e0c26nat, c1: 0x0nat }),
{
    lemma_modulus_value();
    let n = fq.limbs@.len() as int;
    assert(10 * n == 90 && (10 + 1) * n == 99 && (11 + 1) * n == 108) by (nonlinear_arith)
        requires
            n == 9,
    ;
    lemma_val_nine_limbs(FROBENIUS_COEFF_FP6_C1@.subrange(90, 99));
    lemma_val_nine_limbs(FROBENIUS_COEFF_FP6_C1@.subrange(99, 108));
}

/// The product behind the step from power 0 to power 1 of the first table.
proof fn lemma_c1_step_0_numbers()
    ensures
        quad_mul_fp(quad_frobenius_fp((QuadExt { c0: 0x1nat, c1: 0x0nat }), 0x2400009dc9f03804ec9e36d5dd45d227b181e5db10149dfb6d59daeda3de1b8b05064729b44e410725a8234845d133711495b477826bab3ddf6ac56be235515808158152f773f0e8nat, 0x2400009dc9f03804ec9e36d5dd45d227b181e5db10149dfb6d59daeda3de1b8b05064729b44e410725a8234845d133711495b477826bab3ddf6ac56be235515808158152f773f0e9nat), (QuadExt { c0: 0x177ad70dc69dd7cd8f772c40d42a593e5c8218b2a8d13d53b29b1708a5d1ad4021bfc4870137b37d3a30dd5a49ae57825985e6027b6158994d2edd502eb496fa3c7c20d2a925e4c4nat, c1: 0x0nat }), 0x11nat, 0x2400009dc9f03804ec9e36d5dd45d227b181e5db10149dfb6d59daeda3de1b8b05064729b44e410725a8234845d133711495b477826bab3ddf6ac56be235515808158152f773f0e9nat) == (QuadExt { c0: 0x177ad70dc69dd7cd8f772c40d42a593e5c8218b2a8d13d53b29b1708a5d1ad4021bfc4870137b37d3a30dd5a49ae57825985e6027b6158994d2edd502eb496fa3c7c20d2a925e4c4nat, c1: 0x0nat }),
{
    let q: nat = 0x2400009dc9f03804ec9e36d5dd45d227b181e5db10149dfb6d59daeda3de1b8b05064729b44e410725a8234845d133711495b477826bab3ddf6ac56be235515808158152f773f0e9nat;
    let n: nat = 0x11nat;
    let f: nat = 0x0nat;
    let c: nat = 0x2400009dc9f03804ec9e36d5dd45d227b181e5db10149dfb6d59daeda3de1b8b05064729b44e410725a8234845d133711495b477826bab3ddf6ac56be235515808158152f773f0e8nat;
    assert((f * c) % q == 0x0nat) by (nonlinear_arith)
        requires
            f == 0x0nat,
            c == 0x2400009dc9f03804ec9e36d5dd45d227b181e5db10149dfb6d59daeda3de1b8b05064729b44e410725a8234845d133711495b477826bab3ddf6ac56be235515808158152f773f0e8nat,
            q == 0x2400009dc9f03804ec9e36d5dd45d227b181e5db10149dfb6d59daeda3de1b8b05064729b44e410725a8234845d133711495b477826bab3ddf6ac56be235515808158152f773f0e9nat,
    ;
    let x0: nat = 0x1nat;
    let x1: nat = 0x0nat;
    let y0: nat = 0x177ad70dc69dd7cd8f772c40d42a593e5c8218b2a8d13d53b29b1708a5d1ad4021bfc4870137b37d3a30dd5a49ae57825985e6027b6158994d2edd502eb496fa3c7c20d2a925e4c4nat;
    let y1: nat = 0x0nat;
    assert((x0 * y0) % q == 0x177ad70dc69dd7cd8f772c40d42a593e5c8218b2a8d13d53b29b1708a5d1ad4021bfc4870137b37d3a30dd5a49ae57825985e6027b6158994d2edd502eb496fa3c7c20d2a925e4c4nat && (x1 * y1) % q == 0x0nat && (x0 * y1) % q == 0x0nat && (x1 * y0) % q == 0x0nat) by (nonlinear_arith)
        requires
            x0 == 0x1nat,
            x1 == 0x0nat,
            y0 == 0x177ad70dc69dd7cd8f772c40d42a593e5c8218b2a8d13d53b29b1708a5d1ad4021bfc4870137b37d3a30dd5a49ae57825985e6027b6158994d2edd502eb496fa3c7c20d2a925e4c4nat,
            y1 == 0x0nat,
            q == 0x2400009dc9f03804ec9e36d5dd45d227b181e5db10149dfb6d59daeda3de1b8b05064729b44e410725a8234845d133711495b477826bab3ddf6ac56be235515808158152f773f0e9nat,
    ;
    let m11: nat = 0x0nat;
    assert((n * m11) % q == 0x0nat) by (nonlinear_arith)
        requires
            n == 0x11nat,
            m11 == 0x0nat,
            q == 0x2400009dc9f03804ec9e36d5dd45d227b181e5db10149dfb6d59daeda3de1b8b05064729b44e410725a8234845d133711495b477826bab3ddf6ac56be235515808158152f773f0e9nat,
    ;
    let m00: nat = 0x177ad70dc69dd7cd8f772c40d42a593e5c8218b2a8d13d53b29b1708a5d1ad4021bfc4870137b37d3a30dd5a49ae57825985e6027b6158994d2edd502eb496fa3c7c20d2a925e4c4nat;
    let bm: nat = 0x0nat;
    let m01: nat = 0x0nat;
    let m10: nat = 0x0nat;
    assert((m00 + bm) % q == 0x177ad70dc69dd7cd8f772c40d42a593e5c8218b2a8d13d53b29b1708a5d1ad4021bfc4870137b37d3a30dd5a49ae57825985e6027b6158994d2edd502eb496fa3c7c20d2a925e4c4nat && (m01 + m10) % q == 0x0nat) by (nonlinear_arith)
        requires
            m00 == 0x177ad70dc69dd7cd8f772c40d42a593e5c8218b2a8d13d53b29b1708a5d1ad4021bfc4870137b37d3a30dd5a49ae57825985e6027b6158994d2edd502eb496fa3c7c20d2a925e4c4nat,
            bm == 0x0nat,
            m01 == 0x0nat,
            m10 == 0x0nat,
            q == 0x2400009dc9f03804ec9e36d5dd45d227b181e5db10149dfb6d59daeda3de1b8b05064729b44e410725a8234845d133711495b477826bab3ddf6ac56be235515808158152f773f0e9nat,
    ;
}

/// The coefficient of the first table for power 1 is the Frobenius image of
/// the one for power 0 times the one for power one.
proof fn lemma_c1_step_0(p: &CubicParams<Fq2>)
    requires
        Fq6Config::describes(p),
    ensures
        p.frobenius_c1@[1].value() == Fq2::mul_v(
            Fq2::frobenius_v(p.frobenius_c1@[0].value(), 1, &p.base),
            p.frobenius_c1@[1].value(),
            &p.base,
        ),
{
    lemma_constants(&p.base);
    lemma_c1_value_0(&p.base.base);
    lemma_c1_value_1(&p.base.base);
    lemma_c1_value_1(&p.base.base);
    let x = p.frobenius_c1@[0].value();
    let y = p.frobenius_c1@[1].value();
    lemma_quad_fp(x, y, &p.base);
    lemma_quad_fp(Fq2::frobenius_v(x, 1, &p.base), y, &p.base);
    lemma_c1_step_0_numbers();
}

/// The product behind the step from power 1 to power 2 of the first table.
proof fn lemma_c1_step_1_numbers()
    ensures
        quad_mul_fp(quad_frobenius_fp((QuadExt { c0: 0x177ad70dc69dd7cd8f772c40d42a593e5c8218b2a8d13d53b29b1708a5d1ad4021bfc4870137b37d3a30dd5a49ae57825985e6027b6158994d2edd502eb496fa3c7c20d2a925e4c4nat, c1: 0x0nat }), 0x2400009dc9f03804ec9e36d5dd45d227b181e5db10149dfb6d59daeda3de1b8b05064729b44e410725a8234845d133711495b477826bab3ddf6ac56be235515808158152f773f0e8nat, 0x2400009dc9f03804ec9e36d5dd45d227b181e5db10149dfb6d59daeda3de1b8b05064729b44e410725a8234845d133711495b477826bab3ddf6ac56be235515808158152f773f0e9nat), (QuadExt { c0: 0x177ad70dc69dd7cd8f772c40d42a593e5c8218b2a8d13d53b29b1708a5d1ad4021bfc4870137b37d3a30dd5a49ae57825985e6027b6158994d2edd502eb496fa3c7c20d2a925e4c4nat, c1: 0x0nat }), 0x11nat, 0x2400009dc9f03804ec9e36d5dd45d227b181e5db10149dfb6d59daeda3de1b8b05064729b44e410725a8234845d133711495b477826bab3ddf6ac56be235515808158152f773f0e9nat) == (QuadExt { c0: 0x177ad70dc69dd7cd8f772c40d42a593e5c8218b2a8d13d53b29b1708a5d1ad4021bfc4870137b37d3a30dd5a49ae57825985e6027b6158994d2edd502eb496fa3c7c20d2a925e4c3nat, c1: 0x0nat }),
{
    let q: nat = 0x2400009dc9f03804ec9e36d5dd45d227b181e5db10149dfb6d59daeda3de1b8b05064729b44e410725a8234845d133711495b477826bab3ddf6ac56be235515808158152f773f0e9nat;
    let n: nat = 0x11nat;
    let f: nat = 0x0nat;
    let c: nat = 0x2400009dc9f03804ec9e36d5dd45d227b181e5db10149dfb6d59daeda3de1b8b05064729b44e410725a8234845d133711495b477826bab3ddf6ac56be235515808158152f773f0e8nat;
    assert((f * c) % q == 0x0nat) by (nonlinear_arith)
        requires
            f == 0x0nat,
            c == 0x2400009dc9f03804ec9e36d5dd45d227b181e5db10149dfb6d59daeda3de1b8b05064729b44e410725a8234845d133711495b477826bab3ddf6ac56be235515808158152f773f0e8nat,
            q == 0x2400009dc9f03804ec9e36d5dd45d227b181e5db10149dfb6d59daeda3de1b8b05064729b44e410725a8234845d133711495b477826bab3ddf6ac56be235515808158152f773f0e9nat,
    ;
    let x0: nat = 0x177ad70dc69dd7cd8f772c40d42a593e5c8218b2a8d13d53b29b1708a5d1ad4021bfc4870137b37d3a30dd5a49ae57825985e6027b6158994d2edd502eb496fa3c7c20d2a925e4c4nat;
    let x1: nat = 0x0nat;
    let y0: nat = 0x177ad70dc69dd7cd8f772c40d42a593e5c8218b2a8d13d53b29b1708a5d1ad4021bfc4870137b37d3a30dd5a49ae57825985e6027b6158994d2edd502eb496fa3c7c20d2a925e4c4nat;
    let y1: nat = 0x0nat;
    assert((x0 * y0) % q == 0x177ad70dc69dd7cd8f772c40d42a593e5c8218b2a8d13d53b29b1708a5d1ad4021bfc4870137b37d3a30dd5a49ae57825985e6027b6158994d2edd502eb496fa3c7c20d2a925e4c3nat && (x1 * y1) % q == 0x0nat && (x0 * y1) % q == 0x0nat && (x1 * y0) % q == 0x0nat) by (nonlinear_arith)
        requires
            x0 == 0x177ad70dc69dd7cd8f772c40d42a593e5c8218b2a8d13d53b29b1708a5d1ad4021bfc4870137b37d3a30dd5a49ae57825985e6027b6158994d2edd502eb496fa3c7c20d2a925e4c4nat,
            x1 == 0x0nat,
            y0 == 0x177ad70dc69dd7cd8f772c40d42a593e5c8218b2a8d13d53b29b1708a5d1ad4021bfc4870137b37d3a30dd5a49ae57825985e6027b6158994d2edd502eb496fa3c7c20d2a925e4c4nat,
            y1 == 0x0nat,
            q == 0x2400009dc9f03804ec9e36d5dd45d227b181e5db10149dfb6d59daeda3de1b8b05064729b44e410725a8234845d133711495b477826bab3ddf6ac56be235515808158152f773f0e9nat,
    ;
    let m11: nat = 0x0nat;
    assert((n * m11) % q == 0x0nat) by (nonlinear_arith)
        requires
            n == 0x11nat,
            m11 == 0x0nat,
            q == 0x2400009dc9f03804ec9e36d5dd45d227b181e5db10149dfb6d59daeda3de1b8b05064729b44e410725a8234845d133711495b477826bab3ddf6ac56be235515808158152f773f0e9nat,
    ;
    let m00: nat = 0x177ad70dc69dd7cd8f772c40d42a593e5c8218b2a8d13d53b29b1708a5d1ad4021bfc4870137b37d3a30dd5a49ae57825985e6027b6158994d2edd502eb496fa3c7c20d2a925e4c3nat;
    let bm: nat = 0x0nat;
    let m01: nat = 0x0nat;
    let m10: nat = 0x0nat;
    assert((m00 + bm) % q == 0x177ad70dc69dd7cd8f772c40d42a593e5c8218b2a8d13d53b29b1708a5d1ad4021bfc4870137b37d3a30dd5a49ae57825985e6027b6158994d2edd502eb496fa3c7c20d2a925e4c3nat && (m01 + m10) % q == 0x0nat) by (nonlinear_arith)
        requires
            m00 == 0x177ad70dc69dd7cd8f772c40d42a593e5c8218b2a8d13d53b29b1708a5d1ad4021bfc4870137b37d3a30dd5a49ae57825985e6027b6158994d2edd502eb496fa3c7c20d2a925e4c3nat,
            bm == 0x0nat,
            m01 == 0x0nat,
            m10 == 0x0nat,
            q == 0x2400009dc9f03804ec9e36d5dd45d227b181e5db10149dfb6d59daeda3de1b8b05064729b44e410725a8234845d133711495b477826bab3ddf6ac56be235515808158152f773f0e9nat,
    ;
}

/// The coefficient of the first table for power 2 is the Frobenius image of
/// the one for power 1 times the one for power one.
proof fn lemma_c1_step_1(p: &CubicParams<Fq2>)
    requires
        Fq6Config::describes(p),
    ensures
        p.frobenius_c1@[2].value() == Fq2::mul_v(
            Fq2::frobenius_v(p.frobenius_c1@[1].value(), 1, &p.base),
            p.frobenius_c1@[1].value(),
            &p.base,
        ),
{
    lemma_constants(&p.base);
    lemma_c1_value_1(&p.base.base);
    lemma_c1_value_2(&p.base.base);
    lemma_c1_value_1(&p.base.base);
    let x = p.frobenius_c1@[1].value();
    let y = p.frobenius_c1@[1].value();
    lemma_quad_fp(x, y, &p.base);
    lemma_quad_fp(Fq2::frobenius_v(x, 1, &p.base), y, &p.base);
    lemma_c1_step_1_numbers();
}

/// The product behind the step from power 2 to power 3 of the first table.
proof fn lemma_c1_step_2_numbers()
    ensures
        quad_mul_fp(quad_frobenius_fp((QuadExt { c0: 0x177ad70dc69dd7cd8f772c40d42a593e5c8218b2a8d13d53b29b1708a5d1ad4021bfc4870137b37d3a30dd5a49ae57825985e6027b6158994d2edd502eb496fa3c7c20d2a925e4c3nat, c1: 0x0nat }), 0x2400009dc9f03804ec9e36d5dd45d227b181e5db10149dfb6d59daeda3de1b8b05064729b44e410725a8234845d133711495b477826bab3ddf6ac56be235515808158152f773f0e8nat, 0x2400009dc9f03804ec9e36d5dd45d227b181e5db10149dfb6d59daeda3de1b8b05064729b44e410725a8234845d133711495b477826bab3ddf6ac56be235515808158152f773f0e9nat), (QuadExt { c0: 0x177ad70dc69dd7cd8f772c40d42a593e5c8218b2a8d13d53b29b1708a5d1ad4021bfc4870137b37d3a30dd5a49ae57825985e6027b6158994d2edd502eb496fa3c7c20d2a925e4c4nat, c1: 0x0nat }), 0x11nat, 0x2400009dc9f03804ec9e36d5dd45d227b181e5db10149dfb6d59daeda3de1b8b05064729b44e410725a8234845d133711495b477826bab3ddf6ac56be235515808158152f773f0e9nat) == (QuadExt { c0: 0x2400009dc9f03804ec9e36d5dd45d227b181e5db10149dfb6d59daeda3de1b8b05064729b44e410725a8234845d133711495b477826bab3ddf6ac56be235515808158152f773f0e8nat, c1: 0x0nat }),
{
    let q: nat = 0x2400009dc9f03804ec9e36d5dd45d227b181e5db10149dfb6d59daeda3de1b8b05064729b44e410725a8234845d133711495b477826bab3ddf6ac56be235515808158152f773f0e9nat;
    let n: nat = 0x11nat;
    let f: nat = 0x0nat;
    let c: nat = 0x2400009dc9f03804ec9e36d5dd45d227b181e5db10149dfb6d59daeda3de1b8b05064729b44e410725a8234845d133711495b477826bab3ddf6ac56be235515808158152f773f0e8nat;
    assert((f * c) % q == 0x0nat) by (nonlinear_arith)
        requires
            f == 0x0nat,
            c == 0x2400009dc9f03804ec9e36d5dd45d227b181e5db10149dfb6d59daeda3de1b8b05064729b44e410725a8234845d133711495b477826bab3ddf6ac56be235515808158152f773f0e8nat,
            q == 0x2400009dc9f03804ec9e36d5dd45d227b181e5db10149dfb6d59daeda3de1b8b05064729b44e410725a8234845d133711495b477826bab3ddf6ac56be235515808158152f773f0e9nat,
    ;
    let x0: nat = 0x177ad70dc69dd7cd8f772c40d42a593e5c8218b2a8d13d53b29b1708a5d1ad4021bfc4870137b37d3a30dd5a49ae57825985e6027b6158994d2edd502eb496fa3c7c20d2a925e4c3nat;
    let x1: nat = 0x0nat;
    let y0: nat = 0x177ad70dc69dd7cd8f772c40d42a593e5c8218b2a8d13d53b29b1708a5d1ad4021bfc4870137b37d3a30dd5a49ae57825985e6027b6158994d2edd502eb496fa3c7c20d2a925e4c4nat;
    let y1: nat = 0x0nat;
    assert((x0 * y0) % q == 0x2400009dc9f03804ec9e36d5dd45d227b181e5db10149dfb6d59daeda3de1b8b05064729b44e410725a8234845d133711495b477826bab3ddf6ac56be235515808158152f773f0e8nat && (x1 * y1) % q == 0x0nat && (x0 * y1) % q == 0x0nat && (x1 * y0) % q == 0x0nat) by (nonlinear_arith)
        requires
            x0 == 0x177ad70dc69dd7cd8f772c40d42a593e5c8218b2a8d13d53b29b1708a5d1ad4021bfc4870137b37d3a30dd5a49ae57825985e6027b6158994d2edd502eb496fa3c7c20d2a925e4c3nat,
            x1 == 0x0nat,
            y0 == 0x177ad70dc69dd7cd8f772c40d42a593e5c8218b2a8d13d53b29b1708a5d1ad4021bfc4870137b37d3a30dd5a49ae57825985e6027b6158994d2edd502eb496fa3c7c20d2a925e4c4nat,
            y1 == 0x0nat,
            q == 0x2400009dc9f03804ec9e36d5dd45d227b181e5db10149dfb6d59daeda3de1b8b05064729b44e410725a8234845d133711495b477826bab3ddf6ac56be235515808158152f773f0e9nat,
    ;
    let m11: nat = 0x0nat;
    assert((n * m11) % q == 0x0nat) by (nonlinear_arith)
        requires
            n == 0x11nat,
            m11 == 0x0nat,
            q == 0x2400009dc9f03804ec9e36d5dd45d227b181e5db10149dfb6d59daeda3de1b8b05064729b44e410725a8234845d133711495b477826bab3ddf6ac56be235515808158152f773f0e9nat,
    ;
    let m00: nat = 0x2400009dc9f03804ec9e36d5dd45d227b181e5db10149dfb6d59daeda3de1b8b05064729b44e410725a8234845d133711495b477826bab3ddf6ac56be235515808158152f773f0e8nat;
    let bm: nat = 0x0nat;
    let m01: nat = 0x0nat;
    let m10: nat = 0x0nat;
    assert((m00 + bm) % q == 0x2400009dc9f03804ec9e36d5dd45d227b181e5db10149dfb6d59daeda3de1b8b05064729b44e410725a8234845d133711495b477826bab3ddf6ac56be235515808158152f773f0e8nat && (m01 + m10) % q == 0x0nat) by (nonlinear_arith)
        requires
            m00 == 0x2400009dc9f03804ec9e36d5dd45d227b181e5db10149dfb6d59daeda3de1b8b05064729b44e410725a8234845d133711495b477826bab3ddf6ac56be235515808158152f773f0e8nat,
            bm == 0x0nat,
            m01 == 0x0nat,
            m10 == 0x0nat,
            q == 0x2400009dc9f03804ec9e36d5dd45d227b181e5db10149dfb6d59daeda3de1b8b05064729b44e410725a8234845d133711495b477826bab3ddf6ac56be235515808158152f773f0e9nat,
    ;
}

/// The coefficient of the first table for power 3 is the Frobenius image of
/// the one for power 2 times the one for power one.
proof fn lemma_c1_step_2(p: &CubicParams<Fq2>)
    requires
        Fq6Config::describes(p),
    ensures
        p.frobenius_c1@[3].value() == Fq2::mul_v(
            Fq2::frobenius_v(p.frobenius_c1@[2].value(), 1, &p.base),
            p.frobenius_c1@[1].value(),
            &p.base,
        ),
{
    lemma_constants(&p.base);
    lemma_c1_value_2(&p.base.base);
    lemma_c1_value_3(&p.base.base);
    lemma_c1_value_1(&p.base.base);
    let x = p.frobenius_c1@[2].value();
    let y = p.frobenius_c1@[1].value();
    lemma_quad_fp(x, y, &p.base);
    lemma_quad_fp(Fq2::frobenius_v(x, 1, &p.base), y, &p.base);
    lemma_c1_step_2_numbers();
}

/// The product behind the step from power 3 to power 4 of the first table.
proof fn lemma_c1_step_3_numbers()
    ensures
        quad_mul_fp(quad_frobenius_fp((QuadExt { c0: 0x2400009dc9f03804ec9e36d5dd45d227b181e5db10149dfb6d59daeda3de1b8b05064729b44e410725a8234845d133711495b477826bab3ddf6ac56be235515808158152f773f0e8nat, c1: 0x0nat }), 0x2400009dc9f03804ec9e36d5dd45d227b181e5db10149dfb6d59daeda3de1b8b05064729b44e410725a8234845d133711495b477826bab3ddf6ac56be235515808158152f773f0e8nat, 0x2400009dc9f03804ec9e36d5dd45d227b181e5db10149dfb6d59daeda3de1b8b05064729b44e410725a8234845d133711495b477826bab3ddf6ac56be235515808158152f773f0e9nat), (QuadExt { c0: 0x177ad70dc69dd7cd8f772c40d42a593e5c8218b2a8d13d53b29b1708a5d1ad4021bfc4870137b37d3a30dd5a49ae57825985e6027b6158994d2edd502eb496fa3c7c20d2a925e4c4nat, c1: 0x0nat }), 0x11nat, 0x2400009dc9f03804ec9e36d5dd45d227b181e5db10149dfb6d59daeda3de1b8b05064729b44e410725a8234845d133711495b477826bab3ddf6ac56be235515808158152f773f0e9nat) == (QuadExt { c0: 0xc852990035260375d270a95091b78e954ffcd28674360a7babec3e4fe0c6e4ae34682a2b3168d89eb7745edfc22dbeebb0fce75070a52a4923be81bb380ba5dcb9960804e4e0c25nat, c1: 0x0nat }),
{
    let q: nat = 0x2400009dc9f03804ec9e36d5dd45d227b181e5db10149dfb6d59daeda3de1b8b05064729b44e410725a8234845d133711495b477826bab3ddf6ac56be235515808158152f773f0e9nat;
    let n: nat = 0x11nat;
    let f: nat = 0x0nat;
    let c: nat = 0x2400009dc9f03804ec9e36d5dd45d227b181e5db10149dfb6d59daeda3de1b8b05064729b44e410725a8234845d133711495b477826bab3ddf6ac56be235515808158152f773f0e8nat;
    assert((f * c) % q == 0x0nat) by (nonlinear_arith)
        requires
            f == 0x0nat,
            c == 0x2400009dc9f03804ec9e36d5dd45d227b181e5db10149dfb6d59daeda3de1b8b05064729b44e410725a8234845d133711495b477826bab3ddf6ac56be235515808158152f773f0e8nat,
            q == 0x2400009dc9f03804ec9e36d5dd45d227b181e5db10149dfb6d59daeda3de1b8b05064729b44e410725a8234845d133711495b477826bab3ddf6ac56be235515808158152f773f0e9nat,
    ;
    let x0: nat = 0x2400009dc9f03804ec9e36d5dd45d227b181e5db10149dfb6d59daeda3de1b8b05064729b44e410725a8234845d133711495b477826bab3ddf6ac56be235515808158152f773f0e8nat;
    let x1: nat = 0x0nat;
    let y0: nat = 0x177ad70dc69dd7cd8f772c40d42a593e5c8218b2a8d13d53b29b1708a5d1ad4021bfc4870137b37d3a30dd5a49ae57825985e6027b6158994d2edd502eb496fa3c7c20d2a925e4c4nat;
    let y1: nat = 0x0nat;
    assert((x0 * y0) % q == 0xc852990035260375d270a95091b78e954ffcd28674360a7babec3e4fe0c6e4ae34682a2b3168d89eb7745edfc22dbeebb0fce75070a52a4923be81bb380ba5dcb9960804e4e0c25nat && (x1 * y1) % q == 0x0nat && (x0 * y1) % q == 0x0nat && (x1 * y0) % q == 0x0nat) by (nonlinear_arith)
        requires
            x0 == 0x2400009dc9f03804ec9e36d5dd45d227b181e5db10149dfb6d59daeda3de1b8b05064729b44e410725a8234845d133711495b477826bab3ddf6ac56be235515808158152f773f0e8nat,
            x1 == 0x0nat,
            y0 == 0x177ad70dc69dd7cd8f772c40d42a593e5c8218b2a8d13d53b29b1708a5d1ad4021bfc4870137b37d3a30dd5a49ae57825985e6027b6158994d2edd502eb496fa3c7c20d2a925e4c4nat,
            y1 == 0x0nat,
            q == 0x2400009dc9f03804ec9e36d5dd45d227b181e5db10149dfb6d59daeda3de1b8b05064729b44e410725a8234845d133711495b477826bab3ddf6ac56be235515808158152f773f0e9nat,
    ;
    let m11: nat = 0x0nat;
    assert((n * m11) % q == 0x0nat) by (nonlinear_arith)
        requires
            n == 0x11nat,
            m11 == 0x0nat,
            q == 0x2400009dc9f03804ec9e36d5dd45d227b181e5db10149dfb6d59daeda3de1b8b05064729b44e410725a8234845d133711495b477826bab3ddf6ac56be235515808158152f773f0e9nat,
    ;
    let m00: nat = 0xc852990035260375d270a95091b78e954ffcd28674360a7babec3e4fe0c6e4ae34682a2b3168d89eb7745edfc22dbeebb0fce75070a52a4923be81bb380ba5dcb9960804e4e0c25nat;
    let bm: nat = 0x0nat;
    let m01: nat = 0x0nat;
    let m10: nat = 0x0nat;
    assert((m00 + bm) % q == 0xc852990035260375d270a95091b78e954ffcd28674360a7babec3e4fe0c6e4ae34682a2b3168d89eb7745edfc22dbeebb0fce75070a52a4923be81bb380ba5dcb9960804e4e0c25nat && (m01 + m10) % q == 0x0nat) by (nonlinear_arith)
        requires
            m00 == 0xc852990035260375d270a95091b78e954ffcd28674360a7babec3e4fe0c6e4ae34682a2b3168d89eb7745edfc22dbeebb0fce75070a52a4923be81bb380ba5dcb9960804e4e0c25nat,
            bm == 0x0nat,
            m01 == 0x0nat,
            m10 == 0x0nat,
            q == 0x2400009dc9f03804ec9e36d5dd45d227b181e5db10149dfb6d59daeda3de1b8b05064729b44e410725a8234845d133711495b477826bab3ddf6ac56be235515808158152f773f0e9nat,
    ;
}

/// The coefficient of the first table for power 4 is the Frobenius image of
/// the one for power 3 times the one for power one.
proof fn lemma_c1_step_3(p: &CubicParams<Fq2>)
    requires
        Fq6Config::describes(p),
    ensures
        p.frobenius_c1@[4].value() == Fq2::mul_v(
            Fq2::frobenius_v(p.frobenius_c1@[3].value(), 1, &p.base),
            p.frobenius_c1@[1].value(),
            &p.base,
        ),
{
    lemma_constants(&p.base);
    lemma_c1_value_3(&p.base.base);
    lemma_c1_value_4(&p.base.base);
    lemma_c1_value_1(&p.base.base);
    let x = p.frobenius_c1@[3].value();
    let y = p.frobenius_c1@[1].value();
    lemma_quad_fp(x, y, &p.base);
    lemma_quad_fp(Fq2::frobenius_v(x, 1, &p.base), y, &p.base);
    lemma_c1_step_3_numbers();
}

/// The product behind the step from power 4 to power 5 of the first table.
proof fn lemma_c1_step_4_numbers()
    ensures
        quad_mul_fp(quad_frobenius_fp((QuadExt { c0: 0xc852990035260375d270a95091b78e954ffcd28674360a7babec3e4fe0c6e4ae34682a2b3168d89eb7745edfc22dbeebb0fce75070a52a4923be81bb380ba5dcb9960804e4e0c25nat, c1: 0x0nat }), 0x2400009dc9f03804ec9e36d5dd45d227b181e5db10149dfb6d59daeda3de1b8b05064729b44e410725a8234845d133711495b477826bab3ddf6ac56be235515808158152f773f0e8nat, 0x2400009dc9f03804ec9e36d5dd45d227b181e5db10149dfb6d59daeda3de1b8b05064729b44e410725a8234845d133711495b477826bab3ddf6ac56be235515808158152f773f0e9nat), (QuadExt { c0: 0x177ad70dc69dd7cd8f772c40d42a593e5c8218b2a8d13d53b29b1708a5d1ad4021bfc4870137b37d3a30dd5a49ae57825985e6027b6158994d2edd502eb496fa3c7c20d2a925e4c4nat, c1: 0x0nat }), 0x11nat, 0x2400009dc9f03804ec9e36d5dd45d227b181e5db10149dfb6d59daeda3de1b8b05064729b44e410725a8234845d133711495b477826bab3ddf6ac56be235515808158152f773f0e9nat) == (QuadExt { c0: 0xc852990035260375d270a95091b78e954ffcd28674360a7babec3e4fe0c6e4ae34682a2b3168d89eb7745edfc22dbeebb0fce75070a52a4923be81bb380ba5dcb9960804e4e0c26nat, c1: 0x0nat }),
{
    let q: nat = 0x2400009dc9f03804ec9e36d5dd45d227b181e5db10149dfb6d59daeda3de1b8b05064729b44e410725a8234845d133711495b477826bab3ddf6ac56be235515808158152f773f0e9nat;
    let n: nat = 0x11nat;
    let f: nat = 0x0nat;
    let c: nat = 0x2400009dc9f03804ec9e36d5dd45d227b181e5db10149dfb6d59daeda3de1b8b05064729b44e410725a8234845d133711495b477826bab3ddf6ac56be235515808158152f773f0e8nat;
    assert((f * c) % q == 0x0nat) by (nonlinear_arith)
        requires
            f == 0x0nat,
            c == 0x2400009dc9f03804ec9e36d5dd45d227b181e5db10149dfb6d59daeda3de1b8b05064729b44e410725a8234845d133711495b477826bab3ddf6ac56be235515808158152f773f0e8nat,
            q == 0x2400009dc9f03804ec9e36d5dd45d227b181e5db10149dfb6d59daeda3de1b8b05064729b44e410725a8234845d133711495b477826bab3ddf6ac56be235515808158152f773f0e9nat,
    ;
    let x0: nat = 0xc852990035260375d270a95091b78e954ffcd28674360a7babec3e4fe0c6e4ae34682a2b3168d89eb7745edfc22dbeebb0fce75070a52a4923be81bb380ba5dcb9960804e4e0c25nat;
    let x1: nat = 0x0nat;
    let y0: nat = 0x177ad70dc69dd7cd8f772c40d42a593e5c8218b2a8d13d53b29b1708a5d1ad4021bfc4870137b37d3a30dd5a49ae57825985e6027b6158994d2edd502eb496fa3c7c20d2a925e4c4nat;
    let y1: nat = 0x0nat;
    assert((x0 * y0) % q == 0xc852990035260375d270a95091b78e954ffcd28674360a7babec3e4fe0c6e4ae34682a2b3168d89eb7745edfc22dbeebb0fce75070a52a4923be81bb380ba5dcb9960804e4e0c26nat && (x1 * y1) % q == 0x0nat && (x0 * y1) % q == 0x0nat && (x1 * y0) % q == 0x0nat) by (nonlinear_arith)
        requires
            x0 == 0xc852990035260375d270a95091b78e954ffcd28674360a7babec3e4fe0c6e4ae34682a2b3168d89eb7745edfc22dbeebb0fce75070a52a4923be81bb380ba5dcb9960804e4e0c25nat,
            x1 == 0x0nat,
            y0 == 0x177ad70dc69dd7cd8f772c40d42a593e5c8218b2a8d13d53b29b1708a5d1ad4021bfc4870137b37d3a30dd5a49ae57825985e6027b6158994d2edd502eb496fa3c7c20d2a925e4c4nat,
            y1 == 0x0nat,
            q == 0x2400009dc9f03804ec9e36d5dd45d227b181e5db10149dfb6d59daeda3de1b8b05064729b44e410725a8234845d133711495b477826bab3ddf6ac56be235515808158152f773f0e9nat,
    ;
    let m11: nat = 0x0nat;
    assert((n * m11) % q == 0x0nat) by (nonlinear_arith)
        requires
            n == 0x11nat,
            m11 == 0x0nat,
            q == 0x2400009dc9f03804ec9e36d5dd45d227b181e5db10149dfb6d59daeda3de1b8b05064729b44e410725a8234845d133711495b477826bab3ddf6ac56be235515808158152f773f0e9nat,
    ;
    let m00: nat = 0xc852990035260375d270a95091b78e954ffcd28674360a7babec3e4fe0c6e4ae34682a2b3168d89eb7745edfc22dbeebb0fce75070a52a4923be81bb380ba5dcb9960804e4e0c26nat;
    let bm: nat = 0x0nat;
    let m01: nat = 0x0nat;
    let m10: nat = 0x0nat;
    assert((m00 + bm) % q == 0xc852990035260375d270a95091b78e954ffcd28674360a7babec3e4fe0c6e4ae34682a2b3168d89eb7745edfc22dbeebb0fce75070a52a4923be81bb380ba5dcb9960804e4e0c26nat && (m01 + m10) % q == 0x0nat) by (nonlinear_arith)
        requires
            m00 == 0xc852990035260375d270a95091b78e954ffcd28674360a7babec3e4fe0c6e4ae34682a2b3168d89eb7745edfc22dbeebb0fce75070a52a4923be81bb380ba5dcb9960804e4e0c26nat,
            bm == 0x0nat,
            m01 == 0x0nat,
            m10 == 0x0nat,
            q == 0x2400009dc9f03804ec9e36d5dd45d227b181e5db10149dfb6d59daeda3de1b8b05064729b44e410725a8234845d133711495b477826bab3ddf6ac56be235515808158152f773f0e9nat,
    ;
}

/// The coefficient of the first table for power 5 is the Frobenius image of
/// the one for power 4 times the one for power one.
proof fn lemma_c1_step_4(p: &CubicParams<Fq2>)
    requires
        Fq6Config::describes(p),
    ensures
        p.frobenius_c1@[5].value() == Fq2::mul_v(
            Fq2::frobenius_v(p.frobenius_c1@[4].value(), 1, &p.base),
            p.frobenius_c1@[1].value(),
            &p.base,
        ),
{
    lemma_constants(&p.base);
    lemma_c1_value_4(&p.base.base);
    lemma_c1_value_5(&p.base.base);
    lemma_c1_value_1(&p.base.base);
    let x = p.frobenius_c1@[4].value();
    let y = p.frobenius_c1@[1].value();
    lemma_quad_fp(x, y, &p.base);
    lemma_quad_fp(Fq2::frobenius_v(x, 1, &p.base), y, &p.base);
    lemma_c1_step_4_numbers();
}

/// The product behind the step from power 5 to power 6 of the first table.
proof fn lemma_c1_step_5_numbers()
    ensures
        quad_mul_fp(quad_frobenius_fp((QuadExt { c0: 0xc852990035260375d270a95091b78e954ffcd28674360a7babec3e4fe0c6e4ae34682a2b3168d89eb7745edfc22dbeebb0fce75070a52a4923be81bb380ba5dcb9960804e4e0c26nat, c1: 0x0nat }), 0x2400009dc9f03804ec9e36d5dd45d227b181e5db10149dfb6d59daeda3de1b8b05064729b44e410725a8234845d133711495b477826bab3ddf6ac56be235515808158152f773f0e8nat, 0x2400009dc9f03804ec9e36d5dd45d227b181e5db10149dfb6d59daeda3de1b8b05064729b44e410725a8234845d133711495b477826bab3ddf6ac56be235515808158152f773f0e9nat), (QuadExt { c0: 0x177ad70dc69dd7cd8f772c40d42a593e5c8218b2a8d13d53b29b1708a5d1ad4021bfc4870137b37d3a30dd5a49ae57825985e6027b6158994d2edd502eb496fa3c7c20d2a925e4c4nat, c1: 0x0nat }), 0x11nat, 0x2400009dc9f03804ec9e36d5dd45d227b181e5db10149dfb6d59daeda3de1b8b05064729b44e410725a8234845d133711495b477826bab3ddf6ac56be235515808158152f773f0e9nat) == (QuadExt { c0: 0x1nat, c1: 0x0nat }),
{
    let q: nat = 0x2400009dc9f03804ec9e36d5dd45d227b181e5db10149dfb6d59daeda3de1b8b05064729b44e410725a8234845d133711495b477826bab3ddf6ac56be235515808158152f773f0e9nat;
    let n: nat = 0x11nat;
    let f: nat = 0x0nat;
    let c: nat = 0x2400009dc9f03804ec9e36d5dd45d227b181e5db10149dfb6d59daeda3de1b8b05064729b44e410725a8234845d133711495b477826bab3ddf6ac56be235515808158152f773f0e8nat;
    assert((f * c) % q == 0x0nat) by (nonlinear_arith)
        requires
            f == 0x0nat,
            c == 0x2400009dc9f03804ec9e36d5dd45d227b181e5db10149dfb6d59daeda3de1b8b05064729b44e410725a8234845d133711495b477826bab3ddf6ac56be235515808158152f773f0e8nat,
            q == 0x2400009dc9f03804ec9e36d5dd45d227b181e5db10149dfb6d59daeda3de1b8b05064729b44e410725a8234845d133711495b477826bab3ddf6ac56be235515808158152f773f0e9nat,
    ;
    let x0: nat = 0xc852990035260375d270a95091b78e954ffcd28674360a7babec3e4fe0c6e4ae34682a2b3168d89eb7745edfc22dbeebb0fce75070a52a4923be81bb380ba5dcb9960804e4e0c26nat;
    let x1: nat = 0x0nat;
    let y0: nat = 0x177ad70dc69dd7cd8f772c40d42a593e5c8218b2a8d13d53b29b1708a5d1ad4021bfc4870137b37d3a30dd5a49ae57825985e6027b6158994d2edd502eb496fa3c7c20d2a925e4c4nat;
    let y1: nat = 0x0nat;
    assert((x0 * y0) % q == 0x1nat && (x1 * y1) % q == 0x0nat && (x0 * y1) % q == 0x0nat && (x1 * y0) % q == 0x0nat) by (nonlinear_arith)
        requires
            x0 == 0xc852990035260375d270a95091b78e954ffcd28674360a7babec3e4fe0c6e4ae34682a2b3168d89eb7745edfc22dbeebb0fce75070a52a4923be81bb380ba5dcb9960804e4e0c26nat,
            x1 == 0x0nat,
            y0 == 0x177ad70dc69dd7cd8f772c40d42a593e5c8218b2a8d13d53b29b1708a5d1ad4021bfc4870137b37d3a30dd5a49ae57825985e6027b6158994d2edd502eb496fa3c7c20d2a925e4c4nat,
            y1 == 0x0nat,
            q == 0x2400009dc9f03804ec9e36d5dd45d227b181e5db10149dfb6d59daeda3de1b8b05064729b44e410725a8234845d133711495b477826bab3ddf6ac56be235515808158152f773f0e9nat,
    ;
    let m11: nat = 0x0nat;
    assert((n * m11) % q == 0x0nat) by (nonlinear_arith)
        requires
            n == 0x11nat,
            m11 == 0x0nat,
            q == 0x2400009dc9f03804ec9e36d5dd45d227b181e5db10149dfb6d59daeda3de1b8b05064729b44e410725a8234845d133711495b477826bab3ddf6ac56be235515808158152f773f0e9nat,
    ;
    let m00: nat = 0x1nat;
    let bm: nat = 0x0nat;
    let m01: nat = 0x0nat;
    let m10: nat = 0x0nat;
    assert((m00 + bm) % q == 0x1nat && (m01 + m10) % q == 0x0nat) by (nonlinear_arith)
        requires
            m00 == 0x1nat,
            bm == 0x0nat,
            m01 == 0x0nat,
            m10 == 0x0nat,
            q == 0x2400009dc9f03804ec9e36d5dd45d227b181e5db10149dfb6d59daeda3de1b8b05064729b44e410725a8234845d133711495b477826bab3ddf6ac56be235515808158152f773f0e9nat,
    ;
}

/// The coefficient of the first table for power 6 is the Frobenius image of
/// the one for power 5 times the one for power one.
proof fn lemma_c1_step_5(p: &CubicParams<Fq2>)
    requires
        Fq6Config::describes(p),
    ensures
        p.frobenius_c1@[0].value() == Fq2::mul_v(
            Fq2::frobenius_v(p.frobenius_c1@[5].value(), 1, &p.base),
            p.frobenius_c1@[1].value(),
            &p.base,
        ),
{
    lemma_constants(&p.base);
    lemma_c1_value_5(&p.base.base);
    lemma_c1_value_0(&p.base.base);
    lemma_c1_value_1(&p.base.base);
    let x = p.frobenius_c1@[5].value();
    let y = p.frobenius_c1@[1].value();
    lemma_quad_fp(x, y, &p.base);
    lemma_quad_fp(Fq2::frobenius_v(x, 1, &p.base), y, &p.base);
    lemma_c1_step_5_numbers();
}

/// The coefficient of the second table for power 0 as a number.
proof fn lemma_c2_value_0(fq: &Modulus)
    requires
        is_fq(fq),
    ensures
        quad_entry_v(FROBENIUS_COEFF_FP6_C2@, 0, fq) == (QuadExt { c0: 0x1nat, c1: 0x0nat }),
{
    lemma_modulus_value();
    let n = fq.limbs@.len() as int;
    assert(0 * n == 0 && (0 + 1) * n == 9 && (1 + 1) * n == 18) by (nonlinear_arith)
        requires
            n == 9,
    ;
    lemma_val_nine_limbs(FROBENIUS_COEFF_FP6_C2@.subrange(0, 9));
    lemma_val_nine_limbs(FROBENIUS_COEFF_FP6_C2@.subrange(9, 18));
}

/// The coefficient of the second table for power 1 as a number.
proof fn lemma_c2_value_1(fq: &Modulus)
    requires
        is_fq(fq),
    ensures
        quad_entry_v(FROBENIUS_COEFF_FP6_C2@, 1, fq) == (QuadExt { c0: 0x177ad70dc69dd7cd8f772c40d42a593e5c8218b2a8d13d53b29b1708a5d1ad4021bfc4870137b37d3a30dd5a49ae57825985e6027b6158994d2edd502eb496fa3c7c20d2a925e4c3nat, c1: 0x0nat }),
{
    lemma_modulus_value();
    let n = fq.limbs@.len() as int;
    assert(2 * n == 18 && (2 + 1) * n == 27 && (3 + 1) * n == 36) by (nonlinear_arith)
        requires
            n == 9,
    ;
    lemma_val_nine_limbs(FROBENIUS_COEFF_FP6_C2@.subrange(18, 27));
    lemma_val_nine_limbs(FROBENIUS_COEFF_FP6_C2@.subrange(27, 36));
}

/// The coefficient of the second table for power 2 as a number.
proof fn lemma_c2_value_2(fq: &Modulus)
    requires
        is_fq(fq),
    ensures
        quad_entry_v(FROBENIUS_COEFF_FP6_C2@, 2, fq) == (QuadExt { c0: 0xc852990035260375d270a95091b78e954ffcd28674360a7babec3e4fe0c6e4ae34682a2b3168d89eb7745edfc22dbeebb0fce75070a52a4923be81bb380ba5dcb9960804e4e0c25nat, c1: 0x0nat }),
{
    lemma_modulus_value();
    let n = fq.limbs@.len() as int;
    assert(4 * n == 36 && (4 + 1) * n == 45 && (5 + 1) * n == 54) by (nonlinear_arith)
        requires
            n == 9,
    ;
    lemma_val_nine_limbs(FROBENIUS_COEFF_FP6_C2@.subrange(36, 45));
    lemma_val_nine_limbs(FROBENIUS_COEFF_FP6_C2@.subrange(45, 54));
}

/// The coefficient of the second table for power 3 as a number.
proof fn lemma_c2_value_3(fq: &Modulus)
    requires
        is_fq(fq),
    ensures
        quad_entry_v(FROBENIUS_COEFF_FP6_C2@, 3, fq) == (QuadExt { c0: 0x1nat, c1: 0x0nat }),
{
    lemma_modulus_value();
    let n = fq.limbs@.len() as int;
    assert(6 * n == 54 && (6 + 1) * n == 63 && (7 + 1) * n == 72) by (nonlinear_arith)
        requires
            n == 9,
    ;
    lemma_val_nine_limbs(FROBENIUS_COEFF_FP6_C2@.subrange(54, 63));
    lemma_val_nine_limbs(FROBENIUS_COEFF_FP6_C2@.subrange(63, 72));
}

/// The coefficient of the second table for power 4 as a number.
proof fn lemma_c2_value_4(fq: &Modulus)
    requires
        is_fq(fq),
    ensures
        quad_entry_v(FROBENIUS_COEFF_FP6_C2@, 4, fq) == (QuadExt { c0: 0x177ad70dc69dd7cd8f772c40d42a593e5c8218b2a8d13d53b29b1708a5d1ad4021bfc4870137b37d3a30dd5a49ae57825985e6027b6158994d2edd502eb496fa3c7c20d2a925e4c3nat, c1: 0x0nat }),
{
    lemma_modulus_value();
    let n = fq.limbs@.len() as int;
    assert(8 * n == 72 && (8 + 1) * n == 81 && (9 + 1) * n == 90) by (nonlinear_arith)
        requires
            n == 9,
    ;
    lemma_val_nine_limbs(FROBENIUS_COEFF_FP6_C2@.subrange(72, 81));
    lemma_val_nine_limbs(FROBENIUS_COEFF_FP6_C2@.subrange(81, 90));
}

/// The coefficient of the second table for power 5 as a number.
proof fn lemma_c2_value_5(fq: &Modulus)
    requires
        is_fq(fq),
    ensures
        quad_entry_v(FROBENIUS_COEFF_FP6_C2@, 5, fq) == (QuadExt { c0: 0xc852990035260375d270a95091b78e954ffcd28674360a7babec3e4fe0c6e4ae34682a2b3168d89eb7745edfc22dbeebb0fce75070a52a4923be81bb380ba5dcb9960804e4e0c25nat, c1: 0x0nat }),
{
    lemma_modulus_value();
    let n = fq.limbs@.len() as int;
    assert(10 * n == 90 && (10 + 1) * n == 99 && (11 + 1) * n == 108) by (nonlinear_arith)
        requires
            n == 9,
    ;
    lemma_val_nine_limbs(FROBENIUS_COEFF_FP6_C2@.subrange(90, 99));
    lemma_val_nine_limbs(FROBENIUS_COEFF_FP6_C2@.subrange(99, 108));
}

/// The product behind the step from power 0 to power 1 of the second table.
proof fn lemma_c2_step_0_numbers()
    ensures
        quad_mul_fp(quad_frobenius_fp((QuadExt { c0: 0x1nat, c1: 0x0nat }), 0x2400009dc9f03804ec9e36d5dd45d227b181e5db10149dfb6d59daeda3de1b8b05064729b44e410725a8234845d133711495b477826bab3ddf6ac56be235515808158152f773f0e8nat, 0x2400009dc9f03804ec9e36d5dd45d227b181e5db10149dfb6d59daeda3de1b8b05064729b44e410725a8234845d133711495b477826bab3ddf6ac56be235515808158152f773f0e9nat), (QuadExt { c0: 0x177ad70dc69dd7cd8f772c40d42a593e5c8218b2a8d13d53b29b1708a5d1ad4021bfc4870137b37d3a30dd5a49ae57825985e6027b6158994d2edd502eb496fa3c7c20d2a925e4c3nat, c1: 0x0nat }), 0x11nat, 0x2400009dc9f03804ec9e36d5dd45d227b181e5db10149dfb6d59daeda3de1b8b05064729b44e410725a8234845d133711495b477826bab3ddf6ac56be235515808158152f773f0e9nat) == (QuadExt { c0: 0x177ad70dc69dd7cd8f772c40d42a593e5c8218b2a8d13d53b29b1708a5d1ad4021bfc4870137b37d3a30dd5a49ae57825985e6027b6158994d2edd502eb496fa3c7c20d2a925e4c3nat, c1: 0x0nat }),
{
    let q: nat = 0x2400009dc9f03804ec9e36d5dd45d227b181e5db10149dfb6d59daeda3de1b8b05064729b44e410725a8234845d133711495b477826bab3ddf6ac56be235515808158152f773f0e9nat;
    let n: nat = 0x11nat;
    let f: nat = 0x0nat;
    let c: nat = 0x2400009dc9f03804ec9e36d5dd45d227b181e5db10149dfb6d59daeda3de1b8b05064729b44e410725a8234845d133711495b477826bab3ddf6ac56be235515808158152f773f0e8nat;
    assert((f * c) % q == 0x0nat) by (nonlinear_arith)
        requires
            f == 0x0nat,
            c == 0x2400009dc9f03804ec9e36d5dd45d227b181e5db10149dfb6d59daeda3de1b8b05064729b44e410725a8234845d133711495b477826bab3ddf6ac56be235515808158152f773f0e8nat,
            q == 0x2400009dc9f03804ec9e36d5dd45d227b181e5db10149dfb6d59daeda3de1b8b05064729b44e410725a8234845d133711495b477826bab3ddf6ac56be235515808158152f773f0e9nat,
    ;
    let x0: nat = 0x1nat;
    let x1: nat = 0x0nat;
    let y0: nat = 0x177ad70dc69dd7cd8f772c40d42a593e5c8218b2a8d13d53b29b1708a5d1ad4021bfc4870137b37d3a30dd5a49ae57825985e6027b6158994d2edd502eb496fa3c7c20d2a925e4c3nat;
    let y1: nat = 0x0nat;
    assert((x0 * y0) % q == 0x177ad70dc69dd7cd8f772c40d42a593e5c8218b2a8d13d53b29b1708a5d1ad4021bfc4870137b37d3a30dd5a49ae57825985e6027b6158994d2edd502eb496fa3c7c20d2a925e4c3nat && (x1 * y1) % q == 0x0nat && (x0 * y1) % q == 0x0nat && (x1 * y0) % q == 0x0nat) by (nonlinear_arith)
        requires
            x0 == 0x1nat,
            x1 == 0x0nat,
            y0 == 0x177ad70dc69dd7cd8f772c40d42a593e5c8218b2a8d13d53b29b1708a5d1ad4021bfc4870137b37d3a30dd5a49ae57825985e6027b6158994d2edd502eb496fa3c7c20d2a925e4c3nat,
            y1 == 0x0nat,
            q == 0x2400009dc9f03804ec9e36d5dd45d227b181e5db10149dfb6d59daeda3de1b8b05064729b44e410725a8234845d133711495b477826bab3ddf6ac56be235515808158152f773f0e9nat,
    ;
    let m11: nat = 0x0nat;
    assert((n * m11) % q == 0x0nat) by (nonlinear_arith)
        requires
            n == 0x11nat,
            m11 == 0x0nat,
            q == 0x2400009dc9f03804ec9e36d5dd45d227b181e5db10149dfb6d59daeda3de1b8b05064729b44e410725a8234845d133711495b477826bab3ddf6ac56be235515808158152f773f0e9nat,
    ;
    let m00: nat = 0x177ad70dc69dd7cd8f772c40d42a593e5c8218b2a8d13d53b29b1708a5d1ad4021bfc4870137b37d3a30dd5a49ae57825985e6027b6158994d2edd502eb496fa3c7c20d2a925e4c3nat;
    let bm: nat = 0x0nat;
    let m01: nat = 0x0nat;
    let m10: nat = 0x0nat;
    assert((m00 + bm) % q == 0x177ad70dc69dd7cd8f772c40d42a593e5c8218b2a8d13d53b29b1708a5d1ad4021bfc4870137b37d3a30dd5a49ae57825985e6027b6158994d2edd502eb496fa3c7c20d2a925e4c3nat && (m01 + m10) % q == 0x0nat) by (nonlinear_arith)
        requires
            m00 == 0x177ad70dc69dd7cd8f772c40d42a593e5c8218b2a8d13d53b29b1708a5d1ad4021bfc4870137b37d3a30dd5a49ae57825985e6027b6158994d2edd502eb496fa3c7c20d2a925e4c3nat,
            bm == 0x0nat,
            m01 == 0x0nat,
            m10 == 0x0nat,
            q == 0x2400009dc9f03804ec9e36d5dd45d227b181e5db10149dfb6d59daeda3de1b8b05064729b44e410725a8234845d133711495b477826bab3ddf6ac56be235515808158152f773f0e9nat,
    ;
}

/// The coefficient of the second table for power 1 is the Frobenius image of
/// the one for power 0 times the one for power one.
proof fn lemma_c2_step_0(p: &CubicParams<Fq2>)
    requires
        Fq6Config::describes(p),
    ensures
        p.frobenius_c2@[1].value() == Fq2::mul_v(
            Fq2::frobenius_v(p.frobenius_c2@[0].value(), 1, &p.base),
            p.frobenius_c2@[1].value(),
            &p.base,
        ),
{
    lemma_constants(&p.base);
    lemma_c2_value_0(&p.base.base);
    lemma_c2_value_1(&p.base.base);
    lemma_c2_value_1(&p.base.base);
    let x = p.frobenius_c2@[0].value();
    let y = p.frobenius_c2@[1].value();
    lemma_quad_fp(x, y, &p.base);
    lemma_quad_fp(Fq2::frobenius_v(x, 1, &p.base), y, &p.base);
    lemma_c2_step_0_numbers();
}

/// The product behind the step from power 1 to power 2 of the second table.
proof fn lemma_c2_step_1_numbers()
    ensures
        quad_mul_fp(quad_frobenius_fp((QuadExt { c0: 0x177ad70dc69dd7cd8f772c40d42a593e5c8218b2a8d13d53b29b1708a5d1ad4021bfc4870137b37d3a30dd5a49ae57825985e6027b6158994d2edd502eb496fa3c7c20d2a925e4c3nat, c1: 0x0nat }), 0x2400009dc9f03804ec9e36d5dd45d227b181e5db10149dfb6d59daeda3de1b8b05064729b44e410725a8234845d133711495b477826bab3ddf6ac56be235515808158152f773f0e8nat, 0x2400009dc9f03804ec9e36d5dd45d227b181e5db10149dfb6d59daeda3de1b8b05064729b44e410725a8234845d133711495b477826bab3ddf6ac56be235515808158152f773f0e9nat), (QuadExt { c0: 0x177ad70dc69dd7cd8f772c40d42a593e5c8218b2a8d13d53b29b1708a5d1ad4021bfc4870137b37d3a30dd5a49ae57825985e6027b6158994d2edd502eb496fa3c7c20d2a925e4c3nat, c1: 0x0nat }), 0x11nat, 0x2400009dc9f03804ec9e36d5dd45d227b181e5db10149dfb6d59daeda3de1b8b05064729b44e410725a8234845d133711495b477826bab3ddf6ac56be235515808158152f773f0e9nat) == (QuadExt { c0: 0xc852990035260375d270a95091b78e954ffcd28674360a7babec3e4fe0c6e4ae34682a2b3168d89eb7745edfc22dbeebb0fce75070a52a4923be81bb380ba5dcb9960804e4e0c25nat, c1: 0x0nat }),
{
    let q: nat = 0x2400009dc9f03804ec9e36d5dd45d227b181e5db10149dfb6d59daeda3de1b8b05064729b44e410725a8234845d133711495b477826bab3ddf6ac56be235515808158152f773f0e9nat;
    let n: nat = 0x11nat;
    let f: nat = 0x0nat;
    let c: nat = 0x2400009dc9f03804ec9e36d5dd45d227b181e5db10149dfb6d59daeda3de1b8b05064729b44e410725a8234845d133711495b477826bab3ddf6ac56be235515808158152f773f0e8nat;
    assert((f * c) % q == 0x0nat) by (nonlinear_arith)
        requires
            f == 0x0nat,
            c == 0x2400009dc9f03804ec9e36d5dd45d227b181e5db10149dfb6d59daeda3de1b8b05064729b44e410725a8234845d133711495b477826bab3ddf6ac56be235515808158152f773f0e8nat,
            q == 0x2400009dc9f03804ec9e36d5dd45d227b181e5db10149dfb6d59daeda3de1b8b05064729b44e410725a8234845d133711495b477826bab3ddf6ac56be235515808158152f773f0e9nat,
    ;
    let x0: nat = 0x177ad70dc69dd7cd8f772c40d42a593e5c8218b2a8d13d53b29b1708a5d1ad4021bfc4870137b37d3a30dd5a49ae57825985e6027b6158994d2edd502eb496fa3c7c20d2a925e4c3nat;
    let x1: nat = 0x0nat;
    let y0: nat = 0x177ad70dc69dd7cd8f772c40d42a593e5c8218b2a8d13d53b29b1708a5d1ad4021bfc4870137b37d3a30dd5a49ae57825985e6027b6158994d2edd502eb496fa3c7c20d2a925e4c3nat;
    let y1: nat = 0x0nat;
    assert((x0 * y0) % q == 0xc852990035260375d270a95091b78e954ffcd28674360a7babec3e4fe0c6e4ae34682a2b3168d89eb7745edfc22dbeebb0fce75070a52a4923be81bb380ba5dcb9960804e4e0c25nat && (x1 * y1) % q == 0x0nat && (x0 * y1) % q == 0x0nat && (x1 * y0) % q == 0x0nat) by (nonlinear_arith)
        requires
            x0 == 0x177ad70dc69dd7cd8f772c40d42a593e5c8218b2a8d13d53b29b1708a5d1ad4021bfc4870137b37d3a30dd5a49ae57825985e6027b6158994d2edd502eb496fa3c7c20d2a925e4c3nat,
            x1 == 0x0nat,
            y0 == 0x177ad70dc69dd7cd8f772c40d42a593e5c8218b2a8d13d53b29b1708a5d1ad4021bfc4870137b37d3a30dd5a49ae57825985e6027b6158994d2edd502eb496fa3c7c20d2a925e4c3nat,
            y1 == 0x0nat,
            q == 0x2400009dc9f03804ec9e36d5dd45d227b181e5db10149dfb6d59daeda3de1b8b05064729b44e410725a8234845d133711495b477826bab3ddf6ac56be235515808158152f773f0e9nat,
    ;
    let m11: nat = 0x0nat;
    assert((n * m11) % q == 0x0nat) by (nonlinear_arith)
        requires
            n == 0x11nat,
            m11 == 0x0nat,
            q == 0x2400009dc9f03804ec9e36d5dd45d227b181e5db10149dfb6d59daeda3de1b8b05064729b44e410725a8234845d133711495b477826bab3ddf6ac56be235515808158152f773f0e9nat,
    ;
    let m00: nat = 0xc852990035260375d270a95091b78e954ffcd28674360a7babec3e4fe0c6e4ae34682a2b3168d89eb7745edfc22dbeebb0fce75070a52a4923be81bb380ba5dcb9960804e4e0c25nat;
    let bm: nat = 0x0nat;
    let m01: nat = 0x0nat;
    let m10: nat = 0x0nat;
    assert((m00 + bm) % q == 0xc852990035260375d270a95091b78e954ffcd28674360a7babec3e4fe0c6e4ae34682a2b3168d89eb7745edfc22dbeebb0fce75070a52a4923be81bb380ba5dcb9960804e4e0c25nat && (m01 + m10) % q == 0x0nat) by (nonlinear_arith)
        requires
            m00 == 0xc852990035260375d270a95091b78e954ffcd28674360a7babec3e4fe0c6e4ae34682a2b3168d89eb7745edfc22dbeebb0fce75070a52a4923be81bb380ba5dcb9960804e4e0c25nat,
            bm == 0x0nat,
            m01 == 0x0nat,
            m10 == 0x0nat,
            q == 0x2400009dc9f03804ec9e36d5dd45d227b181e5db10149dfb6d59daeda3de1b8b05064729b44e410725a8234845d133711495b477826bab3ddf6ac56be235515808158152f773f0e9nat,
    ;
}

/// The coefficient of the second table for power 2 is the Frobenius image of
/// the one for power 1 times the one for power one.
proof fn lemma_c2_step_1(p: &CubicParams<Fq2>)
    requires
        Fq6Config::describes(p),
    ensures
        p.frobenius_c2@[2].value() == Fq2::mul_v(
            Fq2::frobenius_v(p.frobenius_c2@[1].value(), 1, &p.base),
            p.frobenius_c2@[1].value(),
            &p.base,
        ),
{
    lemma_constants(&p.base);
    lemma_c2_value_1(&p.base.base);
    lemma_c2_value_2(&p.base.base);
    lemma_c2_value_1(&p.base.base);
    let x = p.frobenius_c2@[1].value();
    let y = p.frobenius_c2@[1].value();
    lemma_quad_fp(x, y, &p.base);
    lemma_quad_fp(Fq2::frobenius_v(x, 1, &p.base), y, &p.base);
    lemma_c2_step_1_numbers();
}

/// The product behind the step from power 2 to power 3 of the second table.
proof fn lemma_c2_step_2_numbers()
    ensures
        quad_mul_fp(quad_frobenius_fp((QuadExt { c0: 0xc852990035260375d270a95091b78e954ffcd28674360a7babec3e4fe0c6e4ae34682a2b3168d89eb7745edfc22dbeebb0fce75070a52a4923be81bb380ba5dcb9960804e4e0c25nat, c1: 0x0nat }), 0x2400009dc9f03804ec9e36d5dd45d227b181e5db10149dfb6d59daeda3de1b8b05064729b44e410725a8234845d133711495b477826bab3ddf6ac56be235515808158152f773f0e8nat, 0x2400009dc9f03804ec9e36d5dd45d227b181e5db10149dfb6d59daeda3de1b8b05064729b44e410725a8234845d133711495b477826bab3ddf6ac56be235515808158152f773f0e9nat), (QuadExt { c0: 0x177ad70dc69dd7cd8f772c40d42a593e5c8218b2a8d13d53b29b1708a5d1ad4021bfc4870137b37d3a30dd5a49ae57825985e6027b6158994d2edd502eb496fa3c7c20d2a925e4c3nat, c1: 0x0nat }), 0x11nat, 0x2400009dc9f03804ec9e36d5dd45d227b181e5db10149dfb6d59daeda3de1b8b05064729b44e410725a8234845d133711495b477826bab3ddf6ac56be235515808158152f773f0e9nat) == (QuadExt { c0: 0x1nat, c1: 0x0nat }),
{
    let q: nat = 0x2400009dc9f03804ec9e36d5dd45d227b181e5db10149dfb6d59daeda3de1b8b05064729b44e410725a8234845d133711495b477826bab3ddf6ac56be235515808158152f773f0e9nat;
    let n: nat = 0x11nat;
    let f: nat = 0x0nat;
    let c: nat = 0x2400009dc9f03804ec9e36d5dd45d227b181e5db10149dfb6d59daeda3de1b8b05064729b44e410725a8234845d133711495b477826bab3ddf6ac56be235515808158152f773f0e8nat;
    assert((f * c) % q == 0x0nat) by (nonlinear_arith)
        requires
            f == 0x0nat,
            c == 0x2400009dc9f03804ec9e36d5dd45d227b181e5db10149dfb6d59daeda3de1b8b05064729b44e410725a8234845d133711495b477826bab3ddf6ac56be235515808158152f773f0e8nat,
            q == 0x2400009dc9f03804ec9e36d5dd45d227b181e5db10149dfb6d59daeda3de1b8b05064729b44e410725a8234845d133711495b477826bab3ddf6ac56be235515808158152f773f0e9nat,
    ;
    let x0: nat = 0xc852990035260375d270a95091b78e954ffcd28674360a7babec3e4fe0c6e4ae34682a2b3168d89eb7745edfc22dbeebb0fce75070a52a4923be81bb380ba5dcb9960804e4e0c25nat;
    let x1: nat = 0x0nat;
    let y0: nat = 0x177ad70dc69dd7cd8f772c40d42a593e5c8218b2a8d13d53b29b1708a5d1ad4021bfc4870137b37d3a30dd5a49ae57825985e6027b6158994d2edd502eb496fa3c7c20d2a925e4c3nat;
    let y1: nat = 0x0nat;
    assert((x0 * y0) % q == 0x1nat && (x1 * y1) % q == 0x0nat && (x0 * y1) % q == 0x0nat && (x1 * y0) % q == 0x0nat) by (nonlinear_arith)
        requires
            x0 == 0xc852990035260375d270a95091b78e954ffcd28674360a7babec3e4fe0c6e4ae34682a2b3168d89eb7745edfc22dbeebb0fce75070a52a4923be81bb380ba5dcb9960804e4e0c25nat,
            x1 == 0x0nat,
            y0 == 0x177ad70dc69dd7cd8f772c40d42a593e5c8218b2a8d13d53b29b1708a5d1ad4021bfc4870137b37d3a30dd5a49ae57825985e6027b6158994d2edd502eb496fa3c7c20d2a925e4c3nat,
            y1 == 0x0nat,
            q == 0x2400009dc9f03804ec9e36d5dd45d227b181e5db10149dfb6d59daeda3de1b8b05064729b44e410725a8234845d133711495b477826bab3ddf6ac56be235515808158152f773f0e9nat,
    ;
    let m11: nat = 0x0nat;
    assert((n * m11) % q == 0x0nat) by (nonlinear_arith)
        requires
            n == 0x11nat,
            m11 == 0x0nat,
            q == 0x2400009dc9f03804ec9e36d5dd45d227b181e5db10149dfb6d59daeda3de1b8b05064729b44e410725a8234845d133711495b477826bab3ddf6ac56be235515808158152f773f0e9nat,
    ;
    let m00: nat = 0x1nat;
    let bm: nat = 0x0nat;
    let m01: nat = 0x0nat;
    let m10: nat = 0x0nat;
    assert((m00 + bm) % q == 0x1nat && (m01 + m10) % q == 0x0nat) by (nonlinear_arith)
        requires
            m00 == 0x1nat,
            bm == 0x0nat,
            m01 == 0x0nat,
            m10 == 0x0nat,
            q == 0x2400009dc9f03804ec9e36d5dd45d227b181e5db10149dfb6d59daeda3de1b8b05064729b44e410725a8234845d133711495b477826bab3ddf6ac56be235515808158152f773f0e9nat,
    ;
}

/// The coefficient of the second table for power 3 is the Frobenius image of
/// the one for power 2 times the one for power one.
proof fn lemma_c2_step_2(p: &CubicParams<Fq2>)
    requires
        Fq6Config::describes(p),
    ensures
        p.frobenius_c2@[3].value() == Fq2::mul_v(
            Fq2::frobenius_v(p.frobenius_c2@[2].value(), 1, &p.base),
            p.frobenius_c2@[1].value(),
            &p.base,
        ),
{
    lemma_constants(&p.base);
    lemma_c2_value_2(&p.base.base);
    lemma_c2_value_3(&p.base.base);
    lemma_c2_value_1(&p.base.base);
    let x = p.frobenius_c2@[2].value();
    let y = p.frobenius_c2@[1].value();
    lemma_quad_fp(x, y, &p.base);
    lemma_quad_fp(Fq2::frobenius_v(x, 1, &p.base), y, &p.base);
    lemma_c2_step_2_numbers();
}

/// The product behind the step from power 3 to power 4 of the second table.
proof fn lemma_c2_step_3_numbers()
    ensures
        quad_mul_fp(quad_frobenius_fp((QuadExt { c0: 0x1nat, c1: 0x0nat }), 0x2400009dc9f03804ec9e36d5dd45d227b181e5db10149dfb6d59daeda3de1b8b05064729b44e410725a8234845d133711495b477826bab3ddf6ac56be235515808158152f773f0e8nat, 0x2400009dc9f03804ec9e36d5dd45d227b181e5db10149dfb6d59daeda3de1b8b05064729b44e410725a8234845d133711495b477826bab3ddf6ac56be235515808158152f773f0e9nat), (QuadExt { c0: 0x177ad70dc69dd7cd8f772c40d42a593e5c8218b2a8d13d53b29b1708a5d1ad4021bfc4870137b37d3a30dd5a49ae57825985e6027b6158994d2edd502eb496fa3c7c20d2a925e4c3nat, c1: 0x0nat }), 0x11nat, 0x2400009dc9f03804ec9e36d5dd45d227b181e5db10149dfb6d59daeda3de1b8b05064729b44e410725a8234845d133711495b477826bab3ddf6ac56be235515808158152f773f0e9nat) == (QuadExt { c0: 0x177ad70dc69dd7cd8f772c40d42a593e5c8218b2a8d13d53b29b1708a5d1ad4021bfc4870137b37d3a30dd5a49ae57825985e6027b6158994d2edd502eb496fa3c7c20d2a925e4c3nat, c1: 0x0nat }),
{
    let q: nat = 0x2400009dc9f03804ec9e36d5dd45d227b181e5db10149dfb6d59daeda3de1b8b05064729b44e410725a8234845d133711495b477826bab3ddf6ac56be235515808158152f773f0e9nat;
    let n: nat = 0x11nat;
    let f: nat = 0x0nat;
    let c: nat = 0x2400009dc9f03804ec9e36d5dd45d227b181e5db10149dfb6d59daeda3de1b8b05064729b44e410725a8234845d133711495b477826bab3ddf6ac56be235515808158152f773f0e8nat;
    assert((f * c) % q == 0x0nat) by (nonlinear_arith)
        requires
            f == 0x0nat,
            c == 0x2400009dc9f03804ec9e36d5dd45d227b181e5db10149dfb6d59daeda3de1b8b05064729b44e410725a8234845d133711495b477826bab3ddf6ac56be235515808158152f773f0e8nat,
            q == 0x2400009dc9f03804ec9e36d5dd45d227b181e5db10149dfb6d59daeda3de1b8b05064729b44e410725a8234845d133711495b477826bab3ddf6ac56be235515808158152f773f0e9nat,
    ;
    let x0: nat = 0x1nat;
    let x1: nat = 0x0nat;
    let y0: nat = 0x177ad70dc69dd7cd8f772c40d42a593e5c8218b2a8d13d53b29b1708a5d1ad4021bfc4870137b37d3a30dd5a49ae57825985e6027b6158994d2edd502eb496fa3c7c20d2a925e4c3nat;
    let y1: nat = 0x0nat;
    assert((x0 * y0) % q == 0x177ad70dc69dd7cd8f772c40d42a593e5c8218b2a8d13d53b29b1708a5d1ad4021bfc4870137b37d3a30dd5a49ae57825985e6027b6158994d2edd502eb496fa3c7c20d2a925e4c3nat && (x1 * y1) % q == 0x0nat && (x0 * y1) % q == 0x0nat && (x1 * y0) % q == 0x0nat) by (nonlinear_arith)
        requires
            x0 == 0x1nat,
            x1 == 0x0nat,
            y0 == 0x177ad70dc69dd7cd8f772c40d42a593e5c8218b2a8d13d53b29b1708a5d1ad4021bfc4870137b37d3a30dd5a49ae57825985e6027b6158994d2edd502eb496fa3c7c20d2a925e4c3nat,
            y1 == 0x0nat,
            q == 0x2400009dc9f03804ec9e36d5dd45d227b181e5db10149dfb6d59daeda3de1b8b05064729b44e410725a8234845d133711495b477826bab3ddf6ac56be235515808158152f773f0e9nat,
    ;
    let m11: nat = 0x0nat;
    assert((n * m11) % q == 0x0nat) by (nonlinear_arith)
        requires
            n == 0x11nat,
            m11 == 0x0nat,
            q == 0x2400009dc9f03804ec9e36d5dd45d227b181e5db10149dfb6d59daeda3de1b8b05064729b44e410725a8234845d133711495b477826bab3ddf6ac56be235515808158152f773f0e9nat,
    ;
    let m00: nat = 0x177ad70dc69dd7cd8f772c40d42a593e5c8218b2a8d13d53b29b1708a5d1ad4021bfc4870137b37d3a30dd5a49ae57825985e6027b6158994d2edd502eb496fa3c7c20d2a925e4c3nat;
    let bm: nat = 0x0nat;
    let m01: nat = 0x0nat;
    let m10: nat = 0x0nat;
    assert((m00 + bm) % q == 0x177ad70dc69dd7cd8f772c40d42a593e5c8218b2a8d13d53b29b1708a5d1ad4021bfc4870137b37d3a30dd5a49ae57825985e6027b6158994d2edd502eb496fa3c7c20d2a925e4c3nat && (m01 + m10) % q == 0x0nat) by (nonlinear_arith)
        requires
            m00 == 0x177ad70dc69dd7cd8f772c40d42a593e5c8218b2a8d13d53b29b1708a5d1ad4021bfc4870137b37d3a30dd5a49ae57825985e6027b6158994d2edd502eb496fa3c7c20d2a925e4c3nat,
            bm == 0x0nat,
            m01 == 0x0nat,
            m10 == 0x0nat,
            q == 0x2400009dc9f03804ec9e36d5dd45d227b181e5db10149dfb6d59daeda3de1b8b05064729b44e410725a8234845d133711495b477826bab3ddf6ac56be235515808158152f773f0e9nat,
    ;
}

/// The coefficient of the second table for power 4 is the Frobenius image of
/// the one for power 3 times the one for power one.
proof fn lemma_c2_step_3(p: &CubicParams<Fq2>)
    requires
        Fq6Config::describes(p),
    ensures
        p.frobenius_c2@[4].value() == Fq2::mul_v(
            Fq2::frobenius_v(p.frobenius_c2@[3].value(), 1, &p.base),
            p.frobenius_c2@[1].value(),
            &p.base,
        ),
{
    lemma_constants(&p.base);
    lemma_c2_value_3(&p.base.base);
    lemma_c2_value_4(&p.base.base);
    lemma_c2_value_1(&p.base.base);
    let x = p.frobenius_c2@[3].value();
    let y = p.frobenius_c2@[1].value();
    lemma_quad_fp(x, y, &p.base);
    lemma_quad_fp(Fq2::frobenius_v(x, 1, &p.base), y, &p.base);
    lemma_c2_step_3_numbers();
}

/// The product behind the step from power 4 to power 5 of the second table.
proof fn lemma_c2_step_4_numbers()
    ensures
        quad_mul_fp(quad_frobenius_fp((QuadExt { c0: 0x177ad70dc69dd7cd8f772c40d42a593e5c8218b2a8d13d53b29b1708a5d1ad4021bfc4870137b37d3a30dd5a49ae57825985e6027b6158994d2edd502eb496fa3c7c20d2a925e4c3nat, c1: 0x0nat }), 0x2400009dc9f03804ec9e36d5dd45d227b181e5db10149dfb6d59daeda3de1b8b05064729b44e410725a8234845d133711495b477826bab3ddf6ac56be235515808158152f773f0e8nat, 0x2400009dc9f03804ec9e36d5dd45d227b181e5db10149dfb6d59daeda3de1b8b05064729b44e410725a8234845d133711495b477826bab3ddf6ac56be235515808158152f773f0e9nat), (QuadExt { c0: 0x177ad70dc69dd7cd8f772c40d42a593e5c8218b2a8d13d53b29b1708a5d1ad4021bfc4870137b37d3a30dd5a49ae57825985e6027b6158994d2edd502eb496fa3c7c20d2a925e4c3nat, c1: 0x0nat }), 0x11nat, 0x2400009dc9f03804ec9e36d5dd45d227b181e5db10149dfb6d59daeda3de1b8b05064729b44e410725a8234845d133711495b477826bab3ddf6ac56be235515808158152f773f0e9nat) == (QuadExt { c0: 0xc852990035260375d270a95091b78e954ffcd28674360a7babec3e4fe0c6e4ae34682a2b3168d89eb7745edfc22dbeebb0fce75070a52a4923be81bb380ba5dcb9960804e4e0c25nat, c1: 0x0nat }),
{
    let q: nat = 0x2400009dc9f03804ec9e36d5dd45d227b181e5db10149dfb6d59daeda3de1b8b05064729b44e410725a8234845d133711495b477826bab3ddf6ac56be235515808158152f773f0e9nat;
    let n: nat = 0x11nat;
    let f: nat = 0x0nat;
    let c: nat = 0x2400009dc9f03804ec9e36d5dd45d227b181e5db10149dfb6d59daeda3de1b8b05064729b44e410725a8234845d133711495b477826bab3ddf6ac56be235515808158152f773f0e8nat;
    assert((f * c) % q == 0x0nat) by (nonlinear_arith)
        requires
            f == 0x0nat,
            c == 0x2400009dc9f03804ec9e36d5dd45d227b181e5db10149dfb6d59daeda3de1b8b05064729b44e410725a8234845d133711495b477826bab3ddf6ac56be235515808158152f773f0e8nat,
            q == 0x2400009dc9f03804ec9e36d5dd45d227b181e5db10149dfb6d59daeda3de1b8b05064729b44e410725a8234845d133711495b477826bab3ddf6ac56be235515808158152f773f0e9nat,
    ;
    let x0: nat = 0x177ad70dc69dd7cd8f772c40d42a593e5c8218b2a8d13d53b29b1708a5d1ad4021bfc4870137b37d3a30dd5a49ae57825985e6027b6158994d2edd502eb496fa3c7c20d2a925e4c3nat;
    let x1: nat = 0x0nat;
    let y0: nat = 0x177ad70dc69dd7cd8f772c40d42a593e5c8218b2a8d13d53b29b1708a5d1ad4021bfc4870137b37d3a30dd5a49ae57825985e6027b6158994d2edd502eb496fa3c7c20d2a925e4c3nat;
    let y1: nat = 0x0nat;
    assert((x0 * y0) % q == 0xc852990035260375d270a95091b78e954ffcd28674360a7babec3e4fe0c6e4ae34682a2b3168d89eb7745edfc22dbeebb0fce75070a52a4923be81bb380ba5dcb9960804e4e0c25nat && (x1 * y1) % q == 0x0nat && (x0 * y1) % q == 0x0nat && (x1 * y0) % q == 0x0nat) by (nonlinear_arith)
        requires
            x0 == 0x177ad70dc69dd7cd8f772c40d42a593e5c8218b2a8d13d53b29b1708a5d1ad4021bfc4870137b37d3a30dd5a49ae57825985e6027b6158994d2edd502eb496fa3c7c20d2a925e4c3nat,
            x1 == 0x0nat,
            y0 == 0x177ad70dc69dd7cd8f772c40d42a593e5c8218b2a8d13d53b29b1708a5d1ad4021bfc4870137b37d3a30dd5a49ae57825985e6027b6158994d2edd502eb496fa3c7c20d2a925e4c3nat,
            y1 == 0x0nat,
            q == 0x2400009dc9f03804ec9e36d5dd45d227b181e5db10149dfb6d59daeda3de1b8b05064729b44e410725a8234845d133711495b477826bab3ddf6ac56be235515808158152f773f0e9nat,
    ;
    let m11: nat = 0x0nat;
    assert((n * m11) % q == 0x0nat) by (nonlinear_arith)
        requires
            n == 0x11nat,
            m11 == 0x0nat,
            q == 0x2400009dc9f03804ec9e36d5dd45d227b181e5db10149dfb6d59daeda3de1b8b05064729b44e410725a8234845d133711495b477826bab3ddf6ac56be235515808158152f773f0e9nat,
    ;
    let m00: nat = 0xc852990035260375d270a95091b78e954ffcd28674360a7babec3e4fe0c6e4ae34682a2b3168d89eb7745edfc22dbeebb0fce75070a52a4923be81bb380ba5dcb9960804e4e0c25nat;
    let bm: nat = 0x0nat;
    let m01: nat = 0x0nat;
    let m10: nat = 0x0nat;
    assert((m00 + bm) % q == 0xc852990035260375d270a95091b78e954ffcd28674360a7babec3e4fe0c6e4ae34682a2b3168d89eb7745edfc22dbeebb0fce75070a52a4923be81bb380ba5dcb9960804e4e0c25nat && (m01 + m10) % q == 0x0nat) by (nonlinear_arith)
        requires
            m00 == 0xc852990035260375d270a95091b78e954ffcd28674360a7babec3e4fe0c6e4ae34682a2b3168d89eb7745edfc22dbeebb0fce75070a52a4923be81bb380ba5dcb9960804e4e0c25nat,
            bm == 0x0nat,
            m01 == 0x0nat,
            m10 == 0x0nat,
            q == 0x2400009dc9f03804ec9e36d5dd45d227b181e5db10149dfb6d59daeda3de1b8b05064729b44e410725a8234845d133711495b477826bab3ddf6ac56be235515808158152f773f0e9nat,
    ;
}

/// The coefficient of the second table for power 5 is the Frobenius image of
/// the one for power 4 times the one for power one.
proof fn lemma_c2_step_4(p: &CubicParams<Fq2>)
    requires
        Fq6Config::describes(p),
    ensures
        p.frobenius_c2@[5].value() == Fq2::mul_v(
            Fq2::frobenius_v(p.frobenius_c2@[4].value(), 1, &p.base),
            p.frobenius_c2@[1].value(),
            &p.base,
        ),
{
    lemma_constants(&p.base);
    lemma_c2_value_4(&p.base.base);
    lemma_c2_value_5(&p.base.base);
    lemma_c2_value_1(&p.base.base);
    let x = p.frobenius_c2@[4].value();
    let y = p.frobenius_c2@[1].value();
    lemma_quad_fp(x, y, &p.base);
    lemma_quad_fp(Fq2::frobenius_v(x, 1, &p.base), y, &p.base);
    lemma_c2_step_4_numbers();
}

/// The product behind the step from power 5 to power 6 of the second table.
proof fn lemma_c2_step_5_numbers()
    ensures
        quad_mul_fp(quad_frobenius_fp((QuadExt { c0: 0xc852990035260375d270a95091b78e954ffcd28674360a7babec3e4fe0c6e4ae34682a2b3168d89eb7745edfc22dbeebb0fce75070a52a4923be81bb380ba5dcb9960804e4e0c25nat, c1: 0x0nat }), 0x2400009dc9f03804ec9e36d5dd45d227b181e5db10149dfb6d59daeda3de1b8b05064729b44e410725a8234845d133711495b477826bab3ddf6ac56be235515808158152f773f0e8nat, 0x2400009dc9f03804ec9e36d5dd45d227b181e5db10149dfb6d59daeda3de1b8b05064729b44e410725a8234845d133711495b477826bab3ddf6ac56be235515808158152f773f0e9nat), (QuadExt { c0: 0x177ad70dc69dd7cd8f772c40d42a593e5c8218b2a8d13d53b29b1708a5d1ad4021bfc4870137b37d3a30dd5a49ae57825985e6027b6158994d2edd502eb496fa3c7c20d2a925e4c3nat, c1: 0x0nat }), 0x11nat, 0x2400009dc9f03804ec9e36d5dd45d227b181e5db10149dfb6d59daeda3de1b8b05064729b44e410725a8234845d133711495b477826bab3ddf6ac56be235515808158152f773f0e9nat) == (QuadExt { c0: 0x1nat, c1: 0x0nat }),
{
    let q: nat = 0x2400009dc9f03804ec9e36d5dd45d227b181e5db10149dfb6d59daeda3de1b8b05064729b44e410725a8234845d133711495b477826bab3ddf6ac56be235515808158152f773f0e9nat;
    let n: nat = 0x11nat;
    let f: nat = 0x0nat;
    let c: nat = 0x2400009dc9f03804ec9e36d5dd45d227b181e5db10149dfb6d59daeda3de1b8b05064729b44e410725a8234845d133711495b477826bab3ddf6ac56be235515808158152f773f0e8nat;
    assert((f * c) % q == 0x0nat) by (nonlinear_arith)
        requires
            f == 0x0nat,
            c == 0x2400009dc9f03804ec9e36d5dd45d227b181e5db10149dfb6d59daeda3de1b8b05064729b44e410725a8234845d133711495b477826bab3ddf6ac56be235515808158152f773f0e8nat,
            q == 0x2400009dc9f03804ec9e36d5dd45d227b181e5db10149dfb6d59daeda3de1b8b05064729b44e410725a8234845d133711495b477826bab3ddf6ac56be235515808158152f773f0e9nat,
    ;
    let x0: nat = 0xc852990035260375d270a95091b78e954ffcd28674360a7babec3e4fe0c6e4ae34682a2b3168d89eb7745edfc22dbeebb0fce75070a52a4923be81bb380ba5dcb9960804e4e0c25nat;
    let x1: nat = 0x0nat;
    let y0: nat = 0x177ad70dc69dd7cd8f772c40d42a593e5c8218b2a8d13d53b29b1708a5d1ad4021bfc4870137b37d3a30dd5a49ae57825985e6027b6158994d2edd502eb496fa3c7c20d2a925e4c3nat;
    let y1: nat = 0x0nat;
    assert((x0 * y0) % q == 0x1nat && (x1 * y1) % q == 0x0nat && (x0 * y1) % q == 0x0nat && (x1 * y0) % q == 0x0nat) by (nonlinear_arith)
        requires
            x0 == 0xc852990035260375d270a95091b78e954ffcd28674360a7babec3e4fe0c6e4ae34682a2b3168d89eb7745edfc22dbeebb0fce75070a52a4923be81bb380ba5dcb9960804e4e0c25nat,
            x1 == 0x0nat,
            y0 == 0x177ad70dc69dd7cd8f772c40d42a593e5c8218b2a8d13d53b29b1708a5d1ad4021bfc4870137b37d3a30dd5a49ae57825985e6027b6158994d2edd502eb496fa3c7c20d2a925e4c3nat,
            y1 == 0x0nat,
            q == 0x2400009dc9f03804ec9e36d5dd45d227b181e5db10149dfb6d59daeda3de1b8b05064729b44e410725a8234845d133711495b477826bab3ddf6ac56be235515808158152f773f0e9nat,
    ;
    let m11: nat = 0x0nat;
    assert((n * m11) % q == 0x0nat) by (nonlinear_arith)
        requires
            n == 0x11nat,
            m11 == 0x0nat,
            q == 0x2400009dc9f03804ec9e36d5dd45d227b181e5db10149dfb6d59daeda3de1b8b05064729b44e410725a8234845d133711495b477826bab3ddf6ac56be235515808158152f773f0e9nat,
    ;
    let m00: nat = 0x1nat;
    let bm: nat = 0x0nat;
    let m01: nat = 0x0nat;
    let m10: nat = 0x0nat;
    assert((m00 + bm) % q == 0x1nat && (m01 + m10) % q == 0x0nat) by (nonlinear_arith)
        requires
            m00 == 0x1nat,
            bm == 0x0nat,
            m01 == 0x0nat,
            m10 == 0x0nat,
            q == 0x2400009dc9f03804ec9e36d5dd45d227b181e5db10149dfb6d59daeda3de1b8b05064729b44e410725a8234845d133711495b477826bab3ddf6ac56be235515808158152f773f0e9nat,
    ;
}

/// The coefficient of the second table for power 6 is the Frobenius image of
/// the one for power 5 times the one for power one.
proof fn lemma_c2_step_5(p: &CubicParams<Fq2>)
    requires
        Fq6Config::describes(p),
    ensures
        p.frobenius_c2@[0].value() == Fq2::mul_v(
            Fq2::frobenius_v(p.frobenius_c2@[5].value(), 1, &p.base),
            p.frobenius_c2@[1].value(),
            &p.base,
        ),
{
    lemma_constants(&p.base);
    lemma_c2_value_5(&p.base.base);
    lemma_c2_value_0(&p.base.base);
    lemma_c2_value_1(&p.base.base);
    let x = p.frobenius_c2@[5].value();
    let y = p.frobenius_c2@[1].value();
    lemma_quad_fp(x, y, &p.base);
    lemma_quad_fp(Fq2::frobenius_v(x, 1, &p.base), y, &p.base);
    lemma_c2_step_5_numbers();
}

/// The square of the coefficient of the first table for power one.
proof fn lemma_c1_squared_numbers()
    ensures
        quad_mul_fp((QuadExt { c0: 0x177ad70dc69dd7cd8f772c40d42a593e5c8218b2a8d13d53b29b1708a5d1ad4021bfc4870137b37d3a30dd5a49ae57825985e6027b6158994d2edd502eb496fa3c7c20d2a925e4c4nat, c1: 0x0nat }), (QuadExt { c0: 0x177ad70dc69dd7cd8f772c40d42a593e5c8218b2a8d13d53b29b1708a5d1ad4021bfc4870137b37d3a30dd5a49ae57825985e6027b6158994d2edd502eb496fa3c7c20d2a925e4c4nat, c1: 0x0nat }), 0x11nat, 0x2400009dc9f03804ec9e36d5dd45d227b181e5db10149dfb6d59daeda3de1b8b05064729b44e410725a8234845d133711495b477826bab3ddf6ac56be235515808158152f773f0e9nat) == (QuadExt { c0: 0x177ad70dc69dd7cd8f772c40d42a593e5c8218b2a8d13d53b29b1708a5d1ad4021bfc4870137b37d3a30dd5a49ae57825985e6027b6158994d2edd502eb496fa3c7c20d2a925e4c3nat, c1: 0x0nat }),
{
    let q: nat = 0x2400009dc9f03804ec9e36d5dd45d227b181e5db10149dfb6d59daeda3de1b8b05064729b44e410725a8234845d133711495b477826bab3ddf6ac56be235515808158152f773f0e9nat;
    let n: nat = 0x11nat;
    let x0: nat = 0x177ad70dc69dd7cd8f772c40d42a593e5c8218b2a8d13d53b29b1708a5d1ad4021bfc4870137b37d3a30dd5a49ae57825985e6027b6158994d2edd502eb496fa3c7c20d2a925e4c4nat;
    let x1: nat = 0x0nat;
    let y0: nat = 0x177ad70dc69dd7cd8f772c40d42a593e5c8218b2a8d13d53b29b1708a5d1ad4021bfc4870137b37d3a30dd5a49ae57825985e6027b6158994d2edd502eb496fa3c7c20d2a925e4c4nat;
    let y1: nat = 0x0nat;
    assert((x0 * y0) % q == 0x177ad70dc69dd7cd8f772c40d42a593e5c8218b2a8d13d53b29b1708a5d1ad4021bfc4870137b37d3a30dd5a49ae57825985e6027b6158994d2edd502eb496fa3c7c20d2a925e4c3nat && (x1 * y1) % q == 0x0nat && (x0 * y1) % q == 0x0nat && (x1 * y0) % q == 0x0nat) by (nonlinear_arith)
        requires
            x0 == 0x177ad70dc69dd7cd8f772c40d42a593e5c8218b2a8d13d53b29b1708a5d1ad4021bfc4870137b37d3a30dd5a49ae57825985e6027b6158994d2edd502eb496fa3c7c20d2a925e4c4nat,
            x1 == 0x0nat,
            y0 == 0x177ad70dc69dd7cd8f772c40d42a593e5c8218b2a8d13d53b29b1708a5d1ad4021bfc4870137b37d3a30dd5a49ae57825985e6027b6158994d2edd502eb496fa3c7c20d2a925e4c4nat,
            y1 == 0x0nat,
            q == 0x2400009dc9f03804ec9e36d5dd45d227b181e5db10149dfb6d59daeda3de1b8b05064729b44e410725a8234845d133711495b477826bab3ddf6ac56be235515808158152f773f0e9nat,
    ;
    let m11: nat = 0x0nat;
    assert((n * m11) % q == 0x0nat) by (nonlinear_arith)
        requires
            n == 0x11nat,
            m11 == 0x0nat,
            q == 0x2400009dc9f03804ec9e36d5dd45d227b181e5db10149dfb6d59daeda3de1b8b05064729b44e410725a8234845d133711495b477826bab3ddf6ac56be235515808158152f773f0e9nat,
    ;
    let m00: nat = 0x177ad70dc69dd7cd8f772c40d42a593e5c8218b2a8d13d53b29b1708a5d1ad4021bfc4870137b37d3a30dd5a49ae57825985e6027b6158994d2edd502eb496fa3c7c20d2a925e4c3nat;
    let bm: nat = 0x0nat;
    let m01: nat = 0x0nat;
    let m10: nat = 0x0nat;
    assert((m00 + bm) % q == 0x177ad70dc69dd7cd8f772c40d42a593e5c8218b2a8d13d53b29b1708a5d1ad4021bfc4870137b37d3a30dd5a49ae57825985e6027b6158994d2edd502eb496fa3c7c20d2a925e4c3nat && (m01 + m10) % q == 0x0nat) by (nonlinear_arith)
        requires
            m00 == 0x177ad70dc69dd7cd8f772c40d42a593e5c8218b2a8d13d53b29b1708a5d1ad4021bfc4870137b37d3a30dd5a49ae57825985e6027b6158994d2edd502eb496fa3c7c20d2a925e4c3nat,
            bm == 0x0nat,
            m01 == 0x0nat,
            m10 == 0x0nat,
            q == 0x2400009dc9f03804ec9e36d5dd45d227b181e5db10149dfb6d59daeda3de1b8b05064729b44e410725a8234845d133711495b477826bab3ddf6ac56be235515808158152f773f0e9nat,
    ;
}

/// The cube of the coefficient of the first table for power one.
proof fn lemma_c1_cubed_numbers()
    ensures
        quad_mul_fp((QuadExt { c0: 0x177ad70dc69dd7cd8f772c40d42a593e5c8218b2a8d13d53b29b1708a5d1ad4021bfc4870137b37d3a30dd5a49ae57825985e6027b6158994d2edd502eb496fa3c7c20d2a925e4c4nat, c1: 0x0nat }), (QuadExt { c0: 0x177ad70dc69dd7cd8f772c40d42a593e5c8218b2a8d13d53b29b1708a5d1ad4021bfc4870137b37d3a30dd5a49ae57825985e6027b6158994d2edd502eb496fa3c7c20d2a925e4c3nat, c1: 0x0nat }), 0x11nat, 0x2400009dc9f03804ec9e36d5dd45d227b181e5db10149dfb6d59daeda3de1b8b05064729b44e410725a8234845d133711495b477826bab3ddf6ac56be235515808158152f773f0e9nat) == (QuadExt { c0: 0x2400009dc9f03804ec9e36d5dd45d227b181e5db10149dfb6d59daeda3de1b8b05064729b44e410725a8234845d133711495b477826bab3ddf6ac56be235515808158152f773f0e8nat, c1: 0x0nat }),
{
    let q: nat = 0x2400009dc9f03804ec9e36d5dd45d227b181e5db10149dfb6d59daeda3de1b8b05064729b44e410725a8234845d133711495b477826bab3ddf6ac56be235515808158152f773f0e9nat;
    let n: nat = 0x11nat;
    let x0: nat = 0x177ad70dc69dd7cd8f772c40d42a593e5c8218b2a8d13d53b29b1708a5d1ad4021bfc4870137b37d3a30dd5a49ae57825985e6027b6158994d2edd502eb496fa3c7c20d2a925e4c4nat;
    let x1: nat = 0x0nat;
    let y0: nat = 0x177ad70dc69dd7cd8f772c40d42a593e5c8218b2a8d13d53b29b1708a5d1ad4021bfc4870137b37d3a30dd5a49ae57825985e6027b6158994d2edd502eb496fa3c7c20d2a925e4c3nat;
    let y1: nat = 0x0nat;
    assert((x0 * y0) % q == 0x2400009dc9f03804ec9e36d5dd45d227b181e5db10149dfb6d59daeda3de1b8b05064729b44e410725a8234845d133711495b477826bab3ddf6ac56be235515808158152f773f0e8nat && (x1 * y1) % q == 0x0nat && (x0 * y1) % q == 0x0nat && (x1 * y0) % q == 0x0nat) by (nonlinear_arith)
        requires
            x0 == 0x177ad70dc69dd7cd8f772c40d42a593e5c8218b2a8d13d53b29b1708a5d1ad4021bfc4870137b37d3a30dd5a49ae57825985e6027b6158994d2edd502eb496fa3c7c20d2a925e4c4nat,
            x1 == 0x0nat,
            y0 == 0x177ad70dc69dd7cd8f772c40d42a593e5c8218b2a8d13d53b29b1708a5d1ad4021bfc4870137b37d3a30dd5a49ae57825985e6027b6158994d2edd502eb496fa3c7c20d2a925e4c3nat,
            y1 == 0x0nat,
            q == 0x2400009dc9f03804ec9e36d5dd45d227b181e5db10149dfb6d59daeda3de1b8b05064729b44e410725a8234845d133711495b477826bab3ddf6ac56be235515808158152f773f0e9nat,
    ;
    let m11: nat = 0x0nat;
    assert((n * m11) % q == 0x0nat) by (nonlinear_arith)
        requires
            n == 0x11nat,
            m11 == 0x0nat,
            q == 0x2400009dc9f03804ec9e36d5dd45d227b181e5db10149dfb6d59daeda3de1b8b05064729b44e410725a8234845d133711495b477826bab3ddf6ac56be235515808158152f773f0e9nat,
    ;
    let m00: nat = 0x2400009dc9f03804ec9e36d5dd45d227b181e5db10149dfb6d59daeda3de1b8b05064729b44e410725a8234845d133711495b477826bab3ddf6ac56be235515808158152f773f0e8nat;
    let bm: nat = 0x0nat;
    let m01: nat = 0x0nat;
    let m10: nat = 0x0nat;
    assert((m00 + bm) % q == 0x2400009dc9f03804ec9e36d5dd45d227b181e5db10149dfb6d59daeda3de1b8b05064729b44e410725a8234845d133711495b477826bab3ddf6ac56be235515808158152f773f0e8nat && (m01 + m10) % q == 0x0nat) by (nonlinear_arith)
        requires
            m00 == 0x2400009dc9f03804ec9e36d5dd45d227b181e5db10149dfb6d59daeda3de1b8b05064729b44e410725a8234845d133711495b477826bab3ddf6ac56be235515808158152f773f0e8nat,
            bm == 0x0nat,
            m01 == 0x0nat,
            m10 == 0x0nat,
            q == 0x2400009dc9f03804ec9e36d5dd45d227b181e5db10149dfb6d59daeda3de1b8b05064729b44e410725a8234845d133711495b477826bab3ddf6ac56be235515808158152f773f0e9nat,
    ;
}

/// The non-residue times the cube of the coefficient of the first table for
/// power one.
proof fn lemma_nonresidue_numbers()
    ensures
        quad_mul_fp((QuadExt { c0: 0x0nat, c1: 0x7nat }), (QuadExt { c0: 0x2400009dc9f03804ec9e36d5dd45d227b181e5db10149dfb6d59daeda3de1b8b05064729b44e410725a8234845d133711495b477826bab3ddf6ac56be235515808158152f773f0e8nat, c1: 0x0nat }), 0x11nat, 0x2400009dc9f03804ec9e36d5dd45d227b181e5db10149dfb6d59daeda3de1b8b05064729b44e410725a8234845d133711495b477826bab3ddf6ac56be235515808158152f773f0e9nat) == (QuadExt { c0: 0x0nat, c1: 0x2400009dc9f03804ec9e36d5dd45d227b181e5db10149dfb6d59daeda3de1b8b05064729b44e410725a8234845d133711495b477826bab3ddf6ac56be235515808158152f773f0e2nat }),
{
    let q: nat = 0x2400009dc9f03804ec9e36d5dd45d227b181e5db10149dfb6d59daeda3de1b8b05064729b44e410725a8234845d133711495b477826bab3ddf6ac56be235515808158152f773f0e9nat;
    let n: nat = 0x11nat;
    let x0: nat = 0x0nat;
    let x1: nat = 0x7nat;
    let y0: nat = 0x2400009dc9f03804ec9e36d5dd45d227b181e5db10149dfb6d59daeda3de1b8b05064729b44e410725a8234845d133711495b477826bab3ddf6ac56be235515808158152f773f0e8nat;
    let y1: nat = 0x0nat;
    assert((x0 * y0) % q == 0x0nat && (x1 * y1) % q == 0x0nat && (x0 * y1) % q == 0x0nat && (x1 * y0) % q == 0x2400009dc9f03804ec9e36d5dd45d227b181e5db10149dfb6d59daeda3de1b8b05064729b44e410725a8234845d133711495b477826bab3ddf6ac56be235515808158152f773f0e2nat) by (nonlinear_arith)
        requires
            x0 == 0x0nat,
            x1 == 0x7nat,
            y0 == 0x2400009dc9f03804ec9e36d5dd45d227b181e5db10149dfb6d59daeda3de1b8b05064729b44e410725a8234845d133711495b477826bab3ddf6ac56be235515808158152f773f0e8nat,
            y1 == 0x0nat,
            q == 0x2400009dc9f03804ec9e36d5dd45d227b181e5db10149dfb6d59daeda3de1b8b05064729b44e410725a8234845d133711495b477826bab3ddf6ac56be235515808158152f773f0e9nat,
    ;
    let m11: nat = 0x0nat;
    assert((n * m11) % q == 0x0nat) by (nonlinear_arith)
        requires
            n == 0x11nat,
            m11 == 0x0nat,
            q == 0x2400009dc9f03804ec9e36d5dd45d227b181e5db10149dfb6d59daeda3de1b8b05064729b44e410725a8234845d133711495b477826bab3ddf6ac56be235515808158152f773f0e9nat,
    ;
    let m00: nat = 0x0nat;
    let bm: nat = 0x0nat;
    let m01: nat = 0x0nat;
    let m10: nat = 0x2400009dc9f03804ec9e36d5dd45d227b181e5db10149dfb6d59daeda3de1b8b05064729b44e410725a8234845d133711495b477826bab3ddf6ac56be235515808158152f773f0e2nat;
    assert((m00 + bm) % q == 0x0nat && (m01 + m10) % q == 0x2400009dc9f03804ec9e36d5dd45d227b181e5db10149dfb6d59daeda3de1b8b05064729b44e410725a8234845d133711495b477826bab3ddf6ac56be235515808158152f773f0e2nat) by (nonlinear_arith)
        requires
            m00 == 0x0nat,
            bm == 0x0nat,
            m01 == 0x0nat,
            m10 == 0x2400009dc9f03804ec9e36d5dd45d227b181e5db10149dfb6d59daeda3de1b8b05064729b44e410725a8234845d133711495b477826bab3ddf6ac56be235515808158152f773f0e2nat,
            q == 0x2400009dc9f03804ec9e36d5dd45d227b181e5db10149dfb6d59daeda3de1b8b05064729b44e410725a8234845d133711495b477826bab3ddf6ac56be235515808158152f773f0e9nat,
    ;
}

/// Seven times minus one.
proof fn lemma_nonresidue_image_numbers()
    ensures
        mul_mod(0x7nat, 0x2400009dc9f03804ec9e36d5dd45d227b181e5db10149dfb6d59daeda3de1b8b05064729b44e410725a8234845d133711495b477826bab3ddf6ac56be235515808158152f773f0e8nat, 0x2400009dc9f03804ec9e36d5dd45d227b181e5db10149dfb6d59daeda3de1b8b05064729b44e410725a8234845d133711495b477826bab3ddf6ac56be235515808158152f773f0e9nat) == 0x2400009dc9f03804ec9e36d5dd45d227b181e5db10149dfb6d59daeda3de1b8b05064729b44e410725a8234845d133711495b477826bab3ddf6ac56be235515808158152f773f0e2nat,
{
    let q: nat = 0x2400009dc9f03804ec9e36d5dd45d227b181e5db10149dfb6d59daeda3de1b8b05064729b44e410725a8234845d133711495b477826bab3ddf6ac56be235515808158152f773f0e9nat;
    let a0: nat = 0x7nat;
    let b0: nat = 0x2400009dc9f03804ec9e36d5dd45d227b181e5db10149dfb6d59daeda3de1b8b05064729b44e410725a8234845d133711495b477826bab3ddf6ac56be235515808158152f773f0e8nat;
    assert((a0 * b0) % q == 0x2400009dc9f03804ec9e36d5dd45d227b181e5db10149dfb6d59daeda3de1b8b05064729b44e410725a8234845d133711495b477826bab3ddf6ac56be235515808158152f773f0e2nat) by (nonlinear_arith)
        requires
            a0 == 0x7nat,
            b0 == 0x2400009dc9f03804ec9e36d5dd45d227b181e5db10149dfb6d59daeda3de1b8b05064729b44e410725a8234845d133711495b477826bab3ddf6ac56be235515808158152f773f0e8nat,
            q == 0x2400009dc9f03804ec9e36d5dd45d227b181e5db10149dfb6d59daeda3de1b8b05064729b44e410725a8234845d133711495b477826bab3ddf6ac56be235515808158152f773f0e9nat,
    ;
}

/// The coefficient of the second table for power one is the square of that
/// of the first, and the Frobenius image of the non-residue is the
/// non-residue times the cube of the coefficient of the first table for
/// power one.
proof fn lemma_nonresidue_image(p: &CubicParams<Fq2>)
    requires
        Fq6Config::describes(p),
    ensures
        p.frobenius_c2@[1].value() == Fq2::mul_v(
            p.frobenius_c1@[1].value(),
            p.frobenius_c1@[1].value(),
            &p.base,
        ),
        Fq2::frobenius_v(p.nonresidue.value(), 1, &p.base) == Fq2::mul_v(
            p.nonresidue.value(),
            Fq2::mul_v(p.frobenius_c1@[1].value(), p.frobenius_c2@[1].value(), &p.base),
            &p.base,
        ),
{
    lemma_constants(&p.base);
    lemma_c1_value_1(&p.base.base);
    lemma_c2_value_1(&p.base.base);
    let c1 = p.frobenius_c1@[1].value();
    let c2 = p.frobenius_c2@[1].value();
    let n = p.nonresidue.value();
    lemma_quad_fp(c1, c1, &p.base);
    lemma_quad_fp(c1, c2, &p.base);
    lemma_quad_fp(n, Fq2::mul_v(c1, c2, &p.base), &p.base);
    lemma_c1_squared_numbers();
    lemma_c1_cubed_numbers();
    lemma_nonresidue_numbers();
    lemma_nonresidue_image_numbers();
    assert(n == (QuadExt { c0: 0nat, c1: 7nat })) by {
        vstd::arithmetic::div_mod::lemma_small_mod(7, modulus_value());
    }
}

/// The tables of the cubic extension are consistent.
pub proof fn lemma_tables_consistent(p: &CubicParams<Fq2>)
    requires
        Fq6Config::describes(p),
    ensures
        Fq6::tables_consistent(p),
{
    crate::yafa_146::fields::fq2::lemma_tables_consistent(&p.base);
    lemma_c1_value_0(&p.base.base);
    lemma_c2_value_0(&p.base.base);
    assert forall|k: int| 0 <= k < 6 implies (#[trigger] p.frobenius_c1@[(k + 1) % 6]).value()
        == Fq2::mul_v(
        Fq2::frobenius_v(p.frobenius_c1@[k].value(), 1, &p.base),
        p.frobenius_c1@[1].value(),
        &p.base,
    ) by {
        if k == 0 {
            lemma_c1_step_0(p);
        } else if k == 1 {
            lemma_c1_step_1(p);
        } else if k == 2 {
            lemma_c1_step_2(p);
        } else if k == 3 {
            lemma_c1_step_3(p);
        } else if k == 4 {
            lemma_c1_step_4(p);
        } else {
            lemma_c1_step_5(p);
        }
    }
    assert forall|k: int| 0 <= k < 6 implies (#[trigger] p.frobenius_c2@[(k + 1) % 6]).value()
        == Fq2::mul_v(
        Fq2::frobenius_v(p.frobenius_c2@[k].value(), 1, &p.base),
        p.frobenius_c2@[1].value(),
        &p.base,
    ) by {
        if k == 0 {
            lemma_c2_step_0(p);
        } else if k == 1 {
            lemma_c2_step_1(p);
        } else if k == 2 {
            lemma_c2_step_2(p);
        } else if k == 3 {
            lemma_c2_step_3(p);
        } else if k == 4 {
            lemma_c2_step_4(p);
        } else {
            lemma_c2_step_5(p);
        }
    }
    lemma_nonresidue_image(p);
}

} // verus!

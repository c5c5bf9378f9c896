//! The target field of Yafa-108: the quadratic extension of the cubic extension.

use vstd::prelude::*;
use crate::fields::cubic::{CubicExt, CubicParams};
use crate::fields::field::Field;
use crate::bigint::lemma_val_nine_limbs;
use crate::fields::embedded::{embed_v, lemma_quad_over_cubic_consistent};
use crate::fields::frobenius::FrobeniusLaws;
use crate::fields::prime::{entry_v, fp_table, Fp};
use crate::modular::{mul_mod, Modulus};
use crate::yafa_108::fields::fq::{is_fq, lemma_modulus_value};
use crate::fields::quadratic::{QuadExt, QuadParams};
use crate::yafa_108::fields::fq3::{Fq3, Fq3Config};

verus! {

/// An element of the target field `Fq3[w] / (w^2 - u)`.
pub type Fq6 = QuadExt<CubicExt<Fp>>;

/// The configuration of the target field.
pub struct Fq6Config;

/// Coefficients for the Frobenius automorphism:
/// NONRESIDUE^((q^k - 1) / 2) for k = 0, ..., 5. Each lies in the base field.
pub const FROBENIUS_COEFF_FP6_C1: [u64; 54] = [
    0x0000000000000001, 0x0000000000000000, 0x0000000000000000,
    0x0000000000000000, 0x0000000000000000, 0x0000000000000000,
    0x0000000000000000, 0x0000000000000000, 0x0000000000000000,
    0x27574fef8dc36755, 0x96d4c5c9305d22d0, 0x85461c273b3bcf5d,
    0x0ad237afd1741468, 0x69ce6b79a19e526b, 0xe964092dd43b807e,
    0x01a361253e9ccc36, 0xb4b68bf0e72f9bab, 0x1bd4e08023474e2b,
    0x27574fef8dc36754, 0x96d4c5c9305d22d0, 0x85461c273b3bcf5d,
    0x0ad237afd1741468, 0x69ce6b79a19e526b, 0xe964092dd43b807e,
    0x01a361253e9ccc36, 0xb4b68bf0e72f9bab, 0x1bd4e08023474e2b,
    0xbb6b9a882a6541e8, 0xe5b6bc1f7c680fae, 0x5f33c52513be22c3,
    0xd754dec645e2ed10, 0x9e9490948a1cbe1e, 0x21b06244d9534e95,
    0x6a4bec14953bf2bd, 0x172c2b21c3c833b7, 0x240000040af53a70,
    0x94144a989ca1da94, 0x4ee1f6564c0aecde, 0xd9eda8fdd8825366,
    0xcc82a716746ed8a7, 0x34c6251ae87e6bb3, 0x384c59170517ce17,
    0x68a88aef569f2686, 0x62759f30dc98980c, 0x082b1f83e7adec44,
    0x94144a989ca1da95, 0x4ee1f6564c0aecde, 0xd9eda8fdd8825366,
    0xcc82a716746ed8a7, 0x34c6251ae87e6bb3, 0x384c59170517ce17,
    0x68a88aef569f2686, 0x62759f30dc98980c, 0x082b1f83e7adec44,
];

impl Fq6Config {
    /// `p` describes the target field.
    pub open spec fn describes(p: &QuadParams<Fq3>) -> bool {
        &&& Fq3Config::describes(&p.base)
        &&& Fq6::params_wf(p)
        &&& p.nonresidue.value() == (CubicExt { c0: 0nat, c1: 1nat, c2: 0nat })
        &&& p.frobenius@.len() == 6
        &&& forall|k: int|
            0 <= k < 6 ==> (#[trigger] p.frobenius@[k]).value() == (CubicExt {
                c0: entry_v(FROBENIUS_COEFF_FP6_C1@, k, &p.base.base),
                c1: 0nat,
                c2: 0nat,
            })
    }

    /// The description of the target field over the cubic extension `fq3`.
    pub fn params(fq3: CubicParams<Fp>) -> (r: QuadParams<Fq3>)
        requires
            Fq3Config::describes(&fq3),
        ensures
            Self::describes(&r),
            r.base == fq3,
    {
        let nonresidue = CubicExt {
            c0: Fp::zero(&fq3.base),
            c1: Fp::one(&fq3.base),
            c2: Fp::zero(&fq3.base),
        };
        let coefficients = fp_table(FROBENIUS_COEFF_FP6_C1.as_slice(), 6, &fq3.base);
        let mut frobenius: Vec<Fq3> = Vec::new();
        let mut i: usize = 0;
        while i < 6
            invariant
                i <= 6,
                Fq3Config::describes(&fq3),
                coefficients@.len() == 6,
                forall|k: int|
                    0 <= k < 6 ==> (#[trigger] coefficients@[k]).wf(&fq3.base)
                        && coefficients@[k].value() == entry_v(
                        FROBENIUS_COEFF_FP6_C1@,
                        k,
                        &fq3.base,
                    ),
                frobenius@.len() == i,
                forall|k: int|
                    0 <= k < i ==> (#[trigger] frobenius@[k]).wf(&fq3) && frobenius@[k].value() == (
                    CubicExt {
                        c0: entry_v(FROBENIUS_COEFF_FP6_C1@, k, &fq3.base),
                        c1: 0nat,
                        c2: 0nat,
                    }),
            decreases 6 - i,
        {
            let c0 = coefficients[i].dup(&fq3.base);
            frobenius.push(Fq3::from_base(c0, &fq3));
            i += 1;
        }
        QuadParams { base: fq3, nonresidue, frobenius }
    }
}

// ---- constants of the Frobenius map

/// The coefficient of the table for power 0 as a number.
proof fn lemma_c1_value_0(fq: &Modulus)
    requires
        is_fq(fq),
    ensures
        entry_v(FROBENIUS_COEFF_FP6_C1@, 0, fq) == 0x1nat,
{
    lemma_modulus_value();
    let n = fq.limbs@.len() as int;
    assert(0 * n == 0 && (0 + 1) * n == 9) by (nonlinear_arith)
        requires
            n == 9,
    ;
    lemma_val_nine_limbs(FROBENIUS_COEFF_FP6_C1@.subrange(0, 9));
}

/// The coefficient of the table for power 1 as a number.
proof fn lemma_c1_value_1(fq: &Modulus)
    requires
        is_fq(fq),
    ensures
        entry_v(FROBENIUS_COEFF_FP6_C1@, 1, fq) == 0x1bd4e08023474e2bb4b68bf0e72f9bab01a361253e9ccc36e964092dd43b807e69ce6b79a19e526b0ad237afd174146885461c273b3bcf5d96d4c5c9305d22d027574fef8dc36755nat,
{
    lemma_modulus_value();
    let n = fq.limbs@.len() as int;
    assert(1 * n == 9 && (1 + 1) * n == 18) by (nonlinear_arith)
        requires
            n == 9,
    ;
    lemma_val_nine_limbs(FROBENIUS_COEFF_FP6_C1@.subrange(9, 18));
}

/// The coefficient of the table for power 2 as a number.
proof fn lemma_c1_value_2(fq: &Modulus)
    requires
        is_fq(fq),
    ensures
        entry_v(FROBENIUS_COEFF_FP6_C1@, 2, fq) == 0x1bd4e08023474e2bb4b68bf0e72f9bab01a361253e9ccc36e964092dd43b807e69ce6b79a19e526b0ad237afd174146885461c273b3bcf5d96d4c5c9305d22d027574fef8dc36754nat,
{
    lemma_modulus_value();
    let n = fq.limbs@.len() as int;
    assert(2 * n == 18 && (2 + 1) * n == 27) by (nonlinear_arith)
        requires
            n == 9,
    ;
    lemma_val_nine_limbs(FROBENIUS_COEFF_FP6_C1@.subrange(18, 27));
}

/// The coefficient of the table for power 3 as a number.
proof fn lemma_c1_value_3(fq: &Modulus)
    requires
        is_fq(fq),
    ensures
        entry_v(FROBENIUS_COEFF_FP6_C1@, 3, fq) == 0x240000040af53a70172c2b21c3c833b76a4bec14953bf2bd21b06244d9534e959e9490948a1cbe1ed754dec645e2ed105f33c52513be22c3e5b6bc1f7c680faebb6b9a882a6541e8nat,
{
    lemma_modulus_value();
    let n = fq.limbs@.len() as int;
    assert(3 * n == 27 && (3 + 1) * n == 36) by (nonlinear_arith)
        requires
            n == 9,
    ;
    lemma_val_nine_limbs(FROBENIUS_COEFF_FP6_C1@.subrange(27, 36));
}

/// The coefficient of the table for power 4 as a number.
proof fn lemma_c1_value_4(fq: &Modulus)
    requires
        is_fq(fq),
    ensures
        entry_v(FROBENIUS_COEFF_FP6_C1@, 4, fq) == 0x82b1f83e7adec4462759f30dc98980c68a88aef569f2686384c59170517ce1734c6251ae87e6bb3cc82a716746ed8a7d9eda8fdd88253664ee1f6564c0aecde94144a989ca1da94nat,
{
    lemma_modulus_value();
    let n = fq.limbs@.len() as int;
    assert(4 * n == 36 && (4 + 1) * n == 45) by (nonlinear_arith)
        requires
            n == 9,
    ;
    lemma_val_nine_limbs(FROBENIUS_COEFF_FP6_C1@.subrange(36, 45));
}

/// The coefficient of the table for power 5 as a number.
proof fn lemma_c1_value_5(fq: &Modulus)
    requires
        is_fq(fq),
    ensures
        entry_v(FROBENIUS_COEFF_FP6_C1@, 5, fq) == 0x82b1f83e7adec4462759f30dc98980c68a88aef569f2686384c59170517ce1734c6251ae87e6bb3cc82a716746ed8a7d9eda8fdd88253664ee1f6564c0aecde94144a989ca1da95nat,
{
    lemma_modulus_value();
    let n = fq.limbs@.len() as int;
    assert(5 * n == 45 && (5 + 1) * n == 54) by (nonlinear_arith)
        requires
            n == 9,
    ;
    lemma_val_nine_limbs(FROBENIUS_COEFF_FP6_C1@.subrange(45, 54));
}

/// The products of the coefficients that the consistency of the table rests on.
proof fn lemma_table_numbers()
    ensures
        mul_mod(0x1nat, 0x1bd4e08023474e2bb4b68bf0e72f9bab01a361253e9ccc36e964092dd43b807e69ce6b79a19e526b0ad237afd174146885461c273b3bcf5d96d4c5c9305d22d027574fef8dc36755nat, 0x240000040af53a70172c2b21c3c833b76a4bec14953bf2bd21b06244d9534e959e9490948a1cbe1ed754dec645e2ed105f33c52513be22c3e5b6bc1f7c680faebb6b9a882a6541e9nat) == 0x1bd4e08023474e2bb4b68bf0e72f9bab01a361253e9ccc36e964092dd43b807e69ce6b79a19e526b0ad237afd174146885461c273b3bcf5d96d4c5c9305d22d027574fef8dc36755nat,
        mul_mod(0x1bd4e08023474e2bb4b68bf0e72f9bab01a361253e9ccc36e964092dd43b807e69ce6b79a19e526b0ad237afd174146885461c273b3bcf5d96d4c5c9305d22d027574fef8dc36755nat, 0x1bd4e08023474e2bb4b68bf0e72f9bab01a361253e9ccc36e964092dd43b807e69ce6b79a19e526b0ad237afd174146885461c273b3bcf5d96d4c5c9305d22d027574fef8dc36755nat, 0x240000040af53a70172c2b21c3c833b76a4bec14953bf2bd21b06244d9534e959e9490948a1cbe1ed754dec645e2ed105f33c52513be22c3e5b6bc1f7c680faebb6b9a882a6541e9nat) == 0x1bd4e08023474e2bb4b68bf0e72f9bab01a361253e9ccc36e964092dd43b807e69ce6b79a19e526b0ad237afd174146885461c273b3bcf5d96d4c5c9305d22d027574fef8dc36754nat,
        mul_mod(0x1bd4e08023474e2bb4b68bf0e72f9bab01a361253e9ccc36e964092dd43b807e69ce6b79a19e526b0ad237afd174146885461c273b3bcf5d96d4c5c9305d22d027574fef8dc36754nat, 0x1bd4e08023474e2bb4b68bf0e72f9bab01a361253e9ccc36e964092dd43b807e69ce6b79a19e526b0ad237afd174146885461c273b3bcf5d96d4c5c9305d22d027574fef8dc36755nat, 0x240000040af53a70172c2b21c3c833b76a4bec14953bf2bd21b06244d9534e959e9490948a1cbe1ed754dec645e2ed105f33c52513be22c3e5b6bc1f7c680faebb6b9a882a6541e9nat) == 0x240000040af53a70172c2b21c3c833b76a4bec14953bf2bd21b06244d9534e959e9490948a1cbe1ed754dec645e2ed105f33c52513be22c3e5b6bc1f7c680faebb6b9a882a6541e8nat,
        mul_mod(0x240000040af53a70172c2b21c3c833b76a4bec14953bf2bd21b06244d9534e959e9490948a1cbe1ed754dec645e2ed105f33c52513be22c3e5b6bc1f7c680faebb6b9a882a6541e8nat, 0x1bd4e08023474e2bb4b68bf0e72f9bab01a361253e9ccc36e964092dd43b807e69ce6b79a19e526b0ad237afd174146885461c273b3bcf5d96d4c5c9305d22d027574fef8dc36755nat, 0x240000040af53a70172c2b21c3c833b76a4bec14953bf2bd21b06244d9534e959e9490948a1cbe1ed754dec645e2ed105f33c52513be22c3e5b6bc1f7c680faebb6b9a882a6541e9nat) == 0x82b1f83e7adec4462759f30dc98980c68a88aef569f2686384c59170517ce1734c6251ae87e6bb3cc82a716746ed8a7d9eda8fdd88253664ee1f6564c0aecde94144a989ca1da94nat,
        mul_mod(0x82b1f83e7adec4462759f30dc98980c68a88aef569f2686384c59170517ce1734c6251ae87e6bb3cc82a716746ed8a7d9eda8fdd88253664ee1f6564c0aecde94144a989ca1da94nat, 0x1bd4e08023474e2bb4b68bf0e72f9bab01a361253e9ccc36e964092dd43b807e69ce6b79a19e526b0ad237afd174146885461c273b3bcf5d96d4c5c9305d22d027574fef8dc36755nat, 0x240000040af53a70172c2b21c3c833b76a4bec14953bf2bd21b06244d9534e959e9490948a1cbe1ed754dec645e2ed105f33c52513be22c3e5b6bc1f7c680faebb6b9a882a6541e9nat) == 0x82b1f83e7adec4462759f30dc98980c68a88aef569f2686384c59170517ce1734c6251ae87e6bb3cc82a716746ed8a7d9eda8fdd88253664ee1f6564c0aecde94144a989ca1da95nat,
        mul_mod(0x82b1f83e7adec4462759f30dc98980c68a88aef569f2686384c59170517ce1734c6251ae87e6bb3cc82a716746ed8a7d9eda8fdd88253664ee1f6564c0aecde94144a989ca1da95nat, 0x1bd4e08023474e2bb4b68bf0e72f9bab01a361253e9ccc36e964092dd43b807e69ce6b79a19e526b0ad237afd174146885461c273b3bcf5d96d4c5c9305d22d027574fef8dc36755nat, 0x240000040af53a70172c2b21c3c833b76a4bec14953bf2bd21b06244d9534e959e9490948a1cbe1ed754dec645e2ed105f33c52513be22c3e5b6bc1f7c680faebb6b9a882a6541e9nat) == 0x1nat,
{
    let q: nat = 0x240000040af53a70172c2b21c3c833b76a4bec14953bf2bd21b06244d9534e959e9490948a1cbe1ed754dec645e2ed105f33c52513be22c3e5b6bc1f7c680faebb6b9a882a6541e9nat;
    let a0: nat = 0x1nat;
    let b0: nat = 0x1bd4e08023474e2bb4b68bf0e72f9bab01a361253e9ccc36e964092dd43b807e69ce6b79a19e526b0ad237afd174146885461c273b3bcf5d96d4c5c9305d22d027574fef8dc36755nat;
    assert((a0 * b0) % q == 0x1bd4e08023474e2bb4b68bf0e72f9bab01a361253e9ccc36e964092dd43b807e69ce6b79a19e526b0ad237afd174146885461c273b3bcf5d96d4c5c9305d22d027574fef8dc36755nat) by (nonlinear_arith)
        requires
            a0 == 0x1nat,
            b0 == 0x1bd4e08023474e2bb4b68bf0e72f9bab01a361253e9ccc36e964092dd43b807e69ce6b79a19e526b0ad237afd174146885461c273b3bcf5d96d4c5c9305d22d027574fef8dc36755nat,
            q == 0x240000040af53a70172c2b21c3c833b76a4bec14953bf2bd21b06244d9534e959e9490948a1cbe1ed754dec645e2ed105f33c52513be22c3e5b6bc1f7c680faebb6b9a882a6541e9nat,
    ;
    let a1: nat = 0x1bd4e08023474e2bb4b68bf0e72f9bab01a361253e9ccc36e964092dd43b807e69ce6b79a19e526b0ad237afd174146885461c273b3bcf5d96d4c5c9305d22d027574fef8dc36755nat;
    let b1: nat = 0x1bd4e08023474e2bb4b68bf0e72f9bab01a361253e9ccc36e964092dd43b807e69ce6b79a19e526b0ad237afd174146885461c273b3bcf5d96d4c5c9305d22d027574fef8dc36755nat;
    assert((a1 * b1) % q == 0x1bd4e08023474e2bb4b68bf0e72f9bab01a361253e9ccc36e964092dd43b807e69ce6b79a19e526b0ad237afd174146885461c273b3bcf5d96d4c5c9305d22d027574fef8dc36754nat) by (nonlinear_arith)
        requires
            a1 == 0x1bd4e08023474e2bb4b68bf0e72f9bab01a361253e9ccc36e964092dd43b807e69ce6b79a19e526b0ad237afd174146885461c273b3bcf5d96d4c5c9305d22d027574fef8dc36755nat,
            b1 == 0x1bd4e08023474e2bb4b68bf0e72f9bab01a361253e9ccc36e964092dd43b807e69ce6b79a19e526b0ad237afd174146885461c273b3bcf5d96d4c5c9305d22d027574fef8dc36755nat,
            q == 0x240000040af53a70172c2b21c3c833b76a4bec14953bf2bd21b06244d9534e959e9490948a1cbe1ed754dec645e2ed105f33c52513be22c3e5b6bc1f7c680faebb6b9a882a6541e9nat,
    ;
    let a2: nat = 0x1bd4e08023474e2bb4b68bf0e72f9bab01a361253e9ccc36e964092dd43b807e69ce6b79a19e526b0ad237afd174146885461c273b3bcf5d96d4c5c9305d22d027574fef8dc36754nat;
    let b2: nat = 0x1bd4e08023474e2bb4b68bf0e72f9bab01a361253e9ccc36e964092dd43b807e69ce6b79a19e526b0ad237afd174146885461c273b3bcf5d96d4c5c9305d22d027574fef8dc36755nat;
    assert((a2 * b2) % q == 0x240000040af53a70172c2b21c3c833b76a4bec14953bf2bd21b06244d9534e959e9490948a1cbe1ed754dec645e2ed105f33c52513be22c3e5b6bc1f7c680faebb6b9a882a6541e8nat) by (nonlinear_arith)
        requires
            a2 == 0x1bd4e08023474e2bb4b68bf0e72f9bab01a361253e9ccc36e964092dd43b807e69ce6b79a19e526b0ad237afd174146885461c273b3bcf5d96d4c5c9305d22d027574fef8dc36754nat,
            b2 == 0x1bd4e08023474e2bb4b68bf0e72f9bab01a361253e9ccc36e964092dd43b807e69ce6b79a19e526b0ad237afd174146885461c273b3bcf5d96d4c5c9305d22d027574fef8dc36755nat,
            q == 0x240000040af53a70172c2b21c3c833b76a4bec14953bf2bd21b06244d9534e959e9490948a1cbe1ed754dec645e2ed105f33c52513be22c3e5b6bc1f7c680faebb6b9a882a6541e9nat,
    ;
    let a3: nat = 0x240000040af53a70172c2b21c3c833b76a4bec14953bf2bd21b06244d9534e959e9490948a1cbe1ed754dec645e2ed105f33c52513be22c3e5b6bc1f7c680faebb6b9a882a6541e8nat;
    let b3: nat = 0x1bd4e08023474e2bb4b68bf0e72f9bab01a361253e9ccc36e964092dd43b807e69ce6b79a19e526b0ad237afd174146885461c273b3bcf5d96d4c5c9305d22d027574fef8dc36755nat;
    assert((a3 * b3) % q == 0x82b1f83e7adec4462759f30dc98980c68a88aef569f2686384c59170517ce1734c6251ae87e6bb3cc82a716746ed8a7d9eda8fdd88253664ee1f6564c0aecde94144a989ca1da94nat) by (nonlinear_arith)
        requires
            a3 == 0x240000040af53a70172c2b21c3c833b76a4bec14953bf2bd21b06244d9534e959e9490948a1cbe1ed754dec645e2ed105f33c52513be22c3e5b6bc1f7c680faebb6b9a882a6541e8nat,
            b3 == 0x1bd4e08023474e2bb4b68bf0e72f9bab01a361253e9ccc36e964092dd43b807e69ce6b79a19e526b0ad237afd174146885461c273b3bcf5d96d4c5c9305d22d027574fef8dc36755nat,
            q == 0x240000040af53a70172c2b21c3c833b76a4bec14953bf2bd21b06244d9534e959e9490948a1cbe1ed754dec645e2ed105f33c52513be22c3e5b6bc1f7c680faebb6b9a882a6541e9nat,
    ;
    let a4: nat = 0x82b1f83e7adec4462759f30dc98980c68a88aef569f2686384c59170517ce1734c6251ae87e6bb3cc82a716746ed8a7d9eda8fdd88253664ee1f6564c0aecde94144a989ca1da94nat;
    let b4: nat = 0x1bd4e08023474e2bb4b68bf0e72f9bab01a361253e9ccc36e964092dd43b807e69ce6b79a19e526b0ad237afd174146885461c273b3bcf5d96d4c5c9305d22d027574fef8dc36755nat;
    assert((a4 * b4) % q == 0x82b1f83e7adec4462759f30dc98980c68a88aef569f2686384c59170517ce1734c6251ae87e6bb3cc82a716746ed8a7d9eda8fdd88253664ee1f6564c0aecde94144a989ca1da95nat) by (nonlinear_arith)
        requires
            a4 == 0x82b1f83e7adec4462759f30dc98980c68a88aef569f2686384c59170517ce1734c6251ae87e6bb3cc82a716746ed8a7d9eda8fdd88253664ee1f6564c0aecde94144a989ca1da94nat,
            b4 == 0x1bd4e08023474e2bb4b68bf0e72f9bab01a361253e9ccc36e964092dd43b807e69ce6b79a19e526b0ad237afd174146885461c273b3bcf5d96d4c5c9305d22d027574fef8dc36755nat,
            q == 0x240000040af53a70172c2b21c3c833b76a4bec14953bf2bd21b06244d9534e959e9490948a1cbe1ed754dec645e2ed105f33c52513be22c3e5b6bc1f7c680faebb6b9a882a6541e9nat,
    ;
    let a5: nat = 0x82b1f83e7adec4462759f30dc98980c68a88aef569f2686384c59170517ce1734c6251ae87e6bb3cc82a716746ed8a7d9eda8fdd88253664ee1f6564c0aecde94144a989ca1da95nat;
    let b5: nat = 0x1bd4e08023474e2bb4b68bf0e72f9bab01a361253e9ccc36e964092dd43b807e69ce6b79a19e526b0ad237afd174146885461c273b3bcf5d96d4c5c9305d22d027574fef8dc36755nat;
    assert((a5 * b5) % q == 0x1nat) by (nonlinear_arith)
        requires
            a5 == 0x82b1f83e7adec4462759f30dc98980c68a88aef569f2686384c59170517ce1734c6251ae87e6bb3cc82a716746ed8a7d9eda8fdd88253664ee1f6564c0aecde94144a989ca1da95nat,
            b5 == 0x1bd4e08023474e2bb4b68bf0e72f9bab01a361253e9ccc36e964092dd43b807e69ce6b79a19e526b0ad237afd174146885461c273b3bcf5d96d4c5c9305d22d027574fef8dc36755nat,
            q == 0x240000040af53a70172c2b21c3c833b76a4bec14953bf2bd21b06244d9534e959e9490948a1cbe1ed754dec645e2ed105f33c52513be22c3e5b6bc1f7c680faebb6b9a882a6541e9nat,
    ;
}

/// The table of the target field is consistent, and so are the tables below it.
pub proof fn lemma_tables_consistent(p: &QuadParams<Fq3>)
    requires
        Fq6Config::describes(p),
    ensures
        Fq6::tables_consistent(p),
{
    crate::yafa_108::fields::fq3::lemma_tables_consistent(&p.base);
    let fq = &p.base.base;
    let c = Seq::new(6, |k: int| entry_v(FROBENIUS_COEFF_FP6_C1@, k, fq));
    lemma_modulus_value();
    lemma_c1_value_0(fq);
    lemma_c1_value_1(fq);
    lemma_c1_value_2(fq);
    lemma_c1_value_3(fq);
    lemma_c1_value_4(fq);
    lemma_c1_value_5(fq);
    lemma_table_numbers();
    crate::yafa_108::fields::fq3::lemma_c1_value_1(fq);
    assert(p.base.frobenius_c1@[1].value() == entry_v(
        crate::yafa_108::fields::fq3::FROBENIUS_COEFF_FP3_C1@,
        1,
        fq,
    ));
    assert forall|k: int| 0 <= k < 6 implies Fp::in_field(#[trigger] c[k], fq) && p.frobenius@[k].value()
        == embed_v::<Fp>(c[k], fq) by {
    }
    assert forall|k: int| 0 <= k < 6 implies #[trigger] c[(k + 1) % 6] == Fp::mul_v(
        Fp::frobenius_v(c[k], 1, fq),
        c[1],
        fq,
    ) by {
    }
    lemma_quad_over_cubic_consistent::<Fp>(p, c);
}

} // verus!

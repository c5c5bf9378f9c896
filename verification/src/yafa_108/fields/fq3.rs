//! The cubic extension of the base field of Yafa-108.

use vstd::prelude::*;
use crate::fields::cubic::{CubicExt, CubicParams};
use crate::fields::field::Field;
use crate::fields::prime::{entry_v, fp_table, Fp};
use crate::bigint::lemma_val_nine_limbs;
use crate::fields::frobenius::FrobeniusLaws;
use crate::modular::{mul_mod, Modulus};
use crate::yafa_108::fields::fq::{is_fq, lemma_modulus_value, modulus_value};

verus! {

/// An element of the cubic extension `Fq[u] / (u^3 - 11)`.
pub type Fq3 = CubicExt<Fp>;

/// The configuration of the cubic extension.
pub struct Fq3Config;

/// NONRESIDUE = 11
/// It means that (x^3 - 11) is irreducible over the base field.
/// We also need "u" to be a nonresidue so it can be the twist.
pub const NONRESIDUE: u64 = 11;

/// NQR = 11
/// NQR ^ ((q^0 - 1) / 3) = 1
/// NQR ^ ((q^1 - 1) / 3) =
/// 268890179105064951563200581295687725666539338344808882508513578657174741046275944006637184
/// 11564763129536634204743601058030506421687843844062271438195269332524424351101183828
/// NQR ^ ((q^2 - 1) / 3) =
/// 789182002945815376046333377952906590006022337506862570589030380270260642276911118993390371
/// 2579664581217514620699178559520642750983460643979247817048104789503567679423896212
pub const FROBENIUS_COEFF_FP3_C1: [u64; 27] = [
    0x0000000000000001, 0x0000000000000000, 0x0000000000000000,
    0x0000000000000000, 0x0000000000000000, 0x0000000000000000,
    0x0000000000000000, 0x0000000000000000, 0x0000000000000000,
    0x27574fef8dc36754, 0x96d4c5c9305d22d0, 0x85461c273b3bcf5d,
    0x0ad237afd1741468, 0x69ce6b79a19e526b, 0xe964092dd43b807e,
    0x01a361253e9ccc36, 0xb4b68bf0e72f9bab, 0x1bd4e08023474e2b,
    0x94144a989ca1da94, 0x4ee1f6564c0aecde, 0xd9eda8fdd8825366,
    0xcc82a716746ed8a7, 0x34c6251ae87e6bb3, 0x384c59170517ce17,
    0x68a88aef569f2686, 0x62759f30dc98980c, 0x082b1f83e7adec44,
];

/// NQR ^ (2 * (q^0 - 1) / 3) = 1,
/// NQR ^ (2 * (q^1 - 1) / 3) = NQR ^ ((q^2 - 1) / 3),
/// NQR ^ (2 * (q^2 - 1) / 3) = NQR ^ ((q^1 - 1) / 3).
pub const FROBENIUS_COEFF_FP3_C2: [u64; 27] = [
    0x0000000000000001, 0x0000000000000000, 0x0000000000000000,
    0x0000000000000000, 0x0000000000000000, 0x0000000000000000,
    0x0000000000000000, 0x0000000000000000, 0x0000000000000000,
    0x94144a989ca1da94, 0x4ee1f6564c0aecde, 0xd9eda8fdd8825366,
    0xcc82a716746ed8a7, 0x34c6251ae87e6bb3, 0x384c59170517ce17,
    0x68a88aef569f2686, 0x62759f30dc98980c, 0x082b1f83e7adec44,
    0x27574fef8dc36754, 0x96d4c5c9305d22d0, 0x85461c273b3bcf5d,
    0x0ad237afd1741468, 0x69ce6b79a19e526b, 0xe964092dd43b807e,
    0x01a361253e9ccc36, 0xb4b68bf0e72f9bab, 0x1bd4e08023474e2b,
];

impl Fq3Config {
    /// `p` describes the cubic extension.
    pub open spec fn describes(p: &CubicParams<Fp>) -> bool {
        &&& is_fq(&p.base)
        &&& Fq3::params_wf(p)
        &&& p.nonresidue.value() == NONRESIDUE as nat % p.base.value()
        &&& p.frobenius_c1@.len() == 3
        &&& p.frobenius_c2@.len() == 3
        &&& forall|k: int|
            0 <= k < 3 ==> (#[trigger] p.frobenius_c1@[k]).value() == entry_v(
                FROBENIUS_COEFF_FP3_C1@,
                k,
                &p.base,
            )
        &&& forall|k: int|
            0 <= k < 3 ==> (#[trigger] p.frobenius_c2@[k]).value() == entry_v(
                FROBENIUS_COEFF_FP3_C2@,
                k,
                &p.base,
            )
    }

    /// The description of the cubic extension of the base field `fq`.
    pub fn params(fq: Modulus) -> (r: CubicParams<Fp>)
        requires
            is_fq(&fq),
        ensures
            Self::describes(&r),
            r.base == fq,
    {
        let nonresidue = Fp::from_u64(NONRESIDUE, &fq);
        let frobenius_c1 = fp_table(FROBENIUS_COEFF_FP3_C1.as_slice(), 3, &fq);
        let frobenius_c2 = fp_table(FROBENIUS_COEFF_FP3_C2.as_slice(), 3, &fq);
        CubicParams { base: fq, nonresidue, frobenius_c1, frobenius_c2 }
    }
}

// ---- constants of the Frobenius map

/// The coefficient of the first table for power 0 as a number.
proof fn lemma_c1_value_0(fq: &Modulus)
    requires
        is_fq(fq),
    ensures
        entry_v(FROBENIUS_COEFF_FP3_C1@, 0, fq) == 0x1nat,
{
    lemma_modulus_value();
    let n = fq.limbs@.len() as int;
    assert(0 * n == 0 && (0 + 1) * n == 9) by (nonlinear_arith)
        requires
            n == 9,
    ;
    lemma_val_nine_limbs(FROBENIUS_COEFF_FP3_C1@.subrange(0, 9));
}

/// The coefficient of the first table for power 1 as a number.
pub proof fn lemma_c1_value_1(fq: &Modulus)
    requires
        is_fq(fq),
    ensures
        entry_v(FROBENIUS_COEFF_FP3_C1@, 1, fq) == 0x1bd4e08023474e2bb4b68bf0e72f9bab01a361253e9ccc36e964092dd43b807e69ce6b79a19e526b0ad237afd174146885461c273b3bcf5d96d4c5c9305d22d027574fef8dc36754nat,
{
    lemma_modulus_value();
    let n = fq.limbs@.len() as int;
    assert(1 * n == 9 && (1 + 1) * n == 18) by (nonlinear_arith)
        requires
            n == 9,
    ;
    lemma_val_nine_limbs(FROBENIUS_COEFF_FP3_C1@.subrange(9, 18));
}

/// The coefficient of the first table for power 2 as a number.
proof fn lemma_c1_value_2(fq: &Modulus)
    requires
        is_fq(fq),
    ensures
        entry_v(FROBENIUS_COEFF_FP3_C1@, 2, fq) == 0x82b1f83e7adec4462759f30dc98980c68a88aef569f2686384c59170517ce1734c6251ae87e6bb3cc82a716746ed8a7d9eda8fdd88253664ee1f6564c0aecde94144a989ca1da94nat,
{
    lemma_modulus_value();
    let n = fq.limbs@.len() as int;
    assert(2 * n == 18 && (2 + 1) * n == 27) by (nonlinear_arith)
        requires
            n == 9,
    ;
    lemma_val_nine_limbs(FROBENIUS_COEFF_FP3_C1@.subrange(18, 27));
}

/// The coefficient of the second table for power 0 as a number.
proof fn lemma_c2_value_0(fq: &Modulus)
    requires
        is_fq(fq),
    ensures
        entry_v(FROBENIUS_COEFF_FP3_C2@, 0, fq) == 0x1nat,
{
    lemma_modulus_value();
    let n = fq.limbs@.len() as int;
    assert(0 * n == 0 && (0 + 1) * n == 9) by (nonlinear_arith)
        requires
            n == 9,
    ;
    lemma_val_nine_limbs(FROBENIUS_COEFF_FP3_C2@.subrange(0, 9));
}

/// The coefficient of the second table for power 1 as a number.
proof fn lemma_c2_value_1(fq: &Modulus)
    requires
        is_fq(fq),
    ensures
        entry_v(FROBENIUS_COEFF_FP3_C2@, 1, fq) == 0x82b1f83e7adec4462759f30dc98980c68a88aef569f2686384c59170517ce1734c6251ae87e6bb3cc82a716746ed8a7d9eda8fdd88253664ee1f6564c0aecde94144a989ca1da94nat,
{
    lemma_modulus_value();
    let n = fq.limbs@.len() as int;
    assert(1 * n == 9 && (1 + 1) * n == 18) by (nonlinear_arith)
        requires
            n == 9,
    ;
    lemma_val_nine_limbs(FROBENIUS_COEFF_FP3_C2@.subrange(9, 18));
}

/// The coefficient of the second table for power 2 as a number.
proof fn lemma_c2_value_2(fq: &Modulus)
    requires
        is_fq(fq),
    ensures
        entry_v(FROBENIUS_COEFF_FP3_C2@, 2, fq) == 0x1bd4e08023474e2bb4b68bf0e72f9bab01a361253e9ccc36e964092dd43b807e69ce6b79a19e526b0ad237afd174146885461c273b3bcf5d96d4c5c9305d22d027574fef8dc36754nat,
{
    lemma_modulus_value();
    let n = fq.limbs@.len() as int;
    assert(2 * n == 18 && (2 + 1) * n == 27) by (nonlinear_arith)
        requires
            n == 9,
    ;
    lemma_val_nine_limbs(FROBENIUS_COEFF_FP3_C2@.subrange(18, 27));
}

/// The products of the coefficients that the consistency of the tables rests on.
proof fn lemma_table_numbers()
    ensures
        mul_mod(0x1nat, 0x1bd4e08023474e2bb4b68bf0e72f9bab01a361253e9ccc36e964092dd43b807e69ce6b79a19e526b0ad237afd174146885461c273b3bcf5d96d4c5c9305d22d027574fef8dc36754nat, 0x240000040af53a70172c2b21c3c833b76a4bec14953bf2bd21b06244d9534e959e9490948a1cbe1ed754dec645e2ed105f33c52513be22c3e5b6bc1f7c680faebb6b9a882a6541e9nat) == 0x1bd4e08023474e2bb4b68bf0e72f9bab01a361253e9ccc36e964092dd43b807e69ce6b79a19e526b0ad237afd174146885461c273b3bcf5d96d4c5c9305d22d027574fef8dc36754nat,
        mul_mod(0x1bd4e08023474e2bb4b68bf0e72f9bab01a361253e9ccc36e964092dd43b807e69ce6b79a19e526b0ad237afd174146885461c273b3bcf5d96d4c5c9305d22d027574fef8dc36754nat, 0x1bd4e08023474e2bb4b68bf0e72f9bab01a361253e9ccc36e964092dd43b807e69ce6b79a19e526b0ad237afd174146885461c273b3bcf5d96d4c5c9305d22d027574fef8dc36754nat, 0x240000040af53a70172c2b21c3c833b76a4bec14953bf2bd21b06244d9534e959e9490948a1cbe1ed754dec645e2ed105f33c52513be22c3e5b6bc1f7c680faebb6b9a882a6541e9nat) == 0x82b1f83e7adec4462759f30dc98980c68a88aef569f2686384c59170517ce1734c6251ae87e6bb3cc82a716746ed8a7d9eda8fdd88253664ee1f6564c0aecde94144a989ca1da94nat,
        mul_mod(0x82b1f83e7adec4462759f30dc98980c68a88aef569f2686384c59170517ce1734c6251ae87e6bb3cc82a716746ed8a7d9eda8fdd88253664ee1f6564c0aecde94144a989ca1da94nat, 0x1bd4e08023474e2bb4b68bf0e72f9bab01a361253e9ccc36e964092dd43b807e69ce6b79a19e526b0ad237afd174146885461c273b3bcf5d96d4c5c9305d22d027574fef8dc36754nat, 0x240000040af53a70172c2b21c3c833b76a4bec14953bf2bd21b06244d9534e959e9490948a1cbe1ed754dec645e2ed105f33c52513be22c3e5b6bc1f7c680faebb6b9a882a6541e9nat) == 0x1nat,
        mul_mod(0x1nat, 0x82b1f83e7adec4462759f30dc98980c68a88aef569f2686384c59170517ce1734c6251ae87e6bb3cc82a716746ed8a7d9eda8fdd88253664ee1f6564c0aecde94144a989ca1da94nat, 0x240000040af53a70172c2b21c3c833b76a4bec14953bf2bd21b06244d9534e959e9490948a1cbe1ed754dec645e2ed105f33c52513be22c3e5b6bc1f7c680faebb6b9a882a6541e9nat) == 0x82b1f83e7adec4462759f30dc98980c68a88aef569f2686384c59170517ce1734c6251ae87e6bb3cc82a716746ed8a7d9eda8fdd88253664ee1f6564c0aecde94144a989ca1da94nat,
        mul_mod(0x82b1f83e7adec4462759f30dc98980c68a88aef569f2686384c59170517ce1734c6251ae87e6bb3cc82a716746ed8a7d9eda8fdd88253664ee1f6564c0aecde94144a989ca1da94nat, 0x82b1f83e7adec4462759f30dc98980c68a88aef569f2686384c59170517ce1734c6251ae87e6bb3cc82a716746ed8a7d9eda8fdd88253664ee1f6564c0aecde94144a989ca1da94nat, 0x240000040af53a70172c2b21c3c833b76a4bec14953bf2bd21b06244d9534e959e9490948a1cbe1ed754dec645e2ed105f33c52513be22c3e5b6bc1f7c680faebb6b9a882a6541e9nat) == 0x1bd4e08023474e2bb4b68bf0e72f9bab01a361253e9ccc36e964092dd43b807e69ce6b79a19e526b0ad237afd174146885461c273b3bcf5d96d4c5c9305d22d027574fef8dc36754nat,
        mul_mod(0x1bd4e08023474e2bb4b68bf0e72f9bab01a361253e9ccc36e964092dd43b807e69ce6b79a19e526b0ad237afd174146885461c273b3bcf5d96d4c5c9305d22d027574fef8dc36754nat, 0x82b1f83e7adec4462759f30dc98980c68a88aef569f2686384c59170517ce1734c6251ae87e6bb3cc82a716746ed8a7d9eda8fdd88253664ee1f6564c0aecde94144a989ca1da94nat, 0x240000040af53a70172c2b21c3c833b76a4bec14953bf2bd21b06244d9534e959e9490948a1cbe1ed754dec645e2ed105f33c52513be22c3e5b6bc1f7c680faebb6b9a882a6541e9nat) == 0x1nat,
        mul_mod(0x1bd4e08023474e2bb4b68bf0e72f9bab01a361253e9ccc36e964092dd43b807e69ce6b79a19e526b0ad237afd174146885461c273b3bcf5d96d4c5c9305d22d027574fef8dc36754nat, 0x82b1f83e7adec4462759f30dc98980c68a88aef569f2686384c59170517ce1734c6251ae87e6bb3cc82a716746ed8a7d9eda8fdd88253664ee1f6564c0aecde94144a989ca1da94nat, 0x240000040af53a70172c2b21c3c833b76a4bec14953bf2bd21b06244d9534e959e9490948a1cbe1ed754dec645e2ed105f33c52513be22c3e5b6bc1f7c680faebb6b9a882a6541e9nat) == 0x1nat,
        mul_mod(0xbnat, 0x1nat, 0x240000040af53a70172c2b21c3c833b76a4bec14953bf2bd21b06244d9534e959e9490948a1cbe1ed754dec645e2ed105f33c52513be22c3e5b6bc1f7c680faebb6b9a882a6541e9nat) == 0xbnat,
{
    let q: nat = 0x240000040af53a70172c2b21c3c833b76a4bec14953bf2bd21b06244d9534e959e9490948a1cbe1ed754dec645e2ed105f33c52513be22c3e5b6bc1f7c680faebb6b9a882a6541e9nat;
    let a0: nat = 0x1nat;
    let b0: nat = 0x1bd4e08023474e2bb4b68bf0e72f9bab01a361253e9ccc36e964092dd43b807e69ce6b79a19e526b0ad237afd174146885461c273b3bcf5d96d4c5c9305d22d027574fef8dc36754nat;
    assert((a0 * b0) % q == 0x1bd4e08023474e2bb4b68bf0e72f9bab01a361253e9ccc36e964092dd43b807e69ce6b79a19e526b0ad237afd174146885461c273b3bcf5d96d4c5c9305d22d027574fef8dc36754nat) by (nonlinear_arith)
        requires
            a0 == 0x1nat,
            b0 == 0x1bd4e08023474e2bb4b68bf0e72f9bab01a361253e9ccc36e964092dd43b807e69ce6b79a19e526b0ad237afd174146885461c273b3bcf5d96d4c5c9305d22d027574fef8dc36754nat,
            q == 0x240000040af53a70172c2b21c3c833b76a4bec14953bf2bd21b06244d9534e959e9490948a1cbe1ed754dec645e2ed105f33c52513be22c3e5b6bc1f7c680faebb6b9a882a6541e9nat,
    ;
    let a1: nat = 0x1bd4e08023474e2bb4b68bf0e72f9bab01a361253e9ccc36e964092dd43b807e69ce6b79a19e526b0ad237afd174146885461c273b3bcf5d96d4c5c9305d22d027574fef8dc36754nat;
    let b1: nat = 0x1bd4e08023474e2bb4b68bf0e72f9bab01a361253e9ccc36e964092dd43b807e69ce6b79a19e526b0ad237afd174146885461c273b3bcf5d96d4c5c9305d22d027574fef8dc36754nat;
    assert((a1 * b1) % q == 0x82b1f83e7adec4462759f30dc98980c68a88aef569f2686384c59170517ce1734c6251ae87e6bb3cc82a716746ed8a7d9eda8fdd88253664ee1f6564c0aecde94144a989ca1da94nat) by (nonlinear_arith)
        requires
            a1 == 0x1bd4e08023474e2bb4b68bf0e72f9bab01a361253e9ccc36e964092dd43b807e69ce6b79a19e526b0ad237afd174146885461c273b3bcf5d96d4c5c9305d22d027574fef8dc36754nat,
            b1 == 0x1bd4e08023474e2bb4b68bf0e72f9bab01a361253e9ccc36e964092dd43b807e69ce6b79a19e526b0ad237afd174146885461c273b3bcf5d96d4c5c9305d22d027574fef8dc36754nat,
            q == 0x240000040af53a70172c2b21c3c833b76a4bec14953bf2bd21b06244d9534e959e9490948a1cbe1ed754dec645e2ed105f33c52513be22c3e5b6bc1f7c680faebb6b9a882a6541e9nat,
    ;
    let a2: nat = 0x82b1f83e7adec4462759f30dc98980c68a88aef569f2686384c59170517ce1734c6251ae87e6bb3cc82a716746ed8a7d9eda8fdd88253664ee1f6564c0aecde94144a989ca1da94nat;
    let b2: nat = 0x1bd4e08023474e2bb4b68bf0e72f9bab01a361253e9ccc36e964092dd43b807e69ce6b79a19e526b0ad237afd174146885461c273b3bcf5d96d4c5c9305d22d027574fef8dc36754nat;
    assert((a2 * b2) % q == 0x1nat) by (nonlinear_arith)
        requires
            a2 == 0x82b1f83e7adec4462759f30dc98980c68a88aef569f2686384c59170517ce1734c6251ae87e6bb3cc82a716746ed8a7d9eda8fdd88253664ee1f6564c0aecde94144a989ca1da94nat,
            b2 == 0x1bd4e08023474e2bb4b68bf0e72f9bab01a361253e9ccc36e964092dd43b807e69ce6b79a19e526b0ad237afd174146885461c273b3bcf5d96d4c5c9305d22d027574fef8dc36754nat,
            q == 0x240000040af53a70172c2b21c3c833b76a4bec14953bf2bd21b06244d9534e959e9490948a1cbe1ed754dec645e2ed105f33c52513be22c3e5b6bc1f7c680faebb6b9a882a6541e9nat,
    ;
    let a3: nat = 0x1nat;
    let b3: nat = 0x82b1f83e7adec4462759f30dc98980c68a88aef569f2686384c59170517ce1734c6251ae87e6bb3cc82a716746ed8a7d9eda8fdd88253664ee1f6564c0aecde94144a989ca1da94nat;
    assert((a3 * b3) % q == 0x82b1f83e7adec4462759f30dc98980c68a88aef569f2686384c59170517ce1734c6251ae87e6bb3cc82a716746ed8a7d9eda8fdd88253664ee1f6564c0aecde94144a989ca1da94nat) by (nonlinear_arith)
        requires
            a3 == 0x1nat,
            b3 == 0x82b1f83e7adec4462759f30dc98980c68a88aef569f2686384c59170517ce1734c6251ae87e6bb3cc82a716746ed8a7d9eda8fdd88253664ee1f6564c0aecde94144a989ca1da94nat,
            q == 0x240000040af53a70172c2b21c3c833b76a4bec14953bf2bd21b06244d9534e959e9490948a1cbe1ed754dec645e2ed105f33c52513be22c3e5b6bc1f7c680faebb6b9a882a6541e9nat,
    ;
    let a4: nat = 0x82b1f83e7adec4462759f30dc98980c68a88aef569f2686384c59170517ce1734c6251ae87e6bb3cc82a716746ed8a7d9eda8fdd88253664ee1f6564c0aecde94144a989ca1da94nat;
    let b4: nat = 0x82b1f83e7adec4462759f30dc98980c68a88aef569f2686384c59170517ce1734c6251ae87e6bb3cc82a716746ed8a7d9eda8fdd88253664ee1f6564c0aecde94144a989ca1da94nat;
    assert((a4 * b4) % q == 0x1bd4e08023474e2bb4b68bf0e72f9bab01a361253e9ccc36e964092dd43b807e69ce6b79a19e526b0ad237afd174146885461c273b3bcf5d96d4c5c9305d22d027574fef8dc36754nat) by (nonlinear_arith)
        requires
            a4 == 0x82b1f83e7adec4462759f30dc98980c68a88aef569f2686384c59170517ce1734c6251ae87e6bb3cc82a716746ed8a7d9eda8fdd88253664ee1f6564c0aecde94144a989ca1da94nat,
            b4 == 0x82b1f83e7adec4462759f30dc98980c68a88aef569f2686384c59170517ce1734c6251ae87e6bb3cc82a716746ed8a7d9eda8fdd88253664ee1f6564c0aecde94144a989ca1da94nat,
            q == 0x240000040af53a70172c2b21c3c833b76a4bec14953bf2bd21b06244d9534e959e9490948a1cbe1ed754dec645e2ed105f33c52513be22c3e5b6bc1f7c680faebb6b9a882a6541e9nat,
    ;
    let a5: nat = 0x1bd4e08023474e2bb4b68bf0e72f9bab01a361253e9ccc36e964092dd43b807e69ce6b79a19e526b0ad237afd174146885461c273b3bcf5d96d4c5c9305d22d027574fef8dc36754nat;
    let b5: nat = 0x82b1f83e7adec4462759f30dc98980c68a88aef569f2686384c59170517ce1734c6251ae87e6bb3cc82a716746ed8a7d9eda8fdd88253664ee1f6564c0aecde94144a989ca1da94nat;
    assert((a5 * b5) % q == 0x1nat) by (nonlinear_arith)
        requires
            a5 == 0x1bd4e08023474e2bb4b68bf0e72f9bab01a361253e9ccc36e964092dd43b807e69ce6b79a19e526b0ad237afd174146885461c273b3bcf5d96d4c5c9305d22d027574fef8dc36754nat,
            b5 == 0x82b1f83e7adec4462759f30dc98980c68a88aef569f2686384c59170517ce1734c6251ae87e6bb3cc82a716746ed8a7d9eda8fdd88253664ee1f6564c0aecde94144a989ca1da94nat,
            q == 0x240000040af53a70172c2b21c3c833b76a4bec14953bf2bd21b06244d9534e959e9490948a1cbe1ed754dec645e2ed105f33c52513be22c3e5b6bc1f7c680faebb6b9a882a6541e9nat,
    ;
    let a6: nat = 0x1bd4e08023474e2bb4b68bf0e72f9bab01a361253e9ccc36e964092dd43b807e69ce6b79a19e526b0ad237afd174146885461c273b3bcf5d96d4c5c9305d22d027574fef8dc36754nat;
    let b6: nat = 0x82b1f83e7adec4462759f30dc98980c68a88aef569f2686384c59170517ce1734c6251ae87e6bb3cc82a716746ed8a7d9eda8fdd88253664ee1f6564c0aecde94144a989ca1da94nat;
    assert((a6 * b6) % q == 0x1nat) by (nonlinear_arith)
        requires
            a6 == 0x1bd4e08023474e2bb4b68bf0e72f9bab01a361253e9ccc36e964092dd43b807e69ce6b79a19e526b0ad237afd174146885461c273b3bcf5d96d4c5c9305d22d027574fef8dc36754nat,
            b6 == 0x82b1f83e7adec4462759f30dc98980c68a88aef569f2686384c59170517ce1734c6251ae87e6bb3cc82a716746ed8a7d9eda8fdd88253664ee1f6564c0aecde94144a989ca1da94nat,
            q == 0x240000040af53a70172c2b21c3c833b76a4bec14953bf2bd21b06244d9534e959e9490948a1cbe1ed754dec645e2ed105f33c52513be22c3e5b6bc1f7c680faebb6b9a882a6541e9nat,
    ;
    let a7: nat = 0xbnat;
    let b7: nat = 0x1nat;
    assert((a7 * b7) % q == 0xbnat) by (nonlinear_arith)
        requires
            a7 == 0xbnat,
            b7 == 0x1nat,
            q == 0x240000040af53a70172c2b21c3c833b76a4bec14953bf2bd21b06244d9534e959e9490948a1cbe1ed754dec645e2ed105f33c52513be22c3e5b6bc1f7c680faebb6b9a882a6541e9nat,
    ;
}

/// The tables of the cubic extension are consistent.
pub proof fn lemma_tables_consistent(p: &CubicParams<Fp>)
    requires
        Fq3Config::describes(p),
    ensures
        Fq3::tables_consistent(p),
{
    let fq = &p.base;
    lemma_modulus_value();
    lemma_c1_value_0(fq);
    lemma_c1_value_1(fq);
    lemma_c1_value_2(fq);
    lemma_c2_value_0(fq);
    lemma_c2_value_1(fq);
    lemma_c2_value_2(fq);
    lemma_table_numbers();
    vstd::arithmetic::div_mod::lemma_small_mod(11, modulus_value());
    assert(p.frobenius_c1@[0].value() == entry_v(FROBENIUS_COEFF_FP3_C1@, 0, fq));
    assert(p.frobenius_c1@[1].value() == entry_v(FROBENIUS_COEFF_FP3_C1@, 1, fq));
    assert(p.frobenius_c1@[2].value() == entry_v(FROBENIUS_COEFF_FP3_C1@, 2, fq));
    assert(p.frobenius_c2@[0].value() == entry_v(FROBENIUS_COEFF_FP3_C2@, 0, fq));
    assert(p.frobenius_c2@[1].value() == entry_v(FROBENIUS_COEFF_FP3_C2@, 1, fq));
    assert(p.frobenius_c2@[2].value() == entry_v(FROBENIUS_COEFF_FP3_C2@, 2, fq));
    assert forall|k: int| 0 <= k < 3 implies (#[trigger] p.frobenius_c1@[(k + 1) % 3]).value()
        == Fp::mul_v(
        Fp::frobenius_v(p.frobenius_c1@[k].value(), 1, fq),
        p.frobenius_c1@[1].value(),
        fq,
    ) by {
        if k == 0 {
            assert(p.frobenius_c1@[(k + 1) % 3] == p.frobenius_c1@[1]);
        } else if k == 1 {
            assert(p.frobenius_c1@[(k + 1) % 3] == p.frobenius_c1@[2]);
        } else {
            assert(p.frobenius_c1@[(k + 1) % 3] == p.frobenius_c1@[0]);
        }
    }
    assert forall|k: int| 0 <= k < 3 implies (#[trigger] p.frobenius_c2@[(k + 1) % 3]).value()
        == Fp::mul_v(
        Fp::frobenius_v(p.frobenius_c2@[k].value(), 1, fq),
        p.frobenius_c2@[1].value(),
        fq,
    ) by {
        if k == 0 {
            assert(p.frobenius_c2@[(k + 1) % 3] == p.frobenius_c2@[1]);
        } else if k == 1 {
            assert(p.frobenius_c2@[(k + 1) % 3] == p.frobenius_c2@[2]);
        } else {
            assert(p.frobenius_c2@[(k + 1) % 3] == p.frobenius_c2@[0]);
        }
    }
}

} // verus!

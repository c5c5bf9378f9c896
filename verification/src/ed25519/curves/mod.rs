//! Curve25519 in its twisted Edwards form `-x^2 + y^2 = 1 + d x^2 y^2`.

use vstd::prelude::*;
use crate::bigint::{limbs_from_slice, limbs_val};
use crate::curves::twisted_edwards::{TeAffine, TeCurve, TeProjective};
use crate::ed25519::fields::fq::is_fq;
use crate::ed25519::fields::fr::is_fr;
use crate::fields::field::Field;
use crate::fields::prime::Fp;
use crate::modular::Modulus;

verus! {

/// A point of the curve, in affine coordinates.
pub type EdwardsAffine = TeAffine<Fp>;

/// A point of the curve, in extended coordinates.
pub type EdwardsProjective = TeProjective<Fp>;

/// The parameters of the curve.
pub struct EdwardsParameters;

/// COEFF_A = -1
pub const COEFF_A: [u64; 4] = [
    0xffffffffffffffec, 0xffffffffffffffff, 0xffffffffffffffff,
    0x7fffffffffffffff,
];

/// COEFF_D = -121665 / 121666 =
/// 37095705934669439343138083508754565189542113879843219016388785533085940283555
pub const COEFF_D: [u64; 4] = [
    0x75eb4dca135978a3, 0x00700a4d4141d8ab, 0x8cc740797779e898,
    0x52036cee2b6ffe73,
];

/// COFACTOR = 8
pub const COFACTOR: [u64; 1] = [8];

/// COFACTOR^(-1) mod r =
/// 2713877091499598330239944961141122840321418634767465352250731601857045344121
pub const COFACTOR_INV: [u64; 4] = [
    0x6106e529e2dc2f79, 0x07d39db37d1cdad0, 0x0000000000000000,
    0x0600000000000000,
];

/// GENERATOR_X =
/// 15112221349535400772501151409588531511454012693041857206046113283949847762202
pub const GENERATOR_X: [u64; 4] = [
    0xc9562d608f25d51a, 0x692cc7609525a7b2, 0xc0a4e231fdd6dc5c,
    0x216936d3cd6e53fe,
];

/// GENERATOR_Y = 4 / 5 =
/// 46316835694926478169428394003475163141307993866256225615783033603165251855960
pub const GENERATOR_Y: [u64; 4] = [
    0x6666666666666658, 0x6666666666666666, 0x6666666666666666,
    0x6666666666666666,
];

/// The coefficient `A` of the Montgomery form of the curve.
pub const MONTGOMERY_COEFF_A: u64 = 486662;

/// The coefficient `B` of the Montgomery form of the curve, -486664.
/// It is not 1: this Montgomery curve is not Curve25519 itself.
pub const MONTGOMERY_COEFF_B: [u64; 4] = [
    0xfffffffffff892e5, 0xffffffffffffffff, 0xffffffffffffffff,
    0x7fffffffffffffff,
];

impl EdwardsParameters {
    /// `c` is the curve over the base field `fq`.
    pub open spec fn describes(c: &TeCurve<Fp>, fq: &Modulus) -> bool {
        &&& is_fq(fq)
        &&& c.wf(fq)
        &&& c.a.value() == limbs_val(COEFF_A@) % fq.value()
        &&& c.d.value() == limbs_val(COEFF_D@) % fq.value()
    }

    /// The generator of the subgroup of prime order.
    pub open spec fn generator_v(fq: &Modulus) -> TeAffine<nat> {
        TeAffine {
            x: limbs_val(GENERATOR_X@) % fq.value(),
            y: limbs_val(GENERATOR_Y@) % fq.value(),
        }
    }

    /// The curve.
    pub fn curve(fq: &Modulus) -> (r: TeCurve<Fp>)
        requires
            is_fq(fq),
        ensures
            Self::describes(&r, fq),
    {
        TeCurve {
            a: Fp::from_slice(COEFF_A.as_slice(), fq),
            d: Fp::from_slice(COEFF_D.as_slice(), fq),
        }
    }

    /// The generator of the subgroup of prime order.
    pub fn prime_subgroup_generator(fq: &Modulus) -> (r: EdwardsAffine)
        requires
            is_fq(fq),
        ensures
            r.wf(fq),
            r.value() == Self::generator_v(fq),
    {
        TeAffine {
            x: Fp::from_slice(GENERATOR_X.as_slice(), fq),
            y: Fp::from_slice(GENERATOR_Y.as_slice(), fq),
        }
    }

    /// The cofactor of the subgroup of prime order in the curve.
    pub fn cofactor() -> (r: Vec<u64>)
        ensures
            r@ == COFACTOR@,
    {
        let r = limbs_from_slice(COFACTOR.as_slice(), 0, 1);
        assert(r@ =~= COFACTOR@);
        r
    }

    /// The inverse of the cofactor in the scalar field.
    pub fn cofactor_inv(fr: &Modulus) -> (r: Fp)
        requires
            is_fr(fr),
        ensures
            r.wf(fr),
            r.value() == limbs_val(COFACTOR_INV@) % fr.value(),
    {
        Fp::from_slice(COFACTOR_INV.as_slice(), fr)
    }

    /// The coefficient `A` of the Montgomery form of the curve.
    pub fn montgomery_coeff_a(fq: &Modulus) -> (r: Fp)
        requires
            is_fq(fq),
        ensures
            r.wf(fq),
            r.value() == MONTGOMERY_COEFF_A as nat % fq.value(),
    {
        Fp::from_u64(MONTGOMERY_COEFF_A, fq)
    }

    /// The coefficient `B` of the Montgomery form of the curve.
    pub fn montgomery_coeff_b(fq: &Modulus) -> (r: Fp)
        requires
            is_fq(fq),
        ensures
            r.wf(fq),
            r.value() == limbs_val(MONTGOMERY_COEFF_B@) % fq.value(),
    {
        Fp::from_slice(MONTGOMERY_COEFF_B.as_slice(), fq)
    }
}

} // verus!

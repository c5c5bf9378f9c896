//! The first group of Yafa-146: the points of order `r` of the curve
//! `y^2 = x^3 + 33355508094144` over the base field.

use vstd::prelude::*;
use crate::bigint::{limbs_from_slice, limbs_val};
use crate::curves::short_weierstrass::{Affine, Projective, SwCurve};
use crate::fields::field::Field;
use crate::fields::prime::Fp;
use crate::modular::Modulus;
use crate::yafa_146::fields::fq::is_fq;
use crate::yafa_146::fields::fr::is_fr;

verus! {

/// A point of the first group, in affine coordinates.
pub type G1Affine = Affine<Fp>;

/// A point of the first group, in projective coordinates.
pub type G1Projective = Projective<Fp>;

/// The parameters of the curve of the first group.
pub struct Parameters;

/// COFACTOR =
/// 600746510796850913325441891520214792552399427644760978176030334322268158184417708567424169
/// 484347
pub const COFACTOR: [u64; 5] = [
    0xba0cbd29dbed203b, 0xdab3b5db47bc3720, 0x6303cbb620293bf6,
    0xd93c6dabba8ba44f, 0x4800013b93e07009,
];

/// COFACTOR^(-1) mod r =
/// 54736692702506479266359545630135535008734683389654089840601071154286118289550
pub const COFACTOR_INV: [u64; 4] = [
    0x929cca2f9c17c08e, 0x91bd532a200c65bf, 0xfaf977d2ae7fee3e,
    0x7903dec4677c7c90,
];

/// COEFF_A = 0
pub const COEFF_A: u64 = 0;

/// COEFF_B = 33355508094144
pub const COEFF_B: u64 = 33355508094144;

/// G1_GENERATOR_X =
/// 210414790603340599949179163525619955996814966833781843384950441485543348659222850432754655
/// 28741964306980383475001455404610600675285973607295911295491046433550562665948850109
///
/// This is the point with x = 4 and
/// y = 998006390348077374748537441102071417381627681560641786122543965455439074571900572727405
/// 5955009294624578956029865160575967717579468338487582878433342359310352690204717350854
/// with the cofactor removed.
pub const G1_GENERATOR_X: [u64; 9] = [
    0x9b463bc2e65d27bd, 0xd48a9cf01b8b1218, 0x0d8d57e530e572dc,
    0x9680ad5a1ff5f573, 0xd604436cf04099d6, 0x35992f0098b196cf,
    0x60ae44c02e3c44fc, 0x3bdfde6d8f7785ff, 0x15c76f25c6eddd39,
];

/// G1_GENERATOR_Y =
/// 184189721377434521519408021354453627578141363692874299666824087923999876031080675141154197
/// 8966337027054045888026250482482159097701195947482630556667627310741134774424209442
pub const G1_GENERATOR_Y: [u64; 9] = [
    0xb9317dbb60368822, 0x3d3327f069b9d570, 0x717dd2d1c7d43530,
    0xd119649d1fb29ebe, 0xb7285ad18dcb0896, 0x60d8198ca2e0cbb2,
    0xf27f7d1e92da53e4, 0x0a32952de541520c, 0x01e80dceb72362a6,
];

impl Parameters {
    /// `c` is the curve of the first group over the base field `fq`.
    pub open spec fn describes(c: &SwCurve<Fp>, fq: &Modulus) -> bool {
        &&& is_fq(fq)
        &&& c.wf(fq)
        &&& c.a.value() == COEFF_A as nat % fq.value()
        &&& c.b.value() == COEFF_B as nat % fq.value()
    }

    /// The generator of the first group.
    pub open spec fn generator_v(fq: &Modulus) -> Affine<nat> {
        Affine {
            x: limbs_val(G1_GENERATOR_X@) % fq.value(),
            y: limbs_val(G1_GENERATOR_Y@) % fq.value(),
            infinity: false,
        }
    }

    /// The curve of the first group.
    pub fn curve(fq: &Modulus) -> (r: SwCurve<Fp>)
        requires
            is_fq(fq),
        ensures
            Self::describes(&r, fq),
    {
        SwCurve { a: Fp::from_u64(COEFF_A, fq), b: Fp::from_u64(COEFF_B, fq) }
    }

    /// The generator of the first group.
    pub fn generator(fq: &Modulus) -> (r: G1Affine)
        requires
            is_fq(fq),
        ensures
            r.wf(fq),
            r.value() == Self::generator_v(fq),
    {
        Affine {
            x: Fp::from_slice(G1_GENERATOR_X.as_slice(), fq),
            y: Fp::from_slice(G1_GENERATOR_Y.as_slice(), fq),
            infinity: false,
        }
    }

    /// The cofactor of the first group in the curve.
    pub fn cofactor() -> (r: Vec<u64>)
        ensures
            r@ == COFACTOR@,
    {
        let r = limbs_from_slice(COFACTOR.as_slice(), 0, 5);
        assert(r@ =~= COFACTOR@);
        r
    }

    /// The inverse of the cofactor in the scalar field.
    pub fn cofactor_inv(fr: &Modulus) -> (r: Fp)
        requires
            is_fr(fr),
        ensures
            r.wf(fr),
            r.value() == limbs_val(COFACTOR_INV@) % fr.value(),
    {
        Fp::from_slice(COFACTOR_INV.as_slice(), fr)
    }
}

} // verus!

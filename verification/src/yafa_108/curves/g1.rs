//! The first group of Yafa-108: the points of order `r` of the curve
//! `y^2 = x^3 + 5645376` over the base field.

use vstd::prelude::*;
use crate::bigint::{limbs_from_slice, limbs_val};
use crate::curves::short_weierstrass::{Affine, Projective, SwCurve};
use crate::fields::field::Field;
use crate::fields::prime::Fp;
use crate::modular::Modulus;
use crate::yafa_108::fields::fq::is_fq;
use crate::yafa_108::fields::fr::is_fr;

verus! {

/// A point of the first group, in affine coordinates.
pub type G1Affine = Affine<Fp>;

/// A point of the first group, in projective coordinates.
pub type G1Projective = Projective<Fp>;

/// The parameters of the curve of the first group.
pub struct Parameters;

/// COFACTOR =
/// 600746357873917083993205832519317177466334726496174638989123538389804293458724181786500830
/// 516591
pub const COFACTOR: [u64; 5] = [
    0xed29225ad506d56f, 0x4360c489b2a69d35, 0xd497d8292a77e57a,
    0x2e5856438790676e, 0x4800000815ea74e0,
];

/// COFACTOR^(-1) mod r =
/// 29525709254955688747989059845541707767137581572857490857189440336502437830996
pub const COFACTOR_INV: [u64; 4] = [
    0x205ad6a3f5e5e154, 0xc46a85c1cf115ac1, 0xf4e80bea62dc56de,
    0x4146f58fb809efde,
];

/// COEFF_A = 0
pub const COEFF_A: u64 = 0;

/// COEFF_B = 5645376
pub const COEFF_B: u64 = 5645376;

/// G1_GENERATOR_X =
/// 342248826894878568978954794187452399856293663506096444824264574795199602203651277865229988
/// 42348723780309585364044838207298438594720820768669193775884940942820440641403063878
///
/// This is the point with x = 1 and
/// y = 225180609013982455818835603878917576139104286769556658479161968737220142474784495270825
/// 5342828857479046478251177789121867581508195508201416938853880984464178574376900833404
/// with the cofactor removed.
pub const G1_GENERATOR_X: [u64; 9] = [
    0x78340bb88f978e46, 0x40f3bcba16851910, 0x84ced587f008c8ac,
    0x0dcab23a2384eb1d, 0xec5eed862f3c8023, 0x81a4a7f420f883b1,
    0xf66fca36ac5f3e41, 0x57aea4cfdd8dab01, 0x236cafc8d051aa89,
];

/// G1_GENERATOR_Y =
/// 531252248722162526044089347491731336050196735203224076668566468302402949866896014787473405
/// 742067724694482254210724441982798591548014930288574006468717544900780067911325970
pub const G1_GENERATOR_Y: [u64; 9] = [
    0xa8f1ad1a7f3b5912, 0x35345e83e3ebd02a, 0xd2acd4914353b7be,
    0xa3832f35f315e1c8, 0x29770917243f043a, 0xa12e7d19effb6518,
    0x98fc729de4a33e88, 0x87a069bf7651e633, 0x008cc48c200fc63d,
];

impl Parameters {
    /// `c` is the curve of the first group over the base field `fq`.
    pub open spec fn describes(c: &SwCurve<Fp>, fq: &Modulus) -> bool {
        &&& is_fq(fq)
        &&& c.wf(fq)
        &&& c.a.value() == COEFF_A as nat % fq.value()
        &&& c.b.value() == COEFF_B as nat % fq.value()
    }

    /// The generator of the first group.
    pub open spec fn generator_v(fq: &Modulus) -> Affine<nat> {
        Affine {
            x: limbs_val(G1_GENERATOR_X@) % fq.value(),
            y: limbs_val(G1_GENERATOR_Y@) % fq.value(),
            infinity: false,
        }
    }

    /// The curve of the first group.
    pub fn curve(fq: &Modulus) -> (r: SwCurve<Fp>)
        requires
            is_fq(fq),
        ensures
            Self::describes(&r, fq),
    {
        SwCurve { a: Fp::from_u64(COEFF_A, fq), b: Fp::from_u64(COEFF_B, fq) }
    }

    /// The generator of the first group.
    pub fn generator(fq: &Modulus) -> (r: G1Affine)
        requires
            is_fq(fq),
        ensures
            r.wf(fq),
            r.value() == Self::generator_v(fq),
    {
        Affine {
            x: Fp::from_slice(G1_GENERATOR_X.as_slice(), fq),
            y: Fp::from_slice(G1_GENERATOR_Y.as_slice(), fq),
            infinity: false,
        }
    }

    /// The cofactor of the first group in the curve.
    pub fn cofactor() -> (r: Vec<u64>)
        ensures
            r@ == COFACTOR@,
    {
        let r = limbs_from_slice(COFACTOR.as_slice(), 0, 5);
        assert(r@ =~= COFACTOR@);
        r
    }

    /// The inverse of the cofactor in the scalar field.
    pub fn cofactor_inv(fr: &Modulus) -> (r: Fp)
        requires
            is_fr(fr),
        ensures
            r.wf(fr),
            r.value() == limbs_val(COFACTOR_INV@) % fr.value(),
    {
        Fp::from_slice(COFACTOR_INV.as_slice(), fr)
    }
}

} // verus!

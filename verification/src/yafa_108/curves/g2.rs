//! The second group of Yafa-108: the points of order `r` of the twisted curve
//! `y^2 = x^3 + 11 b` over the cubic extension, `b` being the coefficient of
//! the curve of the first group and 11 the cube of `u`.

use vstd::prelude::*;
use crate::bigint::{limbs_from_slice, limbs_val};
use crate::curves::short_weierstrass::{Affine, Projective, SwCurve};
use crate::fields::cubic::{CubicExt, CubicParams};
use crate::fields::field::Field;
use crate::fields::prime::Fp;
use crate::modular::Modulus;
use crate::yafa_108::fields::fq3::{Fq3, Fq3Config};
use crate::yafa_108::fields::fr::is_fr;

verus! {

/// A point of the second group, in affine coordinates.
pub type G2Affine = Affine<CubicExt<Fp>>;

/// A point of the second group, in projective coordinates.
pub type G2Projective = Projective<CubicExt<Fp>>;

/// The parameters of the curve of the second group.
pub struct Parameters;

/// COFACTOR =
/// 726726886795224844605862069009898940861687901303075691762904985779862199643629549368160648
/// 101516193501672955437075875652993924163644219867857332814382981687662806476128613460127897
/// 964217230378169042051917041793548330220695206406784608340953286143661873591990564852877575
/// 735414956858902999883887464694646957850111726423572809242652238015382526099588420834286969
/// 916870199868835572386002046396865439392409275568594557647057684332132868235236100
pub const COFACTOR: [u64; 23] = [
    0x55b65ba67d349304, 0x19bfd908aa18a1d0, 0xea1b02ffa4730d50,
    0x5f30f2832574c04e, 0xe95715e341a98565, 0x550746195d560fd8,
    0xbadab12caadb75a1, 0x94da6c018200630a, 0xa9b498e4a406cc19,
    0xe63352507f8897e9, 0x7fa6743474161d96, 0x911d512e19981a36,
    0x125b50ed21e62534, 0x2ee37326b89dafc0, 0x595fca9878419c72,
    0x0f27e144d8e957dc, 0xa0461c02e6c10c7c, 0x11b8a324657e0e5c,
    0xa1103ff7e3dbcdb6, 0xc259971d1b71d23e, 0xe2afc34dc49f0dbe,
    0xd71c79058c75e34a, 0x016c80007accd8dc,
];

/// COFACTOR^(-1) mod r =
/// 22582721958699120459790815271456780810858829859261718489478745480578972630174
pub const COFACTOR_INV: [u64; 4] = [
    0x1acbaaa4aaf5bc9e, 0x3462109ba4165e79, 0x3986e3bb9b739a2e,
    0x31ed5e1fe27c2357,
];

/// COEFF_A = (0, 0, 0)
///
/// COEFF_B = (G1::COEFF_B * NONRESIDUE, 0, 0); this is its first coefficient.
pub const COEFF_B_C0: u64 = 62099136;

/// G2_GENERATOR_X = (G2_GENERATOR_X_C0, 0, 0) with G2_GENERATOR_X_C0 =
/// 253926989048847091329990377602548766577251876676826968131868279708657874718916407640492124
/// 17291921682011505465948857004062296822796470822300734123777520888334658977998568595
///
/// The generator is the point with x = u + 3 whose y has the smaller first
/// coefficient, multiplied by the cofactor. It lies over the base field.
pub const G2_GENERATOR_X_C0: [u64; 9] = [
    0x675e57e6b95ffc93, 0xb83306edc6cfb764, 0xc311d68da120c6c1,
    0x3e833c85a435d994, 0x427d15c111aa0718, 0xfa75cb9e5be7e9b8,
    0x391d24f7ed8804f9, 0x5e55a7949979f702, 0x1a48645f9fbec9b1,
];

/// G2_GENERATOR_Y = (G2_GENERATOR_Y_C0, 0, 0) with G2_GENERATOR_Y_C0 =
/// 439670844798378982320208949140295489004203042032079135529598997067298205902095082185236596
/// 7834639548445057566914035829163770719788716368901156926304377953920559312066532663
pub const G2_GENERATOR_Y_C0: [u64; 9] = [
    0x6e66e76f834b5537, 0x18de261c462c672b, 0x3baa4ffbcd22754f,
    0x45e0ce7e97059058, 0x36f9844cfc9e5a45, 0x55508cac662b7d6a,
    0xce83e35cae6a683e, 0x74ff5b160376eaf4, 0x048d02dd3761c0db,
];

impl Parameters {
    /// `c` is the curve of the second group over the cubic extension `fq3`.
    pub open spec fn describes(c: &SwCurve<Fq3>, fq3: &CubicParams<Fp>) -> bool {
        &&& Fq3Config::describes(fq3)
        &&& c.wf(fq3)
        &&& c.a.value() == Fq3::zero_v(fq3)
        &&& c.b.value() == (CubicExt {
            c0: COEFF_B_C0 as nat % fq3.base.value(),
            c1: 0nat,
            c2: 0nat,
        })
    }

    /// The generator of the second group.
    pub open spec fn generator_v(fq: &Modulus) -> Affine<CubicExt<nat>> {
        Affine {
            x: CubicExt { c0: limbs_val(G2_GENERATOR_X_C0@) % fq.value(), c1: 0nat, c2: 0nat },
            y: CubicExt { c0: limbs_val(G2_GENERATOR_Y_C0@) % fq.value(), c1: 0nat, c2: 0nat },
            infinity: false,
        }
    }

    /// The curve of the second group.
    pub fn curve(fq3: &CubicParams<Fp>) -> (r: SwCurve<Fq3>)
        requires
            Fq3Config::describes(fq3),
        ensures
            Self::describes(&r, fq3),
    {
        SwCurve {
            a: Fq3::zero(fq3),
            b: Fq3::from_base(Fp::from_u64(COEFF_B_C0, &fq3.base), fq3),
        }
    }

    /// The generator of the second group.
    pub fn generator(fq3: &CubicParams<Fp>) -> (r: G2Affine)
        requires
            Fq3Config::describes(fq3),
        ensures
            r.wf(fq3),
            r.value() == Self::generator_v(&fq3.base),
    {
        let fq = &fq3.base;
        Affine {
            x: Fq3::from_base(Fp::from_slice(G2_GENERATOR_X_C0.as_slice(), fq), fq3),
            y: Fq3::from_base(Fp::from_slice(G2_GENERATOR_Y_C0.as_slice(), fq), fq3),
            infinity: false,
        }
    }

    /// The cofactor of the second group in the twisted curve.
    pub fn cofactor() -> (r: Vec<u64>)
        ensures
            r@ == COFACTOR@,
    {
        let r = limbs_from_slice(COFACTOR.as_slice(), 0, 23);
        assert(r@ =~= COFACTOR@);
        r
    }

    /// The inverse of the cofactor in the scalar field.
    pub fn cofactor_inv(fr: &Modulus) -> (r: Fp)
        requires
            is_fr(fr),
        ensures
            r.wf(fr),
            r.value() == limbs_val(COFACTOR_INV@) % fr.value(),
    {
        Fp::from_slice(COFACTOR_INV.as_slice(), fr)
    }
}

} // verus!

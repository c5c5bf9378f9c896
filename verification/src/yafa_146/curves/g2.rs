//! The second group of Yafa-146: the points of order `r` of the twisted curve
//! `y^2 = x^3 + b / (7u)` over the quadratic extension, `b` being the
//! coefficient of the curve of the first group.

use vstd::prelude::*;
use crate::bigint::{limbs_from_slice, limbs_val};
use crate::curves::short_weierstrass::{Affine, Projective, SwCurve};
use crate::fields::field::Field;
use crate::fields::prime::Fp;
use crate::fields::quadratic::{QuadExt, QuadParams};
use crate::modular::Modulus;
use crate::yafa_146::fields::fq2::{Fq2, Fq2Config};
use crate::yafa_146::fields::fr::is_fr;

verus! {

/// A point of the second group, in affine coordinates.
pub type G2Affine = Affine<QuadExt<Fp>>;

/// A point of the second group, in projective coordinates.
pub type G2Projective = Projective<QuadExt<Fp>>;

/// The parameters of the curve of the second group.
pub struct Parameters;

/// COFACTOR =
/// 208944723538136275842934825487721719944357363218924936521565367644832496954484236054395518
/// 029919319763436921041473784490674990167148701594903075840663632617329304570348691066252329
/// 59381521895831602203960656224597442267949372368242654610238587983559434866653274386897396
pub const COFACTOR: [u64; 14] = [
    0x97eb95cb492a99f4, 0xce1097b616174157, 0x69ff3af87115ad37,
    0xaad0f9fa6c57adbb, 0xe89b7dd49d7a672e, 0x66d37be389df638a,
    0xf1d388886c9fcd6a, 0x1e7cb685aa19089f, 0x11c7fe3ecab2bfa4,
    0x28813796458eeeab, 0x9a129319a58fe700, 0x5f5465426db28467,
    0x64f89dae62b24f99, 0x0a200058c197e205,
];

/// COFACTOR^(-1) mod r =
/// 52342251624758656962424635542600246432390708264947618736639330869844643473789
pub const COFACTOR_INV: [u64; 4] = [
    0xfa01ba3ca578e97d, 0x9a4ddf8f0927b817, 0xa8756b02ffb4dc1d,
    0x73b8aa20ac8070f6,
];

/// COEFF_A = 0
///
/// COEFF_B = G1::COEFF_B / (7 * u); this is its coefficient of `u`, the other is zero:
/// 134446970798780828515252823103292880607888758633365855751326802530856000216570953888041548
/// 98012612484617266899019828688854734357588824164139508022638667908424962826678905810
pub const COEFF_B_C1: [u64; 9] = [
    0xdc66f82966812bd2, 0x76a1be54ba665bad, 0x192acf70e2d16b11,
    0xa972793399e99b6a, 0x5c4b91d3e2bd7156, 0xf6a3cf3fe4fda7b0,
    0x42770d8ec386e4dd, 0xa04e5e56f907a0d5, 0x0dea7d02e8f37228,
];

/// G2_GENERATOR_X_C0 =
/// 276877800888102642891595917708168330711695521882153924606117580050716422113944769779227015
/// 36763417051032625099426754802175165180375513026799513829826051305654731318363059026
///
/// The generator is the point with x = u + 2, multiplied by the cofactor.
pub const G2_GENERATOR_X_C0: [u64; 9] = [
    0x537cb9d5105e7352, 0x96b7ba9f1454b0c2, 0x5461bcf4ce05c11a,
    0x7e58bd6f5e356607, 0x3eb279bdb386d7b6, 0xced940e69b827d15,
    0x0757acd78225991a, 0x97aea88988a2b0f8, 0x1ca8871b2c7186ad,
];

/// G2_GENERATOR_X_C1 =
/// 650966855759905342444096668027249778491139980324049753763524734907310739708621631645672763
/// 0561816809068690796961510649536234669285043779959696834452566361542235889236045835
pub const G2_GENERATOR_X_C1: [u64; 9] = [
    0xfd8839fc7025f00b, 0xba7be5683e7f6d65, 0x9948acf5524dd010,
    0x616f77edd3bb9d41, 0x2d892575dfcadcf9, 0x41709554148d2e63,
    0x71308673c9df87e9, 0xa4cbe10dfa16ca17, 0x06bce3bd2d4d6a18,
];

/// G2_GENERATOR_Y_C0 =
/// 119253991112167965184771381516912355685685107114940606503400176200676449391489397367837567
/// 64969805812223266676273642369280660308896058524826998685162758646355912991543336123
pub const G2_GENERATOR_Y_C0: [u64; 9] = [
    0x4a3bc2c6a5fb1cbb, 0x63dac95a1686b91e, 0xcdf391eec4eda4c1,
    0x3632af572296c9b2, 0x9c2b1b3b47135953, 0x90e689c3fb23544f,
    0xa6b1b0c269651d55, 0xa2d00ebdf031d84e, 0x0c57ea25bf1e0e11,
];

/// G2_GENERATOR_Y_C1 =
/// 571527274820342672130635162888797885508208950312775860491897599778790338317661362807521821
/// 3177699924085938313105400333095104664563435997596881857549150409526964137574350316
pub const G2_GENERATOR_Y_C1: [u64; 9] = [
    0x4efd3acb63013dec, 0x3d679c4e5214234f, 0x99eaa1bc4d5a3db9,
    0xeefcc143f4787508, 0xc253bcd04a632a07, 0x4ae98ccf93d2361d,
    0x30bc0af25580bca2, 0x5511d9794a27bbcb, 0x05ea655175868c87,
];

impl Parameters {
    /// The coefficient `b` of the twisted curve.
    pub open spec fn coeff_b_v(fq: &Modulus) -> QuadExt<nat> {
        QuadExt { c0: 0nat, c1: limbs_val(COEFF_B_C1@) % fq.value() }
    }

    /// `c` is the curve of the second group over the quadratic extension `fq2`.
    pub open spec fn describes(c: &SwCurve<Fq2>, fq2: &QuadParams<Fp>) -> bool {
        &&& Fq2Config::describes(fq2)
        &&& c.wf(fq2)
        &&& c.a.value() == Fq2::zero_v(fq2)
        &&& c.b.value() == Self::coeff_b_v(&fq2.base)
    }

    /// The generator of the second group.
    pub open spec fn generator_v(fq: &Modulus) -> Affine<QuadExt<nat>> {
        Affine {
            x: QuadExt {
                c0: limbs_val(G2_GENERATOR_X_C0@) % fq.value(),
                c1: limbs_val(G2_GENERATOR_X_C1@) % fq.value(),
            },
            y: QuadExt {
                c0: limbs_val(G2_GENERATOR_Y_C0@) % fq.value(),
                c1: limbs_val(G2_GENERATOR_Y_C1@) % fq.value(),
            },
            infinity: false,
        }
    }

    /// The curve of the second group.
    pub fn curve(fq2: &QuadParams<Fp>) -> (r: SwCurve<Fq2>)
        requires
            Fq2Config::describes(fq2),
        ensures
            Self::describes(&r, fq2),
    {
        SwCurve {
            a: Fq2::zero(fq2),
            b: QuadExt {
                c0: Fp::zero(&fq2.base),
                c1: Fp::from_slice(COEFF_B_C1.as_slice(), &fq2.base),
            },
        }
    }

    /// The generator of the second group.
    pub fn generator(fq2: &QuadParams<Fp>) -> (r: G2Affine)
        requires
            Fq2Config::describes(fq2),
        ensures
            r.wf(fq2),
            r.value() == Self::generator_v(&fq2.base),
    {
        let fq = &fq2.base;
        Affine {
            x: QuadExt {
                c0: Fp::from_slice(G2_GENERATOR_X_C0.as_slice(), fq),
                c1: Fp::from_slice(G2_GENERATOR_X_C1.as_slice(), fq),
            },
            y: QuadExt {
                c0: Fp::from_slice(G2_GENERATOR_Y_C0.as_slice(), fq),
                c1: Fp::from_slice(G2_GENERATOR_Y_C1.as_slice(), fq),
            },
            infinity: false,
        }
    }

    /// The cofactor of the second group in the twisted curve.
    pub fn cofactor() -> (r: Vec<u64>)
        ensures
            r@ == COFACTOR@,
    {
        let r = limbs_from_slice(COFACTOR.as_slice(), 0, 14);
        assert(r@ =~= COFACTOR@);
        r
    }

    /// The inverse of the cofactor in the scalar field.
    pub fn cofactor_inv(fr: &Modulus) -> (r: Fp)
        requires
            is_fr(fr),
        ensures
            r.wf(fr),
            r.value() == limbs_val(COFACTOR_INV@) % fr.value(),
    {
        Fp::from_slice(COFACTOR_INV.as_slice(), fr)
    }
}

} // verus!

use ark_ec::short_weierstrass::{Affine as ArkAffine, SWCurveConfig};
use ark_ec::{AffineRepr, CurveConfig, CurveGroup};
use ark_ff::{
    BigInt, CyclotomicMultSubgroup, Field as ArkField, Fp as ArkFp, Fp12 as ArkFp12,
    Fp12Config, Fp2 as ArkFp2, Fp2Config, Fp6 as ArkFp6, Fp6Config, MontBackend, MontConfig,
    PrimeField,
};
use yafa::curves::short_weierstrass::Affine;
use yafa::fields::cubic::CubicExt;
use yafa::fields::field::Field;
use yafa::fields::power::pow;
use yafa::fields::prime::Fp;
use yafa::fields::quadratic::QuadExt;
use yafa::modular::Modulus;
use yafa::yafa_146::curves::g1;
use yafa::yafa_146::curves::Yafa;
use yafa::yafa_146::fields::{fq, fq12, fq2, fq6, fr};

// The same fields and the same curve, set up in arkworks.

const fn entry<const L: usize>(table: &[u64; L], k: usize) -> BigInt<9> {
    let mut out = [0u64; 9];
    let mut i = 0;
    while i < 9 {
        out[i] = table[9 * k + i];
        i += 1;
    }
    BigInt::new(out)
}

const fn small(x: u64) -> BigInt<9> {
    BigInt::new([x, 0, 0, 0, 0, 0, 0, 0, 0])
}

pub struct FqConfig;
type Fq = ArkFp<MontBackend<FqConfig, 9>, 9>;

impl MontConfig<9> for FqConfig {
    const MODULUS: BigInt<9> = BigInt::new(fq::MODULUS);
    // a quadratic non-residue
    const GENERATOR: Fq = ArkFp::new(small(17));
    // -1
    const TWO_ADIC_ROOT_OF_UNITY: Fq = ArkFp::new(BigInt::new([
        0x08158152f773f0e8, 0xdf6ac56be2355158, 0x1495b477826bab3d,
        0x25a8234845d13371, 0x05064729b44e4107, 0x6d59daeda3de1b8b,
        0xb181e5db10149dfb, 0xec9e36d5dd45d227, 0x2400009dc9f03804,
    ]));
}

pub struct FrConfig;
type Fr = ArkFp<MontBackend<FrConfig, 4>, 4>;

impl MontConfig<4> for FrConfig {
    const MODULUS: BigInt<4> = BigInt::new(fr::MODULUS);
    const GENERATOR: Fr = ArkFp::new(BigInt::new([2, 0, 0, 0]));
    const TWO_ADIC_ROOT_OF_UNITY: Fr = ArkFp::new(BigInt::new([
        0xffffffffffffffec, 0xffffffffffffffff, 0xffffffffffffffff, 0x7fffffffffffffff,
    ]));
}

pub struct Fq2Cfg;
type Fq2 = ArkFp2<Fq2Cfg>;

impl Fp2Config for Fq2Cfg {
    type Fp = Fq;
    const NONRESIDUE: Fq = ArkFp::new(small(fq2::NONRESIDUE));
    const FROBENIUS_COEFF_FP2_C1: &'static [Fq] = &[
        ArkFp::new(entry(&fq2::FROBENIUS_COEFF_FP2_C1, 0)),
        ArkFp::new(entry(&fq2::FROBENIUS_COEFF_FP2_C1, 1)),
    ];
}

const fn pair<const L: usize>(table: &[u64; L], k: usize) -> Fq2 {
    ArkFp2::new(ArkFp::new(entry(table, 2 * k)), ArkFp::new(entry(table, 2 * k + 1)))
}

const ZERO2: Fq2 = ArkFp2::new(ArkFp::new(small(0)), ArkFp::new(small(0)));
const ONE2: Fq2 = ArkFp2::new(ArkFp::new(small(1)), ArkFp::new(small(0)));

#[derive(Clone, Copy)]
pub struct Fq6Cfg;
type Fq6 = ArkFp6<Fq6Cfg>;

impl Fp6Config for Fq6Cfg {
    type Fp2Config = Fq2Cfg;
    const NONRESIDUE: Fq2 = ArkFp2::new(ArkFp::new(small(0)), ArkFp::new(small(fq6::NONRESIDUE_C1)));
    const FROBENIUS_COEFF_FP6_C1: &'static [Fq2] = &[
        pair(&fq6::FROBENIUS_COEFF_FP6_C1, 0),
        pair(&fq6::FROBENIUS_COEFF_FP6_C1, 1),
        pair(&fq6::FROBENIUS_COEFF_FP6_C1, 2),
        pair(&fq6::FROBENIUS_COEFF_FP6_C1, 3),
        pair(&fq6::FROBENIUS_COEFF_FP6_C1, 4),
        pair(&fq6::FROBENIUS_COEFF_FP6_C1, 5),
    ];
    const FROBENIUS_COEFF_FP6_C2: &'static [Fq2] = &[
        pair(&fq6::FROBENIUS_COEFF_FP6_C2, 0),
        pair(&fq6::FROBENIUS_COEFF_FP6_C2, 1),
        pair(&fq6::FROBENIUS_COEFF_FP6_C2, 2),
        pair(&fq6::FROBENIUS_COEFF_FP6_C2, 3),
        pair(&fq6::FROBENIUS_COEFF_FP6_C2, 4),
        pair(&fq6::FROBENIUS_COEFF_FP6_C2, 5),
    ];
}

#[derive(Clone, Copy)]
pub struct Fq12Cfg;
type Fq12 = ArkFp12<Fq12Cfg>;

impl Fp12Config for Fq12Cfg {
    type Fp6Config = Fq6Cfg;
    const NONRESIDUE: Fq6 = ArkFp6::new(ZERO2, ONE2, ZERO2);
    const FROBENIUS_COEFF_FP12_C1: &'static [Fq2] = &[
        pair(&fq12::FROBENIUS_COEFF_FP12_C1, 0),
        pair(&fq12::FROBENIUS_COEFF_FP12_C1, 1),
        pair(&fq12::FROBENIUS_COEFF_FP12_C1, 2),
        pair(&fq12::FROBENIUS_COEFF_FP12_C1, 3),
        pair(&fq12::FROBENIUS_COEFF_FP12_C1, 4),
        pair(&fq12::FROBENIUS_COEFF_FP12_C1, 5),
        pair(&fq12::FROBENIUS_COEFF_FP12_C1, 6),
        pair(&fq12::FROBENIUS_COEFF_FP12_C1, 7),
        pair(&fq12::FROBENIUS_COEFF_FP12_C1, 8),
        pair(&fq12::FROBENIUS_COEFF_FP12_C1, 9),
        pair(&fq12::FROBENIUS_COEFF_FP12_C1, 10),
        pair(&fq12::FROBENIUS_COEFF_FP12_C1, 11),
    ];
}

#[derive(Clone, Default, PartialEq, Eq)]
pub struct G1Cfg;

impl CurveConfig for G1Cfg {
    type BaseField = Fq;
    type ScalarField = Fr;
    const COFACTOR: &'static [u64] = &g1::COFACTOR;
    const COFACTOR_INV: Fr = ArkFp::new(BigInt::new(g1::COFACTOR_INV));
}

impl SWCurveConfig for G1Cfg {
    const COEFF_A: Fq = ArkFp::new(small(g1::COEFF_A));
    const COEFF_B: Fq = ArkFp::new(small(g1::COEFF_B));
    const GENERATOR: ArkAffine<G1Cfg> = ArkAffine::new_unchecked(
        ArkFp::new(BigInt::new(g1::G1_GENERATOR_X)),
        ArkFp::new(BigInt::new(g1::G1_GENERATOR_Y)),
    );
}

// Conversions between the two.

fn to_ark(x: &Fp) -> Fq {
    let mut limbs = [0u64; 9];
    limbs.copy_from_slice(&x.limbs);
    Fq::from_bigint(BigInt::new(limbs)).unwrap()
}

fn from_ark(x: &Fq, m: &Modulus) -> Fp {
    Fp::from_limbs(&x.into_bigint().0.to_vec(), m)
}

fn to_ark2(x: &QuadExt<Fp>) -> Fq2 {
    Fq2::new(to_ark(&x.c0), to_ark(&x.c1))
}

fn to_ark6(x: &CubicExt<QuadExt<Fp>>) -> Fq6 {
    Fq6::new(to_ark2(&x.c0), to_ark2(&x.c1), to_ark2(&x.c2))
}

fn to_ark12(x: &QuadExt<CubicExt<QuadExt<Fp>>>) -> Fq12 {
    Fq12::new(to_ark6(&x.c0), to_ark6(&x.c1))
}

/// A stream of numbers to take test values from.
struct Stream(u64);

impl Stream {
    fn next(&mut self) -> u64 {
        self.0 = self.0.wrapping_mul(6364136223846793005).wrapping_add(1442695040888963407);
        let x = self.0;
        (x ^ (x >> 29)).wrapping_mul(0xbf58476d1ce4e5b9)
    }

    fn fq(&mut self, m: &Modulus) -> Fp {
        let limbs: Vec<u64> = (0..9).map(|_| self.next()).collect();
        Fp::from_limbs(&limbs, m)
    }

    fn fq2(&mut self, m: &Modulus) -> QuadExt<Fp> {
        QuadExt::new(self.fq(m), self.fq(m))
    }

    fn fq6(&mut self, m: &Modulus) -> CubicExt<QuadExt<Fp>> {
        CubicExt::new(self.fq2(m), self.fq2(m), self.fq2(m))
    }

    fn fq12(&mut self, m: &Modulus) -> QuadExt<CubicExt<QuadExt<Fp>>> {
        QuadExt::new(self.fq6(m), self.fq6(m))
    }
}

#[test]
fn prime_field_agrees_with_arkworks() {
    let m = fq::fq();
    let mut s = Stream(1);
    for _ in 0..20 {
        let (a, b) = (s.fq(&m), s.fq(&m));
        let (x, y) = (to_ark(&a), to_ark(&b));
        assert_eq!(to_ark(&a.add(&b, &m)), x + y);
        assert_eq!(to_ark(&a.sub(&b, &m)), x - y);
        assert_eq!(to_ark(&a.mul(&b, &m)), x * y);
        assert_eq!(to_ark(&a.neg(&m)), -x);
        assert_eq!(to_ark(&a.square(&m)), x.square());
        assert_eq!(to_ark(&a.double(&m)), x.double());
        assert_eq!(to_ark(&a.inverse(&m).unwrap()), x.inverse().unwrap());
        assert!(from_ark(&(x * y), &m).same(&a.mul(&b, &m), &m));
        let e = vec![s.next(), s.next(), s.next()];
        assert_eq!(to_ark(&pow(&a, &e, &m)), x.pow(&e));
    }
    assert_eq!(to_ark(&Fp::two_inv(&m)), Fq::from(2u64).inverse().unwrap());
    assert_eq!(to_ark(&Fp::one(&m)), Fq::ONE);
    assert_eq!(to_ark(&Fp::zero(&m)), Fq::ZERO);
}

#[test]
fn quadratic_extension_agrees_with_arkworks() {
    let yafa = Yafa::new();
    let f2 = &yafa.engine.fq12.base.base;
    let m = &f2.base;
    let mut s = Stream(2);
    for _ in 0..10 {
        let (a, b) = (s.fq2(m), s.fq2(m));
        let (x, y) = (to_ark2(&a), to_ark2(&b));
        assert_eq!(to_ark2(&a.add(&b, f2)), x + y);
        assert_eq!(to_ark2(&a.sub(&b, f2)), x - y);
        assert_eq!(to_ark2(&a.mul(&b, f2)), x * y);
        assert_eq!(to_ark2(&a.square(f2)), x.square());
        assert_eq!(to_ark2(&a.neg(f2)), -x);
        assert_eq!(to_ark2(&a.inverse(f2).unwrap()), x.inverse().unwrap());
        for k in 0..4 {
            assert_eq!(to_ark2(&a.frobenius_map(k, f2)), x.frobenius_map(k));
        }
        let mut c = x;
        c.conjugate_in_place();
        assert_eq!(to_ark2(&a.conjugate(f2)), c);
        let k = s.fq(m);
        let mut scaled = x;
        scaled.mul_assign_by_basefield(&to_ark(&k));
        assert_eq!(to_ark2(&a.scale(&k, f2)), scaled);
    }
}

#[test]
fn cubic_extension_agrees_with_arkworks() {
    let yafa = Yafa::new();
    let f6 = &yafa.engine.fq12.base;
    let m = &f6.base.base;
    let mut s = Stream(3);
    for _ in 0..5 {
        let (a, b) = (s.fq6(m), s.fq6(m));
        let (x, y) = (to_ark6(&a), to_ark6(&b));
        assert_eq!(to_ark6(&a.add(&b, f6)), x + y);
        assert_eq!(to_ark6(&a.mul(&b, f6)), x * y);
        assert_eq!(to_ark6(&a.square(f6)), x.square());
        assert_eq!(to_ark6(&a.inverse(f6).unwrap()), x.inverse().unwrap());
        for k in 0..8 {
            assert_eq!(to_ark6(&a.frobenius_map(k, f6)), x.frobenius_map(k));
        }
    }
}

#[test]
fn target_field_agrees_with_arkworks() {
    let yafa = Yafa::new();
    let f12 = &yafa.engine.fq12;
    let m = &f12.base.base.base;
    let mut s = Stream(4);
    for _ in 0..3 {
        let (a, b) = (s.fq12(m), s.fq12(m));
        let (x, y) = (to_ark12(&a), to_ark12(&b));
        assert_eq!(to_ark12(&a.add(&b, f12)), x + y);
        assert_eq!(to_ark12(&a.sub(&b, f12)), x - y);
        assert_eq!(to_ark12(&a.mul(&b, f12)), x * y);
        assert_eq!(to_ark12(&a.square(f12)), x.square());
        assert_eq!(to_ark12(&a.inverse(f12).unwrap()), x.inverse().unwrap());
        for k in 0..14 {
            assert_eq!(to_ark12(&a.frobenius_map(k, f12)), x.frobenius_map(k));
        }
        let mut c = x;
        c.conjugate_in_place();
        assert_eq!(to_ark12(&a.conjugate(f12)), c);
        // the sparse multiplication of the line evaluation
        let (c0, d0, d1) = (s.fq2(m), s.fq2(m), s.fq2(m));
        let mut sparse = x;
        sparse.mul_by_034(&to_ark2(&c0), &to_ark2(&d0), &to_ark2(&d1));
        let mut ours = a.dup(f12);
        yafa.engine.mul_by_034(&mut ours, c0, d0, d1);
        assert_eq!(to_ark12(&ours), sparse);
    }
}

#[test]
fn final_exponentiation_agrees_with_arkworks() {
    let yafa = Yafa::new();
    let f12 = &yafa.engine.fq12;
    let m = &f12.base.base.base;
    let mut s = Stream(5);
    let a = s.fq12(m);
    let x = to_ark12(&a);
    // the whole exponent (q^12 - 1) / r at once
    let exponent: [u64; 104] = [
        0x78f3aca4c47578e0, 0xdb2f1d15986a11ba, 0xd5819618d3d36ea3, 0xeaa275eaac84ce4b,
        0x99eeee486085d34b, 0x1017a68086e7dabd, 0x1dccc11dbe9a26d3, 0xbce69fe949b586b7,
        0xc31ca54e96ed26fa, 0x9c296ae675107c4c, 0x26500d6c50e4c88b, 0x5e92a9928aaadb00,
        0x788b1fabf5b02c81, 0xc9a74df47242382c, 0x55cb504623fa1b6d, 0x635556161b4778e7,
        0x8f70a98b2d0e9483, 0xd189e5a7b4efcfb5, 0x610a7435a25c276f, 0x3d08634710ab8838,
        0x123340bbc7dbf9bb, 0x3bd58c0b1ccc533b, 0x134f3a2c799d1f23, 0xf59980976a66ab6d,
        0x6cbcaf3d1a3e7912, 0x4922903f79bee103, 0xfedc238269435555, 0x6ffbb69504fbfc32,
        0xb300345be9947848, 0x3333b80830638846, 0x65f8cc3a5b4a8f31, 0x949859d31def1a92,
        0xa7375643d0c46693, 0x1f87968cb0a3d42d, 0x9de835ec2d0e56cd, 0x323ac06a74b6222a,
        0xe3ecbe3638b594b4, 0xa0f88b2293ddb726, 0xf970b682b0c507d5, 0xb7150a34e7adc0e0,
        0xb29be7565e66c777, 0x2767545008cb77b3, 0x8de0f46250246689, 0x6276128da28b643b,
        0xabb7249ab92a62e3, 0xde350a2fa29bf755, 0xc6cbcccaf1ee533d, 0x706ad063b202dfcf,
        0x1e10e6fa343c5b1a, 0x5088a3d711d52d7e, 0xd999c16d0a320dee, 0x82337ba70d5f0457,
        0x1876465139127e7f, 0x38d4771bc79c866c, 0xd949862af22e33ee, 0x35faa8b965c80af4,
        0x7ef361f2b6721735, 0x5d7096d415a33fbc, 0x5f6e47dc98fccd89, 0x9e060d52c1fb0365,
        0xa2163cd3680d4ef2, 0x2007c2b0f44ede44, 0x6befbb2b03ea834e, 0xe43d727e0ddd3646,
        0xcf6bbeb36b2f6fc6, 0xa5dd5782c0dd7da2, 0x5bd2b5c7b896d254, 0x398275d275006b99,
        0xb470cb825a5f9cbd, 0xed963cc951b44da6, 0x24d1afa02d048f65, 0x127d6104bca77c28,
        0xa04f4619dcac3a1e, 0xc66f4ef6ea8bbbea, 0x80a66ca312d378d4, 0x2453949810813862,
        0x909cecf44ef72821, 0x0dcd8bcd24c8a4ca, 0xb78175b1dcfb8627, 0x0ecf4a1f78d53b4b,
        0xef90ea4cdf434480, 0xd9ec9b1f7c67b964, 0xbe8169d835045ed1, 0x4f1b72862c1812f8,
        0xf39789b25965d4fd, 0xe2445976a57b1414, 0x46b082e4ae6a04a3, 0xfc05d7228a11d8b4,
        0xbe80c0af5a79f31a, 0xec4705a3ec48f26f, 0x6f3ea7ee79ac7da9, 0x3aacdedf8d077b36,
        0x747e3c90f17c1d77, 0xc05becbf3433dec6, 0x8c4d8beb5f1cda8d, 0xdfd4e53c95a22aee,
        0x5772d8bf24afd023, 0x545ac45202fbd2e2, 0x25de00600dfb1acb, 0x4ed28d26966d47e1,
        0xee4956ff14bc37c5, 0x17c5edf31265907a, 0x0bb23ee8821a38f9, 0x0000000083845477,
    ];
    let ours = yafa.final_exponentiation(&a).unwrap();
    assert_eq!(to_ark12(&ours), x.pow(&exponent));
    // the easy part lands in the cyclotomic subgroup, where the fast
    // exponentiation of arkworks and the plain one agree
    let mut easy = x;
    easy.conjugate_in_place();
    easy *= x.inverse().unwrap();
    easy = easy.frobenius_map(2) * easy;
    let ours_easy = a.conjugate(f12).mul(&a.inverse(f12).unwrap(), f12);
    let ours_easy = ours_easy.frobenius_map(2, f12).mul(&ours_easy, f12);
    assert_eq!(to_ark12(&ours_easy), easy);
    let w = yafa.engine.hard_part[0].exponent.clone();
    assert_eq!(to_ark12(&pow(&ours_easy, &w, f12)), easy.cyclotomic_exp(&w));
    // the hard part, term by term
    let mut hard = easy.frobenius_map(3).cyclotomic_exp(&yafa.engine.hard_part[3].exponent);
    hard *= easy.frobenius_map(2).cyclotomic_exp(&yafa.engine.hard_part[2].exponent);
    hard *= easy.frobenius_map(1).cyclotomic_exp(&yafa.engine.hard_part[1].exponent);
    hard *= easy.cyclotomic_exp(&yafa.engine.hard_part[0].exponent);
    assert_eq!(to_ark12(&ours), hard);
}

#[test]
fn first_group_agrees_with_arkworks() {
    let yafa = Yafa::new();
    let m = &yafa.engine.fq12.base.base.base;
    let g = g1::Parameters::generator(m);
    let ark_g = ArkAffine::<G1Cfg>::generator();
    assert_eq!(to_ark(&g.x), ark_g.x);
    assert_eq!(to_ark(&g.y), ark_g.y);
    assert!(ark_g.is_on_curve());
    assert!(ark_g.is_in_correct_subgroup_assuming_on_curve());
    let mut s = Stream(6);
    for _ in 0..3 {
        let k = vec![s.next(), s.next(), s.next(), s.next() >> 2];
        let ours: Affine<Fp> = yafa.g1.mul_bigint(&g, &k, m).to_affine(m).unwrap();
        let theirs = ark_g.mul_bigint(&k).into_affine();
        assert_eq!(to_ark(&ours.x), theirs.x);
        assert_eq!(to_ark(&ours.y), theirs.y);
        // sums
        let k2 = vec![s.next()];
        let p = yafa.g1.mul_bigint(&g, &k, m);
        let q = yafa.g1.mul_bigint(&g, &k2, m);
        let sum = yafa.g1.add(&p, &q, m).to_affine(m).unwrap();
        let ark_sum = (ark_g.mul_bigint(&k) + ark_g.mul_bigint(&k2)).into_affine();
        assert_eq!(to_ark(&sum.x), ark_sum.x);
        assert_eq!(to_ark(&sum.y), ark_sum.y);
        let dbl = yafa.g1.double(&p, m).to_affine(m).unwrap();
        let ark_dbl = (ark_g.mul_bigint(&k) + ark_g.mul_bigint(&k)).into_affine();
        assert_eq!(to_ark(&dbl.x), ark_dbl.x);
        assert_eq!(to_ark(&dbl.y), ark_dbl.y);
    }
    let cleared = ark_g.mul_bigint(&yafa.fr.limbs).into_affine();
    assert!(cleared.is_zero());
}

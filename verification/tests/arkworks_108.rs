use ark_ff::fields::fp3::{Fp3 as ArkFp3, Fp3Config};
use ark_ff::fields::fp6_2over3::{Fp6 as ArkFp6, Fp6Config};
use ark_ff::{BigInt, Field as ArkField, Fp as ArkFp, MontBackend, MontConfig, PrimeField};
use yafa::fields::cubic::CubicExt;
use yafa::fields::field::Field;
use yafa::fields::power::pow;
use yafa::fields::prime::Fp;
use yafa::fields::quadratic::QuadExt;
use yafa::modular::Modulus;
use yafa::yafa_108::curves::Yafa;
use yafa::yafa_108::fields::{fq, fq3, fq6};

// The same fields, set up in arkworks.

const fn entry<const L: usize>(table: &[u64; L], k: usize) -> BigInt<9> {
    let mut out = [0u64; 9];
    let mut i = 0;
    while i < 9 {
        out[i] = table[9 * k + i];
        i += 1;
    }
    BigInt::new(out)
}

const fn small(x: u64) -> BigInt<9> {
    BigInt::new([x, 0, 0, 0, 0, 0, 0, 0, 0])
}

pub struct FqConfig;
type Fq = ArkFp<MontBackend<FqConfig, 9>, 9>;

impl MontConfig<9> for FqConfig {
    const MODULUS: BigInt<9> = BigInt::new(fq::MODULUS);
    // a quadratic non-residue
    const GENERATOR: Fq = ArkFp::new(small(11));
    // -1
    const TWO_ADIC_ROOT_OF_UNITY: Fq = ArkFp::new(BigInt::new([
        0xbb6b9a882a6541e8, 0xe5b6bc1f7c680fae, 0x5f33c52513be22c3,
        0xd754dec645e2ed10, 0x9e9490948a1cbe1e, 0x21b06244d9534e95,
        0x6a4bec14953bf2bd, 0x172c2b21c3c833b7, 0x240000040af53a70,
    ]));
}

pub struct Fq3Cfg;
type Fq3 = ArkFp3<Fq3Cfg>;

impl Fp3Config for Fq3Cfg {
    type Fp = Fq;
    const NONRESIDUE: Fq = ArkFp::new(small(fq3::NONRESIDUE));
    const TWO_ADICITY: u32 = 3;
    const TRACE_MINUS_ONE_DIV_TWO: &'static [u64] = &[
        0x9df37fa6adfa3f67, 0x47e94b65dd587942, 0xc80333b6e0d0ac78,
        0x2b6257722f37046f, 0xfd092fd4d8b87b13, 0x1675078c5bfca9dc,
        0x697423ba265a4597, 0xbe63c85687f90125, 0xfa5ea96d320f0c09,
        0x0cc15241ae6ff30e, 0x51613fef090403f4, 0x32757bd13a1882b3,
        0xeebbf697f70ab363, 0x1f8381d48711040a, 0x09db730c94d2c725,
        0x52898f07af37a87c, 0x023f9943f709f256, 0x5c6bd9ddfd3f3c70,
        0x8387b25e652d089b, 0x59aedb9796302114, 0xf7d178f3bdb92811,
        0x711bf5628c5ff289, 0xf357a9ff2d4b9ce7, 0xf612ccb8e8db8e91,
        0x57157e1a6e24f86d, 0xe6b8e3c82c63af1a, 0x000b640003d666c6,
    ];
    const QUADRATIC_NONRESIDUE_TO_T: Fq3 = ArkFp3::new(
        ArkFp::new(BigInt::new([
            0x824206039e4bfd09, 0x3e5d5b613e65c725, 0x4240df0eaea3852e,
            0xedf820a3531b3db1, 0x81239d7b3cbf4afa, 0x45e03d9c9c2e869d,
            0x55017118fd4343a1, 0x48011d34521ca43b, 0x1510cbe00cf7e30a,
        ])),
        ArkFp::new(small(0)),
        ArkFp::new(small(0)),
    );
    const FROBENIUS_COEFF_FP3_C1: &'static [Fq] = &[
        ArkFp::new(entry(&fq3::FROBENIUS_COEFF_FP3_C1, 0)),
        ArkFp::new(entry(&fq3::FROBENIUS_COEFF_FP3_C1, 1)),
        ArkFp::new(entry(&fq3::FROBENIUS_COEFF_FP3_C1, 2)),
    ];
    const FROBENIUS_COEFF_FP3_C2: &'static [Fq] = &[
        ArkFp::new(entry(&fq3::FROBENIUS_COEFF_FP3_C2, 0)),
        ArkFp::new(entry(&fq3::FROBENIUS_COEFF_FP3_C2, 1)),
        ArkFp::new(entry(&fq3::FROBENIUS_COEFF_FP3_C2, 2)),
    ];
}

#[derive(Clone, Copy)]
pub struct Fq6Cfg;
type Fq6 = ArkFp6<Fq6Cfg>;

impl Fp6Config for Fq6Cfg {
    type Fp3Config = Fq3Cfg;
    const NONRESIDUE: Fq3 =
        ArkFp3::new(ArkFp::new(small(0)), ArkFp::new(small(1)), ArkFp::new(small(0)));
    const FROBENIUS_COEFF_FP6_C1: &'static [Fq] = &[
        ArkFp::new(entry(&fq6::FROBENIUS_COEFF_FP6_C1, 0)),
        ArkFp::new(entry(&fq6::FROBENIUS_COEFF_FP6_C1, 1)),
        ArkFp::new(entry(&fq6::FROBENIUS_COEFF_FP6_C1, 2)),
        ArkFp::new(entry(&fq6::FROBENIUS_COEFF_FP6_C1, 3)),
        ArkFp::new(entry(&fq6::FROBENIUS_COEFF_FP6_C1, 4)),
        ArkFp::new(entry(&fq6::FROBENIUS_COEFF_FP6_C1, 5)),
    ];
}

fn to_ark(x: &Fp) -> Fq {
    let mut limbs = [0u64; 9];
    limbs.copy_from_slice(&x.limbs);
    Fq::from_bigint(BigInt::new(limbs)).unwrap()
}

fn to_ark3(x: &CubicExt<Fp>) -> Fq3 {
    Fq3::new(to_ark(&x.c0), to_ark(&x.c1), to_ark(&x.c2))
}

fn to_ark6(x: &QuadExt<CubicExt<Fp>>) -> Fq6 {
    Fq6::new(to_ark3(&x.c0), to_ark3(&x.c1))
}

/// A stream of numbers to take test values from.
struct Stream(u64);

impl Stream {
    fn next(&mut self) -> u64 {
        self.0 = self.0.wrapping_mul(6364136223846793005).wrapping_add(1442695040888963407);
        let x = self.0;
        (x ^ (x >> 29)).wrapping_mul(0xbf58476d1ce4e5b9)
    }

    fn fq(&mut self, m: &Modulus) -> Fp {
        let limbs: Vec<u64> = (0..9).map(|_| self.next()).collect();
        Fp::from_limbs(&limbs, m)
    }

    fn fq3(&mut self, m: &Modulus) -> CubicExt<Fp> {
        CubicExt::new(self.fq(m), self.fq(m), self.fq(m))
    }

    fn fq6(&mut self, m: &Modulus) -> QuadExt<CubicExt<Fp>> {
        QuadExt::new(self.fq3(m), self.fq3(m))
    }
}

#[test]
fn cubic_extension_of_yafa_108_agrees_with_arkworks() {
    let yafa = Yafa::new();
    let f3 = &yafa.engine.fq6.base;
    let m = &f3.base;
    let mut s = Stream(11);
    for _ in 0..10 {
        let (a, b) = (s.fq3(m), s.fq3(m));
        let (x, y) = (to_ark3(&a), to_ark3(&b));
        assert_eq!(to_ark3(&a.add(&b, f3)), x + y);
        assert_eq!(to_ark3(&a.sub(&b, f3)), x - y);
        assert_eq!(to_ark3(&a.mul(&b, f3)), x * y);
        assert_eq!(to_ark3(&a.square(f3)), x.square());
        assert_eq!(to_ark3(&a.double(f3)), x.double());
        assert_eq!(to_ark3(&a.neg(f3)), -x);
        assert_eq!(to_ark3(&a.inverse(f3).unwrap()), x.inverse().unwrap());
        for k in 0..5 {
            assert_eq!(to_ark3(&a.frobenius_map(k, f3)), x.frobenius_map(k));
        }
        let k = s.fq(m);
        let mut scaled = x;
        scaled.mul_assign_by_fp(&to_ark(&k));
        assert_eq!(to_ark3(&a.scale(&k, f3)), scaled);
    }
}

#[test]
fn target_field_of_yafa_108_agrees_with_arkworks() {
    let yafa = Yafa::new();
    let f6 = &yafa.engine.fq6;
    let m = &f6.base.base;
    let mut s = Stream(12);
    for _ in 0..5 {
        let (a, b) = (s.fq6(m), s.fq6(m));
        let (x, y) = (to_ark6(&a), to_ark6(&b));
        assert_eq!(to_ark6(&a.add(&b, f6)), x + y);
        assert_eq!(to_ark6(&a.mul(&b, f6)), x * y);
        assert_eq!(to_ark6(&a.square(f6)), x.square());
        assert_eq!(to_ark6(&a.inverse(f6).unwrap()), x.inverse().unwrap());
        for k in 0..8 {
            assert_eq!(to_ark6(&a.frobenius_map(k, f6)), x.frobenius_map(k));
        }
        let mut c = x;
        c.conjugate_in_place();
        assert_eq!(to_ark6(&a.conjugate(f6)), c);
        let e = vec![s.next(), s.next()];
        assert_eq!(to_ark6(&pow(&a, &e, f6)), x.pow(&e));
    }
}

#[test]
fn final_exponentiation_of_yafa_108_agrees_with_arkworks() {
    let yafa = Yafa::new();
    let f6 = &yafa.engine.fq6;
    let m = &f6.base.base;
    let mut s = Stream(13);
    let a = s.fq6(m);
    let x = to_ark6(&a);
    // the whole exponent (q^6 - 1) / r at once
    let exponent: [u64; 50] = [
        0x51f8c355f7ed53f0, 0xceb64e31908bd0a1, 0x2bab9c77883c0ac5, 0x7af11a4f5c1be6c2,
        0x507874c2907a5585, 0x3a5e2c2d37eb0142, 0x1949a1a5698262d1, 0x1f8adbec64e1559c,
        0x135f72e2ac0b9008, 0x465bd8accd89ad14, 0xf72a75aacb4ccf7e, 0xa832aa1c61d7f88d,
        0x2ddd57e26f216c2a, 0x20ed3957c872a723, 0xb43ce5d67a282b12, 0x92be4e7ab0483552,
        0x2321df8aec06160d, 0x3b464b4bbf3207fe, 0xc1681db1f0ef01d4, 0xee8466df97832f83,
        0x4abacd9b5712c9ae, 0x20310f2d6468d5d4, 0x9fcb34b888494ba6, 0xd9217829d05dbcab,
        0x53e188f259f6e1a2, 0xfbf4c08c88f24fb1, 0x38e882e65e632ad5, 0xbc5e192ff014959a,
        0x2903deeecd11c3f4, 0x1237fe1bffe0aabb, 0xd7637b27470868f7, 0xb2f5b42dae1f5a2e,
        0xd1a92ecb27d82ec7, 0x1e2b4c635cd086eb, 0x904ac035c1353bcf, 0x2e37a89bbd654185,
        0xd6529b8fedad232b, 0xc80310c78a00b896, 0xb7ad74108e0a9d86, 0xa87596f1957502d2,
        0x01d125b62256c6c0, 0xdf3371d4da0b7bbc, 0x7e8454fc1407beb4, 0x88ddd6f4ec1caf85,
        0x39a2c84b87ae6e6f, 0x0ae6ef11c7a73c51, 0xbd7479e399563c60, 0x7270fa059332dd74,
        0xe3e43958bac02ef8, 0x0001037e20aed8aa,
    ];
    let ours = yafa.final_exponentiation(&a).unwrap();
    assert_eq!(to_ark6(&ours), x.pow(&exponent));
}

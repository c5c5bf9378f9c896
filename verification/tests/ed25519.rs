use yafa::curves::twisted_edwards::{TeAffine, TeProjective};
use yafa::ed25519::curves::EdwardsAffine;
use yafa::ed25519::curves::EdwardsParameters;
use yafa::ed25519::fields::fq::fq;
use yafa::ed25519::fields::fr::fr;
use yafa::errors::Error;
use yafa::fields::field::Field;
use yafa::fields::prime::Fp;
use yafa::modular::Modulus;

fn limbs(hex: &str, n: usize) -> Vec<u64> {
    let digits: Vec<u8> = hex.bytes().rev().collect();
    let mut out = vec![0u64; n];
    for (i, d) in digits.iter().enumerate() {
        let v = (*d as char).to_digit(16).unwrap() as u64;
        out[i / 16] |= v << (4 * (i % 16));
    }
    out
}

fn fp(hex: &str, m: &Modulus) -> Fp {
    Fp::from_limbs(&limbs(hex, m.limbs.len()), m)
}

fn hex(bytes: &[u8]) -> String {
    let mut s = String::new();
    for b in bytes {
        s.push_str(&format!("{:02x}", b));
    }
    s
}

fn join(parts: &[&str]) -> String {
    let mut s = String::new();
    for p in parts {
        s.push_str(p);
    }
    s
}

#[test]
fn test_generator() {
    let fq = fq();
    let curve = EdwardsParameters::curve(&fq);
    let generator: EdwardsAffine = EdwardsParameters::prime_subgroup_generator(&fq);
    assert!(curve.is_on_curve(&generator, &fq));
    assert!(curve.is_in_subgroup(&generator, &fr().limbs, &fq));
}

#[test]
fn test_montgomery_conversion() {
    // We want to emphasize that this Montgomery curve is not Curve25519.
    let fq = fq();
    let curve = EdwardsParameters::curve(&fq);
    // A = 2 * (a + d) / (a - d)
    let one = Fp::one(&fq);
    let diff_inv = curve.a.sub(&curve.d, &fq).inverse(&fq).unwrap();
    let a = one.double(&fq).mul(&curve.a.add(&curve.d, &fq), &fq).mul(&diff_inv, &fq);
    // B = 4 / (a - d)
    let b = one.double(&fq).double(&fq).mul(&diff_inv, &fq);
    assert!(a.same(&EdwardsParameters::montgomery_coeff_a(&fq), &fq));
    assert!(b.same(&EdwardsParameters::montgomery_coeff_b(&fq), &fq));
    let (ma, mb) = curve.montgomery_coefficients(&fq).unwrap();
    assert!(ma.same(&a, &fq));
    assert!(mb.same(&b, &fq));
    assert_eq!(ma.limbs, vec![486662u64, 0, 0, 0]);
    assert!(!mb.same(&one, &fq));
}

#[test]
fn edwards_curve_parameters_are_those_of_curve25519() {
    let fq = fq();
    let curve = EdwardsParameters::curve(&fq);
    // a = -1 and d = -121665 / 121666
    assert!(curve.a.add(&Fp::one(&fq), &fq).is_zero(&fq));
    let d = Fp::from_u64(121665, &fq).neg(&fq).mul(&Fp::from_u64(121666, &fq).inverse(&fq).unwrap(), &fq);
    assert!(curve.d.same(&d, &fq));
    // the generator has y = 4 / 5
    let g = EdwardsParameters::prime_subgroup_generator(&fq);
    let y = Fp::from_u64(4, &fq).mul(&Fp::from_u64(5, &fq).inverse(&fq).unwrap(), &fq);
    assert!(g.y.same(&y, &fq));
    assert_eq!(EdwardsParameters::cofactor(), vec![8u64]);
    // eight times the point (0, -1) of order two is the neutral point
    let two_torsion = TeAffine::new_unchecked(Fp::zero(&fq), Fp::one(&fq).neg(&fq));
    assert!(curve.clear_cofactor(&two_torsion, &EdwardsParameters::cofactor(), &fq).is_identity(&fq));
    assert!(!curve.clear_cofactor(&g, &EdwardsParameters::cofactor(), &fq).is_identity(&fq));
    let frm = fr();
    let eight = Fp::from_u64(8, &frm);
    assert!(EdwardsParameters::cofactor_inv(&frm).mul(&eight, &frm).same(&Fp::one(&frm), &frm));
}

#[test]
fn edwards_addition_is_one_law_for_all_points() {
    let fq = fq();
    let curve = EdwardsParameters::curve(&fq);
    let g = EdwardsParameters::prime_subgroup_generator(&fq);
    let p = g.to_projective(&fq);
    let two = curve.add(&p, &p, &fq);
    assert!(curve.double(&p, &fq).same(&two, &fq));
    let two_affine = two.to_affine(&fq).unwrap();
    assert!(two_affine.same(&TeAffine::new_unchecked(fp("36ab384c9f5a046c3d043b7d1833e7ac080d8e4515d7a45f83c5a14e2843ce0e", &fq), fp("2260cdf3092329c21da25ee8c9a21f5697390f51643851560e5f46ae6af8a3c9", &fq)), &fq));
    assert!(curve.is_on_curve(&two_affine, &fq));
    let k = limbs("deadbeefcafebabe1234567890", 2);
    let m = curve.mul_bigint(&g, &k, &fq).to_affine(&fq).unwrap();
    assert!(m.same(&TeAffine::new_unchecked(fp("71bcf7ee59b79ae06c62df716ecc7568e499b46c7a6ffcf24e9cd4b59bcb46d3", &fq), fp("37caf22a711f57bca1707db8656f3a7940c1366edc1dcc51bdab722fa786c99d", &fq)), &fq));
    // the neutral point and negatives
    let id = TeProjective::identity(&fq);
    assert!(curve.add(&p, &id, &fq).same(&p, &fq));
    assert!(curve.add(&id, &p, &fq).same(&p, &fq));
    assert!(curve.add(&p, &p.neg(&fq), &fq).is_identity(&fq));
    assert!(curve.add(&p, &g.neg(&fq).to_projective(&fq), &fq).is_identity(&fq));
    assert!(id.to_affine(&fq).unwrap().is_identity(&fq));
    assert!(TeAffine::<Fp>::identity(&fq).is_identity(&fq));
    assert!(!g.is_identity(&fq));
    assert!(!p.same(&two, &fq));
    assert!(curve.mul_bigint(&g, &vec![0], &fq).is_identity(&fq));
    assert!(curve.mul_bigint(&g, &vec![3], &fq).same(&curve.add(&two, &p, &fq), &fq));
    // associativity on three multiples
    let a = curve.mul_bigint(&g, &vec![11], &fq);
    let b = curve.mul_bigint(&g, &vec![222], &fq);
    let c = curve.mul_bigint(&g, &vec![3333], &fq);
    assert!(curve.add(&curve.add(&a, &b, &fq), &c, &fq).same(&curve.add(&a, &curve.add(&b, &c, &fq), &fq), &fq));
    assert!(curve.add(&a, &b, &fq).same(&curve.mul_bigint(&g, &vec![233], &fq), &fq));
}

#[test]
fn edwards_points_are_validated_when_built_from_coordinates() {
    let fq = fq();
    let r = fr().limbs;
    let curve = EdwardsParameters::curve(&fq);
    let g = EdwardsParameters::prime_subgroup_generator(&fq);
    assert!(curve.point(g.x.dup(&fq), g.y.dup(&fq), &fq).is_ok());
    assert!(curve.point_in_subgroup(g.x.dup(&fq), g.y.dup(&fq), &r, &fq).is_ok());
    assert!(matches!(curve.point(g.x.dup(&fq), g.x.dup(&fq), &fq), Err(Error::NotOnCurve)));
    assert!(matches!(
        curve.point_in_subgroup(g.x.dup(&fq), g.x.dup(&fq), &r, &fq),
        Err(Error::NotOnCurve)
    ));
    // the point (0, -1) has order two
    let (x, y) = (Fp::zero(&fq), Fp::one(&fq).neg(&fq));
    assert!(curve.point(x.dup(&fq), y.dup(&fq), &fq).is_ok());
    assert!(matches!(curve.point_in_subgroup(x, y, &r, &fq), Err(Error::NotInSubgroup)));
}

#[test]
fn the_scalar_field_of_the_yafa_curves_is_the_base_field_of_curve25519() {
    let m: Modulus = fq();
    assert_eq!(m.limbs, yafa::yafa_146::fields::fr::fr().limbs);
    assert_eq!(m.limbs, yafa::yafa_108::fields::fr::fr().limbs);
    assert_eq!(m.limbs, vec![0xffffffffffffffedu64, u64::MAX, u64::MAX, 0x7fffffffffffffff]);
}

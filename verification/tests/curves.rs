use yafa::curves::short_weierstrass::{Affine, Projective};
use yafa::errors::Error;
use yafa::fields::field::Field;
use yafa::fields::prime::Fp;
use yafa::fields::quadratic::QuadExt;
use yafa::modular::Modulus;
use yafa::yafa_108::curves::Yafa as Yafa108;
use yafa::yafa_146::curves::g1;
use yafa::yafa_146::curves::g2;
use yafa::yafa_146::curves::Yafa;

fn limbs(hex: &str, n: usize) -> Vec<u64> {
    let digits: Vec<u8> = hex.bytes().rev().collect();
    let mut out = vec![0u64; n];
    for (i, d) in digits.iter().enumerate() {
        let v = (*d as char).to_digit(16).unwrap() as u64;
        out[i / 16] |= v << (4 * (i % 16));
    }
    out
}

fn fp(hex: &str, m: &Modulus) -> Fp {
    Fp::from_limbs(&limbs(hex, m.limbs.len()), m)
}

fn hex(bytes: &[u8]) -> String {
    let mut s = String::new();
    for b in bytes {
        s.push_str(&format!("{:02x}", b));
    }
    s
}

fn join(parts: &[&str]) -> String {
    let mut s = String::new();
    for p in parts {
        s.push_str(p);
    }
    s
}

fn quad(c: &[&str], fq: &Modulus) -> QuadExt<Fp> {
    QuadExt::new(fp(c[0], fq), fp(c[1], fq))
}

fn g1_point(x: &str, y: &str, fq: &Modulus) -> Affine<Fp> {
    Affine::new_unchecked(fp(x, fq), fp(y, fq))
}

#[test]
fn generators_satisfy_their_curve_equations() {
    let yafa = Yafa::new();
    let fq2 = &yafa.engine.fq12.base.base;
    let fq = &fq2.base;
    assert!(yafa.g1.is_on_curve(&g1::Parameters::generator(fq), fq));
    assert!(yafa.g2.is_on_curve(&g2::Parameters::generator(fq2), fq2));
    let yafa = Yafa108::new();
    let fq3 = &yafa.engine.fq6.base;
    let fq = &fq3.base;
    assert!(yafa.g1.is_on_curve(&yafa::yafa_108::curves::g1::Parameters::generator(fq), fq));
    assert!(yafa.g2.is_on_curve(&yafa::yafa_108::curves::g2::Parameters::generator(fq3), fq3));
}

#[test]
fn scalar_field_order_times_generator_is_the_identity() {
    let yafa = Yafa::new();
    let fq2 = &yafa.engine.fq12.base.base;
    let fq = &fq2.base;
    let r = &yafa.fr.limbs;
    let p = g1::Parameters::generator(fq);
    let q = g2::Parameters::generator(fq2);
    assert!(yafa.g1.mul_bigint(&p, r, fq).is_identity(fq));
    assert!(yafa.g2.mul_bigint(&q, r, fq2).is_identity(fq2));
    assert!(yafa.g1.is_in_subgroup(&p, r, fq));
    assert!(yafa.g2.is_in_subgroup(&q, r, fq2));
    // one less than the order gives the negative
    let mut r1 = r.clone();
    r1[0] -= 1;
    let m = yafa.g1.mul_bigint(&p, &r1, fq).to_affine(fq).unwrap();
    assert!(m.same(&p.neg(fq), fq));
}

#[test]
fn scalar_field_order_times_generator_of_yafa_108_is_the_identity() {
    let yafa = Yafa108::new();
    let fq3 = &yafa.engine.fq6.base;
    let fq = &fq3.base;
    let r = &yafa.fr.limbs;
    let p = yafa::yafa_108::curves::g1::Parameters::generator(fq);
    let q = yafa::yafa_108::curves::g2::Parameters::generator(fq3);
    assert!(yafa.g1.is_in_subgroup(&p, r, fq));
    assert!(yafa.g2.is_in_subgroup(&q, r, fq3));
    assert!(!yafa.g1.mul_bigint(&p, &vec![2], fq).is_identity(fq));
}

#[test]
fn multiples_of_the_generator_have_the_expected_coordinates() {
    let yafa = Yafa::new();
    let fq2 = &yafa.engine.fq12.base.base;
    let fq = &fq2.base;
    let p = g1::Parameters::generator(fq);
    let two = yafa.g1.mul_bigint(&p, &vec![2], fq).to_affine(fq).unwrap();
    assert!(two.same(&g1_point("1ac3a91e031b47d6811f9ca27414f53ec27bd5a8906b8687b8b71f845f8cfa751849da9593e2f95e3ed5cc93f8ec3ba5b0f6b71e3946975389e0e23e51451f39d28f8610eb9d4b30", "ff8f79fb6bf876c8cdb8f7d401d83292e3ed6c661a764b1810bf1f3a00969fb37f89a46c3ee520a3b1e885dfb285c45dac00393de136d3203136d0f25b1040b58e6dc70938fc0ae", fq), fq));
    let k = limbs("deadbeefcafebabe1234567890", 2);
    let m = yafa.g1.mul_bigint(&p, &k, fq).to_affine(fq).unwrap();
    assert!(m.same(&g1_point("215b6984357d4b5c708db29f6541fce2b393c11ed3da99708a679be7a846f64e24f98c8d14453e432eb00a53139a717825e5e5b8d60bb1b82fad32afcc877ef607d117eadca95eac", "5bcf7f4d347ecd27e57549ef9057a9d70678d12ea8a4ce90293c258e08cc239dacd7ac27ce31dc436ec471f6c0778fb15fb36747a860659f1065b3c1746cf13214907efae93f6d", fq), fq));
    assert!(yafa.g1.is_on_curve(&m, fq));
    let q = g2::Parameters::generator(fq2);
    let m = yafa.g2.mul_bigint(&q, &k, fq2).to_affine(fq2).unwrap();
    let expected = Affine::new_unchecked(quad(&["12bc51d577b6e0360e4b94e3a0a6e8945139c6e2c77c71dda2370d2b53f7a135a3fa72d5cf9fac04ebdf13aebbfde680474df92e553d2c6f5ebd7c940bad469b51ea8377710c453e", "1e2b2178fd2590ac544aa398ae9ebc289da3bfac4e5ba71203d063b4354a308c77434e43a73541240e93461aaddd1cfbcacfe28fe5c6794e1cc72f4a8208cb17a47f452d9158beb0"], fq), quad(&["58c240c433c89d3c663f178e3ef2a83d50797392d3b0dc6ffcf7f438543b0f3d3ce665c1a3af9aeb09aacbb49865e6a8a09d294754d53dd5df653503b271173afae7bffacc92a0e", "5e6ae10227e4e464777498c5878613c2666595dcdf69afd8cbc8d69fc293e7b4b3cc607212482050ec7d4db6e4d7fa13e9467f22f65ebb2e8d9f9070afd997dd39e04eb956c529f"], fq));
    assert!(m.same(&expected, fq2));
    // zero times a point, and one times a point
    assert!(yafa.g1.mul_bigint(&p, &vec![0], fq).is_identity(fq));
    assert!(yafa.g1.mul_bigint(&p, &vec![], fq).is_identity(fq));
    assert!(yafa.g1.mul_bigint(&p, &vec![1], fq).to_affine(fq).unwrap().same(&p, fq));
}

#[test]
fn addition_and_doubling_agree() {
    let yafa = Yafa::new();
    let fq = &yafa.engine.fq12.base.base.base;
    let c = &yafa.g1;
    let g = g1::Parameters::generator(fq);
    let p = g.to_projective(fq);
    let two = c.double(&p, fq);
    assert!(c.add(&p, &p, fq).same(&two, fq));
    assert!(c.add_mixed(&p, &g, fq).same(&two, fq));
    let three = c.add(&two, &p, fq);
    assert!(c.add(&p, &two, fq).same(&three, fq));
    assert!(c.add_mixed(&two, &g, fq).same(&three, fq));
    assert!(c.mul_bigint(&g, &vec![3], fq).same(&three, fq));
    // (a + b) G = a G + b G
    let (a, b) = (vec![0x1234u64], vec![0xabcdefu64]);
    let sum = vec![0x1234u64 + 0xabcdef];
    assert!(c.add(&c.mul_bigint(&g, &a, fq), &c.mul_bigint(&g, &b, fq), fq).same(
        &c.mul_bigint(&g, &sum, fq),
        fq
    ));
    // the identity is neutral, and a point plus its negative is the identity
    let id = Projective::identity(fq);
    assert!(c.add(&p, &id, fq).same(&p, fq));
    assert!(c.add(&id, &p, fq).same(&p, fq));
    assert!(c.add(&p, &p.neg(fq), fq).is_identity(fq));
    assert!(c.add_mixed(&p, &g.neg(fq), fq).is_identity(fq));
    assert!(c.add_mixed(&id, &g, fq).same(&p, fq));
    assert!(c.add_mixed(&p, &Affine::identity(fq), fq).same(&p, fq));
    assert!(c.double(&id, fq).is_identity(fq));
    assert!(!p.same(&two, fq));
    assert!(!p.same(&id, fq));
    assert!(id.same(&Projective::identity(fq), fq));
    // cofactor clearing: the point with x = 4 goes to the generator
    let pre = g1_point("4", "a5473cef3c3a0bc150947090a54ed38757c4ffec8047fe275c89d9958ae11aeafa9f645eaa934de586a0df20c25d755ec5294a28061e799c59419e8c1e007d39bd20af44367ffc6", fq);
    assert!(c.is_on_curve(&pre, fq));
    let cleared = c.clear_cofactor(&pre, &g1::Parameters::cofactor(), fq).to_affine(fq).unwrap();
    assert!(cleared.same(&g, fq));
    assert!(!c.is_in_subgroup(&pre, &yafa.fr.limbs, fq));
    assert!(c.is_in_subgroup(&cleared, &yafa.fr.limbs, fq));
}

#[test]
fn points_are_validated_when_built_from_coordinates() {
    let yafa = Yafa::new();
    let fq = &yafa.engine.fq12.base.base.base;
    let r = &yafa.fr.limbs;
    let g = g1::Parameters::generator(fq);
    assert!(yafa.g1.point(g.x.dup(fq), g.y.dup(fq), fq).is_ok());
    assert!(yafa.g1.point_in_subgroup(g.x.dup(fq), g.y.dup(fq), r, fq).is_ok());
    // not on the curve
    assert!(matches!(yafa.g1.point(g.x.dup(fq), g.x.dup(fq), fq), Err(Error::NotOnCurve)));
    assert!(matches!(
        yafa.g1.point_in_subgroup(g.x.dup(fq), g.x.dup(fq), r, fq),
        Err(Error::NotOnCurve)
    ));
    // on the curve, but of an order that the cofactor has a share in
    let (x, y) = (fp("4", fq), fp("a5473cef3c3a0bc150947090a54ed38757c4ffec8047fe275c89d9958ae11aeafa9f645eaa934de586a0df20c25d755ec5294a28061e799c59419e8c1e007d39bd20af44367ffc6", fq));
    assert!(yafa.g1.point(x.dup(fq), y.dup(fq), fq).is_ok());
    assert!(matches!(yafa.g1.point_in_subgroup(x, y, r, fq), Err(Error::NotInSubgroup)));
}

#[test]
fn points_are_encoded_with_a_flag_for_the_identity() {
    let yafa = Yafa::new();
    let fq2 = &yafa.engine.fq12.base.base;
    let fq = &fq2.base;
    let g = g1::Parameters::generator(fq);
    let mut bytes = Vec::new();
    g.write(&mut bytes, fq);
    assert_eq!(bytes.len(), 145);
    assert_eq!(hex(&bytes), join(&[
        "bd275de6c23b469b18128b1bf09c8ad4dc72e530e5578d0d73f5f51f5aad8096d69940f06c4304d6cf96b198002f9935",
        "fc443c2ec044ae60ff85778f6ddedf3b39ddedc6256fc71522883660bb7d31b970d5b969f027333d3035d4c7d1d27d71",
        "be9eb21f9d6419d19608cb8dd15a28b7b2cbe0a28c19d860e453da921e7d7ff20c5241e52d95320aa66223b7ce0de801",
        "00",
    ]));
    let back = Affine::<Fp>::read(&bytes, fq).unwrap();
    assert!(back.same(&g, fq));
    let mut id = Vec::new();
    Affine::<Fp>::identity(fq).write(&mut id, fq);
    let mut expected = vec![0u8; 145];
    expected[144] = 1;
    assert_eq!(id, expected);
    assert!(Affine::<Fp>::read(&id, fq).unwrap().is_identity());
    // a point of the second group
    let q = g2::Parameters::generator(fq2);
    let mut bytes2 = Vec::new();
    q.write(&mut bytes2, fq2);
    assert_eq!(bytes2.len(), 289);
    assert!(Affine::<QuadExt<Fp>>::read(&bytes2, fq2).unwrap().same(&q, fq2));
    // what is no encoding
    let mut bad = bytes.clone();
    bad[144] = 2;
    assert!(matches!(Affine::<Fp>::read(&bad, fq), Err(Error::DeserializationRangeError)));
    let mut bad = bytes.clone();
    bad[144] = 1;
    assert!(matches!(Affine::<Fp>::read(&bad, fq), Err(Error::DeserializationRangeError)));
    assert!(matches!(Affine::<Fp>::read(&bytes[..144].to_vec(), fq), Err(Error::DeserializationRangeError)));
    let mut bad = bytes.clone();
    for b in bad.iter_mut().take(72) {
        *b = 0xff;
    }
    assert!(matches!(Affine::<Fp>::read(&bad, fq), Err(Error::DeserializationRangeError)));
}

#[test]
fn projective_points_reduce_to_affine_ones() {
    let yafa = Yafa::new();
    let fq = &yafa.engine.fq12.base.base.base;
    let g = g1::Parameters::generator(fq);
    let p = g.to_projective(fq);
    assert!(p.to_affine(fq).unwrap().same(&g, fq));
    // the same point with other coordinates
    let seven = fp("7", fq);
    let scaled = Projective { x: p.x.mul(&seven, fq), y: p.y.mul(&seven, fq), z: p.z.mul(&seven, fq) };
    assert!(scaled.same(&p, fq));
    assert!(scaled.to_affine(fq).unwrap().same(&g, fq));
    assert!(Projective::<Fp>::identity(fq).to_affine(fq).unwrap().is_identity());
    assert!(Affine::<Fp>::identity(fq).to_projective(fq).is_identity(fq));
    assert!(g.dup(fq).same(&g, fq));
    assert!(p.dup(fq).same(&p, fq));
    assert!(!g.neg(fq).same(&g, fq));
    assert!(g.neg(fq).neg(fq).same(&g, fq));
}

use yafa::curves::short_weierstrass::Affine;
use yafa::errors::Error;
use yafa::fields::field::Field;
use yafa::fields::power::pow;
use yafa::yafa_108::curves::g1;
use yafa::yafa_108::curves::g2;
use yafa::yafa_108::curves::{G1Prepared, Yafa, GT};

fn hex(bytes: &[u8]) -> String {
    let mut s = String::new();
    for b in bytes {
        s.push_str(&format!("{:02x}", b));
    }
    s
}

fn join(parts: &[&str]) -> String {
    let mut s = String::new();
    for p in parts {
        s.push_str(p);
    }
    s
}

fn generators(yafa: &Yafa) -> (g1::G1Affine, g2::G2Affine) {
    let fq3 = &yafa.engine.fq6.base;
    (g1::Parameters::generator(&fq3.base), g2::Parameters::generator(fq3))
}

fn times1(yafa: &Yafa, p: &g1::G1Affine, k: u64) -> g1::G1Affine {
    let fq = &yafa.engine.fq6.base.base;
    yafa.g1.mul_bigint(p, &vec![k], fq).to_affine(fq).unwrap()
}

fn times2(yafa: &Yafa, q: &g2::G2Affine, k: u64) -> g2::G2Affine {
    let fq3 = &yafa.engine.fq6.base;
    yafa.g2.mul_bigint(q, &vec![k], fq3).to_affine(fq3).unwrap()
}

#[test]
fn pairing_of_the_generators_of_yafa_108() {
    let yafa = Yafa::new();
    let (p, q) = generators(&yafa);
    let e: GT = yafa.ate_pairing(&p, &q).unwrap();
    let mut bytes = Vec::new();
    e.write(&mut bytes, &yafa.engine.fq6);
    assert_eq!(hex(&bytes), join(&[
        "0d2015fe34b4f91de498a4fcbd9980a5db915750467bfa2a9f183c397f47015d6eaf1cdaad74afff2402f3a4fb332820",
        "bd337fb82a5622f122dcfe7bb2669145b50828d809a839048cda38c993bf82d0bb1d9483b1242fb58b8ae54e3b243160",
        "8ccc064b82a68e64f07e3a1e74269e182c61cb7b69f83182fb6b11cfc8c77b761894b3c72e1806991a70ebcb7d8e7105",
        "509452308764b2a1e3f869711318a8fa50d3a4c9f974cefb19b2bdaa6bbf7a51eb217b97ec6fc08ad49ff3c3834abcd5",
        "b3ef1e963e775733010cbb62082055986cbf00ecc361cf0aacfc68d36c0eb561f81ebb711dd7e755562176c37e536a83",
        "8f1050b75d06cb8eadb83fc83c00e99075f52a1b390f6030a89d60d43e06a3ad236139f56c1d8fd84f591c010889b407",
        "ac96392ce8408c2bf6897a4dd4cd3fa50c723f64284ab47041158ca56196fa9b85044b5dcdaf19cfb71683dec1f91380",
        "c0d23050c7214396ba97aaef81a7623149326d18d3a638070ff25a68f939e99938a7e6ca1e3c01e8230ea6bb2d9f08ca",
        "e920ed41741c3067d237966bc9acdfea8c7a5df7f9c892901df81ee150d1c4f3fa771a2aac6f68f0a282be37fbbdee05",
    ]));
    // it is not the identity of the target group, and its order divides r
    assert!(!e.same(&GT::one(&yafa.engine.fq6), &yafa.engine.fq6));
    assert!(pow(&e, &yafa.fr.limbs, &yafa.engine.fq6).same(&GT::one(&yafa.engine.fq6), &yafa.engine.fq6));
}

#[test]
fn miller_loop_and_final_exponentiation_of_yafa_108() {
    let yafa = Yafa::new();
    let f6 = &yafa.engine.fq6;
    let (p, q) = generators(&yafa);
    let m = yafa.engine.ate_miller_loop(&p, &q).unwrap();
    let mut bytes = Vec::new();
    m.write(&mut bytes, f6);
    assert_eq!(hex(&bytes), join(&[
        "542be5bcde36439e4e921f6f02b53d2d40a585da53fe3e91e7a48e27ac18250fc5397def68e3b722dd431cfcc8940506",
        "762ba40cbc4ea310443e0d415a75140d95e5b63698fc8e06e8859eed64e08ea15523041b9923713f227ecbf43884bd9c",
        "e931b245ec1fb33abea5db3d788a3c25df3afafa0d28f15ba44a8c789657b4dd63879c5e9882fab6862935b222b6d301",
        "a9b24f5844da24f7dfe3b288a69cd7771747b5a1a02d793753ff4a06e28bd0c008d6b0265639bfb626a68fcf85812279",
        "2742ed057cf67eaf8c74af101edca1ba0d8a4db654e1800885c253783592461e8306f4e94ee772004d30e47dfc24e4a0",
        "5e9619336da375096899608658f477c6d9896f0e71e680bfe5ad23687e592182039773bc95300c6ad63d9b762b1e9514",
        "0f1edd86092a53c8f10d2f48758c973c7392dbe031afde7d24686b0111e504fae96097fa34af47e1765246b6dd608848",
        "2eabc70f3db7ebd87b47afa38213e72feb54a747521449064b93c2f79d6ba92efa3810e7e59467db247a3ed8b4bfcaee",
        "099d1299a3e95635ff4034797e9972504fb416fccd0302093f273bd8627866468d095fd6fb711697c35cdba160a27b11",
    ]));
    let e = yafa.final_exponentiation(&m).unwrap();
    assert!(e.same(&yafa.ate_pairing(&p, &q).unwrap(), f6));
    // the two chunks, as the final exponentiation puts them together
    let inv = m.inverse(f6).unwrap();
    let first = yafa.engine.final_exponentiation_first(&m, &inv);
    let first_inv = yafa.engine.final_exponentiation_first(&inv, &m);
    assert!(first.mul(&first_inv, f6).same(&GT::one(f6), f6));
    assert!(yafa.engine.final_exponentiation_last(&first, &first_inv).same(&e, f6));
    // the first chunk is the power (q^3 - 1)(q + 1)
    let q3 = m.frobenius_map(3, f6).mul(&inv, f6);
    assert!(first.same(&q3.frobenius_map(1, f6).mul(&q3, f6), f6));
}

#[test]
fn pairing_of_yafa_108_is_bilinear() {
    let yafa = Yafa::new();
    let f6 = &yafa.engine.fq6;
    let (p, q) = generators(&yafa);
    let (a, b) = (0x9e3779b97f4a7c15u64, 0xc2b2ae3d27d4eb4fu64);
    let e = yafa.ate_pairing(&p, &q).unwrap();
    let e_ab = yafa.ate_pairing(&times1(&yafa, &p, a), &times2(&yafa, &q, b)).unwrap();
    let e_ba = yafa.ate_pairing(&times1(&yafa, &p, b), &times2(&yafa, &q, a)).unwrap();
    let product = (a as u128) * (b as u128);
    let exponent = vec![product as u64, (product >> 64) as u64];
    assert!(e_ab.same(&e_ba, f6));
    assert!(e_ab.same(&pow(&e, &exponent, f6), f6));
    assert!(!e_ab.same(&GT::one(f6), f6));
}

#[test]
fn multi_pairing_of_yafa_108_is_the_product_of_the_pairings() {
    let yafa = Yafa::new();
    let f6 = &yafa.engine.fq6;
    let fq3 = &f6.base;
    let fq = &fq3.base;
    let (p, q) = generators(&yafa);
    let (p2, q2) = (times1(&yafa, &p, 3), times2(&yafa, &q, 5));
    let e1 = yafa.ate_pairing(&p, &q2).unwrap();
    let e2 = yafa.ate_pairing(&p2, &q).unwrap();
    let multi = yafa
        .multi_pairing(vec![p.dup(fq), p2.dup(fq)], vec![q2.dup(fq3), q.dup(fq3)])
        .unwrap();
    assert!(multi.same(&e1.mul(&e2, f6), f6));
    // the other way round, the pairs are other pairs
    let crossed = yafa
        .multi_pairing(vec![p.dup(fq), p2.dup(fq)], vec![q.dup(fq3), q2.dup(fq3)])
        .unwrap();
    assert!(!crossed.same(&multi, f6));
    // the Miller loops multiply too
    let m1 = yafa.engine.ate_miller_loop(&p, &q2).unwrap();
    let m2 = yafa.engine.ate_miller_loop(&p2, &q).unwrap();
    let mm = yafa.multi_miller_loop(vec![p.dup(fq), p2.dup(fq)], vec![q2.dup(fq3), q.dup(fq3)]).unwrap();
    assert!(mm.same(&m1.mul(&m2, f6), f6));
    // no pair at all
    assert!(yafa.multi_pairing(vec![], vec![]).unwrap().same(&GT::one(f6), f6));
}

#[test]
fn pairing_lists_of_yafa_108_have_to_match() {
    let yafa = Yafa::new();
    let fq3 = &yafa.engine.fq6.base;
    let fq = &fq3.base;
    let (p, q) = generators(&yafa);
    assert!(matches!(
        yafa.multi_pairing(vec![p.dup(fq), p.dup(fq)], vec![q.dup(fq3)]),
        Err(Error::MismatchedPairingLists)
    ));
    assert!(matches!(
        yafa.multi_miller_loop(vec![], vec![q.dup(fq3)]),
        Err(Error::MismatchedPairingLists)
    ));
}

#[test]
fn degenerate_input_to_the_pairing_of_yafa_108_is_reported() {
    let yafa = Yafa::new();
    let f6 = &yafa.engine.fq6;
    let fq3 = &f6.base;
    let (p, _) = generators(&yafa);
    // the tangent at the point at infinity, held as (0, 0), is vertical
    let id = Affine::identity(fq3);
    assert!(matches!(yafa.ate_pairing(&p, &id), Err(Error::NonInvertible)));
    assert!(matches!(yafa.engine.ate_miller_loop(&p, &id), Err(Error::NonInvertible)));
    assert!(matches!(yafa.final_exponentiation(&GT::zero(f6)), Err(Error::NonInvertible)));
    assert!(yafa.final_exponentiation(&GT::one(f6)).unwrap().same(&GT::one(f6), f6));
    assert!(G1Prepared::from_affine(Affine::identity(&fq3.base)).is_zero());
    assert!(!G1Prepared::from_affine(p).is_zero());
}

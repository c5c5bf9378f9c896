use yafa::curves::short_weierstrass::Affine;
use yafa::errors::Error;
use yafa::fields::field::Field;
use yafa::fields::power::pow;
use yafa::fields::quadratic::QuadExt;
use yafa::yafa_146::curves::g1;
use yafa::yafa_146::curves::g2;
use yafa::yafa_146::curves::{G1Prepared, G2Prepared, Yafa};
use yafa::yafa_146::fields::fq12::Fq12;

fn hex(bytes: &[u8]) -> String {
    let mut s = String::new();
    for b in bytes {
        s.push_str(&format!("{:02x}", b));
    }
    s
}

fn join(parts: &[&str]) -> String {
    let mut s = String::new();
    for p in parts {
        s.push_str(p);
    }
    s
}

fn generators(yafa: &Yafa) -> (g1::G1Affine, g2::G2Affine) {
    let fq2 = &yafa.engine.fq12.base.base;
    (g1::Parameters::generator(&fq2.base), g2::Parameters::generator(fq2))
}

fn times1(yafa: &Yafa, p: &g1::G1Affine, k: u64) -> g1::G1Affine {
    let fq = &yafa.engine.fq12.base.base.base;
    yafa.g1.mul_bigint(p, &vec![k], fq).to_affine(fq).unwrap()
}

fn times2(yafa: &Yafa, q: &g2::G2Affine, k: u64) -> g2::G2Affine {
    let fq2 = &yafa.engine.fq12.base.base;
    yafa.g2.mul_bigint(q, &vec![k], fq2).to_affine(fq2).unwrap()
}

#[test]
fn pairing_of_the_generators_of_yafa_146() {
    let yafa = Yafa::new();
    let f12 = &yafa.engine.fq12;
    let (p, q) = generators(&yafa);
    let e = yafa.pairing(&p, &q).unwrap();
    let mut bytes = Vec::new();
    e.write(&mut bytes, f12);
    assert_eq!(hex(&bytes), join(&[
        "3736f60cd5cf4db4e8f559ccd81e4af0466f9d803e1f5391ea911fe314ce4e3e49a33edbfc7223ad0a650121358d952b",
        "9413aca579bac9e46c638b1d2b0145006e8a4507a50b7f1e4875bb08d776e981b5e6e0cf0f75cc5b89c72e43abcfb564",
        "66aa5c9717ad880d9cac3103655cad1de11bd7d0bb9685c3a5263fa01db401ade75d4d8e3badb839614878b847f6ea01",
        "1945be16fe74747838e60ca195469dc05b4632233c455bd99b5d41ec5f5c154d2a6a963afe1120a09304389a303e98dc",
        "ca56d058ab762e27cf2f463d44c56549902a32b252f04520442d60e89f4cafc9aec7f8a344fc747c14388fdf7179b051",
        "93a1a8f2f75efeeb0865498687113ae107482e52ac862897cfb59b0311245a0a0f8cfc1d896daa4289550402472ed51d",
        "22cf1d841ad3376a30e675443bd838967975c6a807ae02c5de866329470fe8aa7324c3df05eaa7611aafbb66e948274d",
        "0a714ba8abf6fa3c3d3dc8efd32ace015a12e0a904ae4d0d23ce921fd06d542529d9fc4d0dc13cb8167fe0b3112491d6",
        "2840b4d3a740869a301c120cab885ad6423d5fd5603a2e5e8b56ea5ac44e1d043dc531ff04dffea319520fbacb64ef13",
        "9d6166ac8ce00c8d7490d052caa7ecb30d2c2b8f02160343783e37e2889736d3fe2b4cd20fac63e07e368b40827495bd",
        "e929ebabf1f6f0050a05b57359d4482245a682c72c4dec145165d40e720a77852f6bd1cae2d3ebb88583dfabb606f809",
        "d5ea690e1d672dc4988d69f4747c8e1ef7f09cb83d061c68369e79500eb3c4b3a5cbd30e86e93673227fa50558d0cb22",
        "9e4630426141fa108d7e118a13fd961dea3b2cc6892c53bb8c8df2697521ba01cbbec186c95c622a515d86524d847965",
        "24d81103b1306be217204f1656b306dac9f86c484c8262180fd8273ef3422dc48ab3d3fc455a0401defd67a36dbb13fd",
        "65e83b82950038cb204dae77c7d3659207badcb832b04bb56501e607308009a4ece9c5c6bbc0a063083c61a9323ecb02",
        "be0ab369d0b58b206bb94fea2c472561c9ed2a9758b77d62bffd2393398296d3193ab408bedbb90a9aa20e6489ab5a42",
        "258673f05ee89703479669df0f8dd7bef217fea07a8cdb146b04bc6a5a6fe9045f7e4bb688f58c4539894b21fa2b821f",
        "40551a8ed4606789738276fd2d9d4da7136f0ceae99f118caf473ff083a70da00c9a051e8a40cd49432f4221e555e118",
    ]));
    // it is not the identity of the target group, and its order divides r
    assert!(!e.same(&Fq12::one(f12), f12));
    assert!(pow(&e, &yafa.fr.limbs, f12).same(&Fq12::one(f12), f12));
}

#[test]
fn miller_loop_of_the_generators_of_yafa_146() {
    let yafa = Yafa::new();
    let f12 = &yafa.engine.fq12;
    let fq = &f12.base.base.base;
    let (p, q) = generators(&yafa);
    let prepared = yafa.engine.prepare(&q);
    let m = yafa.multi_miller_loop(vec![G1Prepared::from_affine(p.dup(fq))], vec![prepared]).unwrap();
    let mut bytes = Vec::new();
    m.write(&mut bytes, f12);
    assert_eq!(hex(&bytes), join(&[
        "584f5a81dc183f114af1e4420edd7727eb42c5a96d84f8876431c61aa68e4152127f59844a001c38d945cc786df78dc9",
        "d2087284f56c1a93e15158a31e7dc7b2c0f38342c7f4e11be98bf5900ace17aa2292869dc4589fefee74e7814d5158eb",
        "111961a915bd4f1871242f9cbbfad222949cf79b13b77ab0d47f47a0822af3387a3d8ca44ecec58e87b04901a974b600",
        "22a1fffb23c57232cb2d41b3576dbb8ca9e81dedaf6f950539ae093c1140a174beea0d0fa08dc87fc5cc764280238e15",
        "96fa6a21d31e7d5ffad46fa4f8d03f7c67b7420c40e7dd0e6d542cb0b174fbfd8f10c695e717ccd695f9a55b1288a075",
        "3c757985849007e7a6526c35e94c92684347f2394c5cb7394dbaf37b28dfad32250e528b3b46ad6fe8d3a96c864e9400",
        "9619035107b4f35f9efbbd7dd555fc93f31709205a8e1923968054b4be5014297ca6cb4be7f6fb5c87564ac07b990c83",
        "e5d5e2c379158f1497ef5cb1d763e15f14f2f67883eb6b02ac58af57c5972da587841bb626fc2850178784c2fd1b8cfc",
        "6db7503d500c68dd9acaa741e43bedb089ad1f887751a0416886df5e488fba295392bb33a2534a45dde3d89ac9da0907",
        "7b1da85790fd42f4e9ee457a81123fb6bbf0ac96ba2375db07def058f4bcb202dbd80ac348a57242dc222abee3cd78f5",
        "7011025882677fd41c0e0958b1d4ec16cddf7f0bb371a322c7b6eed7b8cc16df911210970916ef43e5131880c0b1b3a6",
        "38690e0bdb9508ce91a117c728160a18b7296fd6ae4fbaff5b94366bb13b26ac5881c44fd1beac632c4405b3690f8804",
        "185cb450051e3e759a696fcadea37f1d95714fe6e90bd2982f108dfadc31cf95b63df8f1f15c4bc28ebab03748fe4ed7",
        "e3b9125df7bf8ec69dddeec9b320d7b2b64b4cecf3b00317575cec7fd7669ca6531fb87ebbe49b0bd6e8dc0e1c44bec5",
        "0bd32c6667955e8906fddc3540be98b5efe787df7dc2e48e9b2eff902d3d597150505277a9e6c750d77cb78f8b1b960e",
        "389e7a6b2694ca6b885f88c01dc163ba646c86eeba7853eefad344b5f1c7af3c34bf409cc0565dc19dc593dc4a801e3c",
        "8649a381f718b5698d37480d32da643ea181f75593558a16cddb70f10083139b8e1ffdd7720dc806cd65c487973a2a10",
        "c38d8e83b340b195b685b20b73b1a77c9906476ff1392c9653ac110b56784206c80bff0056b9a994a1599cc2a2c7bb0d",
    ]));
}

#[test]
fn pairing_of_yafa_146_is_bilinear() {
    let yafa = Yafa::new();
    let f12 = &yafa.engine.fq12;
    let (p, q) = generators(&yafa);
    let (a, b) = (0x9e3779b97f4a7c15u64, 0xc2b2ae3d27d4eb4fu64);
    let e = yafa.pairing(&p, &q).unwrap();
    let e_ab = yafa.pairing(&times1(&yafa, &p, a), &times2(&yafa, &q, b)).unwrap();
    let e_ba = yafa.pairing(&times1(&yafa, &p, b), &times2(&yafa, &q, a)).unwrap();
    let product = (a as u128) * (b as u128);
    let exponent = vec![product as u64, (product >> 64) as u64];
    assert!(e_ab.same(&e_ba, f12));
    assert!(e_ab.same(&pow(&e, &exponent, f12), f12));
    assert!(!e_ab.same(&Fq12::one(f12), f12));
}

#[test]
fn multi_pairing_of_yafa_146_is_the_product_of_the_pairings() {
    let yafa = Yafa::new();
    let f12 = &yafa.engine.fq12;
    let fq2 = &f12.base.base;
    let fq = &fq2.base;
    let (p, q) = generators(&yafa);
    let (p2, q2) = (times1(&yafa, &p, 3), times2(&yafa, &q, 5));
    let e1 = yafa.pairing(&p, &q2).unwrap();
    let e2 = yafa.pairing(&p2, &q).unwrap();
    let multi = yafa
        .multi_pairing(&vec![p.dup(fq), p2.dup(fq)], &vec![q2.dup(fq2), q.dup(fq2)])
        .unwrap();
    assert!(multi.same(&e1.mul(&e2, f12), f12));
    let crossed = yafa
        .multi_pairing(&vec![p.dup(fq), p2.dup(fq)], &vec![q.dup(fq2), q2.dup(fq2)])
        .unwrap();
    assert!(!crossed.same(&multi, f12));
}

#[test]
fn multi_pairing_of_yafa_146_takes_more_pairs_than_one_chunk() {
    let yafa = Yafa::new();
    let f12 = &yafa.engine.fq12;
    let fq2 = &f12.base.base;
    let fq = &fq2.base;
    let (p, q) = generators(&yafa);
    // five pairs and one with a point at infinity: e(P, Q)^(1 + 2 + 3 + 4 + 5)
    let mut ps = Vec::new();
    let mut qs = Vec::new();
    for k in 1u64..=5 {
        ps.push(times1(&yafa, &p, k));
        qs.push(q.dup(fq2));
    }
    ps.push(Affine::identity(fq));
    qs.push(q.dup(fq2));
    let multi = yafa.multi_pairing(&ps, &qs).unwrap();
    let e = yafa.pairing(&p, &q).unwrap();
    assert!(multi.same(&pow(&e, &vec![15u64], f12), f12));
}

#[test]
fn pairing_lists_of_yafa_146_have_to_match() {
    let yafa = Yafa::new();
    let fq2 = &yafa.engine.fq12.base.base;
    let fq = &fq2.base;
    let (p, q) = generators(&yafa);
    assert!(matches!(
        yafa.multi_pairing(&vec![p.dup(fq), p.dup(fq)], &vec![q.dup(fq2)]),
        Err(Error::MismatchedPairingLists)
    ));
    assert!(matches!(
        yafa.multi_miller_loop(vec![G1Prepared::from_affine(p)], vec![]),
        Err(Error::MismatchedPairingLists)
    ));
}

#[test]
fn prepared_point_holds_one_triple_for_each_line_of_the_loop() {
    let yafa = Yafa::new();
    let fq2 = &yafa.engine.fq12.base.base;
    let (_, q) = generators(&yafa);
    let prepared: G2Prepared = yafa.engine.prepare(&q);
    // 255 doublings and three additions
    assert_eq!(prepared.ell_coeffs.len(), 258);
    assert!(!prepared.is_zero());
    assert!(!prepared.infinity);
    let copy = yafa.engine.dup_prepared(&prepared);
    assert_eq!(copy.ell_coeffs.len(), 258);
    assert!(copy.ell_coeffs[257].2.same(&prepared.ell_coeffs[257].2, fq2));
    let id = yafa.engine.prepare(&Affine::identity(fq2));
    assert!(id.is_zero());
    assert_eq!(id.ell_coeffs.len(), 0);
    assert_eq!(yafa.engine.loop_digits.len(), 256);
    assert_eq!(yafa.engine.loop_digits[0], 1);
    assert_eq!(yafa.engine.loop_digits[251], -1);
    assert_eq!(yafa.engine.loop_digits[255], 1);
}

#[test]
fn pairing_of_yafa_146_with_the_point_at_infinity_is_one() {
    let yafa = Yafa::new();
    let f12 = &yafa.engine.fq12;
    let fq2 = &f12.base.base;
    let fq = &fq2.base;
    let (p, q) = generators(&yafa);
    let one = Fq12::one(f12);
    assert!(yafa.pairing(&Affine::identity(fq), &q).unwrap().same(&one, f12));
    assert!(yafa.pairing(&p, &Affine::<QuadExt<_>>::identity(fq2)).unwrap().same(&one, f12));
    assert!(yafa.multi_pairing(&vec![], &vec![]).unwrap().same(&one, f12));
    assert!(matches!(yafa.final_exponentiation(&Fq12::zero(f12)), Err(Error::NonInvertible)));
    assert!(yafa.final_exponentiation(&one).unwrap().same(&one, f12));
}

#[test]
fn line_evaluation_multiplies_by_a_sparse_element() {
    let yafa = Yafa::new();
    let f12 = &yafa.engine.fq12;
    let fq2 = &f12.base.base;
    let fq = &fq2.base;
    let (p, q) = generators(&yafa);
    let prepared = yafa.engine.prepare(&q);
    let g = G1Prepared::from_affine(p.dup(fq));
    let mut f = Fq12::one(f12);
    yafa.ell(&mut f, &prepared.ell_coeffs[0], &g);
    // one times the line is the line: its coefficients stand at the places 0, 3 and 4
    let c = &prepared.ell_coeffs[0];
    assert!(f.c0.c0.same(&c.0.scale(&p.y, fq2), fq2));
    assert!(f.c0.c1.is_zero(fq2) && f.c0.c2.is_zero(fq2));
    assert!(f.c1.c0.same(&c.1.scale(&p.x, fq2), fq2));
    assert!(f.c1.c1.same(&c.2, fq2));
    assert!(f.c1.c2.is_zero(fq2));
    let mut h = f.dup(f12);
    yafa.engine.mul_by_034(&mut h, c.0.dup(fq2), c.1.dup(fq2), c.2.dup(fq2));
    assert!(!h.same(&f, f12));
}

use yafa::ed25519::fields::fq::fq as ed_fq;
use yafa::errors::Error;
use yafa::fields::field::Field;
use yafa::fields::power::pow;
use yafa::fields::prime::Fp;
use yafa::modular::Modulus;
use yafa::yafa_146::fields::fq::fq as yafa_fq;

fn limbs(hex: &str, n: usize) -> Vec<u64> {
    let digits: Vec<u8> = hex.bytes().rev().collect();
    let mut out = vec![0u64; n];
    for (i, d) in digits.iter().enumerate() {
        let v = (*d as char).to_digit(16).unwrap() as u64;
        out[i / 16] |= v << (4 * (i % 16));
    }
    out
}

fn fp(hex: &str, m: &Modulus) -> Fp {
    Fp::from_limbs(&limbs(hex, m.limbs.len()), m)
}

fn hex(bytes: &[u8]) -> String {
    let mut s = String::new();
    for b in bytes {
        s.push_str(&format!("{:02x}", b));
    }
    s
}

fn join(parts: &[&str]) -> String {
    let mut s = String::new();
    for p in parts {
        s.push_str(p);
    }
    s
}

const A: &str = "1234567890abcdef1234567890abcdef1234567890abcdef1234567890abcdef";
const B: &str = "fedcba987654321fedcba987654321fedcba987654321fedcba9876543210ff";
const C: &str = "5555aaaa5555aaaa5555aaaa5555aaaa5555aaaa5555aaaa5555aaaa5555aaaa";

#[test]
fn prime_field_sum_difference_product_have_the_expected_values() {
    let m = ed_fq();
    let (a, b) = (fp(A, &m), fp(B, &m));
    assert!(a.add(&b, &m).same(&fp("2222222218111111111111110700000efffffffff5eeefedeeeeeeeee4dddeee", &m), &m));
    assert!(a.sub(&b, &m).same(&fp("2468acf09468acd13579be01a579bcf2468acf12b68abf03579be023c79bcf0", &m), &m));
    assert!(b.sub(&a, &m).same(&fp("7db97530f6b97532eca8641fe5a86430db97530ed497540fca8641fdc38642fd", &m), &m));
    assert!(a.mul(&b, &m).same(&fp("aecd97fd248b2bd1b6c47dbaa0c656123632d9926478fa1a2d18970e9fa0c64", &m), &m));
    assert!(a.square(&m).same(&fp("4e30f56aa3991abb06678fa27e58dbc43e9e29da59189ccd76d4c41233d85dd2", &m), &m));
    assert!(a.double(&m).same(&fp("2468acf121579bde2468acf121579bde2468acf121579bde2468acf121579bde", &m), &m));
    assert!(a.neg(&m).same(&fp("6dcba9876f543210edcba9876f543210edcba9876f543210edcba9876f5431fe", &m), &m));
    assert_eq!(a.mul(&b, &m).limbs, limbs("aecd97fd248b2bd1b6c47dbaa0c656123632d9926478fa1a2d18970e9fa0c64", 4));
}

#[test]
fn prime_field_results_are_fully_reduced() {
    let m = ed_fq();
    // q - 1 plus 1 is 0, and (q - 1)^2 is 1
    let minus_one = fp("7fffffffffffffffffffffffffffffffffffffffffffffffffffffffffffffec", &m);
    let one = Fp::one(&m);
    assert!(minus_one.add(&one, &m).is_zero(&m));
    assert_eq!(minus_one.add(&one, &m).limbs, vec![0u64; 4]);
    assert_eq!(minus_one.mul(&minus_one, &m).limbs, vec![1u64, 0, 0, 0]);
    // a number that is not below the modulus is reduced when it comes in
    let big = Fp::from_limbs(&vec![u64::MAX; 4], &m);
    assert_eq!(big.limbs, limbs("25", 4));
    assert_eq!(Fp::from_u64(38, &m).limbs, vec![38u64, 0, 0, 0]);
}

#[test]
fn prime_field_is_associative_and_distributive() {
    for m in [ed_fq(), yafa_fq()] {
        let (a, b, c) = (fp(A, &m), fp(B, &m), fp(C, &m));
        assert!(a.add(&b, &m).add(&c, &m).same(&a.add(&b.add(&c, &m), &m), &m));
        assert!(a.mul(&b, &m).mul(&c, &m).same(&a.mul(&b.mul(&c, &m), &m), &m));
        assert!(a.mul(&b.add(&c, &m), &m).same(&a.mul(&b, &m).add(&a.mul(&c, &m), &m), &m));
        assert!(a.mul(&b, &m).same(&b.mul(&a, &m), &m));
    }
}

#[test]
fn prime_field_inverse_times_element_is_one() {
    for m in [ed_fq(), yafa_fq()] {
        for s in [A, B, C, "1", "2"] {
            let a = fp(s, &m);
            let inv = a.inverse(&m).unwrap();
            assert!(a.mul(&inv, &m).same(&Fp::one(&m), &m));
        }
    }
    let m = ed_fq();
    assert!(fp(A, &m).inverse(&m).unwrap().same(&fp("3f3aad64adc9f2a2dd63ddcf25c8c0ea6acdb63ba04bc5411ef637cbfefacee1", &m), &m));
    assert!(Fp::two_inv(&m).same(&fp("3ffffffffffffffffffffffffffffffffffffffffffffffffffffffffffffff7", &m), &m));
}

#[test]
fn prime_field_zero_has_no_inverse() {
    let m = ed_fq();
    assert!(Fp::zero(&m).inverse(&m).is_none());
}

#[test]
fn inverse_modulo_a_composite_is_found_exactly_for_the_units() {
    // 15 = 3 * 5
    let m = Modulus::new(vec![15]).unwrap();
    for x in 0u64..15 {
        let inv = Fp::from_u64(x, &m).inverse(&m);
        let unit = x % 3 != 0 && x % 5 != 0;
        assert_eq!(inv.is_some(), unit);
        if let Some(y) = inv {
            assert_eq!((x * y.limbs[0]) % 15, 1);
        }
    }
}

#[test]
fn modulus_has_to_be_odd_and_above_one() {
    assert!(Modulus::new(vec![]).is_none());
    assert!(Modulus::new(vec![1]).is_none());
    assert!(Modulus::new(vec![1, 0]).is_none());
    assert!(Modulus::new(vec![10]).is_none());
    assert!(Modulus::new(vec![0, 1]).is_none());
    assert!(Modulus::new(vec![3]).is_some());
    let m = Modulus::new(vec![1, 1]).unwrap();
    // 2^64 + 1 takes nine bytes
    assert_eq!(m.byte_len, 9);
    assert_eq!(Fp::encoded_len(&m), 9);
    assert_eq!(ed_fq().byte_len, 32);
    assert_eq!(yafa_fq().byte_len, 72);
}

#[test]
fn powers_follow_the_bits_of_the_exponent() {
    let m = ed_fq();
    let three = Fp::from_u64(3, &m);
    assert_eq!(pow(&three, &vec![5u64], &m).limbs, vec![243u64, 0, 0, 0]);
    assert_eq!(pow(&three, &vec![0u64], &m).limbs, vec![1u64, 0, 0, 0]);
    assert_eq!(pow(&three, &vec![], &m).limbs, vec![1u64, 0, 0, 0]);
    assert_eq!(pow(&three, &vec![1u64, 0], &m).limbs, vec![3u64, 0, 0, 0]);
    // an exponent of two limbs
    let a = fp(A, &m);
    assert!(pow(&a, &vec![0x0123456789abcdefu64, 0x1f], &m).same(&fp("d437ad056bc51b453a18051d9608b226d2ce1472193259b767fdc32bfa25821", &m), &m));
    // Fermat: a^(q - 1) = 1
    assert!(pow(&a, &limbs("7fffffffffffffffffffffffffffffffffffffffffffffffffffffffffffffec", 4), &m).same(&Fp::one(&m), &m));
}

#[test]
fn prime_field_encoding_is_little_endian_of_fixed_length() {
    let m = ed_fq();
    let mut bytes = Vec::new();
    Fp::from_u64(0x0102, &m).write(&mut bytes, &m);
    let mut expected = vec![0u8; 32];
    expected[0] = 2;
    expected[1] = 1;
    assert_eq!(bytes, expected);
    let a = fp(A, &m);
    let mut bytes = vec![7u8];
    a.write(&mut bytes, &m);
    assert_eq!(bytes.len(), 33);
    assert_eq!(hex(&bytes[1..]), "efcdab9078563412efcdab9078563412efcdab9078563412efcdab9078563412");
}

#[test]
fn prime_field_decoding_undoes_encoding() {
    for m in [ed_fq(), yafa_fq()] {
        for s in [A, B, C, "0", "1"] {
            let a = fp(s, &m);
            let mut bytes = Vec::new();
            a.write(&mut bytes, &m);
            assert_eq!(bytes.len(), Fp::encoded_len(&m));
            let back = Fp::read(&bytes, &m).unwrap();
            assert!(back.same(&a, &m));
            let mut again = Vec::new();
            back.write(&mut again, &m);
            assert_eq!(again, bytes);
        }
    }
}

#[test]
fn prime_field_decoding_rejects_what_is_no_residue() {
    let m = ed_fq();
    // the modulus itself
    let mut q = vec![0xffu8; 32];
    q[0] = 0xed;
    q[31] = 0x7f;
    assert!(matches!(Fp::read(&q, &m), Err(Error::DeserializationRangeError)));
    // one less is the largest residue
    q[0] = 0xec;
    assert!(Fp::read(&q, &m).is_ok());
    assert!(matches!(Fp::read(&vec![0xffu8; 32], &m), Err(Error::DeserializationRangeError)));
    // wrong lengths
    assert!(matches!(Fp::read(&vec![0u8; 31], &m), Err(Error::DeserializationRangeError)));
    assert!(matches!(Fp::read(&vec![0u8; 33], &m), Err(Error::DeserializationRangeError)));
    assert!(matches!(Fp::read(&vec![], &m), Err(Error::DeserializationRangeError)));
}

#[test]
fn errors_have_names() {
    assert_eq!(Error::NotOnCurve.name(), "point is not on the curve");
    assert_eq!(Error::NotInSubgroup.name(), "point is not in the prime-order subgroup");
    assert_eq!(Error::NonInvertible.name(), "element has no inverse");
    assert_eq!(Error::DeserializationRangeError.name(), "bytes do not encode an element");
    assert_eq!(Error::MismatchedPairingLists.name(), "pairing lists differ in length");
    assert_ne!(Error::NotOnCurve, Error::NotInSubgroup);
}

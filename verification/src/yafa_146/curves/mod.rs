//! The pairing of Yafa-146 and the two groups that it is defined on.

pub mod g1;
pub mod g2;

pub use crate::pairing::prepared::G1Prepared;
pub use crate::pairing::tate::G2Prepared;

use vstd::prelude::*;
use crate::bigint::limbs_from_slice;
use crate::curves::short_weierstrass::{Affine, SwCurve};
use crate::errors::Error;
use crate::fields::field::Field;
use crate::fields::frobenius::{iterate_frobenius_v, lemma_frobenius_order, FrobeniusLaws};
use crate::fields::prime::Fp;
use crate::modular::{is_inverse_mod, Modulus};
use crate::pairing::tate::{
    coeff_value, points_value, signed_digits, sign_of, EllCoeff, HardTerm, TateParams, V12, V2,
};
use crate::yafa_146::curves::g1::G1Affine;
use crate::yafa_146::curves::g2::G2Affine;
use crate::yafa_146::fields::fq::fq;
use crate::yafa_146::fields::fq12::{lemma_tables_consistent, Fq12, Fq12Config};
use crate::yafa_146::fields::fq2::{Fq2, Fq2Config};
use crate::yafa_146::fields::fq6::{Fq6, Fq6Config};
use crate::yafa_146::fields::fr::{fr, is_fr};

verus! {

/// The Yafa-146 curve with all that its pairing is computed from.
pub struct Yafa {
    /// The towers of fields and the constants of the pairing.
    pub engine: TateParams,
    /// The scalar field.
    pub fr: Modulus,
    /// The curve of the first group.
    pub g1: SwCurve<Fp>,
    /// The curve of the second group.
    pub g2: SwCurve<Fq2>,
}

/// TATE_LOOP_COUNT =
/// 57896044618658097711785492504343953926634992332820282019728792003956564819949
/// in signed binary digits, most significant first.
pub const TATE_LOOP_COUNT: [i8; 256] = [
    1, 0, 0, 0, 0, 0, 0, 0, 0, 0, 0, 0, 0, 0, 0, 0,
    0, 0, 0, 0, 0, 0, 0, 0, 0, 0, 0, 0, 0, 0, 0, 0,
    0, 0, 0, 0, 0, 0, 0, 0, 0, 0, 0, 0, 0, 0, 0, 0,
    0, 0, 0, 0, 0, 0, 0, 0, 0, 0, 0, 0, 0, 0, 0, 0,
    0, 0, 0, 0, 0, 0, 0, 0, 0, 0, 0, 0, 0, 0, 0, 0,
    0, 0, 0, 0, 0, 0, 0, 0, 0, 0, 0, 0, 0, 0, 0, 0,
    0, 0, 0, 0, 0, 0, 0, 0, 0, 0, 0, 0, 0, 0, 0, 0,
    0, 0, 0, 0, 0, 0, 0, 0, 0, 0, 0, 0, 0, 0, 0, 0,
    0, 0, 0, 0, 0, 0, 0, 0, 0, 0, 0, 0, 0, 0, 0, 0,
    0, 0, 0, 0, 0, 0, 0, 0, 0, 0, 0, 0, 0, 0, 0, 0,
    0, 0, 0, 0, 0, 0, 0, 0, 0, 0, 0, 0, 0, 0, 0, 0,
    0, 0, 0, 0, 0, 0, 0, 0, 0, 0, 0, 0, 0, 0, 0, 0,
    0, 0, 0, 0, 0, 0, 0, 0, 0, 0, 0, 0, 0, 0, 0, 0,
    0, 0, 0, 0, 0, 0, 0, 0, 0, 0, 0, 0, 0, 0, 0, 0,
    0, 0, 0, 0, 0, 0, 0, 0, 0, 0, 0, 0, 0, 0, 0, 0,
    0, 0, 0, 0, 0, 0, 0, 0, 0, 0, 0, -1, 0, -1, 0, 1,
];

/// FINAL_EXPONENT_LAST_CHUNK_W0 =
/// 278166797193920395909169859615948913295927548893474708621243707887222351979100300555804991
/// 79007884620636974433034081916025003956486380300643703133308392747535275498881809581
pub const FINAL_EXPONENT_LAST_CHUNK_W0: [u64; 9] = [
    0xbc41361f419dfcad, 0x7e898c59e9f6e67a, 0xa53054d2e155420a,
    0xf01d5c325a7e8db9, 0x0062cc2d9828db4b, 0xa9ab464e0f3efb97,
    0x4498a2a9fcde4960, 0xf05a7a282a9da654, 0x1ccaaec847ce3756,
];

/// FINAL_EXPONENT_LAST_CHUNK_W1 =
/// 195337342809628261513007105967343431370333625352945232921346926017502773512159370287059500
/// 10165895260665221949740604041087518331761534784981220098087966726908412430392012572
pub const FINAL_EXPONENT_LAST_CHUNK_W1: [u64; 9] = [
    0x4a8171212b68af1c, 0x6e9fd1b1cd44b35d, 0x10677198e7742d97,
    0x13b522f9221f979a, 0xa9d14c2dbb4cf3db, 0xaed043007079fa1e,
    0x7b9bdbddd59fe860, 0x0ee6a96afcb80cfc, 0x1437ebf93e40e187,
];

/// FINAL_EXPONENT_LAST_CHUNK_W2 =
/// 187875560996923904376762258748852607264234432078697552704163978066223964481890030695744137
/// 52571064036218150696957580977806429906239508024997419791567936987076281415850010664
pub const FINAL_EXPONENT_LAST_CHUNK_W2: [u64; 9] = [
    0x3e418200ad402828, 0xeaac6e307c80e9ac, 0x993fbe8fefb574c8,
    0x7e876f3ddda8ba7a, 0xf8ff3fbf0bb49620, 0x63883dfe09f064b0,
    0x8fd38d1af07c11e5, 0xee91cf069f66a1eb, 0x1372344f3c10e50b,
];

/// FINAL_EXPONENT_LAST_CHUNK_W3 =
/// 600746510796850913325441891520214792552399427644760978176030334322268158184417708567430611
/// 936132
pub const FINAL_EXPONENT_LAST_CHUNK_W3: [u64; 9] = [
    0xba0cbd2b5bed2384, 0xdab3b5db47bc3720, 0x6303cbb620293bf6,
    0xd93c6dabba8ba44f, 0x4800013b93e07009, 0x0000000000000000,
    0x0000000000000000, 0x0000000000000000, 0x0000000000000000,
];

impl Yafa {
    /// The value holds the parameters of Yafa-146.
    pub open spec fn wf(&self) -> bool {
        &&& self.engine.wf()
        &&& Fq12Config::describes(&self.engine.fq12)
        &&& Fq12::tables_consistent(&self.engine.fq12)
        &&& is_fr(&self.fr)
        &&& g1::Parameters::describes(&self.g1, &self.engine.fq12.base.base.base)
        &&& g2::Parameters::describes(&self.g2, &self.engine.fq12.base.base)
        &&& self.engine.twist_b.value() == self.g2.b.value()
        &&& is_inverse_mod(2, self.engine.two_inv.value(), self.engine.fq12.base.base.base.value())
        &&& self.engine.loop_digits@ == TATE_LOOP_COUNT@.map_values(|d: i8| sign_of(d))
        &&& self.engine.easy_power == 2
        &&& self.engine.hard_part@.len() == 4
        &&& self.engine.hard_part@[0].exponent@ == FINAL_EXPONENT_LAST_CHUNK_W0@
        &&& self.engine.hard_part@[1].exponent@ == FINAL_EXPONENT_LAST_CHUNK_W1@
        &&& self.engine.hard_part@[2].exponent@ == FINAL_EXPONENT_LAST_CHUNK_W2@
        &&& self.engine.hard_part@[3].exponent@ == FINAL_EXPONENT_LAST_CHUNK_W3@
        &&& forall|i: int| 0 <= i < 4 ==> !(#[trigger] self.engine.hard_part@[i]).negative
    }

    /// The parameters of Yafa-146.
    pub fn new() -> (r: Self)
        ensures
            r.wf(),
    {
        let fq12 = Fq12Config::params(Fq6Config::params(Fq2Config::params(fq())));
        proof {
            lemma_tables_consistent(&fq12);
        }
        let g1 = g1::Parameters::curve(&fq12.base.base.base);
        let g2 = g2::Parameters::curve(&fq12.base.base);
        let twist_b = g2.b.dup(&fq12.base.base);
        let two_inv = Fp::two_inv(&fq12.base.base.base);
        let loop_digits = signed_digits(TATE_LOOP_COUNT.as_slice());
        let mut hard_part: Vec<HardTerm> = Vec::new();
        let w0 = limbs_from_slice(FINAL_EXPONENT_LAST_CHUNK_W0.as_slice(), 0, 9);
        assert(w0@ =~= FINAL_EXPONENT_LAST_CHUNK_W0@);
        hard_part.push(HardTerm { exponent: w0, negative: false });
        let w1 = limbs_from_slice(FINAL_EXPONENT_LAST_CHUNK_W1.as_slice(), 0, 9);
        assert(w1@ =~= FINAL_EXPONENT_LAST_CHUNK_W1@);
        hard_part.push(HardTerm { exponent: w1, negative: false });
        let w2 = limbs_from_slice(FINAL_EXPONENT_LAST_CHUNK_W2.as_slice(), 0, 9);
        assert(w2@ =~= FINAL_EXPONENT_LAST_CHUNK_W2@);
        hard_part.push(HardTerm { exponent: w2, negative: false });
        let w3 = limbs_from_slice(FINAL_EXPONENT_LAST_CHUNK_W3.as_slice(), 0, 9);
        assert(w3@ =~= FINAL_EXPONENT_LAST_CHUNK_W3@);
        hard_part.push(HardTerm { exponent: w3, negative: false });
        let engine = TateParams { fq12, twist_b, two_inv, loop_digits, easy_power: 2, hard_part };
        Yafa { engine, fr: fr(), g1, g2 }
    }

    /// In each field of the tower, the Frobenius map of power one, applied as
    /// many times as the field has degree, gives every element back.
    pub proof fn lemma_frobenius_order(
        &self,
        x2: V2,
        x6: crate::fields::cubic::CubicExt<V2>,
        x12: V12,
    )
        requires
            self.wf(),
            Fq2::in_field(x2, &self.engine.fq12.base.base),
            Fq6::in_field(x6, &self.engine.fq12.base),
            Fq12::in_field(x12, &self.engine.fq12),
        ensures
            iterate_frobenius_v::<Fq2>(x2, 2, &self.engine.fq12.base.base) == x2,
            iterate_frobenius_v::<Fq6>(x6, 6, &self.engine.fq12.base) == x6,
            iterate_frobenius_v::<Fq12>(x12, 12, &self.engine.fq12) == x12,
    {
        lemma_frobenius_order::<Fq2>(x2, &self.engine.fq12.base.base);
        lemma_frobenius_order::<Fq6>(x6, &self.engine.fq12.base);
        lemma_frobenius_order::<Fq12>(x12, &self.engine.fq12);
    }

    /// The pairing of several pairs at once is the product of the pairings
    /// of the pairs, each computed by itself, as far as all of them are
    /// defined: the pairing of each pair, and the pairing of the first `k`
    /// pairs at once for every `k`.
    pub proof fn lemma_multi_pairing_is_product(&self, ps: Seq<Affine<nat>>, qs: Seq<Affine<V2>>)
        requires
            self.wf(),
            self.engine.points_in_field(ps, qs),
            forall|i: int| 0 <= i < ps.len() ==> #[trigger] self.engine.pairing_v(ps[i], qs[i]) is Some,
            forall|k: int|
                0 <= k <= ps.len() ==> #[trigger] self.engine.multi_pairing_v(
                    ps.take(k),
                    qs.take(k),
                ) is Some,
        ensures
            self.engine.multi_pairing_v(ps, qs) == self.engine.product_of_pairings_v(ps, qs, ps.len()),
    {
        self.engine.lemma_multi_pairing_is_product(ps, qs, ps.len());
        assert(ps.take(ps.len() as int) =~= ps);
        assert(qs.take(ps.len() as int) =~= qs);
    }

    /// Evaluates the line with the coefficients `coeffs` at the point `p`
    /// and multiplies `f` by it.
    pub fn ell(&self, f: &mut Fq12, coeffs: &EllCoeff, p: &G1Prepared)
        requires
            self.wf(),
            old(f).wf(&self.engine.fq12),
            self.engine.coeff_wf(*coeffs),
            p.wf(&self.engine.fq12.base.base.base),
        ensures
            final(f).wf(&self.engine.fq12),
            final(f).value() == self.engine.ell_v(old(f).value(), coeff_value(*coeffs), p.value()),
    {
        self.engine.ell(f, coeffs, p)
    }

    /// The Miller loop of two lists of prepared points, pair by pair. The
    /// lists have to be of one length.
    pub fn multi_miller_loop(&self, a: Vec<G1Prepared>, b: Vec<G2Prepared>) -> (r: Result<Fq12, Error>)
        requires
            self.wf(),
            forall|i: int|
                0 <= i < a@.len() ==> (#[trigger] a@[i]).wf(&self.engine.fq12.base.base.base),
            forall|i: int| 0 <= i < b@.len() ==> (#[trigger] b@[i]).wf(&self.engine),
        ensures
            a@.len() != b@.len() ==> r == Err::<Fq12, Error>(Error::MismatchedPairingLists),
            a@.len() == b@.len() ==> r is Ok && r->Ok_0.wf(&self.engine.fq12) && r->Ok_0.value()
                == self.engine.multi_miller_loop_v(
                crate::pairing::tate::pairs_value(a@.zip_with(b@)),
            ),
    {
        self.engine.multi_miller_loop(a, b)
    }

    /// The final exponentiation: the power `(q^12 - 1) / r`. It fails where
    /// `f` has no inverse.
    pub fn final_exponentiation(&self, f: &Fq12) -> (r: Result<Fq12, Error>)
        requires
            self.wf(),
            f.wf(&self.engine.fq12),
        ensures
            match self.engine.final_exponentiation_v(f.value()) {
                Some(v) => r is Ok && r->Ok_0.wf(&self.engine.fq12) && r->Ok_0.value() == v,
                None => r == Err::<Fq12, Error>(Error::NonInvertible),
            },
    {
        self.engine.final_exponentiation(f)
    }

    /// The pairing of `p` and `q`.
    pub fn pairing(&self, p: &G1Affine, q: &G2Affine) -> (r: Result<Fq12, Error>)
        requires
            self.wf(),
            p.wf(&self.engine.fq12.base.base.base),
            q.wf(&self.engine.fq12.base.base),
        ensures
            match self.engine.pairing_v(p.value(), q.value()) {
                Some(v) => r is Ok && r->Ok_0.wf(&self.engine.fq12) && r->Ok_0.value() == v,
                None => r == Err::<Fq12, Error>(Error::NonInvertible),
            },
    {
        self.engine.pairing(p, q)
    }

    /// The product of the pairings of the points of `ps` with the points of
    /// `qs` at the same places. The lists have to be of one length.
    pub fn multi_pairing(&self, ps: &Vec<G1Affine>, qs: &Vec<G2Affine>) -> (r: Result<Fq12, Error>)
        requires
            self.wf(),
            forall|i: int|
                0 <= i < ps@.len() ==> (#[trigger] ps@[i]).wf(&self.engine.fq12.base.base.base),
            forall|i: int| 0 <= i < qs@.len() ==> (#[trigger] qs@[i]).wf(&self.engine.fq12.base.base),
        ensures
            ps@.len() != qs@.len() ==> r == Err::<Fq12, Error>(Error::MismatchedPairingLists),
            ps@.len() == qs@.len() ==> match self.engine.multi_pairing_v(
                points_value::<Fp>(ps@),
                points_value::<Fq2>(qs@),
            ) {
                Some(v) => r is Ok && r->Ok_0.wf(&self.engine.fq12) && r->Ok_0.value() == v,
                None => r == Err::<Fq12, Error>(Error::NonInvertible),
            },
    {
        self.engine.multi_pairing(ps, qs)
    }
}

} // verus!

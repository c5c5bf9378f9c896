//! The pairing of Yafa-108 and the two groups that it is defined on.

pub mod g1;
pub mod g2;

pub use crate::pairing::prepared::G1Prepared;

use vstd::prelude::*;
use crate::bigint::limbs_from_slice;
use crate::curves::short_weierstrass::SwCurve;
use crate::errors::Error;
use crate::fields::cubic::CubicExt;
use crate::fields::field::Field;
use crate::fields::frobenius::{iterate_frobenius_v, lemma_frobenius_order, FrobeniusLaws};
use crate::fields::prime::Fp;
use crate::modular::Modulus;
use crate::pairing::ate::{AteParams, V3, V6};
use crate::yafa_108::curves::g1::G1Affine;
use crate::yafa_108::curves::g2::G2Affine;
use crate::yafa_108::fields::fq::fq;
use crate::yafa_108::fields::fq3::{Fq3, Fq3Config};
use crate::yafa_108::fields::fq6::{lemma_tables_consistent, Fq6, Fq6Config};
use crate::yafa_108::fields::fr::{fr, is_fr};

verus! {

/// An element of the target group.
pub type GT = Fq6;

/// The Yafa-108 curve with all that its pairing is computed from.
pub struct Yafa {
    /// The towers of fields and the constants of the pairing.
    pub engine: AteParams,
    /// The scalar field.
    pub fr: Modulus,
    /// The curve of the first group.
    pub g1: SwCurve<Fp>,
    /// The curve of the second group.
    pub g2: SwCurve<Fq3>,
}

/// ATE_IS_LOOP_COUNT_NEG = false
pub const ATE_IS_LOOP_COUNT_NEG: bool = false;

/// ATE_LOOP_COUNT =
/// 372992428555672686789935698172304228806337918473348441569462718938730304377195952806182
pub const ATE_LOOP_COUNT: [u64; 5] = [
    0x55792745f9e71926, 0xe5e55257bec5baaf, 0x2678d0333aa42ad6,
    0xc7e345c9559a9a4a, 0x00000000c000000a,
];

/// FINAL_EXPONENT_LAST_CHUNK_W0_IS_NEG = false
pub const FINAL_EXPONENT_LAST_CHUNK_W0_IS_NEG: bool = false;

/// FINAL_EXPONENT_LAST_CHUNK_ABS_OF_W0 =
/// 195337293085561601097948255628327070921349915223494308615383446369080415607858669660363239
/// 18363729219562215110665533950746637708295543215802259030565596621823690292271103113
pub const FINAL_EXPONENT_LAST_CHUNK_ABS_OF_W0: [u64; 9] = [
    0x7d919d468ad5bc89, 0x851c91204bcf98dc, 0x1ccd844b0de55ff8,
    0x36bd1be87c106c82, 0xcfe6ae45c3d21c71, 0x96d3c4ddb45de345,
    0xe20009f1de3c5d1f, 0xc534aab128f9dd7a, 0x1437eba2e55524f8,
];

/// FINAL_EXPONENT_LAST_CHUNK_W1 =
/// 600746357873917083993205832519317177466334726496174638989123538389804293458724181786507272
/// 967556
pub const FINAL_EXPONENT_LAST_CHUNK_W1: [u64; 9] = [
    0xed29225c5506d584, 0x4360c489b2a69d35, 0xd497d8292a77e57a,
    0x2e5856438790676e, 0x4800000815ea74e0, 0x0000000000000000,
    0x0000000000000000, 0x0000000000000000, 0x0000000000000000,
];

impl Yafa {
    /// The value holds the parameters of Yafa-108.
    pub open spec fn wf(&self) -> bool {
        &&& self.engine.wf()
        &&& Fq6Config::describes(&self.engine.fq6)
        &&& Fq6::tables_consistent(&self.engine.fq6)
        &&& is_fr(&self.fr)
        &&& g1::Parameters::describes(&self.g1, &self.engine.fq6.base.base)
        &&& g2::Parameters::describes(&self.g2, &self.engine.fq6.base)
        // TWIST = (0, 1, 0)
        &&& self.engine.twist.value() == (CubicExt { c0: 0nat, c1: 1nat, c2: 0nat })
        &&& self.engine.twist_a.value() == self.g2.a.value()
        &&& self.engine.loop_count@ == ATE_LOOP_COUNT@
        &&& self.engine.w0@ == FINAL_EXPONENT_LAST_CHUNK_ABS_OF_W0@
        &&& self.engine.w0_is_neg == FINAL_EXPONENT_LAST_CHUNK_W0_IS_NEG
        &&& self.engine.w1@ == FINAL_EXPONENT_LAST_CHUNK_W1@
    }

    /// The parameters of Yafa-108.
    pub fn new() -> (r: Self)
        ensures
            r.wf(),
    {
        let fq6 = Fq6Config::params(Fq3Config::params(fq()));
        proof {
            lemma_tables_consistent(&fq6);
        }
        let g1 = g1::Parameters::curve(&fq6.base.base);
        let g2 = g2::Parameters::curve(&fq6.base);
        let twist = CubicExt {
            c0: Fp::zero(&fq6.base.base),
            c1: Fp::one(&fq6.base.base),
            c2: Fp::zero(&fq6.base.base),
        };
        let twist_a = g2.a.dup(&fq6.base);
        let loop_count = limbs_from_slice(ATE_LOOP_COUNT.as_slice(), 0, 5);
        assert(loop_count@ =~= ATE_LOOP_COUNT@);
        let w0 = limbs_from_slice(FINAL_EXPONENT_LAST_CHUNK_ABS_OF_W0.as_slice(), 0, 9);
        assert(w0@ =~= FINAL_EXPONENT_LAST_CHUNK_ABS_OF_W0@);
        let w1 = limbs_from_slice(FINAL_EXPONENT_LAST_CHUNK_W1.as_slice(), 0, 9);
        assert(w1@ =~= FINAL_EXPONENT_LAST_CHUNK_W1@);
        let engine = AteParams {
            fq6,
            twist,
            twist_a,
            loop_count,
            w0,
            w0_is_neg: FINAL_EXPONENT_LAST_CHUNK_W0_IS_NEG,
            w1,
        };
        Yafa { engine, fr: fr(), g1, g2 }
    }

    /// In each field of the tower, the Frobenius map of power one, applied as
    /// many times as the field has degree, gives every element back.
    pub proof fn lemma_frobenius_order(&self, x3: V3, x6: V6)
        requires
            self.wf(),
            Fq3::in_field(x3, &self.engine.fq6.base),
            Fq6::in_field(x6, &self.engine.fq6),
        ensures
            iterate_frobenius_v::<Fq3>(x3, 3, &self.engine.fq6.base) == x3,
            iterate_frobenius_v::<Fq6>(x6, 6, &self.engine.fq6) == x6,
    {
        lemma_frobenius_order::<Fq3>(x3, &self.engine.fq6.base);
        lemma_frobenius_order::<Fq6>(x6, &self.engine.fq6);
    }

    /// The pairing of several pairs at once is the product of the pairings
    /// of the pairs, each computed by itself, as far as all of them are
    /// defined: the pairing of each pair, and the pairing of the first `k`
    /// pairs at once for every `k`.
    pub proof fn lemma_multi_pairing_is_product(&self, pairs: Seq<(G1Affine, G2Affine)>)
        requires
            self.wf(),
            forall|i: int|
                0 <= i < pairs.len() ==> (#[trigger] pairs[i]).0.wf(&self.engine.fq6.base.base)
                    && pairs[i].1.wf(&self.engine.fq6.base),
            forall|i: int|
                0 <= i < pairs.len() ==> self.engine.pairing_v(
                    (#[trigger] pairs[i]).0.value(),
                    pairs[i].1.value(),
                ) is Some,
            forall|k: nat|
                k <= pairs.len() ==> #[trigger] self.engine.multi_pairing_prefix_v(pairs, k) is Some,
        ensures
            self.engine.multi_pairing_v(pairs) == self.engine.product_of_pairings_v(
                pairs,
                pairs.len(),
            ),
    {
        self.engine.lemma_multi_pairing_is_product(pairs, pairs.len());
    }

    /// The pairing of `p` and `q`. It fails where the Miller loop meets a
    /// vertical line or gives an element without an inverse, which no pair
    /// of points of order `r` brings about.
    pub fn ate_pairing(&self, p: &G1Affine, q: &G2Affine) -> (r: Result<GT, Error>)
        requires
            self.wf(),
            p.wf(&self.engine.fq6.base.base),
            q.wf(&self.engine.fq6.base),
        ensures
            match self.engine.pairing_v(p.value(), q.value()) {
                Some(v) => r is Ok && r->Ok_0.wf(&self.engine.fq6) && r->Ok_0.value() == v,
                None => r == Err::<GT, Error>(Error::NonInvertible),
            },
    {
        self.engine.ate_pairing(p, q)
    }

    /// The product of the Miller loops of the points of `ps` with the points
    /// of `qs` at the same places. The lists have to be of one length.
    pub fn multi_miller_loop(&self, ps: Vec<G1Affine>, qs: Vec<G2Affine>) -> (r: Result<GT, Error>)
        requires
            self.wf(),
            forall|i: int| 0 <= i < ps@.len() ==> (#[trigger] ps@[i]).wf(&self.engine.fq6.base.base),
            forall|i: int| 0 <= i < qs@.len() ==> (#[trigger] qs@[i]).wf(&self.engine.fq6.base),
        ensures
            ps@.len() != qs@.len() ==> r == Err::<GT, Error>(Error::MismatchedPairingLists),
            ps@.len() == qs@.len() ==> match self.engine.multi_miller_loop_v(
                ps@.zip_with(qs@),
                ps@.len(),
            ) {
                Some(v) => r is Ok && r->Ok_0.wf(&self.engine.fq6) && r->Ok_0.value() == v,
                None => r == Err::<GT, Error>(Error::NonInvertible),
            },
    {
        if ps.len() != qs.len() {
            return Err(Error::MismatchedPairingLists);
        }
        let ghost zipped = ps@.zip_with(qs@);
        let pairs = crate::bits::zip_pairs(ps, qs);
        assert(pairs@ =~= zipped);
        self.engine.multi_miller_loop(&pairs)
    }

    /// The final exponentiation: the power `(q^6 - 1) / r`. It fails where
    /// `value` has no inverse.
    pub fn final_exponentiation(&self, value: &GT) -> (r: Result<GT, Error>)
        requires
            self.wf(),
            value.wf(&self.engine.fq6),
        ensures
            match self.engine.final_exponentiation_v(value.value()) {
                Some(v) => r is Ok && r->Ok_0.wf(&self.engine.fq6) && r->Ok_0.value() == v,
                None => r == Err::<GT, Error>(Error::NonInvertible),
            },
    {
        self.engine.final_exponentiation(value)
    }

    /// The product of the pairings of the points of `ps` with the points of
    /// `qs` at the same places. The lists have to be of one length.
    pub fn multi_pairing(&self, ps: Vec<G1Affine>, qs: Vec<G2Affine>) -> (r: Result<GT, Error>)
        requires
            self.wf(),
            forall|i: int| 0 <= i < ps@.len() ==> (#[trigger] ps@[i]).wf(&self.engine.fq6.base.base),
            forall|i: int| 0 <= i < qs@.len() ==> (#[trigger] qs@[i]).wf(&self.engine.fq6.base),
        ensures
            ps@.len() != qs@.len() ==> r == Err::<GT, Error>(Error::MismatchedPairingLists),
            ps@.len() == qs@.len() ==> match self.engine.multi_pairing_v(ps@.zip_with(qs@)) {
                Some(v) => r is Ok && r->Ok_0.wf(&self.engine.fq6) && r->Ok_0.value() == v,
                None => r == Err::<GT, Error>(Error::NonInvertible),
            },
    {
        self.engine.multi_pairing(ps, qs)
    }
}

} // verus!

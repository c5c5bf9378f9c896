//! What holds of the ate pairing: its final exponentiation respects
//! products, and so the pairing of several pairs at once is the product of
//! their pairings.

use vstd::prelude::*;
use crate::bigint::limbs_val;
use crate::bits::bits_after_first;
use crate::curves::short_weierstrass::Affine;
use crate::fields::field::Field;
use crate::fields::frobenius::FrobeniusLaws;
use crate::fields::laws::RingLaws;
use crate::fields::power::pow_v;
use crate::fields::prime::Fp;
use crate::fields::products::{
    lemma_frobenius_of_product, lemma_interchange, lemma_inverse_of_product, lemma_pow_in_field,
    lemma_pow_of_product,
};
use crate::pairing::ate::{AteParams, AteState, Fq3, Fq6, V3, V6};

verus! {

/// One raised to any power is one.
pub proof fn lemma_pow_of_one<F: RingLaws>(e: nat, p: &F::Params)
    requires
        F::params_wf(p),
    ensures
        pow_v::<F>(F::one_v(p), e, p) == F::one_v(p),
    decreases e,
{
    F::lemma_zero_one(p);
    if e > 0 {
        lemma_pow_of_one::<F>(e / 2, p);
        F::lemma_mul_one(F::one_v(p), p);
    }
}

impl AteParams {
    /// The parameters are usable and the tables of the Frobenius map are consistent.
    pub open spec fn lawful(&self) -> bool {
        self.wf() && Fq6::tables_consistent(&self.fq6)
    }

    /// The state holds values of the fields.
    pub open spec fn state_in_field(&self, st: AteState<V3>) -> bool {
        Fq3::in_field(st.rx, &self.fq6.base) && Fq3::in_field(st.ry, &self.fq6.base) && Fq6::in_field(
            st.f,
            &self.fq6,
        )
    }

    /// The product of the pairings of the first `n` pairs, each computed by itself.
    pub open spec fn product_of_pairings_v(&self, pairs: Seq<(Affine<Fp>, Affine<Fq3>)>, n: nat) -> Option<
        V6,
    >
        decreases n,
    {
        if n == 0 {
            Some(Fq6::one_v(&self.fq6))
        } else {
            match self.product_of_pairings_v(pairs, (n - 1) as nat) {
                None => None,
                Some(acc) => match self.pairing_v(pairs[n - 1].0.value(), pairs[n - 1].1.value()) {
                    None => None,
                    Some(e) => Some(Fq6::mul_v(acc, e, &self.fq6)),
                },
            }
        }
    }

    /// The final exponentiation of the Miller loops of the first `n` pairs.
    pub open spec fn multi_pairing_prefix_v(&self, pairs: Seq<(Affine<Fp>, Affine<Fq3>)>, n: nat) -> Option<
        V6,
    > {
        match self.multi_miller_loop_v(pairs, n) {
            None => None,
            Some(m) => self.final_exponentiation_v(m),
        }
    }

    proof fn lemma_line_head_in_field(&self, py: nat)
        requires
            self.wf(),
            Fp::in_field(py, &self.fq6.base.base),
        ensures
            Fq3::in_field(self.line_head_v(py), &self.fq6.base),
    {
        let f3 = &self.fq6.base;
        let t = self.twist.value();
        self.twist.lemma_wf_in_field(f3);
        Fq3::lemma_closed(t, t, f3);
        let tt = Fq3::mul_v(t, t, f3);
        Fp::lemma_closed(tt.c0, py, &f3.base);
        Fp::lemma_closed(tt.c1, py, &f3.base);
        Fp::lemma_closed(tt.c2, py, &f3.base);
    }

    proof fn lemma_scale_in_field(&self, a: V3, k: nat)
        requires
            self.wf(),
            Fq3::in_field(a, &self.fq6.base),
            Fp::in_field(k, &self.fq6.base.base),
        ensures
            Fq3::in_field(Fq3::scale_v(a, k, &self.fq6.base), &self.fq6.base),
    {
        let fq = &self.fq6.base.base;
        Fp::lemma_closed(a.c0, k, fq);
        Fp::lemma_closed(a.c1, k, fq);
        Fp::lemma_closed(a.c2, k, fq);
    }

    proof fn lemma_double_step_in_field(&self, st: AteState<V3>, px: nat, head: V3)
        requires
            self.wf(),
            self.state_in_field(st),
            Fp::in_field(px, &self.fq6.base.base),
            Fq3::in_field(head, &self.fq6.base),
            self.double_step_v(st, px, head) is Some,
        ensures
            self.state_in_field(self.double_step_v(st, px, head)->0),
    {
        let f3 = &self.fq6.base;
        let f6 = &self.fq6;
        let tw = self.twist.value();
        self.twist.lemma_wf_in_field(f3);
        self.twist_a.lemma_wf_in_field(f3);
        let sq = Fq3::mul_v(st.rx, st.rx, f3);
        Fq3::lemma_closed(st.rx, st.rx, f3);
        Fq3::lemma_closed(sq, sq, f3);
        let sq2 = Fq3::add_v(sq, sq, f3);
        Fq3::lemma_closed(sq2, sq, f3);
        let sq3 = Fq3::add_v(sq2, sq, f3);
        Fq3::lemma_closed(sq3, self.twist_a.value(), f3);
        let sq3a = Fq3::add_v(sq3, self.twist_a.value(), f3);
        Fq3::lemma_closed(st.ry, st.ry, f3);
        let ry2 = Fq3::add_v(st.ry, st.ry, f3);
        Fq3::lemma_inverse(ry2, f3);
        let inv = Fq3::inv_v(ry2, f3)->0;
        Fq3::lemma_closed(sq3a, inv, f3);
        let gamma = Fq3::mul_v(sq3a, inv, f3);
        Fq3::lemma_closed(gamma, tw, f3);
        let gamma_twist = Fq3::mul_v(gamma, tw, f3);
        Fq3::lemma_closed(gamma, st.rx, f3);
        let gamma_rx = Fq3::mul_v(gamma, st.rx, f3);
        self.lemma_scale_in_field(gamma_twist, px);
        let gamma_twist_px = Fq3::scale_v(gamma_twist, px, f3);
        Fq3::lemma_closed(gamma_rx, st.ry, f3);
        let t = Fq3::sub_v(gamma_rx, st.ry, f3);
        Fq3::lemma_closed(t, gamma_twist_px, f3);
        Fq3::lemma_closed(gamma, gamma, f3);
        Fq3::lemma_closed(st.rx, st.rx, f3);
        let rx = Fq3::sub_v(Fq3::mul_v(gamma, gamma, f3), Fq3::add_v(st.rx, st.rx, f3), f3);
        Fq3::lemma_closed(Fq3::mul_v(gamma, gamma, f3), Fq3::add_v(st.rx, st.rx, f3), f3);
        Fq3::lemma_closed(st.rx, rx, f3);
        Fq3::lemma_closed(gamma, Fq3::sub_v(st.rx, rx, f3), f3);
        Fq3::lemma_closed(Fq3::mul_v(gamma, Fq3::sub_v(st.rx, rx, f3), f3), st.ry, f3);
        Fq6::lemma_closed(st.f, st.f, f6);
        let ell = crate::fields::quadratic::QuadExt {
            c0: head,
            c1: Fq3::sub_v(t, gamma_twist_px, f3),
        };
        Fq6::lemma_closed(Fq6::mul_v(st.f, st.f, f6), ell, f6);
    }

    proof fn lemma_add_step_in_field(&self, st: AteState<V3>, q: Affine<V3>, px: nat, head: V3)
        requires
            self.wf(),
            self.state_in_field(st),
            Fq3::in_field(q.x, &self.fq6.base),
            Fq3::in_field(q.y, &self.fq6.base),
            Fp::in_field(px, &self.fq6.base.base),
            Fq3::in_field(head, &self.fq6.base),
            self.add_step_v(st, q, px, head) is Some,
        ensures
            self.state_in_field(self.add_step_v(st, q, px, head)->0),
    {
        let f3 = &self.fq6.base;
        let f6 = &self.fq6;
        let tw = self.twist.value();
        self.twist.lemma_wf_in_field(f3);
        Fq3::lemma_closed(st.rx, q.x, f3);
        let dx = Fq3::sub_v(st.rx, q.x, f3);
        Fq3::lemma_inverse(dx, f3);
        let inv = Fq3::inv_v(dx, f3)->0;
        Fq3::lemma_closed(st.ry, q.y, f3);
        Fq3::lemma_closed(Fq3::sub_v(st.ry, q.y, f3), inv, f3);
        let gamma = Fq3::mul_v(Fq3::sub_v(st.ry, q.y, f3), inv, f3);
        Fq3::lemma_closed(gamma, tw, f3);
        let gamma_twist = Fq3::mul_v(gamma, tw, f3);
        Fq3::lemma_closed(gamma, q.x, f3);
        let gamma_qx = Fq3::mul_v(gamma, q.x, f3);
        self.lemma_scale_in_field(gamma_twist, px);
        let gamma_twist_px = Fq3::scale_v(gamma_twist, px, f3);
        Fq3::lemma_closed(gamma_qx, q.y, f3);
        let t = Fq3::sub_v(gamma_qx, q.y, f3);
        Fq3::lemma_closed(t, gamma_twist_px, f3);
        Fq3::lemma_closed(gamma, gamma, f3);
        let gg = Fq3::mul_v(gamma, gamma, f3);
        Fq3::lemma_closed(gg, st.rx, f3);
        Fq3::lemma_closed(Fq3::sub_v(gg, st.rx, f3), q.x, f3);
        let rx = Fq3::sub_v(Fq3::sub_v(gg, st.rx, f3), q.x, f3);
        Fq3::lemma_closed(st.rx, rx, f3);
        Fq3::lemma_closed(gamma, Fq3::sub_v(st.rx, rx, f3), f3);
        Fq3::lemma_closed(Fq3::mul_v(gamma, Fq3::sub_v(st.rx, rx, f3), f3), st.ry, f3);
        let ell = crate::fields::quadratic::QuadExt {
            c0: head,
            c1: Fq3::sub_v(t, gamma_twist_px, f3),
        };
        Fq6::lemma_closed(st.f, ell, f6);
    }

    proof fn lemma_steps_in_field(&self, bits: Seq<bool>, n: nat, p: Affine<nat>, q: Affine<V3>)
        requires
            self.wf(),
            Fp::in_field(p.x, &self.fq6.base.base),
            Fp::in_field(p.y, &self.fq6.base.base),
            Fq3::in_field(q.x, &self.fq6.base),
            Fq3::in_field(q.y, &self.fq6.base),
            self.steps_v(bits, n, p, q) is Some,
        ensures
            self.state_in_field(self.steps_v(bits, n, p, q)->0),
        decreases n,
    {
        Fq6::lemma_zero_one(&self.fq6);
        if n > 0 {
            self.lemma_steps_in_field(bits, (n - 1) as nat, p, q);
            self.lemma_line_head_in_field(p.y);
            let st = self.steps_v(bits, (n - 1) as nat, p, q)->0;
            let head = self.line_head_v(p.y);
            self.lemma_double_step_in_field(st, p.x, head);
            if bits[n - 1] {
                self.lemma_add_step_in_field(self.double_step_v(st, p.x, head)->0, q, p.x, head);
            }
        }
    }

    /// The value of a Miller loop on points with coordinates in the fields
    /// is a value of the target field.
    pub proof fn lemma_miller_loop_in_field(&self, p: Affine<nat>, q: Affine<V3>)
        requires
            self.wf(),
            Fp::in_field(p.x, &self.fq6.base.base),
            Fp::in_field(p.y, &self.fq6.base.base),
            Fq3::in_field(q.x, &self.fq6.base),
            Fq3::in_field(q.y, &self.fq6.base),
            self.miller_loop_v(p, q) is Some,
        ensures
            Fq6::in_field(self.miller_loop_v(p, q)->0, &self.fq6),
    {
        let bits = bits_after_first(limbs_val(self.loop_count@));
        self.lemma_steps_in_field(bits, bits.len(), p, q);
    }

    /// The first chunk of the final exponentiation respects products.
    pub proof fn lemma_first_chunk_of_product(&self, x: V6, xi: V6, y: V6, yi: V6)
        requires
            self.lawful(),
            Fq6::in_field(x, &self.fq6),
            Fq6::in_field(xi, &self.fq6),
            Fq6::in_field(y, &self.fq6),
            Fq6::in_field(yi, &self.fq6),
        ensures
            self.first_chunk_v(Fq6::mul_v(x, y, &self.fq6), Fq6::mul_v(xi, yi, &self.fq6))
                == Fq6::mul_v(self.first_chunk_v(x, xi), self.first_chunk_v(y, yi), &self.fq6),
            Fq6::in_field(self.first_chunk_v(x, xi), &self.fq6),
    {
        let f6 = &self.fq6;
        let ex = Fq6::frobenius_v(x, 3, f6);
        let ey = Fq6::frobenius_v(y, 3, f6);
        Fq6::lemma_frobenius_in_field(x, 3, f6);
        Fq6::lemma_frobenius_in_field(y, 3, f6);
        lemma_frobenius_of_product::<Fq6>(x, y, 3, f6);
        lemma_interchange::<Fq6>(ex, ey, xi, yi, f6);
        let ox = Fq6::mul_v(ex, xi, f6);
        let oy = Fq6::mul_v(ey, yi, f6);
        Fq6::lemma_closed(ex, xi, f6);
        Fq6::lemma_closed(ey, yi, f6);
        lemma_frobenius_of_product::<Fq6>(ox, oy, 1, f6);
        Fq6::lemma_frobenius_in_field(ox, 1, f6);
        Fq6::lemma_frobenius_in_field(oy, 1, f6);
        lemma_interchange::<Fq6>(
            Fq6::frobenius_v(ox, 1, f6),
            Fq6::frobenius_v(oy, 1, f6),
            ox,
            oy,
            f6,
        );
        Fq6::lemma_closed(Fq6::frobenius_v(ox, 1, f6), ox, f6);
    }

    /// The last chunk of the final exponentiation respects products.
    pub proof fn lemma_last_chunk_of_product(&self, x: V6, xi: V6, y: V6, yi: V6)
        requires
            self.lawful(),
            Fq6::in_field(x, &self.fq6),
            Fq6::in_field(xi, &self.fq6),
            Fq6::in_field(y, &self.fq6),
            Fq6::in_field(yi, &self.fq6),
        ensures
            self.last_chunk_v(Fq6::mul_v(x, y, &self.fq6), Fq6::mul_v(xi, yi, &self.fq6))
                == Fq6::mul_v(self.last_chunk_v(x, xi), self.last_chunk_v(y, yi), &self.fq6),
            Fq6::in_field(self.last_chunk_v(x, xi), &self.fq6),
    {
        let f6 = &self.fq6;
        let w0 = limbs_val(self.w0@);
        let w1 = limbs_val(self.w1@);
        let qx = Fq6::frobenius_v(x, 1, f6);
        let qy = Fq6::frobenius_v(y, 1, f6);
        Fq6::lemma_frobenius_in_field(x, 1, f6);
        Fq6::lemma_frobenius_in_field(y, 1, f6);
        lemma_frobenius_of_product::<Fq6>(x, y, 1, f6);
        lemma_pow_of_product::<Fq6>(qx, qy, w1, f6);
        lemma_pow_of_product::<Fq6>(x, y, w0, f6);
        lemma_pow_of_product::<Fq6>(xi, yi, w0, f6);
        lemma_pow_in_field::<Fq6>(qx, w1, f6);
        lemma_pow_in_field::<Fq6>(qy, w1, f6);
        lemma_pow_in_field::<Fq6>(x, w0, f6);
        lemma_pow_in_field::<Fq6>(y, w0, f6);
        lemma_pow_in_field::<Fq6>(xi, w0, f6);
        lemma_pow_in_field::<Fq6>(yi, w0, f6);
        let ax = pow_v::<Fq6>(qx, w1, f6);
        let ay = pow_v::<Fq6>(qy, w1, f6);
        if self.w0_is_neg {
            lemma_interchange::<Fq6>(ax, ay, pow_v::<Fq6>(xi, w0, f6), pow_v::<Fq6>(yi, w0, f6), f6);
            Fq6::lemma_closed(ax, pow_v::<Fq6>(xi, w0, f6), f6);
        } else {
            lemma_interchange::<Fq6>(ax, ay, pow_v::<Fq6>(x, w0, f6), pow_v::<Fq6>(y, w0, f6), f6);
            Fq6::lemma_closed(ax, pow_v::<Fq6>(x, w0, f6), f6);
        }
    }

    /// The final exponentiation respects products: where it is defined of
    /// two values and of their product, its value at the product is the
    /// product of its values.
    pub proof fn lemma_final_exponentiation_of_product(&self, x: V6, y: V6)
        requires
            self.lawful(),
            Fq6::in_field(x, &self.fq6),
            Fq6::in_field(y, &self.fq6),
            self.final_exponentiation_v(x) is Some,
            self.final_exponentiation_v(y) is Some,
            self.final_exponentiation_v(Fq6::mul_v(x, y, &self.fq6)) is Some,
        ensures
            self.final_exponentiation_v(Fq6::mul_v(x, y, &self.fq6))->0 == Fq6::mul_v(
                self.final_exponentiation_v(x)->0,
                self.final_exponentiation_v(y)->0,
                &self.fq6,
            ),
            Fq6::in_field(self.final_exponentiation_v(x)->0, &self.fq6),
    {
        let f6 = &self.fq6;
        let xi = Fq6::inv_v(x, f6)->0;
        let yi = Fq6::inv_v(y, f6)->0;
        Fq6::lemma_inverse(x, f6);
        Fq6::lemma_inverse(y, f6);
        lemma_inverse_of_product::<Fq6>(x, y, f6);
        self.lemma_first_chunk_of_product(x, xi, y, yi);
        self.lemma_first_chunk_of_product(xi, x, yi, y);
        self.lemma_first_chunk_of_product(y, yi, x, xi);
        self.lemma_first_chunk_of_product(yi, y, xi, x);
        self.lemma_last_chunk_of_product(
            self.first_chunk_v(x, xi),
            self.first_chunk_v(xi, x),
            self.first_chunk_v(y, yi),
            self.first_chunk_v(yi, y),
        );
    }

    /// The final exponentiation of one is one, where it is defined.
    pub proof fn lemma_final_exponentiation_of_one(&self)
        requires
            self.lawful(),
            self.final_exponentiation_v(Fq6::one_v(&self.fq6)) is Some,
        ensures
            self.final_exponentiation_v(Fq6::one_v(&self.fq6)) == Some(Fq6::one_v(&self.fq6)),
    {
        let f6 = &self.fq6;
        let one = Fq6::one_v(f6);
        Fq6::lemma_zero_one(f6);
        Fq6::lemma_inverse(one, f6);
        let z = Fq6::inv_v(one, f6)->0;
        // 1 z = 1, so z = 1
        Fq6::lemma_mul_commutative(one, z, f6);
        Fq6::lemma_mul_one(z, f6);
        Fq6::lemma_mul_one(one, f6);
        Fq6::lemma_frobenius_zero_one(3, f6);
        Fq6::lemma_frobenius_zero_one(1, f6);
        lemma_pow_of_one::<Fq6>(limbs_val(self.w0@), f6);
        lemma_pow_of_one::<Fq6>(limbs_val(self.w1@), f6);
    }

    /// The Miller loops of pairs with coordinates in the fields multiply to
    /// a value of the target field.
    pub proof fn lemma_multi_miller_loop_in_field(&self, pairs: Seq<(Affine<Fp>, Affine<Fq3>)>, n: nat)
        requires
            self.wf(),
            n <= pairs.len(),
            forall|i: int|
                0 <= i < pairs.len() ==> (#[trigger] pairs[i]).0.wf(&self.fq6.base.base) && pairs[i].1.wf(
                    &self.fq6.base,
                ),
            self.multi_miller_loop_v(pairs, n) is Some,
        ensures
            Fq6::in_field(self.multi_miller_loop_v(pairs, n)->0, &self.fq6),
            n > 0 ==> Fq6::in_field(
                self.miller_loop_v(pairs[n - 1].0.value(), pairs[n - 1].1.value())->0,
                &self.fq6,
            ),
        decreases n,
    {
        Fq6::lemma_zero_one(&self.fq6);
        if n > 0 {
            self.lemma_multi_miller_loop_in_field(pairs, (n - 1) as nat);
            let pq = pairs[n - 1];
            assert(pq.0.wf(&self.fq6.base.base) && pq.1.wf(&self.fq6.base));
            pq.0.x.lemma_wf_in_field(&self.fq6.base.base);
            pq.0.y.lemma_wf_in_field(&self.fq6.base.base);
            pq.1.x.lemma_wf_in_field(&self.fq6.base);
            pq.1.y.lemma_wf_in_field(&self.fq6.base);
            self.lemma_miller_loop_in_field(pq.0.value(), pq.1.value());
            Fq6::lemma_closed(
                self.multi_miller_loop_v(pairs, (n - 1) as nat)->0,
                self.miller_loop_v(pq.0.value(), pq.1.value())->0,
                &self.fq6,
            );
        }
    }

    /// The pairing of several pairs at once is the product of the pairings
    /// of the pairs, each computed by itself, as far as all of them are
    /// defined: the pairing of each pair, and the pairing of the first `k`
    /// pairs at once for every `k`.
    pub proof fn lemma_multi_pairing_is_product(&self, pairs: Seq<(Affine<Fp>, Affine<Fq3>)>, n: nat)
        requires
            self.lawful(),
            n <= pairs.len(),
            forall|i: int|
                0 <= i < pairs.len() ==> (#[trigger] pairs[i]).0.wf(&self.fq6.base.base) && pairs[i].1.wf(
                    &self.fq6.base,
                ),
            forall|i: int|
                0 <= i < n ==> self.pairing_v(
                    (#[trigger] pairs[i]).0.value(),
                    pairs[i].1.value(),
                ) is Some,
            forall|k: nat| k <= n ==> #[trigger] self.multi_pairing_prefix_v(pairs, k) is Some,
        ensures
            self.multi_pairing_prefix_v(pairs, n) == self.product_of_pairings_v(pairs, n),
            Fq6::in_field(self.multi_pairing_prefix_v(pairs, n)->0, &self.fq6),
        decreases n,
    {
        let f6 = &self.fq6;
        Fq6::lemma_zero_one(f6);
        assert(self.multi_pairing_prefix_v(pairs, n) is Some);
        if n == 0 {
            self.lemma_final_exponentiation_of_one();
        } else {
            let k = (n - 1) as nat;
            self.lemma_multi_pairing_is_product(pairs, k);
            assert(self.multi_pairing_prefix_v(pairs, k) is Some);
            let pq = pairs[n - 1];
            assert(self.pairing_v(pq.0.value(), pq.1.value()) is Some);
            let acc = self.multi_miller_loop_v(pairs, k)->0;
            let m = self.miller_loop_v(pq.0.value(), pq.1.value())->0;
            self.lemma_multi_miller_loop_in_field(pairs, n);
            self.lemma_multi_miller_loop_in_field(pairs, k);
            self.lemma_final_exponentiation_of_product(acc, m);
            Fq6::lemma_mul_commutative(m, acc, f6);
            self.lemma_final_exponentiation_of_product(m, acc);
            Fq6::lemma_closed(
                self.final_exponentiation_v(acc)->0,
                self.final_exponentiation_v(m)->0,
                f6,
            );
        }
    }
}

} // verus!

//! The ate pairing on curves of embedding degree 6 whose second group lies on
//! a quadratic twist over the cubic extension: a Miller loop in affine
//! coordinates on the live second point, and the final exponentiation.

use vstd::prelude::*;
use crate::bigint::limbs_val;
use crate::bits::{bits_after_first, bits_be_after_first, zip_pairs};
use crate::curves::short_weierstrass::Affine;
use crate::errors::Error;
use crate::fields::cubic::CubicExt;
use crate::fields::field::Field;
use crate::fields::power::pow_v;
use crate::fields::prime::Fp;
use crate::fields::quadratic::{QuadExt, QuadParams};

verus! {

/// The cubic extension of the base field, where the twist lives.
pub type Fq3 = CubicExt<Fp>;

/// The sextic extension, the target field.
pub type Fq6 = QuadExt<CubicExt<Fp>>;

/// The value of an element of the cubic extension.
pub type V3 = CubicExt<nat>;

/// The value of an element of the target field.
pub type V6 = QuadExt<CubicExt<nat>>;

/// What the ate pairing of one curve family is computed from.
pub struct AteParams {
    /// The target field, which holds the twist field and the base field.
    pub fq6: QuadParams<CubicExt<Fp>>,
    /// The element of the twist field whose square root generates the target field.
    pub twist: Fq3,
    /// The coefficient `a` of the twisted curve.
    pub twist_a: Fq3,
    /// The length of the Miller loop.
    pub loop_count: Vec<u64>,
    /// The absolute value of the low digit of the last chunk of the final exponent.
    pub w0: Vec<u64>,
    /// Whether that digit is negative.
    pub w0_is_neg: bool,
    /// The high digit of the last chunk of the final exponent.
    pub w1: Vec<u64>,
}

/// The running point and the accumulated value of a Miller loop.
pub struct AteState<T> {
    pub rx: T,
    pub ry: T,
    pub f: QuadExt<T>,
}

impl AteParams {
    /// The target field is usable, and the twist and the coefficient are
    /// elements of the twist field.
    pub open spec fn wf(&self) -> bool {
        &&& Fq6::params_wf(&self.fq6)
        &&& self.twist.wf(&self.fq6.base)
        &&& self.twist_a.wf(&self.fq6.base)
    }

    /// The value that stands at the first place of every line: the second
    /// coordinate of the first point, times the square of the twist.
    pub open spec fn line_head_v(&self, py: nat) -> V3 {
        let f3 = &self.fq6.base;
        Fq3::scale_v(Fq3::mul_v(self.twist.value(), self.twist.value(), f3), py, f3)
    }

    /// The state before the first step.
    pub open spec fn start_v(&self, q: Affine<V3>) -> AteState<V3> {
        AteState { rx: q.x, ry: q.y, f: Fq6::one_v(&self.fq6) }
    }

    /// One doubling step: the tangent at the running point, evaluated at the
    /// first point, goes into the squared accumulator, and the running point
    /// is doubled. `None` where the tangent is vertical.
    pub open spec fn double_step_v(&self, st: AteState<V3>, px: nat, head: V3) -> Option<
        AteState<V3>,
    > {
        let f3 = &self.fq6.base;
        let sq = Fq3::mul_v(st.rx, st.rx, f3);
        let sq3 = Fq3::add_v(Fq3::add_v(sq, sq, f3), sq, f3);
        let sq3a = Fq3::add_v(sq3, self.twist_a.value(), f3);
        match Fq3::inv_v(Fq3::add_v(st.ry, st.ry, f3), f3) {
            None => None,
            Some(inv) => {
                let gamma = Fq3::mul_v(sq3a, inv, f3);
                let gamma_twist = Fq3::mul_v(gamma, self.twist.value(), f3);
                let gamma_rx = Fq3::mul_v(gamma, st.rx, f3);
                let gamma_twist_px = Fq3::scale_v(gamma_twist, px, f3);
                let y = Fq3::sub_v(Fq3::sub_v(gamma_rx, st.ry, f3), gamma_twist_px, f3);
                let ell = QuadExt { c0: head, c1: y };
                let rx = Fq3::sub_v(Fq3::mul_v(gamma, gamma, f3), Fq3::add_v(st.rx, st.rx, f3), f3);
                let ry = Fq3::sub_v(Fq3::mul_v(gamma, Fq3::sub_v(st.rx, rx, f3), f3), st.ry, f3);
                let f = Fq6::mul_v(Fq6::mul_v(st.f, st.f, &self.fq6), ell, &self.fq6);
                Some(AteState { rx, ry, f })
            },
        }
    }

    /// One addition step: the line through the running point and the second
    /// point, evaluated at the first point, goes into the accumulator, and
    /// the second point is added to the running point. `None` where the line
    /// is vertical.
    pub open spec fn add_step_v(&self, st: AteState<V3>, q: Affine<V3>, px: nat, head: V3) -> Option<
        AteState<V3>,
    > {
        let f3 = &self.fq6.base;
        match Fq3::inv_v(Fq3::sub_v(st.rx, q.x, f3), f3) {
            None => None,
            Some(inv) => {
                let gamma = Fq3::mul_v(Fq3::sub_v(st.ry, q.y, f3), inv, f3);
                let gamma_twist = Fq3::mul_v(gamma, self.twist.value(), f3);
                let gamma_qx = Fq3::mul_v(gamma, q.x, f3);
                let gamma_twist_px = Fq3::scale_v(gamma_twist, px, f3);
                let y = Fq3::sub_v(Fq3::sub_v(gamma_qx, q.y, f3), gamma_twist_px, f3);
                let ell = QuadExt { c0: head, c1: y };
                let rx = Fq3::sub_v(Fq3::sub_v(Fq3::mul_v(gamma, gamma, f3), st.rx, f3), q.x, f3);
                let ry = Fq3::sub_v(Fq3::mul_v(gamma, Fq3::sub_v(st.rx, rx, f3), f3), st.ry, f3);
                let f = Fq6::mul_v(st.f, ell, &self.fq6);
                Some(AteState { rx, ry, f })
            },
        }
    }

    /// The state after the first `n` of the loop's bits.
    pub open spec fn steps_v(&self, bits: Seq<bool>, n: nat, p: Affine<nat>, q: Affine<V3>) -> Option<
        AteState<V3>,
    >
        decreases n,
    {
        if n == 0 {
            Some(self.start_v(q))
        } else {
            match self.steps_v(bits, (n - 1) as nat, p, q) {
                None => None,
                Some(st) => match self.double_step_v(st, p.x, self.line_head_v(p.y)) {
                    None => None,
                    Some(st2) => if bits[n - 1] {
                        self.add_step_v(st2, q, p.x, self.line_head_v(p.y))
                    } else {
                        Some(st2)
                    },
                },
            }
        }
    }

    /// The value of the Miller loop on `p` and `q`: the accumulator after the
    /// bits of the loop count that follow its leading one.
    pub open spec fn miller_loop_v(&self, p: Affine<nat>, q: Affine<V3>) -> Option<V6> {
        let bits = bits_after_first(limbs_val(self.loop_count@));
        match self.steps_v(bits, bits.len(), p, q) {
            None => None,
            Some(st) => Some(st.f),
        }
    }

    /// The first chunk of the final exponentiation, the power `(q^3 - 1)(q + 1)`,
    /// from an element and its inverse.
    pub open spec fn first_chunk_v(&self, elt: V6, elt_inv: V6) -> V6 {
        let elt_q3 = Fq6::frobenius_v(elt, 3, &self.fq6);
        let elt_q3_over_elt = Fq6::mul_v(elt_q3, elt_inv, &self.fq6);
        let alpha = Fq6::frobenius_v(elt_q3_over_elt, 1, &self.fq6);
        Fq6::mul_v(alpha, elt_q3_over_elt, &self.fq6)
    }

    /// The last chunk of the final exponentiation, the power `w1 * q + w0`,
    /// from an element and its inverse.
    pub open spec fn last_chunk_v(&self, elt: V6, elt_inv: V6) -> V6 {
        let elt_q = Fq6::frobenius_v(elt, 1, &self.fq6);
        let w1_part = pow_v::<Fq6>(elt_q, limbs_val(self.w1@), &self.fq6);
        let w0_part = if self.w0_is_neg {
            pow_v::<Fq6>(elt_inv, limbs_val(self.w0@), &self.fq6)
        } else {
            pow_v::<Fq6>(elt, limbs_val(self.w0@), &self.fq6)
        };
        Fq6::mul_v(w1_part, w0_part, &self.fq6)
    }

    /// The final exponentiation, where `value` has an inverse.
    pub open spec fn final_exponentiation_v(&self, value: V6) -> Option<V6> {
        match Fq6::inv_v(value, &self.fq6) {
            None => None,
            Some(value_inv) => Some(
                self.last_chunk_v(
                    self.first_chunk_v(value, value_inv),
                    self.first_chunk_v(value_inv, value),
                ),
            ),
        }
    }

    /// The pairing of `p` and `q`.
    pub open spec fn pairing_v(&self, p: Affine<nat>, q: Affine<V3>) -> Option<V6> {
        match self.miller_loop_v(p, q) {
            None => None,
            Some(m) => self.final_exponentiation_v(m),
        }
    }

    /// The product of the Miller loops of the first `n` pairs.
    pub open spec fn multi_miller_loop_v(&self, pairs: Seq<(Affine<Fp>, Affine<Fq3>)>, n: nat) -> Option<
        V6,
    >
        decreases n,
    {
        if n == 0 {
            Some(Fq6::one_v(&self.fq6))
        } else {
            match self.multi_miller_loop_v(pairs, (n - 1) as nat) {
                None => None,
                Some(acc) => match self.miller_loop_v(pairs[n - 1].0.value(), pairs[n - 1].1.value()) {
                    None => None,
                    Some(m) => Some(Fq6::mul_v(acc, m, &self.fq6)),
                },
            }
        }
    }

    /// A loop that has failed stays failed.
    pub proof fn lemma_steps_fail(&self, bits: Seq<bool>, i: nat, n: nat, p: Affine<nat>, q: Affine<V3>)
        requires
            i <= n,
            self.steps_v(bits, i, p, q) is None,
        ensures
            self.steps_v(bits, n, p, q) is None,
        decreases n,
    {
        if i < n {
            self.lemma_steps_fail(bits, i, (n - 1) as nat, p, q);
        }
    }

    /// A product of loops that has failed stays failed.
    pub proof fn lemma_multi_fail(&self, pairs: Seq<(Affine<Fp>, Affine<Fq3>)>, i: nat, n: nat)
        requires
            i <= n,
            self.multi_miller_loop_v(pairs, i) is None,
        ensures
            self.multi_miller_loop_v(pairs, n) is None,
        decreases n,
    {
        if i < n {
            self.lemma_multi_fail(pairs, i, (n - 1) as nat);
        }
    }

    /// The Miller loop on `p` and `q`. It fails where a line that it meets is
    /// vertical, which no pair of points of prime order brings about.
    pub fn ate_miller_loop(&self, p: &Affine<Fp>, q: &Affine<Fq3>) -> (r: Result<Fq6, Error>)
        requires
            self.wf(),
            p.wf(&self.fq6.base.base),
            q.wf(&self.fq6.base),
        ensures
            match self.miller_loop_v(p.value(), q.value()) {
                Some(v) => r is Ok && r->Ok_0.wf(&self.fq6) && r->Ok_0.value() == v,
                None => r == Err::<Fq6, Error>(Error::NonInvertible),
            },
    {
        let f3 = &self.fq6.base;
        let f6 = &self.fq6;
        let twist_squared = self.twist.square(f3);
        let py_twist_squared = twist_squared.scale(&p.y, f3);
        let mut rx = q.x.dup(f3);
        let mut ry = q.y.dup(f3);
        let mut f = Fq6::one(f6);
        let bits = bits_be_after_first(&self.loop_count);
        let ghost pv = p.value();
        let ghost qv = q.value();
        let ghost head = self.line_head_v(pv.y);
        let mut i: usize = 0;
        while i < bits.len()
            invariant
                i <= bits.len(),
                self.wf(),
                f3 == &self.fq6.base,
                f6 == &self.fq6,
                p.wf(&self.fq6.base.base),
                q.wf(&self.fq6.base),
                pv == p.value(),
                qv == q.value(),
                head == self.line_head_v(pv.y),
                bits@ == bits_after_first(limbs_val(self.loop_count@)),
                py_twist_squared.wf(f3),
                py_twist_squared.value() == head,
                rx.wf(f3),
                ry.wf(f3),
                f.wf(f6),
                self.steps_v(bits@, i as nat, pv, qv) == Some(
                    AteState { rx: rx.value(), ry: ry.value(), f: f.value() },
                ),
            decreases bits.len() - i,
        {
            let ghost before = AteState { rx: rx.value(), ry: ry.value(), f: f.value() };
            let old_rx_square = rx.square(f3);
            let old_rx_square_2 = old_rx_square.double(f3);
            let old_rx_square_3 = old_rx_square_2.add(&old_rx_square, f3);
            let old_rx_square_3_a = old_rx_square_3.add(&self.twist_a, f3);
            let old_ry_double = ry.double(f3);
            let old_ry_double_inverse = match old_ry_double.inverse(f3) {
                Some(v) => v,
                None => {
                    proof {
                        assert(self.double_step_v(before, pv.x, head) is None);
                        assert(self.steps_v(bits@, (i + 1) as nat, pv, qv) is None);
                        self.lemma_steps_fail(bits@, (i + 1) as nat, bits@.len(), pv, qv);
                    }
                    return Err(Error::NonInvertible);
                },
            };
            let gamma = old_rx_square_3_a.mul(&old_ry_double_inverse, f3);
            let gamma_twist = gamma.mul(&self.twist, f3);
            let gamma_old_rx = gamma.mul(&rx, f3);
            let gamma_twist_px = gamma_twist.scale(&p.x, f3);
            let t = gamma_old_rx.sub(&ry, f3);
            let y = t.sub(&gamma_twist_px, f3);
            let ell_rr_at_p = QuadExt { c0: py_twist_squared.dup(f3), c1: y };
            let gamma_square = gamma.square(f3);
            let old_rx_double = rx.double(f3);
            let new_rx = gamma_square.sub(&old_rx_double, f3);
            let d = rx.sub(&new_rx, f3);
            let gd = gamma.mul(&d, f3);
            let new_ry = gd.sub(&ry, f3);
            let f_square = f.square(f6);
            f = f_square.mul(&ell_rr_at_p, f6);
            rx = new_rx;
            ry = new_ry;
            let ghost middle = AteState { rx: rx.value(), ry: ry.value(), f: f.value() };
            assert(self.double_step_v(before, pv.x, head) == Some(middle));
            if bits[i] {
                let dx = rx.sub(&q.x, f3);
                let dx_inverse = match dx.inverse(f3) {
                    Some(v) => v,
                    None => {
                        proof {
                            assert(self.add_step_v(middle, qv, pv.x, head) is None);
                            assert(self.steps_v(bits@, (i + 1) as nat, pv, qv) is None);
                            self.lemma_steps_fail(bits@, (i + 1) as nat, bits@.len(), pv, qv);
                        }
                        return Err(Error::NonInvertible);
                    },
                };
                let dy = ry.sub(&q.y, f3);
                let gamma = dy.mul(&dx_inverse, f3);
                let gamma_twist = gamma.mul(&self.twist, f3);
                let gamma_qx = gamma.mul(&q.x, f3);
                let gamma_twist_px = gamma_twist.scale(&p.x, f3);
                let t = gamma_qx.sub(&q.y, f3);
                let y = t.sub(&gamma_twist_px, f3);
                let ell_rq_at_p = QuadExt { c0: py_twist_squared.dup(f3), c1: y };
                let gamma_square = gamma.square(f3);
                let s = gamma_square.sub(&rx, f3);
                let new_rx = s.sub(&q.x, f3);
                let d = rx.sub(&new_rx, f3);
                let gd = gamma.mul(&d, f3);
                let new_ry = gd.sub(&ry, f3);
                f = f.mul(&ell_rq_at_p, f6);
                rx = new_rx;
                ry = new_ry;
                assert(self.add_step_v(middle, qv, pv.x, head) == Some(
                    AteState { rx: rx.value(), ry: ry.value(), f: f.value() },
                ));
            }
            i += 1;
        }
        Ok(f)
    }

    /// The first chunk of the final exponentiation, the power `(q^3 - 1)(q + 1)`.
    pub fn final_exponentiation_first(&self, elt: &Fq6, elt_inv: &Fq6) -> (r: Fq6)
        requires
            self.wf(),
            elt.wf(&self.fq6),
            elt_inv.wf(&self.fq6),
        ensures
            r.wf(&self.fq6),
            r.value() == self.first_chunk_v(elt.value(), elt_inv.value()),
    {
        let f6 = &self.fq6;
        // elt_q3 = elt^(q^3)
        let elt_q3 = elt.frobenius_map(3, f6);
        // elt_q3_over_elt = elt^(q^3 - 1)
        let elt_q3_over_elt = elt_q3.mul(elt_inv, f6);
        // alpha = elt^((q^3 - 1) * q)
        let alpha = elt_q3_over_elt.frobenius_map(1, f6);
        // elt^((q^3 - 1) * (q + 1))
        alpha.mul(&elt_q3_over_elt, f6)
    }

    /// The last chunk of the final exponentiation, the power `w1 * q + w0`.
    pub fn final_exponentiation_last(&self, elt: &Fq6, elt_inv: &Fq6) -> (r: Fq6)
        requires
            self.wf(),
            elt.wf(&self.fq6),
            elt_inv.wf(&self.fq6),
        ensures
            r.wf(&self.fq6),
            r.value() == self.last_chunk_v(elt.value(), elt_inv.value()),
    {
        let f6 = &self.fq6;
        let elt_q = elt.frobenius_map(1, f6);
        let w1_part = elt_q.cyclotomic_exp(&self.w1, f6);
        let w0_part = if self.w0_is_neg {
            elt_inv.cyclotomic_exp(&self.w0, f6)
        } else {
            elt.cyclotomic_exp(&self.w0, f6)
        };
        w1_part.mul(&w0_part, f6)
    }

    /// The final exponentiation: the power `(q^6 - 1) / r` of `value`. It
    /// fails exactly where `value` has no inverse.
    pub fn final_exponentiation(&self, value: &Fq6) -> (r: Result<Fq6, Error>)
        requires
            self.wf(),
            value.wf(&self.fq6),
        ensures
            match self.final_exponentiation_v(value.value()) {
                Some(v) => r is Ok && r->Ok_0.wf(&self.fq6) && r->Ok_0.value() == v,
                None => r == Err::<Fq6, Error>(Error::NonInvertible),
            },
    {
        let value_inv = match value.inverse(&self.fq6) {
            Some(v) => v,
            None => {
                return Err(Error::NonInvertible);
            },
        };
        let value_to_first_chunk = self.final_exponentiation_first(value, &value_inv);
        let value_inv_to_first_chunk = self.final_exponentiation_first(&value_inv, value);
        Ok(self.final_exponentiation_last(&value_to_first_chunk, &value_inv_to_first_chunk))
    }

    /// The pairing of `p` and `q`.
    pub fn ate_pairing(&self, p: &Affine<Fp>, q: &Affine<Fq3>) -> (r: Result<Fq6, Error>)
        requires
            self.wf(),
            p.wf(&self.fq6.base.base),
            q.wf(&self.fq6.base),
        ensures
            match self.pairing_v(p.value(), q.value()) {
                Some(v) => r is Ok && r->Ok_0.wf(&self.fq6) && r->Ok_0.value() == v,
                None => r == Err::<Fq6, Error>(Error::NonInvertible),
            },
    {
        match self.ate_miller_loop(p, q) {
            Ok(m) => self.final_exponentiation(&m),
            Err(e) => Err(Error::NonInvertible),
        }
    }

    /// The product of the Miller loops of all the pairs.
    pub fn multi_miller_loop(&self, pairs: &Vec<(Affine<Fp>, Affine<Fq3>)>) -> (r: Result<Fq6, Error>)
        requires
            self.wf(),
            forall|i: int|
                0 <= i < pairs@.len() ==> (#[trigger] pairs@[i]).0.wf(&self.fq6.base.base)
                    && pairs@[i].1.wf(&self.fq6.base),
        ensures
            match self.multi_miller_loop_v(pairs@, pairs@.len()) {
                Some(v) => r is Ok && r->Ok_0.wf(&self.fq6) && r->Ok_0.value() == v,
                None => r == Err::<Fq6, Error>(Error::NonInvertible),
            },
    {
        let mut result = Fq6::one(&self.fq6);
        let mut i: usize = 0;
        while i < pairs.len()
            invariant
                i <= pairs.len(),
                self.wf(),
                forall|k: int|
                    0 <= k < pairs@.len() ==> (#[trigger] pairs@[k]).0.wf(&self.fq6.base.base)
                        && pairs@[k].1.wf(&self.fq6.base),
                result.wf(&self.fq6),
                self.multi_miller_loop_v(pairs@, i as nat) == Some(result.value()),
            decreases pairs.len() - i,
        {
            let m = match self.ate_miller_loop(&pairs[i].0, &pairs[i].1) {
                Ok(m) => m,
                Err(e) => {
                    proof {
                        assert(self.multi_miller_loop_v(pairs@, (i + 1) as nat) is None);
                        self.lemma_multi_fail(pairs@, (i + 1) as nat, pairs@.len());
                    }
                    return Err(Error::NonInvertible);
                },
            };
            result = result.mul(&m, &self.fq6);
            i += 1;
        }
        Ok(result)
    }

    /// The product of the pairings of the pairs: the product of their
    /// Miller loops, and one final exponentiation.
    pub open spec fn multi_pairing_v(&self, pairs: Seq<(Affine<Fp>, Affine<Fq3>)>) -> Option<V6> {
        match self.multi_miller_loop_v(pairs, pairs.len()) {
            None => None,
            Some(m) => self.final_exponentiation_v(m),
        }
    }

    /// The product of the pairings of the points of `ps` with the points of
    /// `qs` at the same places. The lists have to be of one length.
    pub fn multi_pairing(&self, ps: Vec<Affine<Fp>>, qs: Vec<Affine<Fq3>>) -> (r: Result<Fq6, Error>)
        requires
            self.wf(),
            forall|i: int| 0 <= i < ps@.len() ==> (#[trigger] ps@[i]).wf(&self.fq6.base.base),
            forall|i: int| 0 <= i < qs@.len() ==> (#[trigger] qs@[i]).wf(&self.fq6.base),
        ensures
            ps@.len() != qs@.len() ==> r == Err::<Fq6, Error>(Error::MismatchedPairingLists),
            ps@.len() == qs@.len() ==> match self.multi_pairing_v(ps@.zip_with(qs@)) {
                Some(v) => r is Ok && r->Ok_0.wf(&self.fq6) && r->Ok_0.value() == v,
                None => r == Err::<Fq6, Error>(Error::NonInvertible),
            },
    {
        if ps.len() != qs.len() {
            return Err(Error::MismatchedPairingLists);
        }
        let ghost zipped = ps@.zip_with(qs@);
        let pairs = zip_pairs(ps, qs);
        assert(pairs@ =~= zipped);
        match self.multi_miller_loop(&pairs) {
            Ok(m) => self.final_exponentiation(&m),
            Err(e) => Err(Error::NonInvertible),
        }
    }
}

} // verus!

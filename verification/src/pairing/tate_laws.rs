//! What holds of the pairing with prepared points: its final exponentiation
//! respects products, its Miller loop on several pairs is the product of the
//! Miller loops of the pairs, and so the pairing of several pairs at once is
//! the product of their pairings.

use vstd::prelude::*;
use crate::bigint::limbs_val;
use crate::curves::short_weierstrass::Affine;
use crate::fields::field::Field;
use crate::fields::frobenius::FrobeniusLaws;
use crate::fields::laws::{lemma_ring_closed, RingLaws};
use crate::fields::prime::Fp;
use crate::fields::products::{
    lemma_conjugate_of_one, lemma_conjugate_of_product, lemma_frobenius_of_product,
    lemma_interchange, lemma_inverse_of_product, lemma_pow_in_field, lemma_pow_of_product,
};
use crate::pairing::ate_laws::lemma_pow_of_one;
use crate::pairing::tate::{
    keep_nonzero_v, EllCoeffValue, Fq12, Fq2, G2HomProjective, PairValue, TateParams, V12, V2,
};

verus! {

impl TateParams {
    /// The parameters are usable and the tables of the Frobenius map are consistent.
    pub open spec fn lawful(&self) -> bool {
        self.wf() && Fq12::tables_consistent(&self.fq12)
    }

    /// The inverse of one is one, where one has an inverse.
    proof fn lemma_inverse_of_one(&self)
        requires
            self.wf(),
            Fq12::inv_v(Fq12::one_v(&self.fq12), &self.fq12) is Some,
        ensures
            Fq12::inv_v(Fq12::one_v(&self.fq12), &self.fq12) == Some(Fq12::one_v(&self.fq12)),
    {
        let f12 = &self.fq12;
        let one = Fq12::one_v(f12);
        Fq12::lemma_zero_one(f12);
        Fq12::lemma_inverse(one, f12);
        let z = Fq12::inv_v(one, f12)->0;
        Fq12::lemma_mul_commutative(one, z, f12);
        Fq12::lemma_mul_one(z, f12);
    }

    /// The easy part of the final exponentiation respects products.
    pub proof fn lemma_easy_part_of_product(&self, x: V12, y: V12)
        requires
            self.lawful(),
            Fq12::in_field(x, &self.fq12),
            Fq12::in_field(y, &self.fq12),
            self.easy_part_v(x) is Some,
            self.easy_part_v(y) is Some,
            self.easy_part_v(Fq12::mul_v(x, y, &self.fq12)) is Some,
        ensures
            self.easy_part_v(Fq12::mul_v(x, y, &self.fq12))->0 == Fq12::mul_v(
                self.easy_part_v(x)->0,
                self.easy_part_v(y)->0,
                &self.fq12,
            ),
            Fq12::in_field(self.easy_part_v(x)->0, &self.fq12),
    {
        let f12 = &self.fq12;
        let k = self.easy_power as nat;
        let xi = Fq12::inv_v(x, f12)->0;
        let yi = Fq12::inv_v(y, f12)->0;
        Fq12::lemma_inverse(x, f12);
        Fq12::lemma_inverse(y, f12);
        lemma_inverse_of_product::<Fq12>(x, y, f12);
        lemma_conjugate_of_product(x, y, f12);
        lemma_conjugate_of_product(y, x, f12);
        let cx = Fq12::conjugate_v(x, f12);
        let cy = Fq12::conjugate_v(y, f12);
        lemma_interchange::<Fq12>(cx, cy, xi, yi, f12);
        let rx = Fq12::mul_v(cx, xi, f12);
        let ry = Fq12::mul_v(cy, yi, f12);
        Fq12::lemma_closed(cx, xi, f12);
        Fq12::lemma_closed(cy, yi, f12);
        lemma_frobenius_of_product::<Fq12>(rx, ry, k, f12);
        Fq12::lemma_frobenius_in_field(rx, k, f12);
        Fq12::lemma_frobenius_in_field(ry, k, f12);
        lemma_interchange::<Fq12>(
            Fq12::frobenius_v(rx, k, f12),
            Fq12::frobenius_v(ry, k, f12),
            rx,
            ry,
            f12,
        );
        Fq12::lemma_closed(Fq12::frobenius_v(rx, k, f12), rx, f12);
    }

    /// The image that the term of index `i` of the hard part starts from.
    pub open spec fn hard_image_v(&self, r: V12, i: int) -> V12 {
        if i == 0 {
            r
        } else {
            Fq12::frobenius_v(r, i as nat, &self.fq12)
        }
    }

    /// A term of the hard part of the final exponentiation respects products.
    pub proof fn lemma_hard_term_of_product(&self, x: V12, y: V12, i: int)
        requires
            self.lawful(),
            0 <= i < self.hard_part@.len(),
            Fq12::in_field(x, &self.fq12),
            Fq12::in_field(y, &self.fq12),
            self.hard_term_v(x, i) is Some,
            self.hard_term_v(y, i) is Some,
            self.hard_term_v(Fq12::mul_v(x, y, &self.fq12), i) is Some,
        ensures
            self.hard_term_v(Fq12::mul_v(x, y, &self.fq12), i)->0 == Fq12::mul_v(
                self.hard_term_v(x, i)->0,
                self.hard_term_v(y, i)->0,
                &self.fq12,
            ),
            Fq12::in_field(self.hard_term_v(x, i)->0, &self.fq12),
    {
        let f12 = &self.fq12;
        let e = limbs_val(self.hard_part@[i].exponent@);
        let ix = self.hard_image_v(x, i);
        let iy = self.hard_image_v(y, i);
        Fq12::lemma_closed(x, y, f12);
        if i != 0 {
            lemma_frobenius_of_product::<Fq12>(x, y, i as nat, f12);
            Fq12::lemma_frobenius_in_field(x, i as nat, f12);
            Fq12::lemma_frobenius_in_field(y, i as nat, f12);
        }
        assert(self.hard_image_v(Fq12::mul_v(x, y, f12), i) == Fq12::mul_v(ix, iy, f12));
        if self.hard_part@[i].negative {
            Fq12::lemma_inverse(ix, f12);
            Fq12::lemma_inverse(iy, f12);
            lemma_inverse_of_product::<Fq12>(ix, iy, f12);
            let jx = Fq12::inv_v(ix, f12)->0;
            let jy = Fq12::inv_v(iy, f12)->0;
            lemma_pow_of_product::<Fq12>(jx, jy, e, f12);
            lemma_pow_in_field::<Fq12>(jx, e, f12);
        } else {
            lemma_pow_of_product::<Fq12>(ix, iy, e, f12);
            lemma_pow_in_field::<Fq12>(ix, e, f12);
        }
    }

    /// The hard part of the final exponentiation respects products.
    pub proof fn lemma_hard_part_of_product(&self, x: V12, y: V12, i: int)
        requires
            self.lawful(),
            0 <= i < self.hard_part@.len(),
            Fq12::in_field(x, &self.fq12),
            Fq12::in_field(y, &self.fq12),
            self.hard_part_v(x, i) is Some,
            self.hard_part_v(y, i) is Some,
            self.hard_part_v(Fq12::mul_v(x, y, &self.fq12), i) is Some,
        ensures
            self.hard_part_v(Fq12::mul_v(x, y, &self.fq12), i)->0 == Fq12::mul_v(
                self.hard_part_v(x, i)->0,
                self.hard_part_v(y, i)->0,
                &self.fq12,
            ),
            Fq12::in_field(self.hard_part_v(x, i)->0, &self.fq12),
        decreases self.hard_part@.len() - i,
    {
        let f12 = &self.fq12;
        let last = self.hard_part@.len() - 1;
        let xy = Fq12::mul_v(x, y, f12);
        if i >= last {
            self.lemma_hard_term_of_product(x, y, last);
        } else {
            self.lemma_hard_part_of_product(x, y, i + 1);
            self.lemma_hard_term_of_product(x, y, i);
            Fq12::lemma_mul_commutative(x, y, f12);
            self.lemma_hard_part_of_product(y, x, i + 1);
            self.lemma_hard_term_of_product(y, x, i);
            lemma_interchange::<Fq12>(
                self.hard_part_v(x, i + 1)->0,
                self.hard_part_v(y, i + 1)->0,
                self.hard_term_v(x, i)->0,
                self.hard_term_v(y, i)->0,
                f12,
            );
            Fq12::lemma_closed(self.hard_part_v(x, i + 1)->0, self.hard_term_v(x, i)->0, f12);
        }
    }

    /// The final exponentiation respects products: where it is defined of
    /// two values and of their product, its value at the product is the
    /// product of its values.
    pub proof fn lemma_final_exponentiation_of_product(&self, x: V12, y: V12)
        requires
            self.lawful(),
            Fq12::in_field(x, &self.fq12),
            Fq12::in_field(y, &self.fq12),
            self.final_exponentiation_v(x) is Some,
            self.final_exponentiation_v(y) is Some,
            self.final_exponentiation_v(Fq12::mul_v(x, y, &self.fq12)) is Some,
        ensures
            self.final_exponentiation_v(Fq12::mul_v(x, y, &self.fq12))->0 == Fq12::mul_v(
                self.final_exponentiation_v(x)->0,
                self.final_exponentiation_v(y)->0,
                &self.fq12,
            ),
            Fq12::in_field(self.final_exponentiation_v(x)->0, &self.fq12),
    {
        let f12 = &self.fq12;
        self.lemma_easy_part_of_product(x, y);
        Fq12::lemma_mul_commutative(x, y, f12);
        self.lemma_easy_part_of_product(y, x);
        self.lemma_hard_part_of_product(self.easy_part_v(x)->0, self.easy_part_v(y)->0, 0);
    }

    /// The final exponentiation of one is one, where it is defined.
    pub proof fn lemma_final_exponentiation_of_one(&self)
        requires
            self.lawful(),
            self.final_exponentiation_v(Fq12::one_v(&self.fq12)) is Some,
        ensures
            self.final_exponentiation_v(Fq12::one_v(&self.fq12)) == Some(Fq12::one_v(&self.fq12)),
    {
        let f12 = &self.fq12;
        let one = Fq12::one_v(f12);
        Fq12::lemma_zero_one(f12);
        self.lemma_inverse_of_one();
        lemma_conjugate_of_one(f12);
        Fq12::lemma_mul_one(one, f12);
        Fq12::lemma_frobenius_zero_one(self.easy_power as nat, f12);
        assert(self.easy_part_v(one) == Some(one));
        self.lemma_hard_part_of_one(0);
    }

    /// Every term of the hard part of the final exponentiation of one is one.
    proof fn lemma_hard_part_of_one(&self, i: int)
        requires
            self.lawful(),
            0 <= i < self.hard_part@.len(),
            self.hard_part_v(Fq12::one_v(&self.fq12), i) is Some,
        ensures
            self.hard_part_v(Fq12::one_v(&self.fq12), i) == Some(Fq12::one_v(&self.fq12)),
        decreases self.hard_part@.len() - i,
    {
        let f12 = &self.fq12;
        let one = Fq12::one_v(f12);
        let last = self.hard_part@.len() - 1;
        Fq12::lemma_zero_one(f12);
        Fq12::lemma_mul_one(one, f12);
        let j = if i >= last { last } else { i };
        Fq12::lemma_frobenius_zero_one(j as nat, f12);
        lemma_pow_of_one::<Fq12>(limbs_val(self.hard_part@[j].exponent@), f12);
        if self.hard_part@[j].negative {
            self.lemma_inverse_of_one();
        }
        if i < last {
            self.lemma_hard_part_of_one(i + 1);
        }
    }

    // -----------------------------------------------------------------------
    // The Miller loop on several pairs
    // -----------------------------------------------------------------------
    /// The three coefficients of a line are values of the twist field.
    pub open spec fn coeff_in_field(&self, c: EllCoeffValue) -> bool {
        let f2 = &self.fq12.base.base;
        Fq2::in_field(c.0, f2) && Fq2::in_field(c.1, f2) && Fq2::in_field(c.2, f2)
    }

    /// The pair is usable in a Miller loop: its coordinates and coefficients
    /// are values of the fields, and it holds a triple for each line.
    pub open spec fn pair_usable(&self, pair: PairValue) -> bool {
        &&& Fp::in_field(pair.0.x, &self.fq12.base.base.base)
        &&& Fp::in_field(pair.0.y, &self.fq12.base.base.base)
        &&& pair.1.ell_coeffs.len() == self.coeff_count((self.loop_digits@.len() - 1) as nat)
        &&& forall|i: int|
            0 <= i < pair.1.ell_coeffs.len() ==> self.coeff_in_field(#[trigger] pair.1.ell_coeffs[i])
    }

    /// The first `count` pairs are usable.
    pub open spec fn pairs_usable(&self, pairs: Seq<PairValue>, count: nat) -> bool {
        count <= pairs.len() && forall|i: int| 0 <= i < count ==> self.pair_usable(#[trigger] pairs[i])
    }

    /// The line of index `idx` of a pair, evaluated at the first point of
    /// the pair, as an element of the target field.
    pub open spec fn line_v(&self, pair: PairValue, idx: int) -> V12 {
        let f2 = &self.fq12.base.base;
        let c = pair.1.ell_coeffs[idx];
        self.sparse_034_v(Fq2::scale_v(c.0, pair.0.y, f2), Fq2::scale_v(c.1, pair.0.x, f2), c.2)
    }

    /// The product of the lines of index `idx` of the first `count` pairs.
    pub open spec fn lines_product_v(&self, pairs: Seq<PairValue>, count: nat, idx: int) -> V12
        decreases count,
    {
        if count == 0 {
            Fq12::one_v(&self.fq12)
        } else {
            Fq12::mul_v(
                self.lines_product_v(pairs, (count - 1) as nat, idx),
                self.line_v(pairs[count - 1], idx),
                &self.fq12,
            )
        }
    }

    /// The product of the accumulators, after `n` digits, of the Miller
    /// loops of the first `count` pairs, each pair by itself.
    pub open spec fn singles_product_v(&self, pairs: Seq<PairValue>, count: nat, n: nat) -> V12
        decreases count,
    {
        if count == 0 {
            Fq12::one_v(&self.fq12)
        } else {
            Fq12::mul_v(
                self.singles_product_v(pairs, (count - 1) as nat, n),
                self.chunk_steps_v(seq![pairs[count - 1]], n),
                &self.fq12,
            )
        }
    }

    proof fn lemma_coeff_count_bound(&self, n: nat)
        requires
            n < self.loop_digits@.len(),
        ensures
            n > 0 ==> self.coeff_count((n - 1) as nat) + 1 <= self.coeff_count(n),
            n > 0 && self.loop_digits@[n as int] != 0 ==> self.coeff_count((n - 1) as nat) + 2
                <= self.coeff_count(n),
            self.coeff_count(n) <= self.coeff_count((self.loop_digits@.len() - 1) as nat),
    {
        self.lemma_coeff_count_mono(n, (self.loop_digits@.len() - 1) as nat);
    }

    proof fn lemma_line_in_field(&self, pair: PairValue, idx: int)
        requires
            self.wf(),
            self.pair_usable(pair),
            0 <= idx < pair.1.ell_coeffs.len(),
        ensures
            Fq12::in_field(self.line_v(pair, idx), &self.fq12),
    {
        let f2 = &self.fq12.base.base;
        let fq = &f2.base;
        let c = pair.1.ell_coeffs[idx];
        assert(self.coeff_in_field(c));
        lemma_ring_closed::<Fp>(fq);
        Fq2::lemma_zero_one(f2);
    }

    proof fn lemma_lines_product_in_field(&self, pairs: Seq<PairValue>, count: nat, idx: int)
        requires
            self.wf(),
            self.pairs_usable(pairs, count),
            0 <= idx < self.coeff_count((self.loop_digits@.len() - 1) as nat),
        ensures
            Fq12::in_field(self.lines_product_v(pairs, count, idx), &self.fq12),
        decreases count,
    {
        Fq12::lemma_zero_one(&self.fq12);
        if count > 0 {
            self.lemma_lines_product_in_field(pairs, (count - 1) as nat, idx);
            assert(self.pair_usable(pairs[count - 1]));
            self.lemma_line_in_field(pairs[count - 1], idx);
            Fq12::lemma_closed(
                self.lines_product_v(pairs, (count - 1) as nat, idx),
                self.line_v(pairs[count - 1], idx),
                &self.fq12,
            );
        }
    }

    /// Multiplying by the lines of the pairs one after the other is
    /// multiplying by their product.
    proof fn lemma_ell_all_is_product(&self, f: V12, pairs: Seq<PairValue>, count: nat, idx: int)
        requires
            self.wf(),
            Fq12::in_field(f, &self.fq12),
            self.pairs_usable(pairs, count),
            0 <= idx < self.coeff_count((self.loop_digits@.len() - 1) as nat),
        ensures
            self.ell_all_v(f, pairs, count, idx) == Fq12::mul_v(
                f,
                self.lines_product_v(pairs, count, idx),
                &self.fq12,
            ),
            Fq12::in_field(self.ell_all_v(f, pairs, count, idx), &self.fq12),
        decreases count,
    {
        let f12 = &self.fq12;
        Fq12::lemma_zero_one(f12);
        if count == 0 {
            Fq12::lemma_mul_one(f, f12);
        } else {
            let k = (count - 1) as nat;
            self.lemma_ell_all_is_product(f, pairs, k, idx);
            self.lemma_lines_product_in_field(pairs, k, idx);
            assert(self.pair_usable(pairs[count - 1]));
            self.lemma_line_in_field(pairs[count - 1], idx);
            let l = self.line_v(pairs[count - 1], idx);
            let lp = self.lines_product_v(pairs, k, idx);
            Fq12::lemma_mul_associative(f, lp, l, f12);
            Fq12::lemma_closed(lp, l, f12);
            Fq12::lemma_closed(f, Fq12::mul_v(lp, l, f12), f12);
        }
    }

    /// The accumulator of a Miller loop on usable pairs is a value of the
    /// target field.
    proof fn lemma_chunk_steps_in_field(&self, pairs: Seq<PairValue>, n: nat)
        requires
            self.wf(),
            self.pairs_usable(pairs, pairs.len()),
            n < self.loop_digits@.len(),
        ensures
            Fq12::in_field(self.chunk_steps_v(pairs, n), &self.fq12),
        decreases n,
    {
        let f12 = &self.fq12;
        Fq12::lemma_zero_one(f12);
        if n > 0 {
            self.lemma_chunk_steps_in_field(pairs, (n - 1) as nat);
            self.lemma_coeff_count_bound(n);
            let before = self.chunk_steps_v(pairs, (n - 1) as nat);
            let idx = self.coeff_count((n - 1) as nat) as int;
            Fq12::lemma_closed(before, before, f12);
            let squared = Fq12::mul_v(before, before, f12);
            self.lemma_ell_all_is_product(squared, pairs, pairs.len(), idx);
            if self.loop_digits@[n as int] != 0 {
                self.lemma_ell_all_is_product(
                    self.ell_all_v(squared, pairs, pairs.len(), idx),
                    pairs,
                    pairs.len(),
                    idx + 1,
                );
            }
        }
    }

    proof fn lemma_singles_product_in_field(&self, pairs: Seq<PairValue>, count: nat, n: nat)
        requires
            self.wf(),
            self.pairs_usable(pairs, count),
            n < self.loop_digits@.len(),
        ensures
            Fq12::in_field(self.singles_product_v(pairs, count, n), &self.fq12),
            count > 0 ==> Fq12::in_field(self.chunk_steps_v(seq![pairs[count - 1]], n), &self.fq12),
        decreases count,
    {
        Fq12::lemma_zero_one(&self.fq12);
        if count > 0 {
            self.lemma_singles_product_in_field(pairs, (count - 1) as nat, n);
            assert(self.pair_usable(pairs[count - 1]));
            let one = seq![pairs[count - 1]];
            assert(self.pairs_usable(one, 1));
            self.lemma_chunk_steps_in_field(one, n);
            Fq12::lemma_closed(
                self.singles_product_v(pairs, (count - 1) as nat, n),
                self.chunk_steps_v(one, n),
                &self.fq12,
            );
        }
    }

    /// One step of the loops of the pairs, each by itself, multiplies to one
    /// step of the loop on all of them: the squares multiply to the square,
    /// and the lines to the product of the lines.
    proof fn lemma_singles_step(&self, pairs: Seq<PairValue>, count: nat, n: nat)
        requires
            self.wf(),
            self.pairs_usable(pairs, count),
            0 < n < self.loop_digits@.len(),
        ensures
            ({
                let f12 = &self.fq12;
                let idx = self.coeff_count((n - 1) as nat) as int;
                let s = self.singles_product_v(pairs, count, (n - 1) as nat);
                let first = Fq12::mul_v(
                    Fq12::mul_v(s, s, f12),
                    self.lines_product_v(pairs, count, idx),
                    f12,
                );
                self.singles_product_v(pairs, count, n) == if self.loop_digits@[n as int] != 0 {
                    Fq12::mul_v(first, self.lines_product_v(pairs, count, idx + 1), f12)
                } else {
                    first
                }
            }),
        decreases count,
    {
        let f12 = &self.fq12;
        let one = Fq12::one_v(f12);
        let idx = self.coeff_count((n - 1) as nat) as int;
        let m = (n - 1) as nat;
        Fq12::lemma_zero_one(f12);
        self.lemma_coeff_count_bound(n);
        if count == 0 {
            Fq12::lemma_mul_one(one, f12);
        } else {
            let k = (count - 1) as nat;
            self.lemma_singles_step(pairs, k, n);
            let pair = pairs[count - 1];
            assert(self.pair_usable(pair));
            let single = seq![pair];
            assert(self.pairs_usable(single, 1));
            // the step of the pair by itself
            let t = self.chunk_steps_v(single, m);
            self.lemma_chunk_steps_in_field(single, m);
            Fq12::lemma_closed(t, t, f12);
            let tt = Fq12::mul_v(t, t, f12);
            self.lemma_line_in_field(pair, idx);
            let l0 = self.line_v(pair, idx);
            assert(self.ell_all_v(tt, single, 0, idx) == tt);
            assert(self.ell_all_v(tt, single, 1, idx) == Fq12::mul_v(tt, l0, f12));
            Fq12::lemma_closed(tt, l0, f12);
            let u = Fq12::mul_v(tt, l0, f12);
            // the products over the pairs before
            let s = self.singles_product_v(pairs, k, m);
            self.lemma_singles_product_in_field(pairs, k, m);
            self.lemma_lines_product_in_field(pairs, k, idx);
            let lp0 = self.lines_product_v(pairs, k, idx);
            Fq12::lemma_closed(s, s, f12);
            let ss = Fq12::mul_v(s, s, f12);
            // (s t) (s t) = (s s) (t t), and ((s s) (t t)) (lp0 l0) = ((s s) lp0) ((t t) l0)
            lemma_interchange::<Fq12>(s, t, s, t, f12);
            lemma_interchange::<Fq12>(ss, tt, lp0, l0, f12);
            Fq12::lemma_closed(ss, lp0, f12);
            if self.loop_digits@[n as int] != 0 {
                self.lemma_line_in_field(pair, idx + 1);
                let l1 = self.line_v(pair, idx + 1);
                assert(self.ell_all_v(u, single, 0, idx + 1) == u);
                assert(self.ell_all_v(u, single, 1, idx + 1) == Fq12::mul_v(u, l1, f12));
                self.lemma_lines_product_in_field(pairs, k, idx + 1);
                let lp1 = self.lines_product_v(pairs, k, idx + 1);
                lemma_interchange::<Fq12>(Fq12::mul_v(ss, lp0, f12), u, lp1, l1, f12);
            }
        }
    }

    /// The Miller loop on several pairs at once gives the product of the
    /// Miller loops of the pairs, each by itself.
    pub proof fn lemma_chunk_is_product(&self, pairs: Seq<PairValue>, n: nat)
        requires
            self.wf(),
            self.pairs_usable(pairs, pairs.len()),
            n < self.loop_digits@.len(),
        ensures
            self.chunk_steps_v(pairs, n) == self.singles_product_v(pairs, pairs.len(), n),
        decreases n,
    {
        let f12 = &self.fq12;
        Fq12::lemma_zero_one(f12);
        if n == 0 {
            self.lemma_singles_product_of_ones(pairs, pairs.len());
        } else {
            let m = (n - 1) as nat;
            self.lemma_chunk_is_product(pairs, m);
            self.lemma_singles_step(pairs, pairs.len(), n);
            self.lemma_coeff_count_bound(n);
            let idx = self.coeff_count(m) as int;
            let before = self.chunk_steps_v(pairs, m);
            self.lemma_chunk_steps_in_field(pairs, m);
            Fq12::lemma_closed(before, before, f12);
            let squared = Fq12::mul_v(before, before, f12);
            self.lemma_ell_all_is_product(squared, pairs, pairs.len(), idx);
            if self.loop_digits@[n as int] != 0 {
                self.lemma_ell_all_is_product(
                    self.ell_all_v(squared, pairs, pairs.len(), idx),
                    pairs,
                    pairs.len(),
                    idx + 1,
                );
            }
        }
    }

    proof fn lemma_singles_product_of_ones(&self, pairs: Seq<PairValue>, count: nat)
        requires
            self.wf(),
        ensures
            self.singles_product_v(pairs, count, 0) == Fq12::one_v(&self.fq12),
        decreases count,
    {
        Fq12::lemma_zero_one(&self.fq12);
        if count > 0 {
            self.lemma_singles_product_of_ones(pairs, (count - 1) as nat);
            Fq12::lemma_mul_one(Fq12::one_v(&self.fq12), &self.fq12);
        }
    }

    /// The product over the first pairs and the product over the pairs that
    /// follow them multiply to the product over all of them.
    proof fn lemma_singles_product_split(&self, kept: Seq<PairValue>, lo: nat, hi: nat, m: nat, n: nat)
        requires
            self.wf(),
            lo + m <= hi <= kept.len(),
            self.pairs_usable(kept, kept.len()),
            n < self.loop_digits@.len(),
        ensures
            self.singles_product_v(kept, lo + m, n) == Fq12::mul_v(
                self.singles_product_v(kept, lo, n),
                self.singles_product_v(kept.subrange(lo as int, hi as int), m, n),
                &self.fq12,
            ),
        decreases m,
    {
        let f12 = &self.fq12;
        let sub = kept.subrange(lo as int, hi as int);
        Fq12::lemma_zero_one(f12);
        assert(self.pairs_usable(kept, lo)) by {
            assert forall|i: int| 0 <= i < lo implies self.pair_usable(#[trigger] kept[i]) by {}
        }
        self.lemma_singles_product_in_field(kept, lo, n);
        if m == 0 {
            Fq12::lemma_mul_one(self.singles_product_v(kept, lo, n), f12);
        } else {
            let k = (m - 1) as nat;
            self.lemma_singles_product_split(kept, lo, hi, k, n);
            assert(sub[m - 1] == kept[lo + m - 1]);
            assert(self.pairs_usable(sub, m)) by {
                assert forall|i: int| 0 <= i < m implies self.pair_usable(#[trigger] sub[i]) by {
                    assert(sub[i] == kept[lo + i]);
                }
            }
            assert(self.pairs_usable(sub, k)) by {
                assert forall|i: int| 0 <= i < k implies self.pair_usable(#[trigger] sub[i]) by {
                    assert(sub[i] == kept[lo + i]);
                }
            }
            self.lemma_singles_product_in_field(sub, m, n);
            self.lemma_singles_product_in_field(sub, k, n);
            Fq12::lemma_mul_associative(
                self.singles_product_v(kept, lo, n),
                self.singles_product_v(sub, k, n),
                self.chunk_steps_v(seq![sub[m - 1]], n),
                f12,
            );
        }
    }

    /// The product of the Miller loops of the chunks is the product of the
    /// Miller loops of all the pairs, each by itself.
    proof fn lemma_chunks_are_product(&self, kept: Seq<PairValue>, j: nat)
        requires
            self.wf(),
            self.pairs_usable(kept, kept.len()),
            4 * j <= kept.len() + 3,
        ensures
            self.chunks_product_v(kept, j) == self.singles_product_v(
                kept,
                if 4 * j <= kept.len() {
                    4 * j
                } else {
                    kept.len()
                },
                (self.loop_digits@.len() - 1) as nat,
            ),
        decreases j,
    {
        let f12 = &self.fq12;
        let total = (self.loop_digits@.len() - 1) as nat;
        if j > 0 {
            let k = (j - 1) as nat;
            self.lemma_chunks_are_product(kept, k);
            let lo = 4 * k;
            let hi: nat = if 4 * j <= kept.len() {
                4 * j
            } else {
                kept.len()
            };
            let chunk = kept.subrange(lo as int, hi as int);
            assert(self.pairs_usable(chunk, chunk.len())) by {
                assert forall|i: int| 0 <= i < chunk.len() implies self.pair_usable(
                    #[trigger] chunk[i],
                ) by {
                    assert(chunk[i] == kept[lo + i]);
                }
            }
            self.lemma_chunk_is_product(chunk, total);
            self.lemma_singles_product_split(kept, lo, hi, (hi - lo) as nat, total);
        }
    }

    /// The product over the first pairs does not depend on the pairs that follow.
    proof fn lemma_singles_product_prefix(&self, a: Seq<PairValue>, b: Seq<PairValue>, count: nat, n: nat)
        requires
            count <= a.len(),
            count <= b.len(),
            forall|i: int| 0 <= i < count ==> a[i] == b[i],
        ensures
            self.singles_product_v(a, count, n) == self.singles_product_v(b, count, n),
        decreases count,
    {
        if count > 0 {
            self.lemma_singles_product_prefix(a, b, (count - 1) as nat, n);
        }
    }

    /// The running point of the unfolding has coordinates in the twist field.
    pub open spec fn running_in_field(&self, r: G2HomProjective<V2>) -> bool {
        let f2 = &self.fq12.base.base;
        Fq2::in_field(r.x, f2) && Fq2::in_field(r.y, f2) && Fq2::in_field(r.z, f2)
    }

    proof fn lemma_steps_of_unfolding_in_field(&self, r: G2HomProjective<V2>, q: Affine<V2>)
        requires
            self.wf(),
            self.running_in_field(r),
            Fq2::in_field(q.x, &self.fq12.base.base),
            Fq2::in_field(q.y, &self.fq12.base.base),
        ensures
            self.running_in_field(self.doubling_step_v(r).0),
            self.coeff_in_field(self.doubling_step_v(r).1),
            self.running_in_field(self.addition_step_v(r, q).0),
            self.coeff_in_field(self.addition_step_v(r, q).1),
    {
        let f2 = &self.fq12.base.base;
        let fq = &f2.base;
        lemma_ring_closed::<Fq2>(f2);
        lemma_ring_closed::<Fp>(fq);
        self.twist_b.lemma_wf_in_field(f2);
        self.two_inv.lemma_wf_in_field(fq);
    }

    proof fn lemma_unfolding_in_field(&self, q: Affine<V2>, n: nat)
        requires
            self.wf(),
            Fq2::in_field(q.x, &self.fq12.base.base),
            Fq2::in_field(q.y, &self.fq12.base.base),
            n < self.loop_digits@.len(),
        ensures
            self.running_in_field(self.prepare_steps_v(q, n).0),
            forall|i: int|
                0 <= i < self.prepare_steps_v(q, n).1.len() ==> self.coeff_in_field(
                    #[trigger] self.prepare_steps_v(q, n).1[i],
                ),
        decreases n,
    {
        let f2 = &self.fq12.base.base;
        Fq2::lemma_zero_one(f2);
        if n > 0 {
            self.lemma_unfolding_in_field(q, (n - 1) as nat);
            let before = self.prepare_steps_v(q, (n - 1) as nat);
            self.lemma_steps_of_unfolding_in_field(before.0, q);
            let doubled = self.doubling_step_v(before.0);
            Fq2::lemma_closed(q.y, q.y, f2);
            let nq = Affine::<Fq2>::neg_v(q, f2);
            self.lemma_steps_of_unfolding_in_field(doubled.0, q);
            self.lemma_steps_of_unfolding_in_field(doubled.0, nq);
        }
    }

    /// The pair of a point with the unfolding of a point is usable where
    /// the second point is not the point at infinity.
    proof fn lemma_prepared_pair_usable(&self, p: Affine<nat>, q: Affine<V2>)
        requires
            self.wf(),
            Fp::in_field(p.x, &self.fq12.base.base.base),
            Fp::in_field(p.y, &self.fq12.base.base.base),
            Fq2::in_field(q.x, &self.fq12.base.base),
            Fq2::in_field(q.y, &self.fq12.base.base),
            !q.infinity,
        ensures
            self.pair_usable((p, self.prepare_v(q))),
    {
        let total = (self.loop_digits@.len() - 1) as nat;
        self.lemma_unfolding_in_field(q, total);
        self.lemma_prepare_len(q, total);
    }

    /// The Miller loop of one pair, as the pairing of the pair takes it.
    pub open spec fn single_miller_v(&self, pair: PairValue) -> V12 {
        if !pair.0.infinity && !pair.1.infinity {
            self.chunk_steps_v(seq![pair], (self.loop_digits@.len() - 1) as nat)
        } else {
            Fq12::one_v(&self.fq12)
        }
    }

    /// The Miller loop of a list with one pair.
    proof fn lemma_miller_loop_of_one_pair(&self, pair: PairValue)
        requires
            self.wf(),
            !pair.0.infinity && !pair.1.infinity ==> self.pair_usable(pair),
        ensures
            self.multi_miller_loop_v(seq![pair]) == self.single_miller_v(pair),
            Fq12::in_field(self.single_miller_v(pair), &self.fq12),
    {
        let f12 = &self.fq12;
        let total = (self.loop_digits@.len() - 1) as nat;
        let pairs = seq![pair];
        Fq12::lemma_zero_one(f12);
        assert(keep_nonzero_v(pairs, 0) =~= Seq::<PairValue>::empty());
        if !pair.0.infinity && !pair.1.infinity {
            let kept = keep_nonzero_v(pairs, 1);
            assert(kept =~= pairs);
            assert(kept.subrange(0, 1) =~= pairs);
            assert(self.pairs_usable(pairs, 1));
            self.lemma_chunk_steps_in_field(pairs, total);
            let s = self.chunk_steps_v(pairs, total);
            assert(self.chunks_product_v(kept, 0) == Fq12::one_v(f12));
            assert(self.chunks_product_v(kept, 1) == Fq12::mul_v(Fq12::one_v(f12), s, f12));
            Fq12::lemma_mul_commutative(Fq12::one_v(f12), s, f12);
            Fq12::lemma_mul_one(s, f12);
        } else {
            let kept = keep_nonzero_v(pairs, 1);
            assert(kept =~= Seq::<PairValue>::empty());
        }
    }

    /// The product of the Miller loops of the first `n` pairs, each as the
    /// pairing of the pair takes it.
    pub open spec fn millers_product_v(&self, pairs: Seq<PairValue>, n: nat) -> V12
        decreases n,
    {
        if n == 0 {
            Fq12::one_v(&self.fq12)
        } else {
            Fq12::mul_v(
                self.millers_product_v(pairs, (n - 1) as nat),
                self.single_miller_v(pairs[n - 1]),
                &self.fq12,
            )
        }
    }

    /// Every pair without a point at infinity among the first `n` is usable.
    pub open spec fn nonzero_usable(&self, pairs: Seq<PairValue>, n: nat) -> bool {
        n <= pairs.len() && forall|i: int|
            0 <= i < n && !(#[trigger] pairs[i]).0.infinity && !pairs[i].1.infinity
                ==> self.pair_usable(pairs[i])
    }

    proof fn lemma_kept_usable(&self, pairs: Seq<PairValue>, n: nat)
        requires
            self.nonzero_usable(pairs, n),
        ensures
            self.pairs_usable(keep_nonzero_v(pairs, n), keep_nonzero_v(pairs, n).len()),
        decreases n,
    {
        if n > 0 {
            self.lemma_kept_usable(pairs, (n - 1) as nat);
        }
    }

    /// The product over the pairs that are kept is the product over all the
    /// pairs, where a pair with a point at infinity stands for one.
    proof fn lemma_kept_product(&self, pairs: Seq<PairValue>, n: nat)
        requires
            self.wf(),
            self.nonzero_usable(pairs, n),
        ensures
            self.singles_product_v(
                keep_nonzero_v(pairs, n),
                keep_nonzero_v(pairs, n).len(),
                (self.loop_digits@.len() - 1) as nat,
            ) == self.millers_product_v(pairs, n),
            Fq12::in_field(self.millers_product_v(pairs, n), &self.fq12),
        decreases n,
    {
        let f12 = &self.fq12;
        let total = (self.loop_digits@.len() - 1) as nat;
        Fq12::lemma_zero_one(f12);
        if n > 0 {
            let k = (n - 1) as nat;
            self.lemma_kept_product(pairs, k);
            self.lemma_kept_usable(pairs, k);
            self.lemma_kept_usable(pairs, n);
            let before = keep_nonzero_v(pairs, k);
            let kept = keep_nonzero_v(pairs, n);
            let pair = pairs[n - 1];
            if !pair.0.infinity && !pair.1.infinity {
                assert(kept == before.push(pair));
                self.lemma_singles_product_prefix(kept, before, before.len(), total);
                assert(self.pair_usable(pair));
                self.lemma_singles_product_in_field(kept, kept.len(), total);
                Fq12::lemma_closed(
                    self.millers_product_v(pairs, k),
                    self.single_miller_v(pair),
                    f12,
                );
            } else {
                Fq12::lemma_mul_one(self.millers_product_v(pairs, k), f12);
            }
        }
    }

    /// The Miller loop of a list of pairs is the product of the Miller loops
    /// of the pairs, each as the pairing of the pair takes it.
    pub proof fn lemma_multi_miller_loop_is_product(&self, pairs: Seq<PairValue>)
        requires
            self.wf(),
            self.nonzero_usable(pairs, pairs.len()),
        ensures
            self.multi_miller_loop_v(pairs) == self.millers_product_v(pairs, pairs.len()),
            Fq12::in_field(self.multi_miller_loop_v(pairs), &self.fq12),
    {
        let kept = keep_nonzero_v(pairs, pairs.len());
        self.lemma_kept_usable(pairs, pairs.len());
        self.lemma_kept_product(pairs, pairs.len());
        let j = ((kept.len() + 3) / 4) as nat;
        self.lemma_chunks_are_product(kept, j);
    }

    /// The product over the first pairs does not depend on the pairs that follow.
    proof fn lemma_millers_product_prefix(&self, a: Seq<PairValue>, b: Seq<PairValue>, n: nat)
        requires
            n <= a.len(),
            n <= b.len(),
            forall|i: int| 0 <= i < n ==> a[i] == b[i],
        ensures
            self.millers_product_v(a, n) == self.millers_product_v(b, n),
        decreases n,
    {
        if n > 0 {
            self.lemma_millers_product_prefix(a, b, (n - 1) as nat);
        }
    }

    /// The product of the pairings of the first `n` pairs of points, each
    /// pairing computed by itself.
    pub open spec fn product_of_pairings_v(&self, ps: Seq<Affine<nat>>, qs: Seq<Affine<V2>>, n: nat) -> Option<
        V12,
    >
        decreases n,
    {
        if n == 0 {
            Some(Fq12::one_v(&self.fq12))
        } else {
            match self.product_of_pairings_v(ps, qs, (n - 1) as nat) {
                None => None,
                Some(acc) => match self.pairing_v(ps[n - 1], qs[n - 1]) {
                    None => None,
                    Some(e) => Some(Fq12::mul_v(acc, e, &self.fq12)),
                },
            }
        }
    }

    /// The points have coordinates in the fields.
    pub open spec fn points_in_field(&self, ps: Seq<Affine<nat>>, qs: Seq<Affine<V2>>) -> bool {
        &&& ps.len() == qs.len()
        &&& forall|i: int|
            0 <= i < ps.len() ==> Fp::in_field((#[trigger] ps[i]).x, &self.fq12.base.base.base)
                && Fp::in_field(ps[i].y, &self.fq12.base.base.base)
        &&& forall|i: int|
            0 <= i < qs.len() ==> Fq2::in_field((#[trigger] qs[i]).x, &self.fq12.base.base)
                && Fq2::in_field(qs[i].y, &self.fq12.base.base)
    }

    proof fn lemma_prepared_pairs_usable(&self, ps: Seq<Affine<nat>>, qs: Seq<Affine<V2>>)
        requires
            self.wf(),
            self.points_in_field(ps, qs),
        ensures
            self.nonzero_usable(self.prepared_pairs_v(ps, qs), ps.len()),
    {
        let pairs = self.prepared_pairs_v(ps, qs);
        assert forall|i: int|
            0 <= i < ps.len() && !(#[trigger] pairs[i]).0.infinity && !pairs[i].1.infinity implies self.pair_usable(
            pairs[i],
        ) by {
            assert(Fp::in_field(ps[i].x, &self.fq12.base.base.base));
            assert(Fq2::in_field(qs[i].x, &self.fq12.base.base));
            self.lemma_prepared_pair_usable(ps[i], qs[i]);
        }
    }

    /// The pairing of several pairs at once is the product of the pairings
    /// of the pairs, each computed by itself, as far as all of them are
    /// defined: the pairing of each pair, and the pairing of the first `k`
    /// pairs at once for every `k`.
    pub proof fn lemma_multi_pairing_is_product(&self, ps: Seq<Affine<nat>>, qs: Seq<Affine<V2>>, n: nat)
        requires
            self.lawful(),
            self.points_in_field(ps, qs),
            n <= ps.len(),
            forall|i: int| 0 <= i < n ==> #[trigger] self.pairing_v(ps[i], qs[i]) is Some,
            forall|k: int|
                0 <= k <= n ==> #[trigger] self.multi_pairing_v(ps.take(k), qs.take(k)) is Some,
        ensures
            self.multi_pairing_v(ps.take(n as int), qs.take(n as int)) == self.product_of_pairings_v(
                ps,
                qs,
                n,
            ),
            self.multi_miller_loop_v(
                self.prepared_pairs_v(ps.take(n as int), qs.take(n as int)),
            ) == self.millers_product_v(self.prepared_pairs_v(ps, qs), n),
            Fq12::in_field(self.multi_pairing_v(ps.take(n as int), qs.take(n as int))->0, &self.fq12),
        decreases n,
    {
        let f12 = &self.fq12;
        let all = self.prepared_pairs_v(ps, qs);
        let now = self.prepared_pairs_v(ps.take(n as int), qs.take(n as int));
        Fq12::lemma_zero_one(f12);
        assert(self.multi_pairing_v(ps.take(n as int), qs.take(n as int)) is Some);
        assert(self.points_in_field(ps.take(n as int), qs.take(n as int)));
        self.lemma_prepared_pairs_usable(ps.take(n as int), qs.take(n as int));
        self.lemma_multi_miller_loop_is_product(now);
        assert forall|i: int| 0 <= i < n implies now[i] == all[i] by {}
        self.lemma_millers_product_prefix(now, all, n);
        if n == 0 {
            self.lemma_final_exponentiation_of_one();
        } else {
            let k = (n - 1) as nat;
            self.lemma_multi_pairing_is_product(ps, qs, k);
            assert(self.multi_pairing_v(ps.take(k as int), qs.take(k as int)) is Some);
            assert(self.pairing_v(ps[n - 1], qs[n - 1]) is Some);
            let acc = self.millers_product_v(all, k);
            let pair = all[n - 1];
            // the pairing of the last pair by itself
            let one_p = seq![ps[n - 1]];
            let one_q = seq![qs[n - 1]];
            assert(self.prepared_pairs_v(one_p, one_q) =~= seq![pair]);
            assert(self.points_in_field(one_p, one_q));
            self.lemma_prepared_pairs_usable(one_p, one_q);
            self.lemma_miller_loop_of_one_pair(pair);
            let m = self.single_miller_v(pair);
            self.lemma_prepared_pairs_usable(ps, qs);
            self.lemma_kept_product(all, k);
            self.lemma_final_exponentiation_of_product(acc, m);
            Fq12::lemma_mul_commutative(m, acc, f12);
            self.lemma_final_exponentiation_of_product(m, acc);
            Fq12::lemma_closed(
                self.final_exponentiation_v(acc)->0,
                self.final_exponentiation_v(m)->0,
                f12,
            );
        }
    }
}

} // verus!

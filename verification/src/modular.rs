//! Arithmetic modulo an odd number, on limb vectors.
//!
//! Products are reduced by Montgomery's method; the values handed in and out
//! are ordinary residues in `[0, p)`, never Montgomery forms.

use vstd::prelude::*;
use vstd::arithmetic::div_mod::*;
use vstd::arithmetic::power2::*;
use crate::encoding::{byte_count, count_bytes};
use crate::bigint::{
    add_limbs, copy_limbs, equal_limbs, is_odd_limbs, is_zero_limbs, lemma_val_bound,
    lemma_val_ge_low, lemma_val_parity, lemma_val_split, limbs_from_slice, lemma_val_take_step, lemma_val_update, lemma_val_zeros,
    lemma_weight_add, lemma_weight_pos, lemma_weight_succ, less_than, limbs_val, mac, mul_wide,
    one_limbs, pad_limbs, radix, shr1_limbs, split_wide, sub_limbs, weight, zero_limbs,
    MAX_LIMBS,
};

verus! {

/// `x` is the inverse of `a` modulo `p`, as a residue.
pub open spec fn is_inverse_mod(a: nat, x: nat, p: nat) -> bool {
    x < p && (a * x) % p == 1
}

/// `a` has an inverse modulo `p`.
pub open spec fn has_inverse_mod(a: nat, p: nat) -> bool {
    exists|x: nat| is_inverse_mod(a, x, p)
}

/// The inverse of `a` modulo `p` where it has one.
pub open spec fn inverse_mod(a: nat, p: nat) -> Option<nat> {
    if has_inverse_mod(a, p) {
        Some(choose|x: nat| is_inverse_mod(a, x, p))
    } else {
        None
    }
}

/// The sum of two residues.
pub open spec fn add_mod(a: nat, b: nat, p: nat) -> nat {
    (a + b) % p
}

/// The difference of two residues.
pub open spec fn sub_mod(a: nat, b: nat, p: nat) -> nat {
    ((a as int - b as int) % (p as int)) as nat
}

/// The negative of a residue.
pub open spec fn neg_mod(a: nat, p: nat) -> nat {
    ((0 - a as int) % (p as int)) as nat
}

/// The product of two residues.
pub open spec fn mul_mod(a: nat, b: nat, p: nat) -> nat {
    (a * b) % p
}

/// An odd modulus together with the constants that Montgomery reduction needs.
pub struct Modulus {
    /// The modulus, least significant limb first.
    pub limbs: Vec<u64>,
    /// The negated inverse of the lowest limb modulo 2^64.
    pub n0_inv: u64,
    /// `radix()^(2n)` reduced modulo the modulus, `n` being the number of limbs.
    pub r2: Vec<u64>,
    /// The number of bytes that the modulus takes.
    pub byte_len: usize,
}

impl Modulus {
    /// The modulus as a number.
    pub open spec fn value(&self) -> nat {
        limbs_val(self.limbs@)
    }

    /// The number of limbs of every residue.
    pub open spec fn num_limbs(&self) -> nat {
        self.limbs@.len()
    }

    /// The modulus is odd and above one, and the constants are those that
    /// belong to it.
    pub open spec fn wf(&self) -> bool {
        &&& 1 <= self.limbs@.len() <= MAX_LIMBS
        &&& self.value() % 2 == 1
        &&& self.value() > 1
        &&& ((self.limbs@[0] as nat) * (self.n0_inv as nat) + 1) % radix() == 0
        &&& self.r2@.len() == self.limbs@.len()
        &&& limbs_val(self.r2@) == (weight(self.num_limbs()) * weight(self.num_limbs()))
            % self.value()
        &&& self.byte_len == byte_count(self.value())
        &&& self.byte_len <= 8 * self.limbs@.len()
    }

    /// `a` holds a residue of this modulus.
    pub open spec fn holds(&self, a: Seq<u64>) -> bool {
        a.len() == self.limbs@.len() && limbs_val(a) < self.value()
    }
}

// ---------------------------------------------------------------------------
// Number-theoretic lemmas
// ---------------------------------------------------------------------------
/// A factor two cancels from a congruence modulo an odd number.
pub proof fn lemma_cancel_two(a: int, b: int, p: int)
    requires
        p > 0,
        p % 2 == 1,
        (2 * a) % p == (2 * b) % p,
    ensures
        a % p == b % p,
{
    let h = (p + 1) / 2;
    assert(2 * h == p + 1);
    assert((2 * a) * h == p * a + a) by (nonlinear_arith)
        requires
            2 * h == p + 1,
    ;
    assert((2 * b) * h == p * b + b) by (nonlinear_arith)
        requires
            2 * h == p + 1,
    ;
    lemma_mod_multiples_vanish(a, a, p);
    lemma_mod_multiples_vanish(b, b, p);
    lemma_mul_mod_noop_left(2 * a, h, p);
    lemma_mul_mod_noop_left(2 * b, h, p);
}

/// A power of two cancels from a congruence modulo an odd number.
pub proof fn lemma_cancel_pow2(a: int, b: int, k: nat, p: int)
    requires
        p > 0,
        p % 2 == 1,
        (a * pow2(k)) % p == (b * pow2(k)) % p,
    ensures
        a % p == b % p,
    decreases k,
{
    if k == 0 {
        lemma2_to64();
        assert(a * 1 == a);
        assert(b * 1 == b);
    } else {
        lemma_pow2_unfold(k);
        let q = pow2((k - 1) as nat) as int;
        assert(a * (2 * q) == 2 * (a * q)) by (nonlinear_arith);
        assert(b * (2 * q) == 2 * (b * q)) by (nonlinear_arith);
        lemma_cancel_two(a * q, b * q, p);
        lemma_cancel_pow2(a, b, (k - 1) as nat, p);
    }
}

/// A weight cancels from a congruence modulo an odd number.
pub proof fn lemma_cancel_weight(a: int, b: int, n: nat, p: int)
    requires
        p > 0,
        p % 2 == 1,
        (a * weight(n)) % p == (b * weight(n)) % p,
    ensures
        a % p == b % p,
    decreases n,
{
    if n == 0 {
        assert(a * 1 == a);
        assert(b * 1 == b);
    } else {
        let w = weight((n - 1) as nat) as int;
        let r = radix() as int;
        lemma2_to64_rest();
        assert(r == pow2(64));
        assert(a * (r * w) == (a * w) * r) by (nonlinear_arith);
        assert(b * (r * w) == (b * w) * r) by (nonlinear_arith);
        lemma_cancel_pow2(a * w, b * w, 64, p);
        lemma_cancel_weight(a, b, (n - 1) as nat, p);
    }
}

/// A residue is determined by its congruence class.
pub proof fn lemma_residue_unique(x: int, y: int, p: int)
    requires
        p > 0,
        0 <= x < p,
        x % p == y % p,
    ensures
        x == y % p,
{
    lemma_small_mod(x as nat, p as nat);
}

/// The inverse of `a` modulo `p` is unique.
pub proof fn lemma_inverse_unique(a: nat, x: nat, y: nat, p: nat)
    requires
        p > 1,
        is_inverse_mod(a, x, p),
        is_inverse_mod(a, y, p),
    ensures
        x == y,
{
    let ai = a as int;
    let xi = x as int;
    let yi = y as int;
    let pi = p as int;
    // x = x * (a * y) = (x * a) * y = y   (mod p)
    lemma_mul_mod_noop_right(xi, ai * yi, pi);
    lemma_mul_mod_noop_left(ai * xi, yi, pi);
    assert(xi * (ai * yi) == (ai * xi) * yi) by (nonlinear_arith);
    assert(xi * 1 == xi);
    assert(1 * yi == yi);
    lemma_small_mod(x, p);
    lemma_small_mod(y, p);
}

/// What `inverse_mod` is, once an inverse is at hand.
pub proof fn lemma_inverse_is(a: nat, x: nat, p: nat)
    requires
        p > 1,
        is_inverse_mod(a, x, p),
    ensures
        inverse_mod(a, p) == Some(x),
{
    let y = choose|y: nat| is_inverse_mod(a, y, p);
    lemma_inverse_unique(a, x, y, p);
}

/// `p` has no divisor but one and itself.
pub open spec fn is_prime(p: nat) -> bool {
    p > 1 && forall|d: nat| 1 < d < p ==> #[trigger] (p % d) != 0
}

/// Euclid's algorithm, run on `a` and `b`: a common divisor `g` of the two
/// and the coefficients `x` and `y` with `a x + b y = g`.
pub proof fn lemma_bezout(a: nat, b: nat) -> (r: (int, int, nat))
    requires
        a + b > 0,
    ensures
        r.2 > 0,
        a % r.2 == 0,
        b % r.2 == 0,
        a * r.0 + b * r.1 == r.2,
    decreases b,
{
    if b == 0 {
        lemma_mod_self_0(a as int);
        lemma_small_mod(0, a);
        assert(a * 1 + b * 0 == a) by (nonlinear_arith);
        (1, 0, a)
    } else {
        let rem = a % b;
        let quot = a / b;
        lemma_mod_bound(a as int, b as int);
        let (x1, y1, g) = lemma_bezout(b, rem);
        lemma_fundamental_div_mod(a as int, b as int);
        // g divides a = b * quot + rem
        lemma_mul_mod_noop_left(b as int, quot as int, g as int);
        assert(0 * quot == 0);
        lemma_add_mod_noop((b * quot) as int, rem as int, g as int);
        lemma_small_mod(0, g);
        assert(a * y1 + b * (x1 - quot * y1) == b * x1 + rem * y1) by (nonlinear_arith)
            requires
                a == b * quot + rem,
        ;
        (y1, x1 - quot * y1, g)
    }
}

/// Every residue of a prime but zero has an inverse.
pub proof fn lemma_prime_inverse_exists(a: nat, p: nat)
    requires
        is_prime(p),
        0 < a < p,
    ensures
        has_inverse_mod(a, p),
{
    let (x, y, g) = lemma_bezout(a, p);
    if g > a {
        lemma_small_mod(a, g);
    }
    assert(g == 1);
    let pi = p as int;
    let inv = (x % pi) as nat;
    lemma_mod_bound(x, pi);
    lemma_mul_mod_noop_right(a as int, x, pi);
    assert(a * x == pi * (0 - y) + 1) by (nonlinear_arith)
        requires
            a * x + p * y == 1,
            pi == p,
    ;
    lemma_mod_multiples_vanish(0 - y, 1, pi);
    lemma_small_mod(1, p);
    assert(is_inverse_mod(a, inv, p));
}

/// The choice of the Montgomery digit clears the lowest limb.
proof fn lemma_mont_digit(ti: nat, p0: nat, n0: nat, q: nat, h: nat)
    requires
        ti * n0 == q + h * radix(),
        (p0 * n0 + 1) % radix() == 0,
    ensures
        (q * p0 + ti) % radix() == 0,
{
    let r = radix() as int;
    let k = (p0 * n0 + 1) as int / r;
    lemma_fundamental_div_mod((p0 * n0 + 1) as int, r);
    assert(p0 * n0 + 1 == r * k);
    let z = ti as int * k - h as int * p0 as int;
    assert(q * p0 + ti == z * r) by (nonlinear_arith)
        requires
            ti * n0 == q + h * r,
            p0 * n0 + 1 == r * k,
            z == ti * k - h * p0,
    ;
    lemma_mod_multiples_basic(z, r);
}

// ---------------------------------------------------------------------------
// Montgomery reduction
// ---------------------------------------------------------------------------
/// Montgomery reduction: a residue `r` with `r * radix()^n = t` modulo the
/// modulus, for any `t` below `p * radix()^n`.
pub fn mont_reduce(t: Vec<u64>, m: &Modulus) -> (r: Vec<u64>)
    requires
        m.wf(),
        t.len() == 2 * m.limbs.len(),
        limbs_val(t@) < m.value() * weight(m.num_limbs()),
    ensures
        m.holds(r@),
        (limbs_val(r@) * weight(m.num_limbs())) % m.value() == limbs_val(t@) % m.value(),
{
    let n = m.limbs.len();
    let mut t = t;
    let ghost t0 = t@;
    let ghost p = m.value();
    let ghost mut big_m: nat = 0;
    let mut carry2: u64 = 0;
    let mut i: usize = 0;
    proof {
        assert(0 * weight(n as nat) == 0) by (nonlinear_arith);
        assert(0 * p == 0) by (nonlinear_arith);
        lemma_weight_pos(0);
    }
    while i < n
        invariant
            i <= n,
            n == m.limbs.len(),
            m.wf(),
            p == m.value(),
            t.len() == 2 * n,
            t0.len() == 2 * n,
            limbs_val(t@.take(n + i)) + (carry2 as nat) * weight((n + i) as nat) == limbs_val(
                t0.take(n + i),
            ) + big_m * p,
            big_m < weight(i as nat),
            forall|k: int| 0 <= k < i ==> #[trigger] t[k] == 0,
            forall|k: int| n + i <= k < 2 * n ==> #[trigger] t[k] == t0[k],
        decreases n - i,
    {
        let ti: u64 = t[i];
        let (q, qh) = mac(ti, m.n0_inv, 0, 0);
        let ghost row = t@;
        let mut c: u64 = 0;
        let mut j: usize = 0;
        proof {
            assert(m.limbs@.take(0).len() == 0);
            assert((q as nat) * 0 * weight(i as nat) == 0) by (nonlinear_arith);
            assert(0 * weight(i as nat) == 0) by (nonlinear_arith);
        }
        while j < n
            invariant
                j <= n,
                i < n,
                n >= 1,
                n == m.limbs.len(),
                n <= MAX_LIMBS,
                m.wf(),
                t.len() == 2 * n,
                row.len() == 2 * n,
                ti == row[i as int],
                (ti as nat) * (m.n0_inv as nat) == q as nat + (qh as nat) * radix(),
                limbs_val(t@.take(n + i)) + (c as nat) * weight((i + j) as nat) == limbs_val(
                    row.take(n + i),
                ) + (q as nat) * limbs_val(m.limbs@.take(j as int)) * weight(i as nat),
                forall|k: int| 0 <= k < 2 * n && (k < i || k >= i + j) ==> #[trigger] t[k] == row[k],
                j > 0 ==> t[i as int] == 0,
                j == 0 ==> c == 0,
            decreases n - j,
        {
            let cur: u64 = t[i + j];
            let (lo, hi) = mac(q, m.limbs[j], cur, c);
            proof {
                let s = t@.take(n + i);
                let k0 = (i + j) as int;
                assert(t@.update(k0, lo).take(n + i) =~= s.update(k0, lo));
                lemma_val_update(s, k0, lo);
                lemma_val_take_step(m.limbs@, j as int);
                lemma_weight_succ((i + j) as nat);
                lemma_weight_add(i as nat, j as nat);
                let w = weight((i + j) as nat) as int;
                let wi = weight(i as nat) as int;
                let wj = weight(j as nat) as int;
                let pj = m.limbs@[j as int] as int;
                let qq = q as int;
                let cc = c as int;
                let o = cur as int;
                let l = lo as int;
                let h = hi as int;
                let rr = radix() as int;
                let pre = limbs_val(m.limbs@.take(j as int)) as int;
                assert(l * w + h * (rr * w) == (qq * pj) * w + o * w + cc * w) by (nonlinear_arith)
                    requires
                        qq * pj + o + cc == l + h * rr,
                ;
                assert(qq * (pre + pj * wj) * wi == qq * pre * wi + (qq * pj) * w)
                    by (nonlinear_arith)
                    requires
                        w == wi * wj,
                ;
                if j == 0 {
                    assert(cur == ti);
                    lemma_mont_digit(ti as nat, m.limbs@[0] as nat, m.n0_inv as nat, q as nat, qh as nat);
                    lemma_mod_multiples_vanish(h, l, rr);
                    lemma_small_mod(lo as nat, radix());
                    assert(h * rr == rr * h) by (nonlinear_arith);
                    assert(qq * pj + o == rr * h + l);
                }
            }
            t.set(i + j, lo);
            c = hi;
            j += 1;
        }
        let top: u64 = t[i + n];
        let s: u128 = (top as u128) + (c as u128) + (carry2 as u128);
        let (lo, hi) = split_wide(s);
        proof {
            assert(m.limbs@.take(n as int) =~= m.limbs@);
            assert(top == row[(i + n) as int]);
            assert(top == t0[(i + n) as int]);
            let t1 = t@.update((i + n) as int, lo);
            assert(t1.take(n + i) =~= t@.take(n + i));
            lemma_val_take_step(t1, (n + i) as int);
            lemma_val_take_step(t0, (n + i) as int);
            lemma_weight_succ((n + i) as nat);
            lemma_weight_succ(i as nat);
            let w = weight((n + i) as nat) as int;
            let wi = weight(i as nat) as int;
            let rr = radix() as int;
            let l = lo as int;
            let h = hi as int;
            let tp = top as int;
            let cc = c as int;
            let c2 = carry2 as int;
            let qq = q as int;
            let pp = p as int;
            let bm = big_m as int;
            assert(l * w + h * (rr * w) == tp * w + cc * w + c2 * w) by (nonlinear_arith)
                requires
                    tp + cc + c2 == l + h * rr,
            ;
            assert((bm + qq * wi) * pp == bm * pp + qq * pp * wi) by (nonlinear_arith);
            assert(qq * wi <= (rr - 1) * wi) by (nonlinear_arith)
                requires
                    qq <= rr - 1,
                    wi >= 0,
            ;
            assert((rr - 1) * wi == rr * wi - wi) by (nonlinear_arith);
            big_m = big_m + (q as nat) * weight(i as nat);
            assert forall|k: int| 0 <= k < i + 1 implies #[trigger] t1[k] == 0 by {
                if k < i {
                    assert(t[k] == row[k]);
                }
            }
            assert forall|k: int| n + i + 1 <= k < 2 * n implies #[trigger] t1[k] == t0[k] by {
                assert(t[k] == row[k]);
            }
        }
        t.set(i + n, lo);
        carry2 = hi;
        i += 1;
    }
    let mut high: Vec<u64> = Vec::new();
    let mut k: usize = n;
    while k < 2 * n
        invariant
            n <= k <= 2 * n,
            t.len() == 2 * n,
            high@ =~= t@.subrange(n as int, k as int),
        decreases 2 * n - k,
    {
        high.push(t[k]);
        k += 1;
    }
    proof {
        assert(high@ =~= t@.skip(n as int));
        assert(t@.take(2 * n) =~= t@);
        assert(t0.take(2 * n) =~= t0);
        lemma_val_split(t@, n as int);
        lemma_val_zeros(t@.take(n as int));
        lemma_weight_add(n as nat, n as nat);
        lemma_weight_pos(n as nat);
        lemma_val_bound(m.limbs@);
        lemma_val_bound(high@);
    }
    let ghost w = weight(n as nat) as int;
    let ghost hv = limbs_val(high@) as int;
    let ghost x = hv + (carry2 as int) * w;
    let ghost pp = p as int;
    let ghost tv = limbs_val(t0) as int;
    let ghost bm = big_m as int;
    proof {
        assert(w * x == tv + bm * pp) by (nonlinear_arith)
            requires
                w * hv + (carry2 as int) * (w * w) == tv + bm * pp,
                x == hv + (carry2 as int) * w,
        ;
        assert(x < 2 * pp) by (nonlinear_arith)
            requires
                w * x == tv + bm * pp,
                tv < pp * w,
                bm < w,
                w > 0,
                pp > 0,
        ;
        if carry2 >= 2 {
            assert((carry2 as int) * w >= 2 * w) by (nonlinear_arith)
                requires
                    carry2 >= 2,
                    w > 0,
            ;
        }
        assert(carry2 <= 1);
        assert(1 * w == w) by (nonlinear_arith);
        assert(0 * w == 0) by (nonlinear_arith);
    }
    if carry2 != 0 || !less_than(&high, &m.limbs) {
        let (d, borrow) = sub_limbs(&high, &m.limbs);
        proof {
            let dv = limbs_val(d@) as int;
            assert(dv == x - pp);
            assert(dv * w == tv + pp * (bm - w)) by (nonlinear_arith)
                requires
                    w * x == tv + bm * pp,
                    dv == x - pp,
            ;
            lemma_mod_multiples_vanish(bm - w, tv, pp);
        }
        d
    } else {
        proof {
            assert(hv * w == tv + pp * bm) by (nonlinear_arith)
                requires
                    w * x == tv + bm * pp,
                    x == hv,
            ;
            lemma_mod_multiples_vanish(bm, tv, pp);
        }
        high
    }
}


// ---------------------------------------------------------------------------
// Residue arithmetic
// ---------------------------------------------------------------------------
/// The sum of two residues.
pub fn mod_add(a: &Vec<u64>, b: &Vec<u64>, m: &Modulus) -> (r: Vec<u64>)
    requires
        m.wf(),
        m.holds(a@),
        m.holds(b@),
    ensures
        m.holds(r@),
        limbs_val(r@) == add_mod(limbs_val(a@), limbs_val(b@), m.value()),
{
    let (s, carry) = add_limbs(a, b);
    proof {
        lemma_val_bound(m.limbs@);
        lemma_val_bound(s@);
    }
    let ghost total = (limbs_val(a@) + limbs_val(b@)) as int;
    let ghost p = m.value() as int;
    if carry || !less_than(&s, &m.limbs) {
        let (d, borrow) = sub_limbs(&s, &m.limbs);
        proof {
            let dv = limbs_val(d@) as int;
            assert(dv == total - p);
            assert(total == 1 * p + dv) by (nonlinear_arith)
                requires
                    dv == total - p,
            ;
            lemma_fundamental_div_mod_converse_mod(total, p, 1, dv);
        }
        d
    } else {
        proof {
            lemma_small_mod(total as nat, p as nat);
        }
        s
    }
}

/// The difference of two residues.
pub fn mod_sub(a: &Vec<u64>, b: &Vec<u64>, m: &Modulus) -> (r: Vec<u64>)
    requires
        m.wf(),
        m.holds(a@),
        m.holds(b@),
    ensures
        m.holds(r@),
        limbs_val(r@) == sub_mod(limbs_val(a@), limbs_val(b@), m.value()),
{
    let (d, borrow) = sub_limbs(a, b);
    let ghost diff = limbs_val(a@) as int - limbs_val(b@) as int;
    let ghost p = m.value() as int;
    proof {
        lemma_val_bound(m.limbs@);
    }
    if borrow {
        let (s, carry) = add_limbs(&d, &m.limbs);
        proof {
            lemma_val_bound(s@);
            let sv = limbs_val(s@) as int;
            assert(sv == diff + p);
            assert(diff == (-1) * p + sv) by (nonlinear_arith)
                requires
                    sv == diff + p,
            ;
            lemma_fundamental_div_mod_converse_mod(diff, p, -1, sv);
        }
        s
    } else {
        proof {
            lemma_small_mod(diff as nat, p as nat);
        }
        d
    }
}

/// The negative of a residue.
pub fn mod_neg(a: &Vec<u64>, m: &Modulus) -> (r: Vec<u64>)
    requires
        m.wf(),
        m.holds(a@),
    ensures
        m.holds(r@),
        limbs_val(r@) == neg_mod(limbs_val(a@), m.value()),
{
    let z = zero_limbs(a.len());
    mod_sub(&z, a, m)
}

/// The residue whose double is `a`.
pub fn mod_half(a: &Vec<u64>, m: &Modulus) -> (r: Vec<u64>)
    requires
        m.wf(),
        m.holds(a@),
    ensures
        m.holds(r@),
        (2 * limbs_val(r@)) % m.value() == limbs_val(a@),
{
    let ghost av = limbs_val(a@) as int;
    let ghost p = m.value() as int;
    if is_odd_limbs(a) {
        let (s, carry) = add_limbs(a, &m.limbs);
        let r = shr1_limbs(&s, carry);
        proof {
            let rv = limbs_val(r@) as int;
            assert(rv == (av + p) / 2);
            assert(2 * rv == 1 * p + av) by (nonlinear_arith)
                requires
                    rv == (av + p) / 2,
                    (av + p) % 2 == 0,
            ;
            lemma_fundamental_div_mod_converse_mod(2 * rv, p, 1, av);
        }
        r
    } else {
        let r = shr1_limbs(a, false);
        proof {
            let rv = limbs_val(r@) as int;
            assert(2 * rv == av);
            lemma_small_mod(av as nat, p as nat);
        }
        r
    }
}

/// The product of two residues.
pub fn mod_mul(a: &Vec<u64>, b: &Vec<u64>, m: &Modulus) -> (r: Vec<u64>)
    requires
        m.wf(),
        m.holds(a@),
        m.holds(b@),
    ensures
        m.holds(r@),
        limbs_val(r@) == mul_mod(limbs_val(a@), limbs_val(b@), m.value()),
{
    let ghost av = limbs_val(a@) as int;
    let ghost bv = limbs_val(b@) as int;
    let ghost p = m.value() as int;
    let ghost w = weight(m.num_limbs()) as int;
    let ghost r2 = limbs_val(m.r2@) as int;
    proof {
        lemma_val_bound(m.limbs@);
        lemma_weight_pos(m.num_limbs());
        lemma_mod_bound(w * w, p);
        assert(av * bv < p * w) by (nonlinear_arith)
            requires
                0 <= av < p,
                0 <= bv < w,
        ;
    }
    let t = mul_wide(a, b);
    let x = mont_reduce(t, m);
    let ghost xv = limbs_val(x@) as int;
    proof {
        assert(xv * r2 < p * w) by (nonlinear_arith)
            requires
                0 <= xv < p,
                0 <= r2 < w,
        ;
    }
    let t2 = mul_wide(&x, &m.r2);
    let y = mont_reduce(t2, m);
    proof {
        let yv = limbs_val(y@) as int;
        // (y * w) % p == (x * r2) % p == ((x * w) * w) % p == ((a * b) * w) % p
        lemma_mul_mod_noop_right(xv, w * w, p);
        assert(xv * (w * w) == (xv * w) * w) by (nonlinear_arith);
        lemma_mul_mod_noop_left(xv * w, w, p);
        lemma_mul_mod_noop_left(av * bv, w, p);
        lemma_cancel_weight(yv, av * bv, m.num_limbs(), p);
        lemma_residue_unique(yv, av * bv, p);
    }
    y
}

/// The residue of a number of as many limbs as the modulus has.
pub fn mod_reduce(x: &Vec<u64>, m: &Modulus) -> (r: Vec<u64>)
    requires
        m.wf(),
        x.len() == m.limbs.len(),
    ensures
        m.holds(r@),
        limbs_val(r@) == limbs_val(x@) % m.value(),
{
    let ghost xv = limbs_val(x@) as int;
    let ghost p = m.value() as int;
    let ghost w = weight(m.num_limbs()) as int;
    let ghost r2 = limbs_val(m.r2@) as int;
    proof {
        lemma_val_bound(m.limbs@);
        lemma_val_bound(x@);
        lemma_weight_pos(m.num_limbs());
        lemma_mod_bound(w * w, p);
        assert(xv * r2 < p * w) by (nonlinear_arith)
            requires
                0 <= xv < w,
                0 <= r2 < p,
        ;
    }
    let t = mul_wide(x, &m.r2);
    let y = mont_reduce(t, m);
    let ghost yv = limbs_val(y@) as int;
    proof {
        // (y * w) % p == (x * r2) % p == ((x * w) * w) % p
        lemma_mul_mod_noop_right(xv, w * w, p);
        assert(xv * (w * w) == (xv * w) * w) by (nonlinear_arith);
        lemma_cancel_weight(yv, xv * w, m.num_limbs(), p);
        assert(yv < p * w) by (nonlinear_arith)
            requires
                0 <= yv < p,
                w >= 1,
        ;
    }
    let t2 = pad_limbs(&y, 2 * m.limbs.len());
    let z = mont_reduce(t2, m);
    proof {
        let zv = limbs_val(z@) as int;
        lemma_cancel_weight(zv, xv, m.num_limbs(), p);
        lemma_residue_unique(zv, xv, p);
    }
    z
}

// ---------------------------------------------------------------------------
// Inversion
// ---------------------------------------------------------------------------
/// `d` divides both `u` and `v`.
pub open spec fn common_divisor(d: nat, u: nat, v: nat) -> bool {
    d > 0 && u % d == 0 && v % d == 0
}

proof fn lemma_divisor_of_double(d: nat, h: nat, u: nat)
    requires
        d > 0,
        u == 2 * h,
        h % d == 0,
    ensures
        u % d == 0,
{
    let hi = h as int;
    let di = d as int;
    lemma_mul_mod_noop_right(2, hi, di);
    assert(2 * (hi % di) == 0);
    lemma_small_mod(0, d);
    assert((2 * hi) % di == 0);
}

proof fn lemma_divisor_of_sum(d: nat, x: nat, y: nat)
    requires
        d > 0,
        x % d == 0,
        y % d == 0,
    ensures
        (x + y) % d == 0,
{
    let xi = x as int;
    let yi = y as int;
    let di = d as int;
    lemma_add_mod_noop(xi, yi, di);
    assert((xi % di) + (yi % di) == 0);
    lemma_small_mod(0, d);
    assert((xi + yi) % di == 0);
}

proof fn lemma_inverse_half(a: int, bv: int, bh: int, u: int, uh: int, p: int)
    requires
        p > 0,
        p % 2 == 1,
        (a * bv) % p == u % p,
        (2 * bh) % p == bv,
        u == 2 * uh,
    ensures
        (a * bh) % p == uh % p,
{
    lemma_mul_mod_noop_right(a, 2 * bh, p);
    assert(a * (2 * bh) == 2 * (a * bh)) by (nonlinear_arith);
    lemma_cancel_two(a * bh, uh, p);
}

proof fn lemma_inverse_sub(a: int, bv: int, cv: int, bn: int, u: int, v: int, p: int)
    requires
        p > 0,
        (a * bv) % p == u % p,
        (a * cv) % p == v % p,
        bn == (bv - cv) % p,
    ensures
        (a * bn) % p == (u - v) % p,
{
    lemma_mul_mod_noop_right(a, bv - cv, p);
    assert(a * (bv - cv) == a * bv - a * cv) by (nonlinear_arith);
    lemma_sub_mod_noop(a * bv, a * cv, p);
    lemma_sub_mod_noop(u, v, p);
}

proof fn lemma_no_inverse(a: nat, p: nat, g: nat)
    requires
        g > 1,
        p > 0,
        a % g == 0,
        p % g == 0,
    ensures
        !has_inverse_mod(a, p),
{
    assert forall|x: nat| !is_inverse_mod(a, x, p) by {
        if (a * x) % p == 1 {
            let ai = a as int;
            let xi = x as int;
            let pi = p as int;
            let gi = g as int;
            let q = (ai * xi) / pi;
            lemma_fundamental_div_mod(ai * xi, pi);
            assert(ai * xi == pi * q + 1);
            lemma_mul_mod_noop_left(ai, xi, gi);
            lemma_mul_mod_noop_left(pi, q, gi);
            assert(0 * xi == 0);
            assert(0 * q == 0);
            lemma_add_mod_noop(pi * q, 1, gi);
            lemma_small_mod(1, g);
            lemma_small_mod(0, g);
        }
    }
}

/// The inverse of a residue, where it has one.
pub fn mod_inverse(a: &Vec<u64>, m: &Modulus) -> (r: Option<Vec<u64>>)
    requires
        m.wf(),
        m.holds(a@),
    ensures
        match r {
            Some(x) => m.holds(x@) && is_inverse_mod(limbs_val(a@), limbs_val(x@), m.value()),
            None => !has_inverse_mod(limbs_val(a@), m.value()),
        },
{
    let ghost av = limbs_val(a@);
    let ghost p = m.value();
    let n = a.len();
    if is_zero_limbs(a) {
        proof {
            assert forall|x: nat| !is_inverse_mod(av, x, p) by {
                assert(0 * x == 0);
                lemma_small_mod(0, p);
            }
        }
        return None;
    }
    let mut u = copy_limbs(a);
    let mut v = copy_limbs(&m.limbs);
    let mut b = one_limbs(n);
    let mut c = zero_limbs(n);
    proof {
        assert(av * 1 == av);
        assert(av * 0 == 0);
        lemma_small_mod(0, p);
        lemma_mod_self_0(p as int);
    }
    while !equal_limbs(&u, &v)
        invariant
            m.wf(),
            p == m.value(),
            av == limbs_val(a@),
            n == m.limbs.len(),
            u.len() == n,
            v.len() == n,
            m.holds(b@),
            m.holds(c@),
            limbs_val(u@) >= 1,
            limbs_val(v@) >= 1,
            (av * limbs_val(b@)) % p == limbs_val(u@) % p,
            (av * limbs_val(c@)) % p == limbs_val(v@) % p,
            forall|d: nat| #[trigger]
                common_divisor(d, limbs_val(u@), limbs_val(v@)) ==> common_divisor(d, av, p),
        decreases limbs_val(u@) + limbs_val(v@),
    {
        let ghost uv = limbs_val(u@);
        let ghost vv = limbs_val(v@);
        let ghost bv = limbs_val(b@);
        let ghost cv = limbs_val(c@);
        if !is_odd_limbs(&u) {
            let u2 = shr1_limbs(&u, false);
            let b2 = mod_half(&b, m);
            proof {
                let uh = limbs_val(u2@);
                assert(uv == 2 * uh);
                lemma_inverse_half(av as int, bv as int, limbs_val(b2@) as int, uv as int, uh as int, p as int);
                assert forall|d: nat| #[trigger] common_divisor(d, uh, vv) implies common_divisor(
                    d,
                    av,
                    p,
                ) by {
                    lemma_divisor_of_double(d, uh, uv);
                    assert(common_divisor(d, uv, vv));
                }
            }
            u = u2;
            b = b2;
        } else if !is_odd_limbs(&v) {
            let v2 = shr1_limbs(&v, false);
            let c2 = mod_half(&c, m);
            proof {
                let vh = limbs_val(v2@);
                assert(vv == 2 * vh);
                lemma_inverse_half(av as int, cv as int, limbs_val(c2@) as int, vv as int, vh as int, p as int);
                assert forall|d: nat| #[trigger] common_divisor(d, uv, vh) implies common_divisor(
                    d,
                    av,
                    p,
                ) by {
                    lemma_divisor_of_double(d, vh, vv);
                    assert(common_divisor(d, uv, vv));
                }
            }
            v = v2;
            c = c2;
        } else if less_than(&v, &u) {
            let (u2, borrow) = sub_limbs(&u, &v);
            let b2 = mod_sub(&b, &c, m);
            proof {
                let un = limbs_val(u2@);
                assert(un == uv - vv);
                lemma_inverse_sub(av as int, bv as int, cv as int, limbs_val(b2@) as int, uv as int, vv as int, p as int);
                assert forall|d: nat| #[trigger] common_divisor(d, un, vv) implies common_divisor(
                    d,
                    av,
                    p,
                ) by {
                    lemma_divisor_of_sum(d, un, vv);
                    assert(common_divisor(d, uv, vv));
                }
            }
            u = u2;
            b = b2;
        } else {
            let (v2, borrow) = sub_limbs(&v, &u);
            let c2 = mod_sub(&c, &b, m);
            proof {
                let vn = limbs_val(v2@);
                assert(vn == vv - uv);
                lemma_inverse_sub(av as int, cv as int, bv as int, limbs_val(c2@) as int, vv as int, uv as int, p as int);
                assert forall|d: nat| #[trigger] common_divisor(d, uv, vn) implies common_divisor(
                    d,
                    av,
                    p,
                ) by {
                    lemma_divisor_of_sum(d, vn, uv);
                    assert(common_divisor(d, uv, vv));
                }
            }
            v = v2;
            c = c2;
        }
    }
    let one = one_limbs(n);
    let ghost g = limbs_val(u@);
    proof {
        lemma_mod_self_0(g as int);
        assert(common_divisor(g, limbs_val(u@), limbs_val(v@)));
        assert(common_divisor(g, av, p));
    }
    if equal_limbs(&u, &one) {
        proof {
            lemma_small_mod(1, p);
        }
        Some(b)
    } else {
        proof {
            lemma_no_inverse(av, p, g);
        }
        None
    }
}

// ---------------------------------------------------------------------------
// Construction
// ---------------------------------------------------------------------------
/// The moduli of the successive Newton steps that invert a word modulo 2^64.
spec fn newton_modulus(i: nat) -> int {
    if i == 0 {
        2
    } else if i == 1 {
        4
    } else if i == 2 {
        16
    } else if i == 3 {
        256
    } else if i == 4 {
        65536
    } else if i == 5 {
        0x1_0000_0000
    } else {
        0x1_0000_0000_0000_0000
    }
}

/// `radix()` divided by the square of `newton_modulus(i)`.
spec fn newton_cofactor(i: nat) -> int {
    if i == 0 {
        0x4000_0000_0000_0000
    } else if i == 1 {
        0x1000_0000_0000_0000
    } else if i == 2 {
        0x0100_0000_0000_0000
    } else if i == 3 {
        0x1_0000_0000_0000
    } else if i == 4 {
        0x1_0000_0000
    } else {
        1
    }
}

proof fn lemma_newton_step(p0: int, x: int, xn: int, z: int, e: int, k: int, q: int)
    requires
        p0 * x - 1 == e * k,
        xn == x * (2 - p0 * x) + (k * k * q) * z,
    ensures
        p0 * xn - 1 == (p0 * q * z - e * e) * (k * k),
{
    let u = p0 * x;
    assert(p0 * xn == u * (2 - u) + p0 * ((k * k * q) * z)) by (nonlinear_arith)
        requires
            xn == x * (2 - p0 * x) + (k * k * q) * z,
            u == p0 * x,
    ;
    assert(u * (2 - u) == 1 - (e * k) * (e * k)) by (nonlinear_arith)
        requires
            u == 1 + e * k,
    ;
    assert((e * k) * (e * k) == (e * e) * (k * k)) by (nonlinear_arith);
    assert(p0 * ((k * k * q) * z) == (p0 * q * z) * (k * k)) by (nonlinear_arith);
    assert((p0 * q * z - e * e) * (k * k) == (p0 * q * z) * (k * k) - (e * e) * (k * k))
        by (nonlinear_arith);
}

/// The negated inverse of an odd word modulo 2^64.
fn neg_inv_word(p0: u64) -> (r: u64)
    requires
        p0 % 2 == 1,
    ensures
        ((p0 as nat) * (r as nat) + 1) % radix() == 0,
{
    let mut x: u64 = 1;
    let ghost mut e: int = (p0 as int - 1) / 2;
    let mut i: usize = 0;
    while i < 6
        invariant
            i <= 6,
            (p0 as int) * (x as int) - 1 == e * newton_modulus(i as nat),
        decreases 6 - i,
    {
        let (t, h1) = mac(p0, x, 0, 0);
        let s: u64 = if t <= 2 {
            2 - t
        } else {
            (0xffff_ffff_ffff_ffff - t) + 3
        };
        let (xn, h2) = mac(x, s, 0, 0);
        proof {
            let rr = radix() as int;
            let cc: int = if t <= 2 { 0 } else { 1 };
            let k = newton_modulus(i as nat);
            let q = newton_cofactor(i as nat);
            assert(k * k * q == rr);
            assert(newton_modulus((i + 1) as nat) == k * k);
            let z = (x as int) * (h1 as int) + (x as int) * cc - (h2 as int);
            assert((xn as int) == (x as int) * (2 - (p0 as int) * (x as int)) + rr * z)
                by (nonlinear_arith)
                requires
                    (p0 as int) * (x as int) == (t as int) + (h1 as int) * rr,
                    (s as int) == 2 - (t as int) + cc * rr,
                    (x as int) * (s as int) == (xn as int) + (h2 as int) * rr,
                    z == (x as int) * (h1 as int) + (x as int) * cc - (h2 as int),
            ;
            lemma_newton_step(p0 as int, x as int, xn as int, z, e, k, q);
            e = (p0 as int) * q * z - e * e;
        }
        x = xn;
        i += 1;
    }
    proof {
        let rr = radix() as int;
        assert((p0 as int) * (x as int) - 1 == e * rr);
        if x == 0 {
            assert((p0 as int) * 0 == 0);
            assert(e * rr == -1);
            assert(false) by (nonlinear_arith)
                requires
                    e * rr == -1,
                    rr == 0x1_0000_0000_0000_0000,
            ;
        }
    }
    let r: u64 = (0xffff_ffff_ffff_ffff - x) + 1;
    proof {
        let rr = radix() as int;
        assert((p0 as int) * (r as int) + 1 == ((p0 as int) - e) * rr) by (nonlinear_arith)
            requires
                (p0 as int) * (x as int) - 1 == e * rr,
                (r as int) == rr - (x as int),
        ;
        lemma_mod_multiples_basic((p0 as int) - e, rr);
    }
    r
}

proof fn lemma_weight_is_pow2(n: nat)
    ensures
        weight(n) == pow2(64 * n),
    decreases n,
{
    lemma2_to64();
    if n > 0 {
        lemma_weight_is_pow2((n - 1) as nat);
        lemma2_to64_rest();
        lemma_pow2_adds(64, (64 * (n - 1)) as nat);
        assert(64 + 64 * (n - 1) == 64 * n);
    }
}

impl Modulus {
    /// The constants for a modulus whose lowest limb is odd and above one.
    pub fn from_slice(limbs: &[u64]) -> (r: Modulus)
        requires
            1 <= limbs@.len() <= MAX_LIMBS,
            limbs@[0] % 2 == 1,
            limbs@[0] > 1,
        ensures
            r.wf(),
            r.limbs@ == limbs@,
    {
        let v = limbs_from_slice(limbs, 0, limbs.len());
        proof {
            assert(v@ =~= limbs@);
            lemma_val_parity(v@);
            lemma_val_ge_low(v@);
        }
        match Modulus::new(v) {
            Some(m) => m,
            None => vstd::pervasive::unreached(),
        }
    }

    /// The constants for the modulus `limbs`, which has to be odd and above one.
    pub fn new(limbs: Vec<u64>) -> (r: Option<Modulus>)
        ensures
            match r {
                Some(m) => m.wf() && m.limbs@ == limbs@,
                None => !(1 <= limbs@.len() <= MAX_LIMBS && limbs_val(limbs@) % 2 == 1
                    && limbs_val(limbs@) > 1),
            },
    {
        let n = limbs.len();
        if n == 0 || n > MAX_LIMBS {
            return None;
        }
        if !is_odd_limbs(&limbs) {
            return None;
        }
        let one = one_limbs(n);
        if equal_limbs(&limbs, &one) {
            return None;
        }
        proof {
            lemma_val_parity(limbs@);
        }
        let n0_inv = neg_inv_word(limbs[0]);
        let byte_len = count_bytes(&limbs);
        // the last constant is not there yet, but the additions below do not need it
        let mut m = Modulus { limbs, n0_inv, r2: one, byte_len };
        let ghost p = m.value() as int;
        let mut x = one_limbs(n);
        let mut i: usize = 0;
        proof {
            lemma2_to64();
            lemma_small_mod(1, p as nat);
        }
        while i < 128 * n
            invariant
                i <= 128 * n,
                n == m.limbs.len(),
                1 <= n <= MAX_LIMBS,
                p == m.value(),
                p > 1,
                p % 2 == 1,
                m.limbs@ == limbs@,
                m.n0_inv == n0_inv,
                m.byte_len == byte_len,
                x.len() == n,
                limbs_val(x@) == pow2(i as nat) as int % p,
            decreases 128 * n - i,
        {
            let (s, carry) = add_limbs(&x, &x);
            proof {
                lemma_val_bound(m.limbs@);
                lemma_val_bound(s@);
                lemma_mod_bound(pow2(i as nat) as int, p);
                lemma_pow2_unfold((i + 1) as nat);
                lemma_mul_mod_noop_right(2, pow2(i as nat) as int, p);
            }
            let ghost total = 2 * limbs_val(x@) as int;
            if carry || !less_than(&s, &m.limbs) {
                let (d, borrow) = sub_limbs(&s, &m.limbs);
                proof {
                    let dv = limbs_val(d@) as int;
                    assert(dv == total - p);
                    assert(total == 1 * p + dv) by (nonlinear_arith)
                        requires
                            dv == total - p,
                    ;
                    lemma_fundamental_div_mod_converse_mod(total, p, 1, dv);
                }
                x = d;
            } else {
                proof {
                    lemma_small_mod(total as nat, p as nat);
                }
                x = s;
            }
            i += 1;
        }
        proof {
            lemma_weight_is_pow2(n as nat);
            lemma_pow2_adds((64 * n) as nat, (64 * n) as nat);
            assert(64 * n + 64 * n == 128 * n);
        }
        m.r2 = x;
        Some(m)
    }
}

} // verus!

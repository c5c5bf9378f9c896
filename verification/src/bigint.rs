//! Natural numbers held as little-endian sequences of 64-bit limbs.
//!
//! Every routine here states its result through [`limbs_val`], the number a
//! limb sequence stands for, so that callers reason about integers and never
//! about carries.

use vstd::prelude::*;

verus! {

/// The largest number of limbs any routine of this crate accepts.
pub const MAX_LIMBS: usize = 65536;

/// The limb radix, 2^64.
pub open spec fn radix() -> nat {
    0x1_0000_0000_0000_0000
}

/// The weight `radix()^i` of limb `i`.
pub open spec fn weight(i: nat) -> nat
    decreases i,
{
    if i == 0 {
        1
    } else {
        radix() * weight((i - 1) as nat)
    }
}

/// The natural number that the little-endian limb sequence `s` stands for.
pub open spec fn limbs_val(s: Seq<u64>) -> nat
    decreases s.len(),
{
    if s.len() == 0 {
        0
    } else {
        limbs_val(s.drop_last()) + (s.last() as nat) * weight((s.len() - 1) as nat)
    }
}

/// Every weight is positive.
pub proof fn lemma_weight_pos(i: nat)
    ensures
        weight(i) > 0,
    decreases i,
{
    if i > 0 {
        lemma_weight_pos((i - 1) as nat);
        let w = weight((i - 1) as nat);
        assert(radix() * w > 0) by (nonlinear_arith)
            requires
                w > 0,
                radix() > 0,
        ;
    }
}

/// The next weight is the radix times this one.
pub proof fn lemma_weight_succ(i: nat)
    ensures
        weight(i + 1) == radix() * weight(i),
{
    assert((i + 1 - 1) as nat == i);
}

/// Weights multiply as their indices add.
pub proof fn lemma_weight_add(i: nat, j: nat)
    ensures
        weight(i + j) == weight(i) * weight(j),
    decreases j,
{
    if j == 0 {
        assert(weight(i) * 1 == weight(i)) by (nonlinear_arith);
    } else {
        let j1 = (j - 1) as nat;
        lemma_weight_add(i, j1);
        assert((i + j - 1) as nat == i + j1);
        let a = weight(i);
        let b = weight(j1);
        let r = radix();
        assert(r * (a * b) == a * (r * b)) by (nonlinear_arith);
    }
}

/// One limb stands for itself.
pub proof fn lemma_val_single(x: u64)
    ensures
        limbs_val(seq![x]) == x as nat,
{
    let s = seq![x];
    assert(s.len() == 1);
    assert(s.last() == x);
    assert(s.drop_last().len() == 0);
    assert(limbs_val(s.drop_last()) == 0);
    assert(weight(0) == 1);
    assert((x as nat) * 1 == x as nat) by (nonlinear_arith);
}

/// The weight of the second limb is the radix.
pub proof fn lemma_weight_one()
    ensures
        weight(1) == radix(),
{
    assert(weight(0) == 1);
    assert(radix() * 1 == radix()) by (nonlinear_arith);
}

/// A limb pushed on top adds itself times its weight.
pub proof fn lemma_val_push(s: Seq<u64>, x: u64)
    ensures
        limbs_val(s.push(x)) == limbs_val(s) + (x as nat) * weight(s.len()),
{
    assert(s.push(x).drop_last() =~= s);
}

/// One more limb of a prefix adds itself times its weight.
pub proof fn lemma_val_take_step(s: Seq<u64>, i: int)
    requires
        0 <= i < s.len(),
    ensures
        limbs_val(s.take(i + 1)) == limbs_val(s.take(i)) + (s[i] as nat) * weight(i as nat),
{
    assert(s.take(i + 1) =~= s.take(i).push(s[i]));
    lemma_val_push(s.take(i), s[i]);
}

/// A number of `n` limbs is below the weight of index `n`.
pub proof fn lemma_val_bound(s: Seq<u64>)
    ensures
        limbs_val(s) < weight(s.len()),
    decreases s.len(),
{
    if s.len() > 0 {
        lemma_val_bound(s.drop_last());
        let w = weight((s.len() - 1) as nat);
        let l = s.last() as nat;
        let v = limbs_val(s.drop_last());
        lemma_weight_succ((s.len() - 1) as nat);
        assert(v + l * w < radix() * w) by (nonlinear_arith)
            requires
                v < w,
                l < radix(),
        ;
    }
}

/// Replacing a limb changes the number by the difference of the two limbs
/// times the weight of the place.
pub proof fn lemma_val_update(s: Seq<u64>, k: int, x: u64)
    requires
        0 <= k < s.len(),
    ensures
        limbs_val(s.update(k, x)) + (s[k] as nat) * weight(k as nat) == limbs_val(s) + (x as nat)
            * weight(k as nat),
    decreases s.len(),
{
    let t = s.update(k, x);
    if k == s.len() - 1 {
        assert(t.drop_last() =~= s.drop_last());
    } else {
        assert(t.drop_last() =~= s.drop_last().update(k, x));
        lemma_val_update(s.drop_last(), k, x);
    }
}

/// A number is its low limbs plus the weight of the cut times its high limbs.
pub proof fn lemma_val_split(s: Seq<u64>, k: int)
    requires
        0 <= k <= s.len(),
    ensures
        limbs_val(s) == limbs_val(s.take(k)) + weight(k as nat) * limbs_val(s.skip(k)),
    decreases s.len(),
{
    if k == s.len() {
        assert(s.take(k) =~= s);
        assert(s.skip(k).len() == 0);
        assert(weight(k as nat) * 0 == 0) by (nonlinear_arith);
    } else {
        let d = s.drop_last();
        lemma_val_split(d, k);
        assert(d.take(k) =~= s.take(k));
        assert(s.skip(k).drop_last() =~= d.skip(k));
        assert(s.skip(k).last() == s.last());
        let m = (s.len() - 1 - k) as nat;
        lemma_weight_add(k as nat, m);
        assert((k as nat + m) == (s.len() - 1) as nat);
        let wk = weight(k as nat);
        let wm = weight(m);
        let l = s.last() as nat;
        let v = limbs_val(d.skip(k));
        assert(wk * (v + l * wm) == wk * v + l * (wk * wm)) by (nonlinear_arith);
    }
}

/// Zero limbs stand for zero.
pub proof fn lemma_val_zeros(s: Seq<u64>)
    requires
        forall|i: int| 0 <= i < s.len() ==> s[i] == 0,
    ensures
        limbs_val(s) == 0,
    decreases s.len(),
{
    if s.len() > 0 {
        lemma_val_zeros(s.drop_last());
        assert(0 * weight((s.len() - 1) as nat) == 0) by (nonlinear_arith);
    }
}

/// Two limb sequences of one length that stand for the same number are equal.
pub proof fn lemma_val_injective(a: Seq<u64>, b: Seq<u64>)
    requires
        a.len() == b.len(),
        limbs_val(a) == limbs_val(b),
    ensures
        a =~= b,
    decreases a.len(),
{
    if a.len() > 0 {
        let w = weight((a.len() - 1) as nat);
        let x = a.last() as int;
        let y = b.last() as int;
        let u = limbs_val(a.drop_last()) as int;
        let v = limbs_val(b.drop_last()) as int;
        lemma_val_bound(a.drop_last());
        lemma_val_bound(b.drop_last());
        assert(x == y) by (nonlinear_arith)
            requires
                u + x * w == v + y * w,
                0 <= u < w,
                0 <= v < w,
        ;
        lemma_val_injective(a.drop_last(), b.drop_last());
        assert(a =~= a.drop_last().push(a.last()));
        assert(b =~= b.drop_last().push(b.last()));
    }
}

/// If the limbs above `k` agree and limb `k` is smaller in `a`, then `a` is the
/// smaller number.
pub proof fn lemma_val_lt_by_top(a: Seq<u64>, b: Seq<u64>, k: int)
    requires
        a.len() == b.len(),
        0 <= k < a.len(),
        a.skip(k + 1) =~= b.skip(k + 1),
        a[k] < b[k],
    ensures
        limbs_val(a) < limbs_val(b),
{
    lemma_val_split(a, k + 1);
    lemma_val_split(b, k + 1);
    lemma_val_take_step(a, k);
    lemma_val_take_step(b, k);
    lemma_val_bound(a.take(k));
    lemma_val_bound(b.take(k));
    let w = weight(k as nat);
    let x = a[k] as int;
    let y = b[k] as int;
    let u = limbs_val(a.take(k)) as int;
    let v = limbs_val(b.take(k)) as int;
    assert(u + x * w < v + y * w) by (nonlinear_arith)
        requires
            x < y,
            0 <= u < w,
            0 <= v < w,
    ;
}

/// The number that nine limbs stand for, written out.
pub proof fn lemma_val_nine_limbs(s: Seq<u64>)
    requires
        s.len() == 9,
    ensures
        limbs_val(s) == s[0] as nat
            + (s[1] as nat) * 0x10000000000000000nat
            + (s[2] as nat) * 0x100000000000000000000000000000000nat
            + (s[3] as nat) * 0x1000000000000000000000000000000000000000000000000nat
            + (s[4] as nat) * 0x10000000000000000000000000000000000000000000000000000000000000000nat
            + (s[5] as nat) * 0x100000000000000000000000000000000000000000000000000000000000000000000000000000000nat
            + (s[6] as nat) * 0x1000000000000000000000000000000000000000000000000000000000000000000000000000000000000000000000000nat
            + (s[7] as nat) * 0x10000000000000000000000000000000000000000000000000000000000000000000000000000000000000000000000000000000000000000nat
            + (s[8] as nat) * 0x100000000000000000000000000000000000000000000000000000000000000000000000000000000000000000000000000000000000000000000000000000000nat,
{
    assert(s.take(0).len() == 0);
    assert(s.take(9) =~= s);
    assert(weight(0) == 1);
    lemma_val_take_step(s, 0);
    lemma_weight_succ(0);
    lemma_val_take_step(s, 1);
    lemma_weight_succ(1);
    lemma_val_take_step(s, 2);
    lemma_weight_succ(2);
    lemma_val_take_step(s, 3);
    lemma_weight_succ(3);
    lemma_val_take_step(s, 4);
    lemma_weight_succ(4);
    lemma_val_take_step(s, 5);
    lemma_weight_succ(5);
    lemma_val_take_step(s, 6);
    lemma_weight_succ(6);
    lemma_val_take_step(s, 7);
    lemma_weight_succ(7);
    lemma_val_take_step(s, 8);
    lemma_weight_succ(8);
}

/// A number is at least its lowest limb.
pub proof fn lemma_val_ge_low(s: Seq<u64>)
    requires
        s.len() > 0,
    ensures
        limbs_val(s) >= s[0] as nat,
{
    lemma_val_split(s, 1);
    assert(s.take(1) =~= seq![s[0]]);
    lemma_val_single(s[0]);
    lemma_weight_one();
    let v = limbs_val(s.skip(1));
    assert(radix() * v >= 0) by (nonlinear_arith);
}

/// A number has the parity of its lowest limb.
pub proof fn lemma_val_parity(s: Seq<u64>)
    requires
        s.len() > 0,
    ensures
        limbs_val(s) % 2 == (s[0] as nat) % 2,
{
    lemma_val_split(s, 1);
    assert(s.take(1) =~= seq![s[0]]);
    lemma_val_single(s[0]);
    lemma_weight_one();
    let v = limbs_val(s.skip(1));
    let l = s[0] as nat;
    assert((l + 0x1_0000_0000_0000_0000 * v) % 2 == l % 2) by (nonlinear_arith);
}

/// Splits a 128-bit value into its low and high 64-bit halves.
pub fn split_wide(t: u128) -> (r: (u64, u64))
    ensures
        t == r.0 as nat + (r.1 as nat) * radix(),
{
    let lo: u64 = #[verifier::truncate] (t as u64);
    let hi: u64 = #[verifier::truncate] ((t >> 64) as u64);
    assert(t == (lo as u128) + (hi as u128) * 0x1_0000_0000_0000_0000u128) by (bit_vector)
        requires
            lo == #[verifier::truncate] (t as u64),
            hi == #[verifier::truncate] ((t >> 64) as u64),
    ;
    (lo, hi)
}

/// Multiply-accumulate on limbs: `x * y + z + c` as a low and a high limb.
pub fn mac(x: u64, y: u64, z: u64, c: u64) -> (r: (u64, u64))
    ensures
        (x as nat) * (y as nat) + z as nat + c as nat == r.0 as nat + (r.1 as nat) * radix(),
{
    assert((x as nat) * (y as nat) <= 0xffff_ffff_ffff_ffff * 0xffff_ffff_ffff_ffff)
        by (nonlinear_arith)
        requires
            x <= 0xffff_ffff_ffff_ffff,
            y <= 0xffff_ffff_ffff_ffff,
    ;
    let t: u128 = (x as u128) * (y as u128) + (z as u128) + (c as u128);
    split_wide(t)
}

/// A vector of `n` zero limbs.
pub fn zero_limbs(n: usize) -> (r: Vec<u64>)
    ensures
        r.len() == n,
        forall|i: int| 0 <= i < n ==> r[i] == 0,
        limbs_val(r@) == 0,
{
    let mut r: Vec<u64> = Vec::new();
    let mut i: usize = 0;
    while i < n
        invariant
            i <= n,
            r.len() == i,
            forall|k: int| 0 <= k < i ==> r[k] == 0,
        decreases n - i,
    {
        r.push(0);
        i += 1;
    }
    proof {
        lemma_val_zeros(r@);
    }
    r
}

/// The number one in `n` limbs.
pub fn one_limbs(n: usize) -> (r: Vec<u64>)
    requires
        n >= 1,
    ensures
        r.len() == n,
        limbs_val(r@) == 1,
{
    let mut r = zero_limbs(n);
    proof {
        lemma_val_update(r@, 0, 1);
        assert(0 * weight(0) == 0) by (nonlinear_arith);
        assert(1 * weight(0) == 1) by (nonlinear_arith);
    }
    r.set(0, 1);
    r
}

/// `a` extended by zero limbs to `len` limbs.
pub fn pad_limbs(a: &Vec<u64>, len: usize) -> (r: Vec<u64>)
    requires
        a.len() <= len,
    ensures
        r.len() == len,
        limbs_val(r@) == limbs_val(a@),
        r@.take(a.len() as int) == a@,
{
    let mut r = copy_limbs(a);
    while r.len() < len
        invariant
            a.len() <= r.len() <= len,
            limbs_val(r@) == limbs_val(a@),
            r@.take(a.len() as int) =~= a@,
        decreases len - r.len(),
    {
        proof {
            lemma_val_push(r@, 0);
            assert(0 * weight(r@.len()) == 0) by (nonlinear_arith);
            assert(r@.push(0).take(a.len() as int) =~= r@.take(a.len() as int));
        }
        r.push(0);
    }
    r
}

/// The limbs of `s` from `from` up to `to`.
pub fn limbs_from_slice(s: &[u64], from: usize, to: usize) -> (r: Vec<u64>)
    requires
        from <= to <= s@.len(),
    ensures
        r@ == s@.subrange(from as int, to as int),
{
    let mut r: Vec<u64> = Vec::new();
    let mut i: usize = from;
    while i < to
        invariant
            from <= i <= to,
            to <= s@.len(),
            r@ =~= s@.subrange(from as int, i as int),
        decreases to - i,
    {
        r.push(s[i]);
        i += 1;
    }
    r
}

/// A copy of the limbs of `a`.
pub fn copy_limbs(a: &Vec<u64>) -> (r: Vec<u64>)
    ensures
        r@ == a@,
{
    let mut r: Vec<u64> = Vec::new();
    let mut i: usize = 0;
    while i < a.len()
        invariant
            i <= a.len(),
            r@ =~= a@.take(i as int),
        decreases a.len() - i,
    {
        r.push(a[i]);
        i += 1;
    }
    assert(a@.take(a.len() as int) =~= a@);
    r
}

/// Whether `a` stands for zero.
pub fn is_zero_limbs(a: &Vec<u64>) -> (r: bool)
    ensures
        r == (limbs_val(a@) == 0),
{
    let mut i: usize = 0;
    while i < a.len()
        invariant
            i <= a.len(),
            forall|k: int| 0 <= k < i ==> a[k] == 0,
        decreases a.len() - i,
    {
        if a[i] != 0 {
            proof {
                lemma_val_split(a@, i as int);
                lemma_val_split(a@.skip(i as int), 1);
                let s = a@.skip(i as int);
                assert(s.take(1) =~= seq![a[i as int]]);
                lemma_val_single(a[i as int]);
                lemma_weight_pos(i as nat);
                let w = weight(i as nat);
                let v = limbs_val(s);
                assert(w * v > 0) by (nonlinear_arith)
                    requires
                        w > 0,
                        v > 0,
                ;
            }
            return false;
        }
        i += 1;
    }
    proof {
        lemma_val_zeros(a@);
    }
    true
}

/// Whether `a` stands for an odd number.
pub fn is_odd_limbs(a: &Vec<u64>) -> (r: bool)
    ensures
        r == (limbs_val(a@) % 2 == 1),
{
    if a.len() == 0 {
        return false;
    }
    let low: u64 = a[0];
    proof {
        lemma_val_parity(a@);
        assert((low & 1 == 1) == (low % 2 == 1)) by (bit_vector);
    }
    low & 1 == 1
}

/// Whether `a` stands for a smaller number than `b`.
pub fn less_than(a: &Vec<u64>, b: &Vec<u64>) -> (r: bool)
    requires
        a.len() == b.len(),
    ensures
        r == (limbs_val(a@) < limbs_val(b@)),
{
    let mut i: usize = a.len();
    while i > 0
        invariant
            i <= a.len(),
            a.len() == b.len(),
            a@.skip(i as int) =~= b@.skip(i as int),
        decreases i,
    {
        i -= 1;
        if a[i] < b[i] {
            proof {
                lemma_val_lt_by_top(a@, b@, i as int);
            }
            return true;
        }
        if a[i] > b[i] {
            proof {
                lemma_val_lt_by_top(b@, a@, i as int);
            }
            return false;
        }
        assert(a@.skip(i as int) =~= seq![a[i as int]] + a@.skip(i + 1));
        assert(b@.skip(i as int) =~= seq![b[i as int]] + b@.skip(i + 1));
    }
    assert(a@.skip(0) =~= a@);
    assert(b@.skip(0) =~= b@);
    false
}

/// Whether `a` and `b` stand for the same number.
pub fn equal_limbs(a: &Vec<u64>, b: &Vec<u64>) -> (r: bool)
    requires
        a.len() == b.len(),
    ensures
        r == (limbs_val(a@) == limbs_val(b@)),
        r == (a@ == b@),
{
    let mut i: usize = 0;
    while i < a.len()
        invariant
            i <= a.len(),
            a.len() == b.len(),
            a@.take(i as int) =~= b@.take(i as int),
        decreases a.len() - i,
    {
        if a[i] != b[i] {
            proof {
                if limbs_val(a@) == limbs_val(b@) {
                    lemma_val_injective(a@, b@);
                }
            }
            return false;
        }
        assert(a@.take(i + 1) =~= a@.take(i as int).push(a[i as int]));
        assert(b@.take(i + 1) =~= b@.take(i as int).push(b[i as int]));
        i += 1;
    }
    assert(a@.take(a.len() as int) =~= a@);
    assert(b@.take(b.len() as int) =~= b@);
    true
}

/// Limb-wise sum with the carry out of the top limb.
pub fn add_limbs(a: &Vec<u64>, b: &Vec<u64>) -> (r: (Vec<u64>, bool))
    requires
        a.len() == b.len(),
    ensures
        r.0.len() == a.len(),
        limbs_val(r.0@) + (if r.1 { weight(a.len() as nat) } else { 0 }) == limbs_val(a@)
            + limbs_val(b@),
{
    let n = a.len();
    let mut out: Vec<u64> = Vec::new();
    let mut carry: u64 = 0;
    let mut i: usize = 0;
    while i < n
        invariant
            i <= n,
            n == a.len(),
            n == b.len(),
            out.len() == i,
            carry <= 1,
            limbs_val(out@) + (carry as nat) * weight(i as nat) == limbs_val(a@.take(i as int))
                + limbs_val(b@.take(i as int)),
        decreases n - i,
    {
        let t: u128 = (a[i] as u128) + (b[i] as u128) + (carry as u128);
        let (lo, hi) = split_wide(t);
        proof {
            lemma_val_push(out@, lo);
            lemma_val_take_step(a@, i as int);
            lemma_val_take_step(b@, i as int);
            lemma_weight_succ(i as nat);
            let w = weight(i as nat);
            let x = a[i as int] as nat;
            let y = b[i as int] as nat;
            let c = carry as nat;
            let l = lo as nat;
            let h = hi as nat;
            assert(h <= 1) by (nonlinear_arith)
                requires
                    x + y + c == l + h * radix(),
                    x < radix(),
                    y < radix(),
                    c <= 1,
            ;
            assert(l * w + h * (radix() * w) == x * w + y * w + c * w) by (nonlinear_arith)
                requires
                    x + y + c == l + h * radix(),
            ;
        }
        out.push(lo);
        carry = hi;
        i += 1;
    }
    proof {
        assert(a@.take(n as int) =~= a@);
        assert(b@.take(n as int) =~= b@);
        let w = weight(n as nat);
        assert(1 * w == w) by (nonlinear_arith);
        assert(0 * w == 0) by (nonlinear_arith);
    }
    (out, carry == 1)
}

/// Limb-wise difference with the borrow out of the top limb.
pub fn sub_limbs(a: &Vec<u64>, b: &Vec<u64>) -> (r: (Vec<u64>, bool))
    requires
        a.len() == b.len(),
    ensures
        r.0.len() == a.len(),
        limbs_val(r.0@) + limbs_val(b@) == limbs_val(a@) + (if r.1 {
            weight(a.len() as nat)
        } else {
            0
        }),
        r.1 == (limbs_val(a@) < limbs_val(b@)),
{
    let n = a.len();
    let mut out: Vec<u64> = Vec::new();
    let mut borrow: u64 = 0;
    let mut i: usize = 0;
    while i < n
        invariant
            i <= n,
            n == a.len(),
            n == b.len(),
            out.len() == i,
            borrow <= 1,
            limbs_val(out@) + limbs_val(b@.take(i as int)) == limbs_val(a@.take(i as int)) + (
            borrow as nat) * weight(i as nat),
        decreases n - i,
    {
        // a[i] - b[i] - borrow, computed as a[i] + 2^64 - b[i] - borrow
        let t: u128 = (a[i] as u128) + 0x1_0000_0000_0000_0000u128 - (b[i] as u128) - (
        borrow as u128);
        let (lo, hi) = split_wide(t);
        proof {
            lemma_val_push(out@, lo);
            lemma_val_take_step(a@, i as int);
            lemma_val_take_step(b@, i as int);
            lemma_weight_succ(i as nat);
            let w = weight(i as nat) as int;
            let x = a[i as int] as int;
            let y = b[i as int] as int;
            let c = borrow as int;
            let l = lo as int;
            let h = hi as int;
            let rr = radix() as int;
            assert(h <= 1) by (nonlinear_arith)
                requires
                    x + rr - y - c == l + h * rr,
                    x < rr,
                    y >= 0,
                    c >= 0,
                    l >= 0,
                    rr > 0,
            ;
            assert(l * w + y * w + c * w == x * w + (1 - h) * (rr * w)) by (nonlinear_arith)
                requires
                    x + rr - y - c == l + h * rr,
            ;
        }
        out.push(lo);
        borrow = 1 - hi;
        i += 1;
    }
    proof {
        assert(a@.take(n as int) =~= a@);
        assert(b@.take(n as int) =~= b@);
        let w = weight(n as nat);
        assert(1 * w == w) by (nonlinear_arith);
        assert(0 * w == 0) by (nonlinear_arith);
        lemma_val_bound(out@);
        lemma_val_bound(a@);
        lemma_val_bound(b@);
    }
    (out, borrow == 1)
}

/// Half of `a + top * radix()^n`, rounded down: a right shift by one bit with
/// `top` shifted in at the top.
pub fn shr1_limbs(a: &Vec<u64>, top: bool) -> (r: Vec<u64>)
    ensures
        r.len() == a.len(),
        limbs_val(r@) == (limbs_val(a@) + (if top { weight(a.len() as nat) } else { 0 })) / 2,
{
    let n = a.len();
    let mut out = zero_limbs(n);
    let mut carry: u64 = if top { 1 } else { 0 };
    let mut i: usize = n;
    let ghost total = limbs_val(a@) + (if top { weight(n as nat) } else { 0 });
    proof {
        lemma_val_split(a@, n as int);
        assert(a@.skip(n as int).len() == 0);
        assert(out@.skip(n as int).len() == 0);
        assert(a@.take(n as int) =~= a@);
        let w = weight(n as nat);
        assert(1 * w == w) by (nonlinear_arith);
        assert(0 * w == 0) by (nonlinear_arith);
        assert(w * 0 == 0) by (nonlinear_arith);
        assert(2 * (w * 0) == 0);
    }
    while i > 0
        invariant
            i <= n,
            n == a.len(),
            out.len() == n,
            carry <= 1,
            // the part already shifted, scaled back, plus what is left below it
            2 * (weight(i as nat) * limbs_val(out@.skip(i as int))) + (carry as nat) * weight(
                i as nat,
            ) + limbs_val(a@.take(i as int)) == total,
        decreases i,
    {
        i -= 1;
        let x: u64 = a[i];
        let y: u64 = (x >> 1) | (carry << 63);
        let c2: u64 = x & 1;
        proof {
            assert(carry <= 1 ==> (x as u128) + (carry as u128) * 0x1_0000_0000_0000_0000u128 == 2
                * (((x >> 1) | (carry << 63)) as u128) + ((x & 1) as u128)) by (bit_vector);
            assert(x & 1 <= 1) by (bit_vector);
            let ghost_old = out@;
            let new = out@.update(i as int, y);
            assert(new.skip(i as int) =~= seq![y] + ghost_old.skip(i + 1));
            assert(new.skip(i + 1) =~= ghost_old.skip(i + 1));
            lemma_val_split(new.skip(i as int), 1);
            assert(new.skip(i as int).take(1) =~= seq![y]);
            assert(new.skip(i as int).skip(1) =~= ghost_old.skip(i + 1));
            lemma_val_single(y);
            lemma_weight_one();
            lemma_val_take_step(a@, i as int);
            lemma_weight_succ(i as nat);
            let w = weight(i as nat);
            let hi_v = limbs_val(ghost_old.skip(i + 1));
            let c = carry as nat;
            let xn = x as nat;
            let yn = y as nat;
            let cn = c2 as nat;
            let rr = radix();
            assert(2 * (w * (yn + rr * hi_v)) + cn * w == 2 * ((rr * w) * hi_v) + c * (rr * w) + xn
                * w) by (nonlinear_arith)
                requires
                    xn + c * rr == 2 * yn + cn,
            ;
        }
        out.set(i, y);
        carry = c2;
    }
    proof {
        assert(out@.skip(0) =~= out@);
        assert(a@.take(0).len() == 0);
        let v = limbs_val(out@);
        assert(1 * v == v) by (nonlinear_arith);
        assert((carry as nat) * 1 == carry as nat) by (nonlinear_arith);
        assert(2 * v + carry as nat == total);
    }
    out
}

/// The full product of two numbers of `n` limbs each, in `2n` limbs.
pub fn mul_wide(a: &Vec<u64>, b: &Vec<u64>) -> (r: Vec<u64>)
    requires
        a.len() == b.len(),
        a.len() <= MAX_LIMBS,
    ensures
        r.len() == 2 * a.len(),
        limbs_val(r@) == limbs_val(a@) * limbs_val(b@),
{
    let n = a.len();
    let mut out = zero_limbs(2 * n);
    let mut i: usize = 0;
    proof {
        assert(b@.take(0).len() == 0);
        assert(limbs_val(a@) * 0 == 0) by (nonlinear_arith);
    }
    while i < n
        invariant
            i <= n,
            n == a.len(),
            n == b.len(),
            n <= MAX_LIMBS,
            out.len() == 2 * n,
            limbs_val(out@) == limbs_val(a@) * limbs_val(b@.take(i as int)),
            forall|k: int| n + i <= k < 2 * n ==> out[k] == 0,
        decreases n - i,
    {
        let bi: u64 = b[i];
        let ghost row_start = out@;
        let mut carry: u64 = 0;
        let mut j: usize = 0;
        proof {
            assert(a@.take(0).len() == 0);
            assert(0 * (bi as nat) * weight(i as nat) == 0) by (nonlinear_arith);
            assert(0 * weight(i as nat) == 0) by (nonlinear_arith);
        }
        while j < n
            invariant
                j <= n,
                i < n,
                n == a.len(),
                n == b.len(),
                n <= MAX_LIMBS,
                out.len() == 2 * n,
                row_start.len() == 2 * n,
                limbs_val(out@) + (carry as nat) * weight((i + j) as nat) == limbs_val(row_start)
                    + limbs_val(a@.take(j as int)) * (bi as nat) * weight(i as nat),
                forall|k: int| i + j <= k < 2 * n ==> #[trigger] out[k] == row_start[k],
                forall|k: int| n + i <= k < 2 * n ==> #[trigger] row_start[k] == 0,
            decreases n - j,
        {
            let cur: u64 = out[i + j];
            let (lo, hi) = mac(a[j], bi, cur, carry);
            proof {
                lemma_val_update(out@, (i + j) as int, lo);
                lemma_val_take_step(a@, j as int);
                lemma_weight_succ((i + j) as nat);
                lemma_weight_add(i as nat, j as nat);
                let w = weight((i + j) as nat) as int;
                let wi = weight(i as nat) as int;
                let wj = weight(j as nat) as int;
                let aj = a[j as int] as int;
                let bb = bi as int;
                let c = carry as int;
                let o = cur as int;
                let l = lo as int;
                let h = hi as int;
                let rr = radix() as int;
                let pre = limbs_val(a@.take(j as int)) as int;
                assert(l * w + h * (rr * w) == (aj * bb) * w + o * w + c * w) by (nonlinear_arith)
                    requires
                        aj * bb + o + c == l + h * rr,
                ;
                assert((pre + aj * wj) * bb * wi == pre * bb * wi + (aj * bb) * w)
                    by (nonlinear_arith)
                    requires
                        w == wi * wj,
                ;
            }
            out.set(i + j, lo);
            carry = hi;
            j += 1;
        }
        proof {
            lemma_val_update(out@, (i + n) as int, carry);
            assert(out[(i + n) as int] == row_start[(i + n) as int]);
            assert(out[(i + n) as int] == 0);
            assert(a@.take(n as int) =~= a@);
            lemma_val_take_step(b@, i as int);
            let w = weight((i + n) as nat) as int;
            let wi = weight(i as nat) as int;
            let av = limbs_val(a@) as int;
            let bb = bi as int;
            let pre = limbs_val(b@.take(i as int)) as int;
            assert(0 * w == 0) by (nonlinear_arith);
            assert(av * (pre + bb * wi) == av * pre + av * bb * wi) by (nonlinear_arith);
        }
        out.set(i + n, carry);
        i += 1;
    }
    proof {
        assert(b@.take(n as int) =~= b@);
    }
    out
}

} // verus!

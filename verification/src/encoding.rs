//! Numbers as little-endian byte strings of a fixed length.

use vstd::prelude::*;
use vstd::arithmetic::div_mod::{
    lemma_div_denominator, lemma_fundamental_div_mod, lemma_fundamental_div_mod_converse,
};
use vstd::arithmetic::power2::{lemma2_to64, lemma_pow2_unfold, pow2};
use crate::bigint::{
    copy_limbs, is_zero_limbs, lemma_val_bound, lemma_val_single, lemma_val_split,
    lemma_val_take_step, lemma_val_push, lemma_weight_one, lemma_weight_succ, limbs_val, mac,
    radix, shr1_limbs, weight, zero_limbs,
};

verus! {

/// The number that the little-endian byte string `b` stands for.
pub open spec fn bytes_val(b: Seq<u8>) -> nat
    decreases b.len(),
{
    if b.len() == 0 {
        0
    } else {
        b[0] as nat + 256 * bytes_val(b.skip(1))
    }
}

/// The `len` lowest base-256 digits of `v`, least significant first.
pub open spec fn nat_to_bytes(v: nat, len: nat) -> Seq<u8>
    decreases len,
{
    if len == 0 {
        Seq::empty()
    } else {
        seq![(v % 256) as u8] + nat_to_bytes(v / 256, (len - 1) as nat)
    }
}

/// The number of base-256 digits of `v`: its bit length in bytes, rounded up.
pub open spec fn byte_count(v: nat) -> nat
    decreases v,
{
    if v == 0 {
        0
    } else {
        1 + byte_count(v / 256)
    }
}

/// `256^k`.
pub open spec fn byte_weight(k: nat) -> nat
    decreases k,
{
    if k == 0 {
        1
    } else {
        256 * byte_weight((k - 1) as nat)
    }
}

/// `len` digits are `len` bytes.
pub proof fn lemma_nat_to_bytes_len(v: nat, len: nat)
    ensures
        nat_to_bytes(v, len).len() == len,
    decreases len,
{
    if len > 0 {
        lemma_nat_to_bytes_len(v / 256, (len - 1) as nat);
    }
}

/// A number of at most `len` digits is what its `len` digits stand for.
pub proof fn lemma_bytes_of_nat(v: nat, len: nat)
    requires
        byte_count(v) <= len,
    ensures
        bytes_val(nat_to_bytes(v, len)) == v,
    decreases len,
{
    if len == 0 {
    } else {
        let rest = nat_to_bytes(v / 256, (len - 1) as nat);
        let s = nat_to_bytes(v, len);
        assert(s.skip(1) =~= rest);
        assert(s[0] == (v % 256) as u8);
        if v > 0 {
            lemma_bytes_of_nat(v / 256, (len - 1) as nat);
        } else {
            assert(byte_count(0) == 0);
            lemma_bytes_of_nat(0, (len - 1) as nat);
        }
        lemma_fundamental_div_mod(v as int, 256);
    }
}

/// The digits of what a byte string stands for are the byte string.
pub proof fn lemma_nat_of_bytes(b: Seq<u8>)
    ensures
        nat_to_bytes(bytes_val(b), b.len()) =~= b,
    decreases b.len(),
{
    if b.len() > 0 {
        let v = bytes_val(b);
        let t = bytes_val(b.skip(1));
        lemma_nat_of_bytes(b.skip(1));
        lemma_fundamental_div_mod_converse(v as int, 256, t as int, b[0] as int);
        lemma_nat_to_bytes_len(t, (b.len() - 1) as nat);
        assert(nat_to_bytes(v, b.len()) =~= seq![b[0]] + b.skip(1));
    }
}

/// Every power of 256 is positive.
pub proof fn lemma_byte_weight_pos(k: nat)
    ensures
        byte_weight(k) > 0,
    decreases k,
{
    if k > 0 {
        lemma_byte_weight_pos((k - 1) as nat);
    }
}

/// A byte string of `k` bytes stands for a number below `256^k`.
pub proof fn lemma_bytes_val_bound(b: Seq<u8>)
    ensures
        bytes_val(b) < byte_weight(b.len()),
    decreases b.len(),
{
    if b.len() > 0 {
        lemma_bytes_val_bound(b.skip(1));
    }
}

/// A number below `256^k` has at most `k` digits.
pub proof fn lemma_byte_count_bound(v: nat, k: nat)
    requires
        v < byte_weight(k),
    ensures
        byte_count(v) <= k,
    decreases k,
{
    if v > 0 {
        assert(k > 0);
        lemma_byte_count_bound(v / 256, (k - 1) as nat);
    }
}

/// A larger number has no fewer digits.
pub proof fn lemma_byte_count_mono(v: nat, w: nat)
    requires
        v <= w,
    ensures
        byte_count(v) <= byte_count(w),
    decreases w,
{
    if v > 0 {
        lemma_byte_count_mono(v / 256, w / 256);
    }
}

/// Eight bytes weigh as much as one limb.
pub proof fn lemma_byte_weight_limbs(n: nat)
    ensures
        byte_weight(8 * n) == weight(n),
    decreases n,
{
    if n > 0 {
        lemma_byte_weight_limbs((n - 1) as nat);
        let k = (8 * (n - 1)) as nat;
        assert(byte_weight(k + 8) == 0x1_0000_0000_0000_0000 * byte_weight(k)) by {
            reveal_with_fuel(byte_weight, 9);
        }
        assert(8 * n == k + 8);
    }
}

/// The lowest byte of a number is the lowest byte of its lowest limb.
pub proof fn lemma_val_low_byte(s: Seq<u64>)
    requires
        s.len() > 0,
    ensures
        limbs_val(s) % 256 == (s[0] as nat) % 256,
{
    lemma_val_split(s, 1);
    assert(s.take(1) =~= seq![s[0]]);
    lemma_val_single(s[0]);
    lemma_weight_one();
    let v = limbs_val(s.skip(1));
    let l = s[0] as nat;
    assert((l + 0x1_0000_0000_0000_0000 * v) % 256 == l % 256) by (nonlinear_arith);
}

/// `a` shifted right by eight bits.
pub fn shr8_limbs(a: &Vec<u64>) -> (r: Vec<u64>)
    ensures
        r.len() == a.len(),
        limbs_val(r@) == limbs_val(a@) / 256,
{
    let mut x = copy_limbs(a);
    let mut i: usize = 0;
    let ghost v = limbs_val(a@) as int;
    proof {
        lemma2_to64();
    }
    while i < 8
        invariant
            i <= 8,
            x.len() == a.len(),
            v == limbs_val(a@),
            limbs_val(x@) == v / (pow2(i as nat) as int),
        decreases 8 - i,
    {
        proof {
            lemma_pow2_unfold((i + 1) as nat);
            vstd::arithmetic::power2::lemma_pow2_pos(i as nat);
            lemma_div_denominator(v, pow2(i as nat) as int, 2);
        }
        x = shr1_limbs(&x, false);
        i += 1;
    }
    x
}

/// `a * k + c` in as many limbs as `a` has, with what does not fit.
pub fn scale_add_limbs(a: &Vec<u64>, k: u64, c: u64) -> (r: (Vec<u64>, u64))
    ensures
        r.0.len() == a.len(),
        limbs_val(r.0@) + (r.1 as nat) * weight(a.len() as nat) == limbs_val(a@) * (k as nat)
            + c as nat,
{
    let n = a.len();
    let mut out: Vec<u64> = Vec::new();
    let mut carry: u64 = c;
    let mut i: usize = 0;
    proof {
        assert(a@.take(0).len() == 0);
        assert(0 * (k as nat) == 0) by (nonlinear_arith);
        assert((carry as nat) * 1 == carry as nat) by (nonlinear_arith);
    }
    while i < n
        invariant
            i <= n,
            n == a.len(),
            out.len() == i,
            limbs_val(out@) + (carry as nat) * weight(i as nat) == limbs_val(a@.take(i as int)) * (
            k as nat) + c as nat,
        decreases n - i,
    {
        let (lo, hi) = mac(a[i], k, carry, 0);
        proof {
            lemma_val_push(out@, lo);
            lemma_val_take_step(a@, i as int);
            lemma_weight_succ(i as nat);
            let w = weight(i as nat) as int;
            let x = a[i as int] as int;
            let kk = k as int;
            let cc = carry as int;
            let l = lo as int;
            let h = hi as int;
            let rr = radix() as int;
            let pre = limbs_val(a@.take(i as int)) as int;
            assert(l * w + h * (rr * w) == (x * kk) * w + cc * w) by (nonlinear_arith)
                requires
                    x * kk + cc + 0 == l + h * rr,
            ;
            assert((pre + x * w) * kk == pre * kk + (x * kk) * w) by (nonlinear_arith);
        }
        out.push(lo);
        carry = hi;
        i += 1;
    }
    proof {
        assert(a@.take(n as int) =~= a@);
    }
    (out, carry)
}

/// The `len` lowest bytes of the number that `a` stands for.
pub fn limbs_to_bytes(a: &Vec<u64>, len: usize) -> (r: Vec<u8>)
    ensures
        r@ == nat_to_bytes(limbs_val(a@), len as nat),
{
    let mut out: Vec<u8> = Vec::new();
    let mut x = copy_limbs(a);
    let mut k: usize = 0;
    let ghost v = limbs_val(a@);
    assert(out@ + nat_to_bytes(v, len as nat) =~= nat_to_bytes(v, len as nat));
    while k < len
        invariant
            k <= len,
            out.len() == k,
            x.len() == a.len(),
            out@ + nat_to_bytes(limbs_val(x@), (len - k) as nat) == nat_to_bytes(v, len as nat),
        decreases len - k,
    {
        let low: u64 = if x.len() > 0 {
            x[0]
        } else {
            0
        };
        let byte: u8 = #[verifier::truncate] ((low & 0xff) as u8);
        proof {
            let xv = limbs_val(x@);
            if x.len() > 0 {
                lemma_val_low_byte(x@);
            }
            assert(low & 0xff == low % 256) by (bit_vector);
            assert(byte as nat == xv % 256);
            let rest = nat_to_bytes(xv / 256, (len - k - 1) as nat);
            assert(nat_to_bytes(xv, (len - k) as nat) == seq![byte] + rest);
            assert(out@.push(byte) + rest =~= out@ + (seq![byte] + rest));
        }
        out.push(byte);
        x = shr8_limbs(&x);
        k += 1;
    }
    assert(out@ + Seq::<u8>::empty() =~= out@);
    out
}

/// The number that `b` stands for, in `n` limbs.
pub fn bytes_to_limbs(b: &Vec<u8>, n: usize) -> (r: Vec<u64>)
    requires
        b.len() <= 8 * n,
    ensures
        r.len() == n,
        limbs_val(r@) == bytes_val(b@),
{
    let mut x = zero_limbs(n);
    let mut k: usize = b.len();
    assert(b@.skip(k as int).len() == 0);
    while k > 0
        invariant
            k <= b.len(),
            b.len() <= 8 * n,
            x.len() == n,
            limbs_val(x@) == bytes_val(b@.skip(k as int)),
        decreases k,
    {
        k -= 1;
        let (y, carry) = scale_add_limbs(&x, 256, b[k] as u64);
        proof {
            let s = b@.skip(k as int);
            assert(s.skip(1) =~= b@.skip(k + 1));
            assert(s[0] == b[k as int]);
            lemma_bytes_val_bound(s);
            lemma_byte_weight_limbs(n as nat);
            lemma_byte_weight_mono(s.len(), (8 * n) as nat);
            lemma_val_bound(y@);
            let w = weight(n as nat);
            if carry > 0 {
                assert((carry as nat) * w >= w) by (nonlinear_arith)
                    requires
                        carry > 0,
                ;
            }
            assert(0 * w == 0) by (nonlinear_arith);
        }
        x = y;
    }
    assert(b@.skip(0) =~= b@);
    x
}

/// The powers of 256 grow with the exponent.
pub proof fn lemma_byte_weight_mono(i: nat, j: nat)
    requires
        i <= j,
    ensures
        byte_weight(i) <= byte_weight(j),
    decreases j,
{
    if i < j {
        lemma_byte_weight_mono(i, (j - 1) as nat);
    }
}

/// The number of base-256 digits of the number that `a` stands for.
pub fn count_bytes(a: &Vec<u64>) -> (r: usize)
    requires
        a.len() <= crate::bigint::MAX_LIMBS,
    ensures
        r == byte_count(limbs_val(a@)),
        r <= 8 * a.len(),
{
    let mut x = copy_limbs(a);
    let mut count: usize = 0;
    proof {
        lemma_val_bound(a@);
        lemma_byte_weight_limbs(a.len() as nat);
        lemma_byte_count_bound(limbs_val(a@), (8 * a.len()) as nat);
    }
    while !is_zero_limbs(&x)
        invariant
            x.len() == a.len(),
            a.len() <= crate::bigint::MAX_LIMBS,
            count + byte_count(limbs_val(x@)) == byte_count(limbs_val(a@)),
            byte_count(limbs_val(a@)) <= 8 * a.len(),
        decreases limbs_val(x@),
    {
        x = shr8_limbs(&x);
        count += 1;
    }
    count
}

/// Appends `src` to `out`.
pub fn append_bytes(out: &mut Vec<u8>, src: &Vec<u8>)
    ensures
        final(out)@ == old(out)@ + src@,
{
    let mut i: usize = 0;
    let ghost start = out@;
    assert(out@ =~= start + src@.take(0));
    while i < src.len()
        invariant
            i <= src.len(),
            out@ == start + src@.take(i as int),
        decreases src.len() - i,
    {
        assert(out@.push(src[i as int]) =~= start + src@.take(i + 1));
        out.push(src[i]);
        i += 1;
    }
    assert(src@.take(src.len() as int) =~= src@);
}

/// The bytes of `src` from `from` up to `to`.
pub fn slice_bytes(src: &Vec<u8>, from: usize, to: usize) -> (r: Vec<u8>)
    requires
        from <= to <= src.len(),
    ensures
        r@ == src@.subrange(from as int, to as int),
{
    let mut out: Vec<u8> = Vec::new();
    let mut i: usize = from;
    while i < to
        invariant
            from <= i <= to,
            to <= src.len(),
            out@ =~= src@.subrange(from as int, i as int),
        decreases to - i,
    {
        out.push(src[i]);
        i += 1;
    }
    out
}

} // verus!

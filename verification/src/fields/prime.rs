//! Prime fields: the residues of an odd prime.

use vstd::prelude::*;
use crate::bigint::{
    copy_limbs, equal_limbs, is_zero_limbs, less_than, limbs_from_slice, limbs_val, one_limbs,
    zero_limbs,
};
use crate::encoding::{append_bytes, bytes_to_limbs, bytes_val, limbs_to_bytes, nat_to_bytes};
use crate::errors::Error;
use crate::fields::field::Field;
use crate::modular::{
    add_mod, inverse_mod, is_inverse_mod, lemma_inverse_is, mod_add, mod_half, mod_inverse,
    mod_mul, mod_neg, mod_reduce, mod_sub, mul_mod, neg_mod, sub_mod, Modulus,
};

verus! {

/// An element of a prime field: the residue in `[0, p)`, in limbs.
pub struct Fp {
    /// The residue, least significant limb first.
    pub limbs: Vec<u64>,
}

impl Field for Fp {
    type Params = Modulus;

    type Value = nat;

    open spec fn params_wf(p: &Modulus) -> bool {
        p.wf()
    }

    open spec fn value(&self) -> nat {
        limbs_val(self.limbs@)
    }

    open spec fn in_field(v: nat, p: &Modulus) -> bool {
        v < p.value()
    }

    open spec fn wf(&self, p: &Modulus) -> bool {
        p.holds(self.limbs@)
    }

    open spec fn zero_v(p: &Modulus) -> nat {
        0
    }

    open spec fn one_v(p: &Modulus) -> nat {
        1
    }

    open spec fn add_v(a: nat, b: nat, p: &Modulus) -> nat {
        add_mod(a, b, p.value())
    }

    open spec fn sub_v(a: nat, b: nat, p: &Modulus) -> nat {
        sub_mod(a, b, p.value())
    }

    open spec fn neg_v(a: nat, p: &Modulus) -> nat {
        neg_mod(a, p.value())
    }

    open spec fn mul_v(a: nat, b: nat, p: &Modulus) -> nat {
        mul_mod(a, b, p.value())
    }

    open spec fn inv_v(a: nat, p: &Modulus) -> Option<nat> {
        inverse_mod(a, p.value())
    }

    open spec fn frobenius_v(a: nat, power: nat, p: &Modulus) -> nat {
        a
    }

    open spec fn byte_len(p: &Modulus) -> nat {
        p.byte_len as nat
    }

    open spec fn encode_v(a: nat, p: &Modulus) -> Seq<u8> {
        nat_to_bytes(a, p.byte_len as nat)
    }

    open spec fn decode_v(bytes: Seq<u8>, p: &Modulus) -> Option<nat> {
        if bytes.len() == p.byte_len && bytes_val(bytes) < p.value() {
            Some(bytes_val(bytes))
        } else {
            None
        }
    }

    proof fn lemma_wf_in_field(&self, p: &Modulus) {
    }

    fn zero(p: &Modulus) -> (r: Fp) {
        Fp { limbs: zero_limbs(p.limbs.len()) }
    }

    fn one(p: &Modulus) -> (r: Fp) {
        Fp { limbs: one_limbs(p.limbs.len()) }
    }

    fn dup(&self, p: &Modulus) -> (r: Fp) {
        Fp { limbs: copy_limbs(&self.limbs) }
    }

    fn is_zero(&self, p: &Modulus) -> (r: bool) {
        is_zero_limbs(&self.limbs)
    }

    fn same(&self, rhs: &Fp, p: &Modulus) -> (r: bool) {
        equal_limbs(&self.limbs, &rhs.limbs)
    }

    fn add(&self, rhs: &Fp, p: &Modulus) -> (r: Fp) {
        Fp { limbs: mod_add(&self.limbs, &rhs.limbs, p) }
    }

    fn sub(&self, rhs: &Fp, p: &Modulus) -> (r: Fp) {
        Fp { limbs: mod_sub(&self.limbs, &rhs.limbs, p) }
    }

    fn neg(&self, p: &Modulus) -> (r: Fp) {
        Fp { limbs: mod_neg(&self.limbs, p) }
    }

    fn double(&self, p: &Modulus) -> (r: Fp) {
        Fp { limbs: mod_add(&self.limbs, &self.limbs, p) }
    }

    fn mul(&self, rhs: &Fp, p: &Modulus) -> (r: Fp) {
        Fp { limbs: mod_mul(&self.limbs, &rhs.limbs, p) }
    }

    fn square(&self, p: &Modulus) -> (r: Fp) {
        Fp { limbs: mod_mul(&self.limbs, &self.limbs, p) }
    }

    fn inverse(&self, p: &Modulus) -> (r: Option<Fp>) {
        match mod_inverse(&self.limbs, p) {
            Some(x) => {
                proof {
                    lemma_inverse_is(limbs_val(self.limbs@), limbs_val(x@), p.value());
                }
                Some(Fp { limbs: x })
            },
            None => None,
        }
    }

    fn frobenius_map(&self, power: usize, p: &Modulus) -> (r: Fp) {
        Fp { limbs: copy_limbs(&self.limbs) }
    }

    fn encoded_len(p: &Modulus) -> (r: usize) {
        p.byte_len
    }

    fn write(&self, out: &mut Vec<u8>, p: &Modulus) {
        let bytes = limbs_to_bytes(&self.limbs, p.byte_len);
        append_bytes(out, &bytes);
    }

    fn read(bytes: &Vec<u8>, p: &Modulus) -> (r: Result<Fp, Error>) {
        if bytes.len() != p.byte_len {
            return Err(Error::DeserializationRangeError);
        }
        let limbs = bytes_to_limbs(bytes, p.limbs.len());
        if less_than(&limbs, &p.limbs) {
            Ok(Fp { limbs })
        } else {
            Err(Error::DeserializationRangeError)
        }
    }
}

/// The residue of the entry of index `k` of a table of numbers, each as long
/// as the modulus `m`.
pub open spec fn entry_v(table: Seq<u64>, k: int, m: &Modulus) -> nat {
    limbs_val(table.subrange(k * m.limbs@.len(), (k + 1) * m.limbs@.len())) % m.value()
}

/// The residues of the first `count` entries of a table of numbers, each as
/// long as the modulus.
pub fn fp_table(table: &[u64], count: usize, p: &Modulus) -> (r: Vec<Fp>)
    requires
        p.wf(),
        count * p.limbs@.len() <= table@.len(),
    ensures
        r@.len() == count,
        forall|k: int| 0 <= k < count ==> (#[trigger] r@[k]).wf(p) && r@[k].value() == entry_v(table@, k, p),
{
    let mut out: Vec<Fp> = Vec::new();
    let mut i: usize = 0;
    while i < count
        invariant
            i <= count,
            p.wf(),
            count * p.limbs@.len() <= table@.len(),
            out@.len() == i,
            forall|k: int| 0 <= k < i ==> (#[trigger] out@[k]).wf(p) && out@[k].value() == entry_v(table@, k, p),
        decreases count - i,
    {
        assert((i + 1) * p.limbs@.len() <= count * p.limbs@.len()) by (nonlinear_arith)
            requires
                i + 1 <= count,
        ;
        out.push(Fp::from_table(table, i, p));
        i += 1;
    }
    out
}

impl Fp {
    /// The residue of the entry of index `k` of a table of numbers, each as
    /// long as the modulus.
    pub fn from_table(table: &[u64], k: usize, p: &Modulus) -> (r: Fp)
        requires
            p.wf(),
            (k + 1) * p.limbs@.len() <= table@.len(),
        ensures
            r.wf(p),
            r.value() == entry_v(table@, k as int, p),
    {
        let n = p.limbs.len();
        let total = table.len();
        assert(k * n <= (k + 1) * n <= total && (k + 1) * n == k * n + n) by (nonlinear_arith)
            requires
                (k + 1) * n <= total,
                n >= 0,
                k >= 0,
        ;
        let limbs = limbs_from_slice(table, k * n, k * n + n);
        Fp { limbs: mod_reduce(&limbs, p) }
    }

    /// The residue of the number that the limbs `limbs` stand for; there are
    /// as many of them as the modulus has.
    pub fn from_slice(limbs: &[u64], p: &Modulus) -> (r: Fp)
        requires
            p.wf(),
            limbs@.len() == p.limbs@.len(),
        ensures
            r.wf(p),
            r.value() == limbs_val(limbs@) % p.value(),
    {
        let v = limbs_from_slice(limbs, 0, limbs.len());
        assert(v@ =~= limbs@);
        Fp { limbs: mod_reduce(&v, p) }
    }

    /// The inverse of two.
    pub fn two_inv(p: &Modulus) -> (r: Fp)
        requires
            p.wf(),
        ensures
            r.wf(p),
            is_inverse_mod(2, r.value(), p.value()),
    {
        let one = one_limbs(p.limbs.len());
        Fp { limbs: mod_half(&one, p) }
    }

    /// The residue of the number that `limbs` stands for; `limbs` has as many
    /// limbs as the modulus.
    pub fn from_limbs(limbs: &Vec<u64>, p: &Modulus) -> (r: Fp)
        requires
            p.wf(),
            limbs.len() == p.limbs.len(),
        ensures
            r.wf(p),
            r.value() == limbs_val(limbs@) % p.value(),
    {
        Fp { limbs: mod_reduce(limbs, p) }
    }

    /// The residue of a small number.
    pub fn from_u64(x: u64, p: &Modulus) -> (r: Fp)
        requires
            p.wf(),
        ensures
            r.wf(p),
            r.value() == (x as nat) % p.value(),
    {
        let mut limbs = zero_limbs(p.limbs.len());
        proof {
            crate::bigint::lemma_val_update(limbs@, 0, x);
            assert(0 * crate::bigint::weight(0) == 0) by (nonlinear_arith);
            assert((x as nat) * crate::bigint::weight(0) == x as nat) by (nonlinear_arith);
        }
        limbs.set(0, x);
        Fp { limbs: mod_reduce(&limbs, p) }
    }
}

} // verus!

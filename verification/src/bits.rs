//! The binary digits of a number, and lists walked in step.

use vstd::prelude::*;
use crate::bigint::limbs_val;

verus! {

/// The binary digits of `n`, most significant first, none for zero.
pub open spec fn bits_of(n: nat) -> Seq<bool>
    decreases n,
{
    if n == 0 {
        Seq::empty()
    } else {
        bits_of(n / 2).push(n % 2 == 1)
    }
}

/// The binary digits of `n` after the leading one.
pub open spec fn bits_after_first(n: nat) -> Seq<bool> {
    if n == 0 {
        Seq::empty()
    } else {
        bits_of(n).skip(1)
    }
}

/// `ark_ff::BitIteratorBE::without_leading_zeros`, collected: the bits of the
/// limbs from the most significant limb down, each limb from its highest bit
/// down, with every zero before the first one left out. That is the binary
/// expansion of the number the limbs stand for.
#[verifier::external_body]
pub(crate) fn bits_be(limbs: &Vec<u64>) -> (r: Vec<bool>)
    ensures
        r@ == bits_of(limbs_val(limbs@)),
{
    ark_ff::BitIteratorBE::without_leading_zeros(limbs.as_slice()).collect()
}

/// The binary digits of the number that `limbs` stands for, after the leading one.
pub fn bits_be_after_first(limbs: &Vec<u64>) -> (r: Vec<bool>)
    ensures
        r@ == bits_after_first(limbs_val(limbs@)),
{
    let mut bits = bits_be(limbs);
    if bits.len() > 0 {
        let first = bits.remove(0);
        proof {
            assert(bits@ =~= bits_of(limbs_val(limbs@)).skip(1));
        }
    }
    bits
}

/// `itertools::zip_eq`, collected: the pairs of the items that stand at the
/// same place in two lists of one length. (On lists of different lengths it
/// panics, so those are left out.)
#[verifier::external_body]
pub(crate) fn zip_pairs<A, B>(a: Vec<A>, b: Vec<B>) -> (r: Vec<(A, B)>)
    requires
        a@.len() == b@.len(),
    ensures
        r@.len() == a@.len(),
        forall|i: int| 0 <= i < r@.len() ==> r@[i] == (a@[i], b@[i]),
{
    itertools::zip_eq(a, b).collect()
}

} // verus!

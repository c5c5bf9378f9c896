//! The base field of Yafa-108.

use vstd::prelude::*;
use crate::bigint::{lemma_val_nine_limbs, limbs_val};
use crate::fields::prime::Fp;
use crate::modular::Modulus;

verus! {

/// An element of the base field.
pub type Fq = Fp;

/// The modulus of the base field:
/// 347808379399646489167833919090978384667141572095495139567416616684200805273967055905976221
/// 24144427710754148825442779617551149172671304488041519255243374122027992030525080041
pub const MODULUS: [u64; 9] = [
    0xbb6b9a882a6541e9, 0xe5b6bc1f7c680fae, 0x5f33c52513be22c3,
    0xd754dec645e2ed10, 0x9e9490948a1cbe1e, 0x21b06244d9534e95,
    0x6a4bec14953bf2bd, 0x172c2b21c3c833b7, 0x240000040af53a70,
];

/// `m` describes the base field.
pub open spec fn is_fq(m: &Modulus) -> bool {
    m.wf() && m.limbs@ == MODULUS@
}

/// The description of the base field.
pub fn fq() -> (r: Modulus)
    ensures
        is_fq(&r),
{
    Modulus::from_slice(MODULUS.as_slice())
}

// ---- constants of the Frobenius map

/// The modulus as a number.
pub open spec fn modulus_value() -> nat {
    0x240000040af53a70172c2b21c3c833b76a4bec14953bf2bd21b06244d9534e959e9490948a1cbe1ed754dec645e2ed105f33c52513be22c3e5b6bc1f7c680faebb6b9a882a6541e9nat
}

/// The limbs of the modulus stand for that number.
pub proof fn lemma_modulus_value()
    ensures
        limbs_val(MODULUS@) == modulus_value(),
{
    lemma_val_nine_limbs(MODULUS@);
}

} // verus!

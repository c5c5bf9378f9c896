//! The scalar field of Yafa-108, which is the base field of curve25519.

use vstd::prelude::*;
use crate::fields::prime::Fp;
use crate::modular::Modulus;

verus! {

/// An element of the scalar field.
pub type Fr = Fp;

/// The modulus of the scalar field:
/// 57896044618658097711785492504343953926634992332820282019728792003956564819949
pub const MODULUS: [u64; 4] = [
    0xffffffffffffffed, 0xffffffffffffffff, 0xffffffffffffffff,
    0x7fffffffffffffff,
];

/// `m` describes the scalar field.
pub open spec fn is_fr(m: &Modulus) -> bool {
    m.wf() && m.limbs@ == MODULUS@
}

/// The description of the scalar field.
pub fn fr() -> (r: Modulus)
    ensures
        is_fr(&r),
{
    Modulus::from_slice(MODULUS.as_slice())
}

} // verus!

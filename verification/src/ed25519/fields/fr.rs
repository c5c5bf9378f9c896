//! The scalar field of curve25519.

use vstd::prelude::*;
use crate::fields::prime::Fp;
use crate::modular::Modulus;

verus! {

/// An element of the scalar field.
pub type Fr = Fp;

/// The modulus of the scalar field:
/// 7237005577332262213973186563042994240857116359379907606001950938285454250989
pub const MODULUS: [u64; 4] = [
    0x5812631a5cf5d3ed, 0x14def9dea2f79cd6, 0x0000000000000000,
    0x1000000000000000,
];

/// `m` describes the scalar field.
pub open spec fn is_fr(m: &Modulus) -> bool {
    m.wf() && m.limbs@ == MODULUS@
}

/// The description of the scalar field.
pub fn fr() -> (r: Modulus)
    ensures
        is_fr(&r),
{
    Modulus::from_slice(MODULUS.as_slice())
}

} // verus!

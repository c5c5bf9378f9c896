//! The base field of Yafa-146.

use vstd::prelude::*;
use crate::bigint::{lemma_val_nine_limbs, limbs_val};
use crate::fields::prime::Fp;
use crate::modular::Modulus;

verus! {

/// An element of the base field.
pub type Fq = Fp;

/// The modulus of the base field:
/// 347808467935976491159023607593301147659538310377620365965388902199388348386346598101672702
/// 79641323601509886108333904651602464968545001642013075102043510458751533543897428201
pub const MODULUS: [u64; 9] = [
    0x08158152f773f0e9, 0xdf6ac56be2355158, 0x1495b477826bab3d,
    0x25a8234845d13371, 0x05064729b44e4107, 0x6d59daeda3de1b8b,
    0xb181e5db10149dfb, 0xec9e36d5dd45d227, 0x2400009dc9f03804,
];

/// `m` describes the base field.
pub open spec fn is_fq(m: &Modulus) -> bool {
    m.wf() && m.limbs@ == MODULUS@
}

/// The description of the base field.
pub fn fq() -> (r: Modulus)
    ensures
        is_fq(&r),
{
    Modulus::from_slice(MODULUS.as_slice())
}

// ---- constants of the Frobenius map

/// The modulus as a number.
pub open spec fn modulus_value() -> nat {
    0x2400009dc9f03804ec9e36d5dd45d227b181e5db10149dfb6d59daeda3de1b8b05064729b44e410725a8234845d133711495b477826bab3ddf6ac56be235515808158152f773f0e9nat
}

/// The limbs of the modulus stand for that number.
pub proof fn lemma_modulus_value()
    ensures
        limbs_val(MODULUS@) == modulus_value(),
{
    lemma_val_nine_limbs(MODULUS@);
}

} // verus!

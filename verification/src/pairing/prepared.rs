//! Points made ready for a Miller loop.

use vstd::prelude::*;
use crate::curves::short_weierstrass::Affine;
use crate::fields::field::Field;
use crate::fields::prime::Fp;
use crate::modular::Modulus;

verus! {

/// A point of the first group, made ready for a Miller loop: the point itself.
pub struct G1Prepared(pub Affine<Fp>);

impl G1Prepared {
    /// The value of the point.
    pub open spec fn value(&self) -> Affine<nat> {
        self.0.value()
    }

    /// The point is a valid point over the base field `fq`.
    pub open spec fn wf(&self, fq: &Modulus) -> bool {
        self.0.wf(fq)
    }

    /// The point made ready.
    pub fn from_affine(other: Affine<Fp>) -> (r: Self)
        ensures
            r.0 == other,
    {
        G1Prepared(other)
    }

    /// Whether the point is the point at infinity.
    pub fn is_zero(&self) -> (r: bool)
        ensures
            r == self.value().infinity,
    {
        self.0.is_identity()
    }

    /// A copy.
    pub fn dup(&self, fq: &Modulus) -> (r: Self)
        requires
            fq.wf(),
            self.wf(fq),
        ensures
            r.wf(fq),
            r.value() == self.value(),
    {
        G1Prepared(self.0.dup(fq))
    }
}

} // verus!

//! What every field of the tower offers, and the model it is specified by.

use vstd::prelude::*;
use crate::errors::Error;

verus! {

/// A finite field whose description is a run-time value.
///
/// An element is held in some machine representation; `value` is the
/// mathematical element it stands for. The functions with the suffix `_v`
/// compute on such values and are what the contracts of the executable
/// operations refer to.
pub trait Field: Sized {
    /// The description of the field: its modulus or, for an extension, the
    /// base field, the non-residue and the Frobenius coefficients.
    type Params;

    /// The mathematical value of an element.
    type Value;

    /// The description is usable.
    spec fn params_wf(p: &Self::Params) -> bool;

    /// The value that this element stands for.
    spec fn value(&self) -> Self::Value;

    /// `v` is a value of the field that `p` describes.
    spec fn in_field(v: Self::Value, p: &Self::Params) -> bool;

    /// The element is a valid representation of a value of the field.
    spec fn wf(&self, p: &Self::Params) -> bool;

    spec fn zero_v(p: &Self::Params) -> Self::Value;

    spec fn one_v(p: &Self::Params) -> Self::Value;

    spec fn add_v(a: Self::Value, b: Self::Value, p: &Self::Params) -> Self::Value;

    spec fn sub_v(a: Self::Value, b: Self::Value, p: &Self::Params) -> Self::Value;

    spec fn neg_v(a: Self::Value, p: &Self::Params) -> Self::Value;

    spec fn mul_v(a: Self::Value, b: Self::Value, p: &Self::Params) -> Self::Value;

    /// The multiplicative inverse, where there is one.
    spec fn inv_v(a: Self::Value, p: &Self::Params) -> Option<Self::Value>;

    /// The image under the `power`-th iterate of the Frobenius map.
    spec fn frobenius_v(a: Self::Value, power: nat, p: &Self::Params) -> Self::Value;

    /// The number of bytes of an encoded element.
    spec fn byte_len(p: &Self::Params) -> nat;

    /// The encoding of a value.
    spec fn encode_v(a: Self::Value, p: &Self::Params) -> Seq<u8>;

    /// The value that `bytes` encode, if they encode one.
    spec fn decode_v(bytes: Seq<u8>, p: &Self::Params) -> Option<Self::Value>;

    /// A well-formed element stands for a value of the field.
    proof fn lemma_wf_in_field(&self, p: &Self::Params)
        requires
            Self::params_wf(p),
            self.wf(p),
        ensures
            Self::in_field(self.value(), p),
    ;

    fn zero(p: &Self::Params) -> (r: Self)
        requires
            Self::params_wf(p),
        ensures
            r.wf(p),
            r.value() == Self::zero_v(p),
    ;

    fn one(p: &Self::Params) -> (r: Self)
        requires
            Self::params_wf(p),
        ensures
            r.wf(p),
            r.value() == Self::one_v(p),
    ;

    /// A copy of the element.
    fn dup(&self, p: &Self::Params) -> (r: Self)
        requires
            Self::params_wf(p),
            self.wf(p),
        ensures
            r.wf(p),
            r.value() == self.value(),
    ;

    fn is_zero(&self, p: &Self::Params) -> (r: bool)
        requires
            Self::params_wf(p),
            self.wf(p),
        ensures
            r == (self.value() == Self::zero_v(p)),
    ;

    /// Whether two elements stand for the same value.
    fn same(&self, rhs: &Self, p: &Self::Params) -> (r: bool)
        requires
            Self::params_wf(p),
            self.wf(p),
            rhs.wf(p),
        ensures
            r == (self.value() == rhs.value()),
    ;

    fn add(&self, rhs: &Self, p: &Self::Params) -> (r: Self)
        requires
            Self::params_wf(p),
            self.wf(p),
            rhs.wf(p),
        ensures
            r.wf(p),
            r.value() == Self::add_v(self.value(), rhs.value(), p),
    ;

    fn sub(&self, rhs: &Self, p: &Self::Params) -> (r: Self)
        requires
            Self::params_wf(p),
            self.wf(p),
            rhs.wf(p),
        ensures
            r.wf(p),
            r.value() == Self::sub_v(self.value(), rhs.value(), p),
    ;

    fn neg(&self, p: &Self::Params) -> (r: Self)
        requires
            Self::params_wf(p),
            self.wf(p),
        ensures
            r.wf(p),
            r.value() == Self::neg_v(self.value(), p),
    ;

    fn double(&self, p: &Self::Params) -> (r: Self)
        requires
            Self::params_wf(p),
            self.wf(p),
        ensures
            r.wf(p),
            r.value() == Self::add_v(self.value(), self.value(), p),
    ;

    fn mul(&self, rhs: &Self, p: &Self::Params) -> (r: Self)
        requires
            Self::params_wf(p),
            self.wf(p),
            rhs.wf(p),
        ensures
            r.wf(p),
            r.value() == Self::mul_v(self.value(), rhs.value(), p),
    ;

    fn square(&self, p: &Self::Params) -> (r: Self)
        requires
            Self::params_wf(p),
            self.wf(p),
        ensures
            r.wf(p),
            r.value() == Self::mul_v(self.value(), self.value(), p),
    ;

    /// The inverse, or `None` exactly where the element has none.
    fn inverse(&self, p: &Self::Params) -> (r: Option<Self>)
        requires
            Self::params_wf(p),
            self.wf(p),
        ensures
            match Self::inv_v(self.value(), p) {
                Some(v) => r is Some && r->0.wf(p) && r->0.value() == v,
                None => r is None,
            },
    ;

    /// The element raised to the `power`-th power of the size of the prime field.
    fn frobenius_map(&self, power: usize, p: &Self::Params) -> (r: Self)
        requires
            Self::params_wf(p),
            self.wf(p),
        ensures
            r.wf(p),
            r.value() == Self::frobenius_v(self.value(), power as nat, p),
    ;

    /// The number of bytes of an encoded element.
    fn encoded_len(p: &Self::Params) -> (r: usize)
        requires
            Self::params_wf(p),
        ensures
            r == Self::byte_len(p),
    ;

    /// Appends the encoding of the element to `out`.
    fn write(&self, out: &mut Vec<u8>, p: &Self::Params)
        requires
            Self::params_wf(p),
            self.wf(p),
        ensures
            final(out)@ == old(out)@ + Self::encode_v(self.value(), p),
    ;

    /// Reads an element from `bytes`, which has to have the length of an
    /// encoding and to encode a value of the field.
    fn read(bytes: &Vec<u8>, p: &Self::Params) -> (r: Result<Self, Error>)
        requires
            Self::params_wf(p),
        ensures
            match Self::decode_v(bytes@, p) {
                Some(v) => r is Ok && r->Ok_0.wf(p) && r->Ok_0.value() == v,
                None => r == Err::<Self, Error>(Error::DeserializationRangeError),
            },
    ;
}

} // verus!

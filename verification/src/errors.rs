//! The failures that the library reports.

use vstd::prelude::*;

verus! {

/// Why an operation could not deliver a result.
#[derive(Clone, Copy, Debug, PartialEq, Eq, Structural)]
pub enum Error {
    /// The coordinates do not satisfy the curve equation.
    NotOnCurve,
    /// The point is on the curve, but not in the subgroup of prime order.
    NotInSubgroup,
    /// An element without an inverse was to be inverted.
    NonInvertible,
    /// The bytes have the wrong length, or stand for a number that is no residue.
    DeserializationRangeError,
    /// The two lists of a multi-pairing differ in length.
    MismatchedPairingLists,
}

impl Error {
    /// The words for each failure.
    pub open spec fn name_v(self) -> Seq<char> {
        match self {
            Error::NotOnCurve => "point is not on the curve"@,
            Error::NotInSubgroup => "point is not in the prime-order subgroup"@,
            Error::NonInvertible => "element has no inverse"@,
            Error::DeserializationRangeError => "bytes do not encode an element"@,
            Error::MismatchedPairingLists => "pairing lists differ in length"@,
        }
    }

    /// A few words that say what failed, for messages.
    pub fn name(&self) -> (r: &'static str)
        ensures
            r@ == self.name_v(),
    {
        match self {
            Error::NotOnCurve => {
                proof {
                    reveal_strlit("point is not on the curve");
                }
                "point is not on the curve"
            },
            Error::NotInSubgroup => {
                proof {
                    reveal_strlit("point is not in the prime-order subgroup");
                }
                "point is not in the prime-order subgroup"
            },
            Error::NonInvertible => {
                proof {
                    reveal_strlit("element has no inverse");
                }
                "element has no inverse"
            },
            Error::DeserializationRangeError => {
                proof {
                    reveal_strlit("bytes do not encode an element");
                }
                "bytes do not encode an element"
            },
            Error::MismatchedPairingLists => {
                proof {
                    reveal_strlit("pairing lists differ in length");
                }
                "pairing lists differ in length"
            },
        }
    }
}

} // verus!

//! The laws that the fields obey, proved of the models that the contracts
//! of the operations refer to.

use vstd::prelude::*;
use vstd::arithmetic::div_mod::{
    lemma_add_mod_noop, lemma_add_mod_noop_right, lemma_mod_bound, lemma_mul_mod_noop_left,
    lemma_mul_mod_noop_right, lemma_small_mod, lemma_sub_mod_noop,
};
use vstd::arithmetic::mul::{lemma_mul_is_associative, lemma_mul_is_distributive_add};
use crate::encoding::{
    lemma_byte_count_mono, lemma_bytes_of_nat, lemma_nat_of_bytes, lemma_nat_to_bytes_len,
};
use crate::curves::short_weierstrass::{Affine, SwCurve};
use crate::fields::cubic::{
    cubic_add_v, cubic_inv_v, cubic_mul_v, cubic_neg_v, cubic_sub_v, CubicExt, CubicParams,
};
use crate::fields::field::Field;
use crate::fields::prime::Fp;
use crate::fields::quadratic::{
    quad_add_v, quad_inv_v, quad_mul_v, quad_neg_v, quad_sub_v, QuadExt, QuadParams,
};
use crate::modular::{
    has_inverse_mod, is_inverse_mod, is_prime, lemma_prime_inverse_exists, Modulus,
};

verus! {

/// Encoding and decoding undo each other.
pub trait EncodingLaws: Field {
    /// Decoding the encoding of a value of the field gives the value back,
    /// and the encoding has the length that the field states.
    proof fn lemma_decode_encode(a: Self::Value, p: &Self::Params)
        requires
            Self::params_wf(p),
            Self::in_field(a, p),
        ensures
            Self::encode_v(a, p).len() == Self::byte_len(p),
            Self::decode_v(Self::encode_v(a, p), p) == Some(a),
    ;

    /// Encoding what a byte string decodes to gives the byte string back,
    /// and what it decodes to is a value of the field.
    proof fn lemma_encode_decode(bytes: Seq<u8>, p: &Self::Params)
        requires
            Self::params_wf(p),
            Self::decode_v(bytes, p) is Some,
        ensures
            Self::in_field(Self::decode_v(bytes, p)->0, p),
            Self::encode_v(Self::decode_v(bytes, p)->0, p) == bytes,
    ;
}

impl EncodingLaws for Fp {
    proof fn lemma_decode_encode(a: nat, p: &Modulus) {
        lemma_nat_to_bytes_len(a, p.byte_len as nat);
        lemma_byte_count_mono(a, p.value());
        lemma_bytes_of_nat(a, p.byte_len as nat);
    }

    proof fn lemma_encode_decode(bytes: Seq<u8>, p: &Modulus) {
        lemma_nat_of_bytes(bytes);
    }
}

impl<B: EncodingLaws> EncodingLaws for QuadExt<B> {
    proof fn lemma_decode_encode(a: QuadExt<B::Value>, p: &QuadParams<B>) {
        B::lemma_decode_encode(a.c0, &p.base);
        B::lemma_decode_encode(a.c1, &p.base);
        let e0 = B::encode_v(a.c0, &p.base);
        let e1 = B::encode_v(a.c1, &p.base);
        let len = B::byte_len(&p.base) as int;
        assert((e0 + e1).subrange(0, len) =~= e0);
        assert((e0 + e1).subrange(len, 2 * len) =~= e1);
    }

    proof fn lemma_encode_decode(bytes: Seq<u8>, p: &QuadParams<B>) {
        let len = B::byte_len(&p.base) as int;
        let b0 = bytes.subrange(0, len);
        let b1 = bytes.subrange(len, 2 * len);
        B::lemma_encode_decode(b0, &p.base);
        B::lemma_encode_decode(b1, &p.base);
        assert(b0 + b1 =~= bytes);
    }
}

impl<B: EncodingLaws> EncodingLaws for CubicExt<B> {
    proof fn lemma_decode_encode(a: CubicExt<B::Value>, p: &CubicParams<B>) {
        B::lemma_decode_encode(a.c0, &p.base);
        B::lemma_decode_encode(a.c1, &p.base);
        B::lemma_decode_encode(a.c2, &p.base);
        let e0 = B::encode_v(a.c0, &p.base);
        let e1 = B::encode_v(a.c1, &p.base);
        let e2 = B::encode_v(a.c2, &p.base);
        let len = B::byte_len(&p.base) as int;
        assert((e0 + e1 + e2).subrange(0, len) =~= e0);
        assert((e0 + e1 + e2).subrange(len, 2 * len) =~= e1);
        assert((e0 + e1 + e2).subrange(2 * len, 3 * len) =~= e2);
    }

    proof fn lemma_encode_decode(bytes: Seq<u8>, p: &CubicParams<B>) {
        let len = B::byte_len(&p.base) as int;
        let b0 = bytes.subrange(0, len);
        let b1 = bytes.subrange(len, 2 * len);
        let b2 = bytes.subrange(2 * len, 3 * len);
        B::lemma_encode_decode(b0, &p.base);
        B::lemma_encode_decode(b1, &p.base);
        B::lemma_encode_decode(b2, &p.base);
        assert(b0 + b1 + b2 =~= bytes);
    }
}

/// Decoding the encoding of a point with coordinates in the field gives the
/// point back.
pub proof fn lemma_point_decode_encode<F: EncodingLaws>(q: Affine<F::Value>, fp: &F::Params)
    requires
        F::params_wf(fp),
        F::in_field(q.x, fp),
        F::in_field(q.y, fp),
        q.infinity ==> q.x == F::zero_v(fp) && q.y == F::zero_v(fp),
    ensures
        SwCurve::<F>::decode_point_v(SwCurve::<F>::encode_point_v(q, fp), fp) == Some(q),
{
    F::lemma_decode_encode(q.x, fp);
    F::lemma_decode_encode(q.y, fp);
    let ex = F::encode_v(q.x, fp);
    let ey = F::encode_v(q.y, fp);
    let flag = seq![if q.infinity { 1u8 } else { 0u8 }];
    let len = F::byte_len(fp) as int;
    let all = ex + ey + flag;
    assert(all.subrange(0, len) =~= ex);
    assert(all.subrange(len, 2 * len) =~= ey);
    assert(all[2 * len] == flag[0]);
}

/// Encoding the point that a byte string decodes to gives the byte string back.
pub proof fn lemma_point_encode_decode<F: EncodingLaws>(bytes: Seq<u8>, fp: &F::Params)
    requires
        F::params_wf(fp),
        SwCurve::<F>::decode_point_v(bytes, fp) is Some,
    ensures
        SwCurve::<F>::encode_point_v(SwCurve::<F>::decode_point_v(bytes, fp)->0, fp) == bytes,
{
    let len = F::byte_len(fp) as int;
    let bx = bytes.subrange(0, len);
    let by = bytes.subrange(len, 2 * len);
    F::lemma_encode_decode(bx, fp);
    F::lemma_encode_decode(by, fp);
    let q = SwCurve::<F>::decode_point_v(bytes, fp)->0;
    let flag = seq![if q.infinity { 1u8 } else { 0u8 }];
    assert(bx + by + flag =~= bytes);
}

/// The laws of a commutative ring, and what an inverse is.
pub trait RingLaws: Field {
    /// Zero and one are values of the field.
    proof fn lemma_zero_one(p: &Self::Params)
        requires
            Self::params_wf(p),
        ensures
            Self::in_field(Self::zero_v(p), p),
            Self::in_field(Self::one_v(p), p),
    ;

    /// The operations on values of the field give values of the field.
    proof fn lemma_closed(a: Self::Value, b: Self::Value, p: &Self::Params)
        requires
            Self::params_wf(p),
            Self::in_field(a, p),
            Self::in_field(b, p),
        ensures
            Self::in_field(Self::add_v(a, b, p), p),
            Self::in_field(Self::sub_v(a, b, p), p),
            Self::in_field(Self::neg_v(a, p), p),
            Self::in_field(Self::mul_v(a, b, p), p),
    ;

    proof fn lemma_add_commutative(a: Self::Value, b: Self::Value, p: &Self::Params)
        requires
            Self::params_wf(p),
            Self::in_field(a, p),
            Self::in_field(b, p),
        ensures
            Self::add_v(a, b, p) == Self::add_v(b, a, p),
    ;

    proof fn lemma_add_associative(a: Self::Value, b: Self::Value, c: Self::Value, p: &Self::Params)
        requires
            Self::params_wf(p),
            Self::in_field(a, p),
            Self::in_field(b, p),
            Self::in_field(c, p),
        ensures
            Self::add_v(Self::add_v(a, b, p), c, p) == Self::add_v(a, Self::add_v(b, c, p), p),
    ;

    proof fn lemma_add_zero(a: Self::Value, p: &Self::Params)
        requires
            Self::params_wf(p),
            Self::in_field(a, p),
        ensures
            Self::add_v(a, Self::zero_v(p), p) == a,
    ;

    proof fn lemma_add_negative(a: Self::Value, p: &Self::Params)
        requires
            Self::params_wf(p),
            Self::in_field(a, p),
        ensures
            Self::add_v(a, Self::neg_v(a, p), p) == Self::zero_v(p),
    ;

    proof fn lemma_sub_is_add_negative(a: Self::Value, b: Self::Value, p: &Self::Params)
        requires
            Self::params_wf(p),
            Self::in_field(a, p),
            Self::in_field(b, p),
        ensures
            Self::sub_v(a, b, p) == Self::add_v(a, Self::neg_v(b, p), p),
    ;

    proof fn lemma_mul_commutative(a: Self::Value, b: Self::Value, p: &Self::Params)
        requires
            Self::params_wf(p),
            Self::in_field(a, p),
            Self::in_field(b, p),
        ensures
            Self::mul_v(a, b, p) == Self::mul_v(b, a, p),
    ;

    proof fn lemma_mul_associative(a: Self::Value, b: Self::Value, c: Self::Value, p: &Self::Params)
        requires
            Self::params_wf(p),
            Self::in_field(a, p),
            Self::in_field(b, p),
            Self::in_field(c, p),
        ensures
            Self::mul_v(Self::mul_v(a, b, p), c, p) == Self::mul_v(a, Self::mul_v(b, c, p), p),
    ;

    proof fn lemma_mul_one(a: Self::Value, p: &Self::Params)
        requires
            Self::params_wf(p),
            Self::in_field(a, p),
        ensures
            Self::mul_v(a, Self::one_v(p), p) == a,
    ;

    proof fn lemma_distributive(a: Self::Value, b: Self::Value, c: Self::Value, p: &Self::Params)
        requires
            Self::params_wf(p),
            Self::in_field(a, p),
            Self::in_field(b, p),
            Self::in_field(c, p),
        ensures
            Self::mul_v(a, Self::add_v(b, c, p), p) == Self::add_v(
                Self::mul_v(a, b, p),
                Self::mul_v(a, c, p),
                p,
            ),
    ;

    proof fn lemma_negative_of_negative(a: Self::Value, p: &Self::Params)
        requires
            Self::params_wf(p),
            Self::in_field(a, p),
        ensures
            Self::neg_v(Self::neg_v(a, p), p) == a,
    ;

    proof fn lemma_negative_of_sum(a: Self::Value, b: Self::Value, p: &Self::Params)
        requires
            Self::params_wf(p),
            Self::in_field(a, p),
            Self::in_field(b, p),
        ensures
            Self::neg_v(Self::add_v(a, b, p), p) == Self::add_v(
                Self::neg_v(a, p),
                Self::neg_v(b, p),
                p,
            ),
    ;

    proof fn lemma_mul_zero(a: Self::Value, p: &Self::Params)
        requires
            Self::params_wf(p),
            Self::in_field(a, p),
        ensures
            Self::mul_v(a, Self::zero_v(p), p) == Self::zero_v(p),
    ;

    proof fn lemma_mul_negative(a: Self::Value, b: Self::Value, p: &Self::Params)
        requires
            Self::params_wf(p),
            Self::in_field(a, p),
            Self::in_field(b, p),
        ensures
            Self::mul_v(a, Self::neg_v(b, p), p) == Self::neg_v(Self::mul_v(a, b, p), p),
    ;

    /// Where a value has an inverse, the product of the two is one.
    proof fn lemma_inverse(a: Self::Value, p: &Self::Params)
        requires
            Self::params_wf(p),
            Self::in_field(a, p),
            Self::inv_v(a, p) is Some,
        ensures
            Self::in_field(Self::inv_v(a, p)->0, p),
            Self::mul_v(a, Self::inv_v(a, p)->0, p) == Self::one_v(p),
    ;
}

impl RingLaws for Fp {
    proof fn lemma_zero_one(p: &Modulus) {
    }

    proof fn lemma_closed(a: nat, b: nat, p: &Modulus) {
        let m = p.value() as int;
        lemma_mod_bound((a + b) as int, m);
        lemma_mod_bound(a - b, m);
        lemma_mod_bound(0 - a, m);
        lemma_mod_bound((a * b) as int, m);
    }

    proof fn lemma_add_commutative(a: nat, b: nat, p: &Modulus) {
    }

    proof fn lemma_add_associative(a: nat, b: nat, c: nat, p: &Modulus) {
        let m = p.value() as int;
        lemma_add_mod_noop((a + b) as int, c as int, m);
        lemma_add_mod_noop(a as int, (b + c) as int, m);
        lemma_small_mod(a, p.value());
        lemma_small_mod(c, p.value());
        lemma_mod_bound((a + b) as int, m);
        lemma_mod_bound((b + c) as int, m);
        lemma_small_mod(((a + b) % p.value()) as nat, p.value());
        lemma_small_mod(((b + c) % p.value()) as nat, p.value());
    }

    proof fn lemma_add_zero(a: nat, p: &Modulus) {
        lemma_small_mod(a, p.value());
    }

    proof fn lemma_add_negative(a: nat, p: &Modulus) {
        let m = p.value() as int;
        lemma_add_mod_noop_right(a as int, 0 - a, m);
        lemma_small_mod(0, p.value());
    }

    proof fn lemma_sub_is_add_negative(a: nat, b: nat, p: &Modulus) {
        let m = p.value() as int;
        lemma_add_mod_noop_right(a as int, 0 - b, m);
        lemma_mod_bound(0 - b, m);
    }

    proof fn lemma_mul_commutative(a: nat, b: nat, p: &Modulus) {
        assert(a * b == b * a) by (nonlinear_arith);
    }

    proof fn lemma_mul_associative(a: nat, b: nat, c: nat, p: &Modulus) {
        let m = p.value() as int;
        lemma_mul_mod_noop_left((a * b) as int, c as int, m);
        lemma_mul_mod_noop_right(a as int, (b * c) as int, m);
        lemma_mul_is_associative(a as int, b as int, c as int);
    }

    proof fn lemma_mul_one(a: nat, p: &Modulus) {
        assert(a * 1 == a);
        lemma_small_mod(a, p.value());
    }

    proof fn lemma_distributive(a: nat, b: nat, c: nat, p: &Modulus) {
        let m = p.value() as int;
        lemma_mul_mod_noop_right(a as int, (b + c) as int, m);
        lemma_mul_is_distributive_add(a as int, b as int, c as int);
        lemma_add_mod_noop((a * b) as int, (a * c) as int, m);
    }

    proof fn lemma_negative_of_negative(a: nat, p: &Modulus) {
        let m = p.value() as int;
        lemma_sub_mod_noop(0, 0 - a, m);
        lemma_small_mod(0, p.value());
        lemma_small_mod(a, p.value());
        lemma_mod_bound(0 - a, m);
        lemma_small_mod(((0 - a) % m) as nat, p.value());
    }

    proof fn lemma_negative_of_sum(a: nat, b: nat, p: &Modulus) {
        let m = p.value() as int;
        lemma_add_mod_noop(0 - a, 0 - b, m);
        lemma_sub_mod_noop(0, (a + b) as int, m);
        lemma_small_mod(0, p.value());
        lemma_small_mod((a + b) as nat % p.value(), p.value());
        lemma_mod_bound((a + b) as int, m);
    }

    proof fn lemma_mul_zero(a: nat, p: &Modulus) {
        assert(a * 0 == 0);
        lemma_small_mod(0, p.value());
    }

    proof fn lemma_mul_negative(a: nat, b: nat, p: &Modulus) {
        let m = p.value() as int;
        lemma_mul_mod_noop_right(a as int, 0 - b, m);
        assert(a * (0 - b) == 0 - a * b) by (nonlinear_arith);
        lemma_sub_mod_noop(0, (a * b) as int, m);
        lemma_small_mod(0, p.value());
    }

    proof fn lemma_inverse(a: nat, p: &Modulus) {
        let x = choose|x: nat| is_inverse_mod(a, x, p.value());
        assert(has_inverse_mod(a, p.value()));
    }
}

/// In a prime field, every value but zero has an inverse, and the product of
/// the two is one.
pub proof fn lemma_prime_field_inverse(a: nat, p: &Modulus)
    requires
        p.wf(),
        is_prime(p.value()),
        0 < a < p.value(),
    ensures
        Fp::inv_v(a, p) is Some,
        Fp::mul_v(a, Fp::inv_v(a, p)->0, p) == Fp::one_v(p),
{
    lemma_prime_inverse_exists(a, p.value());
    Fp::lemma_inverse(a, p);
}

/// The operations of the ring `B` give values of the ring, for all its
/// values at once.
pub open spec fn ring_closed<B: Field>(bp: &B::Params) -> bool {
    &&& B::in_field(B::zero_v(bp), bp)
    &&& B::in_field(B::one_v(bp), bp)
    &&& forall|x: B::Value, y: B::Value|
        B::in_field(x, bp) && B::in_field(y, bp) ==> B::in_field(#[trigger] B::add_v(x, y, bp), bp)
    &&& forall|x: B::Value, y: B::Value|
        B::in_field(x, bp) && B::in_field(y, bp) ==> B::in_field(#[trigger] B::sub_v(x, y, bp), bp)
    &&& forall|x: B::Value, y: B::Value|
        B::in_field(x, bp) && B::in_field(y, bp) ==> B::in_field(#[trigger] B::mul_v(x, y, bp), bp)
    &&& forall|x: B::Value| B::in_field(x, bp) ==> B::in_field(#[trigger] B::neg_v(x, bp), bp)
}

/// The operations of a ring that obeys the laws give values of the ring.
pub proof fn lemma_ring_closed<B: RingLaws>(bp: &B::Params)
    requires
        B::params_wf(bp),
    ensures
        ring_closed::<B>(bp),
{
    B::lemma_zero_one(bp);
    assert forall|x: B::Value, y: B::Value| B::in_field(x, bp) && B::in_field(y, bp) implies B::in_field(
        #[trigger] B::add_v(x, y, bp),
        bp,
    ) by {
        B::lemma_closed(x, y, bp);
    }
    assert forall|x: B::Value, y: B::Value| B::in_field(x, bp) && B::in_field(y, bp) implies B::in_field(
        #[trigger] B::sub_v(x, y, bp),
        bp,
    ) by {
        B::lemma_closed(x, y, bp);
    }
    assert forall|x: B::Value, y: B::Value| B::in_field(x, bp) && B::in_field(y, bp) implies B::in_field(
        #[trigger] B::mul_v(x, y, bp),
        bp,
    ) by {
        B::lemma_closed(x, y, bp);
    }
    assert forall|x: B::Value| B::in_field(x, bp) implies B::in_field(
        #[trigger] B::neg_v(x, bp),
        bp,
    ) by {
        B::lemma_closed(x, x, bp);
    }
}

/// The laws of the ring `B`, each for all its values at once.
pub open spec fn ring_laws_hold<B: Field>(bp: &B::Params) -> bool {
    &&& B::in_field(B::zero_v(bp), bp)
    &&& B::in_field(B::one_v(bp), bp)
    &&& forall|x: B::Value, y: B::Value|
        B::in_field(x, bp) && B::in_field(y, bp) ==> B::in_field(#[trigger] B::add_v(x, y, bp), bp)
    &&& forall|x: B::Value, y: B::Value|
        B::in_field(x, bp) && B::in_field(y, bp) ==> B::in_field(#[trigger] B::sub_v(x, y, bp), bp)
    &&& forall|x: B::Value, y: B::Value|
        B::in_field(x, bp) && B::in_field(y, bp) ==> B::in_field(#[trigger] B::mul_v(x, y, bp), bp)
    &&& forall|x: B::Value| B::in_field(x, bp) ==> B::in_field(#[trigger] B::neg_v(x, bp), bp)
    &&& forall|x: B::Value, y: B::Value|
        B::in_field(x, bp) && B::in_field(y, bp) ==> #[trigger] B::add_v(x, y, bp) == B::add_v(
            y,
            x,
            bp,
        )
    &&& forall|x: B::Value, y: B::Value, z: B::Value|
        B::in_field(x, bp) && B::in_field(y, bp) && B::in_field(z, bp) ==> #[trigger] B::add_v(
            B::add_v(x, y, bp),
            z,
            bp,
        ) == B::add_v(x, B::add_v(y, z, bp), bp)
    &&& forall|x: B::Value| B::in_field(x, bp) ==> #[trigger] B::add_v(x, B::zero_v(bp), bp) == x
    &&& forall|x: B::Value|
        B::in_field(x, bp) ==> B::add_v(x, #[trigger] B::neg_v(x, bp), bp) == B::zero_v(bp)
    &&& forall|x: B::Value, y: B::Value|
        B::in_field(x, bp) && B::in_field(y, bp) ==> #[trigger] B::sub_v(x, y, bp) == B::add_v(
            x,
            B::neg_v(y, bp),
            bp,
        )
    &&& forall|x: B::Value, y: B::Value|
        B::in_field(x, bp) && B::in_field(y, bp) ==> #[trigger] B::mul_v(x, y, bp) == B::mul_v(
            y,
            x,
            bp,
        )
    &&& forall|x: B::Value, y: B::Value, z: B::Value|
        B::in_field(x, bp) && B::in_field(y, bp) && B::in_field(z, bp) ==> #[trigger] B::mul_v(
            B::mul_v(x, y, bp),
            z,
            bp,
        ) == B::mul_v(x, B::mul_v(y, z, bp), bp)
    &&& forall|x: B::Value| B::in_field(x, bp) ==> #[trigger] B::mul_v(x, B::one_v(bp), bp) == x
    &&& forall|x: B::Value|
        B::in_field(x, bp) ==> #[trigger] B::mul_v(x, B::zero_v(bp), bp) == B::zero_v(bp)
    &&& forall|x: B::Value, y: B::Value, z: B::Value|
        B::in_field(x, bp) && B::in_field(y, bp) && B::in_field(z, bp) ==> #[trigger] B::mul_v(
            x,
            B::add_v(y, z, bp),
            bp,
        ) == B::add_v(B::mul_v(x, y, bp), B::mul_v(x, z, bp), bp)
    &&& forall|x: B::Value, y: B::Value|
        B::in_field(x, bp) && B::in_field(y, bp) ==> #[trigger] B::mul_v(x, B::neg_v(y, bp), bp)
            == B::neg_v(B::mul_v(x, y, bp), bp)
    &&& forall|x: B::Value, y: B::Value|
        B::in_field(x, bp) && B::in_field(y, bp) ==> #[trigger] B::neg_v(B::add_v(x, y, bp), bp)
            == B::add_v(B::neg_v(x, bp), B::neg_v(y, bp), bp)
}

/// The laws of a ring that obeys them, each for all its values at once.
pub proof fn lemma_ring_laws<B: RingLaws>(bp: &B::Params)
    requires
        B::params_wf(bp),
    ensures
        ring_laws_hold::<B>(bp),
{
    B::lemma_zero_one(bp);
    assert forall|x: B::Value, y: B::Value| B::in_field(x, bp) && B::in_field(y, bp) implies {
        &&& B::in_field(#[trigger] B::add_v(x, y, bp), bp)
        &&& B::add_v(x, y, bp) == B::add_v(y, x, bp)
    } by {
        B::lemma_closed(x, y, bp);
        B::lemma_add_commutative(x, y, bp);
    }
    assert forall|x: B::Value, y: B::Value| B::in_field(x, bp) && B::in_field(y, bp) implies {
        &&& B::in_field(#[trigger] B::sub_v(x, y, bp), bp)
        &&& B::sub_v(x, y, bp) == B::add_v(x, B::neg_v(y, bp), bp)
    } by {
        B::lemma_closed(x, y, bp);
        B::lemma_sub_is_add_negative(x, y, bp);
    }
    assert forall|x: B::Value, y: B::Value| B::in_field(x, bp) && B::in_field(y, bp) implies {
        &&& B::in_field(#[trigger] B::mul_v(x, y, bp), bp)
        &&& B::mul_v(x, y, bp) == B::mul_v(y, x, bp)
    } by {
        B::lemma_closed(x, y, bp);
        B::lemma_mul_commutative(x, y, bp);
    }
    assert forall|x: B::Value| B::in_field(x, bp) implies {
        &&& B::in_field(#[trigger] B::neg_v(x, bp), bp)
        &&& B::add_v(x, B::neg_v(x, bp), bp) == B::zero_v(bp)
    } by {
        B::lemma_closed(x, x, bp);
        B::lemma_add_negative(x, bp);
    }
    assert forall|x: B::Value, y: B::Value, z: B::Value|
        B::in_field(x, bp) && B::in_field(y, bp) && B::in_field(z, bp) implies #[trigger] B::add_v(
        B::add_v(x, y, bp),
        z,
        bp,
    ) == B::add_v(x, B::add_v(y, z, bp), bp) by {
        B::lemma_add_associative(x, y, z, bp);
    }
    assert forall|x: B::Value| B::in_field(x, bp) implies #[trigger] B::add_v(
        x,
        B::zero_v(bp),
        bp,
    ) == x by {
        B::lemma_add_zero(x, bp);
    }
    assert forall|x: B::Value, y: B::Value, z: B::Value|
        B::in_field(x, bp) && B::in_field(y, bp) && B::in_field(z, bp) implies #[trigger] B::mul_v(
        B::mul_v(x, y, bp),
        z,
        bp,
    ) == B::mul_v(x, B::mul_v(y, z, bp), bp) by {
        B::lemma_mul_associative(x, y, z, bp);
    }
    assert forall|x: B::Value| B::in_field(x, bp) implies #[trigger] B::mul_v(
        x,
        B::one_v(bp),
        bp,
    ) == x by {
        B::lemma_mul_one(x, bp);
    }
    assert forall|x: B::Value| B::in_field(x, bp) implies #[trigger] B::mul_v(
        x,
        B::zero_v(bp),
        bp,
    ) == B::zero_v(bp) by {
        B::lemma_mul_zero(x, bp);
    }
    assert forall|x: B::Value, y: B::Value, z: B::Value|
        B::in_field(x, bp) && B::in_field(y, bp) && B::in_field(z, bp) implies #[trigger] B::mul_v(
        x,
        B::add_v(y, z, bp),
        bp,
    ) == B::add_v(B::mul_v(x, y, bp), B::mul_v(x, z, bp), bp) by {
        B::lemma_distributive(x, y, z, bp);
    }
    assert forall|x: B::Value, y: B::Value|
        B::in_field(x, bp) && B::in_field(y, bp) implies #[trigger] B::mul_v(
        x,
        B::neg_v(y, bp),
        bp,
    ) == B::neg_v(B::mul_v(x, y, bp), bp) by {
        B::lemma_mul_negative(x, y, bp);
    }
    assert forall|x: B::Value, y: B::Value|
        B::in_field(x, bp) && B::in_field(y, bp) implies #[trigger] B::neg_v(
        B::add_v(x, y, bp),
        bp,
    ) == B::add_v(B::neg_v(x, bp), B::neg_v(y, bp), bp) by {
        B::lemma_negative_of_sum(x, y, bp);
    }
}

impl<B: RingLaws> RingLaws for QuadExt<B> {
    proof fn lemma_zero_one(p: &QuadParams<B>) {
        B::lemma_zero_one(&p.base);
    }

    proof fn lemma_closed(a: QuadExt<B::Value>, b: QuadExt<B::Value>, p: &QuadParams<B>) {
        lemma_ring_laws::<B>(&p.base);
        p.nonresidue.lemma_wf_in_field(&p.base);
        reveal(quad_add_v);
        reveal(quad_sub_v);
        reveal(quad_neg_v);
        reveal(quad_mul_v);
    }

    proof fn lemma_add_commutative(a: QuadExt<B::Value>, b: QuadExt<B::Value>, p: &QuadParams<B>) {
        lemma_ring_laws::<B>(&p.base);
        reveal(quad_add_v);
    }

    proof fn lemma_add_associative(
        a: QuadExt<B::Value>,
        b: QuadExt<B::Value>,
        c: QuadExt<B::Value>,
        p: &QuadParams<B>,
    ) {
        lemma_ring_laws::<B>(&p.base);
        reveal(quad_add_v);
    }

    proof fn lemma_add_zero(a: QuadExt<B::Value>, p: &QuadParams<B>) {
        lemma_ring_laws::<B>(&p.base);
        reveal(quad_add_v);
    }

    proof fn lemma_add_negative(a: QuadExt<B::Value>, p: &QuadParams<B>) {
        lemma_ring_laws::<B>(&p.base);
        reveal(quad_add_v);
        reveal(quad_neg_v);
    }

    proof fn lemma_sub_is_add_negative(a: QuadExt<B::Value>, b: QuadExt<B::Value>, p: &QuadParams<B>) {
        lemma_ring_laws::<B>(&p.base);
        reveal(quad_add_v);
        reveal(quad_sub_v);
        reveal(quad_neg_v);
    }

    proof fn lemma_mul_commutative(a: QuadExt<B::Value>, b: QuadExt<B::Value>, p: &QuadParams<B>) {
        lemma_ring_laws::<B>(&p.base);
        p.nonresidue.lemma_wf_in_field(&p.base);
        reveal(quad_mul_v);
    }

    proof fn lemma_mul_associative(
        a: QuadExt<B::Value>,
        b: QuadExt<B::Value>,
        c: QuadExt<B::Value>,
        p: &QuadParams<B>,
    ) {
        lemma_ring_laws::<B>(&p.base);
        p.nonresidue.lemma_wf_in_field(&p.base);
        reveal(quad_mul_v);
    }

    proof fn lemma_mul_one(a: QuadExt<B::Value>, p: &QuadParams<B>) {
        lemma_ring_laws::<B>(&p.base);
        p.nonresidue.lemma_wf_in_field(&p.base);
        reveal(quad_mul_v);
    }

    proof fn lemma_distributive(
        a: QuadExt<B::Value>,
        b: QuadExt<B::Value>,
        c: QuadExt<B::Value>,
        p: &QuadParams<B>,
    ) {
        lemma_ring_laws::<B>(&p.base);
        p.nonresidue.lemma_wf_in_field(&p.base);
        reveal(quad_mul_v);
        reveal(quad_add_v);
    }

    proof fn lemma_negative_of_negative(a: QuadExt<B::Value>, p: &QuadParams<B>) {
        reveal(quad_neg_v);
        B::lemma_negative_of_negative(a.c0, &p.base);
        B::lemma_negative_of_negative(a.c1, &p.base);
    }

    proof fn lemma_negative_of_sum(a: QuadExt<B::Value>, b: QuadExt<B::Value>, p: &QuadParams<B>) {
        lemma_ring_laws::<B>(&p.base);
        reveal(quad_add_v);
        reveal(quad_neg_v);
    }

    proof fn lemma_mul_zero(a: QuadExt<B::Value>, p: &QuadParams<B>) {
        lemma_ring_laws::<B>(&p.base);
        p.nonresidue.lemma_wf_in_field(&p.base);
        reveal(quad_mul_v);
    }

    proof fn lemma_mul_negative(a: QuadExt<B::Value>, b: QuadExt<B::Value>, p: &QuadParams<B>) {
        lemma_ring_laws::<B>(&p.base);
        p.nonresidue.lemma_wf_in_field(&p.base);
        reveal(quad_mul_v);
        reveal(quad_neg_v);
    }

    proof fn lemma_inverse(a: QuadExt<B::Value>, p: &QuadParams<B>) {
        lemma_ring_laws::<B>(&p.base);
        p.nonresidue.lemma_wf_in_field(&p.base);
        reveal(quad_mul_v);
        reveal(quad_inv_v);
        B::lemma_inverse(QuadExt::<B>::norm_v(a, p), &p.base);
    }
}

impl<B: RingLaws> RingLaws for CubicExt<B> {
    proof fn lemma_zero_one(p: &CubicParams<B>) {
        B::lemma_zero_one(&p.base);
    }

    proof fn lemma_closed(a: CubicExt<B::Value>, b: CubicExt<B::Value>, p: &CubicParams<B>) {
        lemma_ring_laws::<B>(&p.base);
        p.nonresidue.lemma_wf_in_field(&p.base);
        reveal(cubic_add_v);
        reveal(cubic_sub_v);
        reveal(cubic_neg_v);
        reveal(cubic_mul_v);
    }

    proof fn lemma_add_commutative(a: CubicExt<B::Value>, b: CubicExt<B::Value>, p: &CubicParams<B>) {
        lemma_ring_laws::<B>(&p.base);
        reveal(cubic_add_v);
    }

    proof fn lemma_add_associative(
        a: CubicExt<B::Value>,
        b: CubicExt<B::Value>,
        c: CubicExt<B::Value>,
        p: &CubicParams<B>,
    ) {
        lemma_ring_laws::<B>(&p.base);
        reveal(cubic_add_v);
    }

    proof fn lemma_add_zero(a: CubicExt<B::Value>, p: &CubicParams<B>) {
        lemma_ring_laws::<B>(&p.base);
        reveal(cubic_add_v);
    }

    proof fn lemma_add_negative(a: CubicExt<B::Value>, p: &CubicParams<B>) {
        lemma_ring_laws::<B>(&p.base);
        reveal(cubic_add_v);
        reveal(cubic_neg_v);
    }

    proof fn lemma_sub_is_add_negative(a: CubicExt<B::Value>, b: CubicExt<B::Value>, p: &CubicParams<B>) {
        lemma_ring_laws::<B>(&p.base);
        reveal(cubic_add_v);
        reveal(cubic_sub_v);
        reveal(cubic_neg_v);
    }

    proof fn lemma_mul_commutative(a: CubicExt<B::Value>, b: CubicExt<B::Value>, p: &CubicParams<B>) {
        lemma_ring_laws::<B>(&p.base);
        p.nonresidue.lemma_wf_in_field(&p.base);
        reveal(cubic_mul_v);
    }

    proof fn lemma_mul_associative(
        a: CubicExt<B::Value>,
        b: CubicExt<B::Value>,
        c: CubicExt<B::Value>,
        p: &CubicParams<B>,
    ) {
        lemma_ring_laws::<B>(&p.base);
        p.nonresidue.lemma_wf_in_field(&p.base);
        reveal(cubic_mul_v);
    }

    proof fn lemma_mul_one(a: CubicExt<B::Value>, p: &CubicParams<B>) {
        lemma_ring_laws::<B>(&p.base);
        p.nonresidue.lemma_wf_in_field(&p.base);
        reveal(cubic_mul_v);
    }

    proof fn lemma_distributive(
        a: CubicExt<B::Value>,
        b: CubicExt<B::Value>,
        c: CubicExt<B::Value>,
        p: &CubicParams<B>,
    ) {
        lemma_ring_laws::<B>(&p.base);
        p.nonresidue.lemma_wf_in_field(&p.base);
        reveal(cubic_mul_v);
        reveal(cubic_add_v);
    }

    proof fn lemma_negative_of_negative(a: CubicExt<B::Value>, p: &CubicParams<B>) {
        reveal(cubic_neg_v);
        B::lemma_negative_of_negative(a.c0, &p.base);
        B::lemma_negative_of_negative(a.c1, &p.base);
        B::lemma_negative_of_negative(a.c2, &p.base);
    }

    proof fn lemma_negative_of_sum(a: CubicExt<B::Value>, b: CubicExt<B::Value>, p: &CubicParams<B>) {
        lemma_ring_laws::<B>(&p.base);
        reveal(cubic_add_v);
        reveal(cubic_neg_v);
    }

    proof fn lemma_mul_zero(a: CubicExt<B::Value>, p: &CubicParams<B>) {
        lemma_ring_laws::<B>(&p.base);
        p.nonresidue.lemma_wf_in_field(&p.base);
        reveal(cubic_mul_v);
    }

    proof fn lemma_mul_negative(a: CubicExt<B::Value>, b: CubicExt<B::Value>, p: &CubicParams<B>) {
        lemma_ring_laws::<B>(&p.base);
        p.nonresidue.lemma_wf_in_field(&p.base);
        reveal(cubic_mul_v);
        reveal(cubic_neg_v);
    }

    proof fn lemma_inverse(a: CubicExt<B::Value>, p: &CubicParams<B>) {
        lemma_ring_laws::<B>(&p.base);
        p.nonresidue.lemma_wf_in_field(&p.base);
        reveal(cubic_mul_v);
        reveal(cubic_inv_v);
        B::lemma_inverse(CubicExt::<B>::norm_v(a, p), &p.base);
    }
}

} // verus!

//! Towers in which a quadratic extension stands on a cubic one and takes
//! its Frobenius coefficients from the field below that: when the table of
//! the quadratic extension is consistent.

use vstd::prelude::*;
use vstd::arithmetic::div_mod::lemma_small_mod;
use crate::fields::cubic::{cubic_frobenius_v, cubic_mul_v, CubicExt, CubicParams};
use crate::fields::field::Field;
use crate::fields::frobenius::{quad_table_consistent, FrobeniusLaws};
use crate::fields::laws::RingLaws;
use crate::fields::quadratic::{QuadExt, QuadParams};

verus! {

/// The element `a` of the base field as an element of its cubic extension.
pub open spec fn embed_v<B: Field>(a: B::Value, bp: &B::Params) -> CubicExt<B::Value> {
    CubicExt { c0: a, c1: B::zero_v(bp), c2: B::zero_v(bp) }
}

/// The generator `X` of a cubic extension.
pub open spec fn cubic_generator_v<B: Field>(bp: &B::Params) -> CubicExt<B::Value> {
    CubicExt { c0: B::zero_v(bp), c1: B::one_v(bp), c2: B::zero_v(bp) }
}

/// What zero and one do to a value `x` of a ring.
pub proof fn lemma_zero_one_facts<B: RingLaws>(x: B::Value, bp: &B::Params)
    requires
        B::params_wf(bp),
        B::in_field(x, bp),
    ensures
        B::mul_v(x, B::zero_v(bp), bp) == B::zero_v(bp),
        B::mul_v(B::zero_v(bp), x, bp) == B::zero_v(bp),
        B::add_v(x, B::zero_v(bp), bp) == x,
        B::add_v(B::zero_v(bp), x, bp) == x,
        B::mul_v(x, B::one_v(bp), bp) == x,
        B::mul_v(B::one_v(bp), x, bp) == x,
{
    B::lemma_zero_one(bp);
    B::lemma_mul_zero(x, bp);
    B::lemma_mul_commutative(x, B::zero_v(bp), bp);
    B::lemma_add_zero(x, bp);
    B::lemma_add_commutative(x, B::zero_v(bp), bp);
    B::lemma_mul_one(x, bp);
    B::lemma_mul_commutative(x, B::one_v(bp), bp);
}

/// Products and Frobenius images of elements of the base field are taken in
/// the base field.
pub proof fn lemma_embedded<B: FrobeniusLaws>(a: B::Value, b: B::Value, p: &CubicParams<B>)
    requires
        CubicExt::<B>::params_wf(p),
        B::in_field(a, &p.base),
        B::in_field(b, &p.base),
    ensures
        CubicExt::<B>::mul_v(embed_v::<B>(a, &p.base), embed_v::<B>(b, &p.base), p) == embed_v::<B>(
            B::mul_v(a, b, &p.base),
            &p.base,
        ),
        CubicExt::<B>::frobenius_v(embed_v::<B>(a, &p.base), 1, p) == embed_v::<B>(
            B::frobenius_v(a, 1, &p.base),
            &p.base,
        ),
        CubicExt::<B>::mul_v(cubic_generator_v::<B>(&p.base), embed_v::<B>(a, &p.base), p) == (
        CubicExt { c0: B::zero_v(&p.base), c1: a, c2: B::zero_v(&p.base) }),
        CubicExt::<B>::in_field(embed_v::<B>(a, &p.base), p),
{
    let bp = &p.base;
    let z = B::zero_v(bp);
    let n = p.nonresidue.value();
    p.nonresidue.lemma_wf_in_field(bp);
    B::lemma_zero_one(bp);
    B::lemma_closed(a, b, bp);
    lemma_zero_one_facts::<B>(a, bp);
    lemma_zero_one_facts::<B>(b, bp);
    lemma_zero_one_facts::<B>(n, bp);
    lemma_zero_one_facts::<B>(z, bp);
    lemma_zero_one_facts::<B>(B::one_v(bp), bp);
    lemma_zero_one_facts::<B>(B::mul_v(a, b, bp), bp);
    assert(CubicExt::<B>::mul_v(embed_v::<B>(a, bp), embed_v::<B>(b, bp), p) == embed_v::<B>(
        B::mul_v(a, b, bp),
        bp,
    )) by {
        reveal(cubic_mul_v);
    }
    assert(CubicExt::<B>::mul_v(cubic_generator_v::<B>(bp), embed_v::<B>(a, bp), p) == (CubicExt {
        c0: z,
        c1: a,
        c2: z,
    })) by {
        reveal(cubic_mul_v);
    }
    let i1 = (1nat % p.frobenius_c1@.len()) as int;
    let i2 = (1nat % p.frobenius_c2@.len()) as int;
    p.frobenius_c1@[i1].lemma_wf_in_field(bp);
    p.frobenius_c2@[i2].lemma_wf_in_field(bp);
    lemma_zero_one_facts::<B>(p.frobenius_c1@[i1].value(), bp);
    lemma_zero_one_facts::<B>(p.frobenius_c2@[i2].value(), bp);
    B::lemma_frobenius_zero_one(1, bp);
    assert(CubicExt::<B>::frobenius_v(embed_v::<B>(a, bp), 1, p) == embed_v::<B>(
        B::frobenius_v(a, 1, bp),
        bp,
    )) by {
        reveal(cubic_frobenius_v);
    }
}

/// The Frobenius image of the generator of a cubic extension is the
/// generator times the coefficient of the first table.
pub proof fn lemma_generator_image<B: FrobeniusLaws>(p: &CubicParams<B>)
    requires
        CubicExt::<B>::params_wf(p),
        p.frobenius_c1@.len() > 1,
    ensures
        CubicExt::<B>::frobenius_v(cubic_generator_v::<B>(&p.base), 1, p) == (CubicExt {
            c0: B::zero_v(&p.base),
            c1: p.frobenius_c1@[1].value(),
            c2: B::zero_v(&p.base),
        }),
{
    let bp = &p.base;
    B::lemma_zero_one(bp);
    B::lemma_frobenius_zero_one(1, bp);
    assert((1nat % p.frobenius_c1@.len()) as int == 1) by {
        lemma_small_mod(1, p.frobenius_c1@.len());
    }
    let i2 = (1nat % p.frobenius_c2@.len()) as int;
    p.frobenius_c1@[1].lemma_wf_in_field(bp);
    p.frobenius_c2@[i2].lemma_wf_in_field(bp);
    lemma_zero_one_facts::<B>(p.frobenius_c1@[1].value(), bp);
    lemma_zero_one_facts::<B>(p.frobenius_c2@[i2].value(), bp);
    reveal(cubic_frobenius_v);
}

/// The table of a quadratic extension of a cubic extension is consistent
/// where its non-residue is the generator of the cubic extension, its
/// coefficients are the elements `c` of the field below the cubic extension,
/// and these fit each other and the first table of the cubic extension.
pub proof fn lemma_quad_over_cubic_consistent<B: FrobeniusLaws>(
    p: &QuadParams<CubicExt<B>>,
    c: Seq<B::Value>,
)
    requires
        QuadExt::<CubicExt<B>>::params_wf(p),
        CubicExt::<B>::tables_consistent(&p.base),
        p.nonresidue.value() == cubic_generator_v::<B>(&p.base.base),
        p.frobenius@.len() == 6 * B::degree(&p.base.base),
        c.len() == p.frobenius@.len(),
        forall|k: int|
            0 <= k < c.len() ==> B::in_field(#[trigger] c[k], &p.base.base) && p.frobenius@[k].value()
                == embed_v::<B>(c[k], &p.base.base),
        c[0] == B::one_v(&p.base.base),
        forall|k: int|
            0 <= k < c.len() ==> #[trigger] c[(k + 1) % (c.len() as int)] == B::mul_v(
                B::frobenius_v(c[k], 1, &p.base.base),
                c[1],
                &p.base.base,
            ),
        p.base.frobenius_c1@[1].value() == B::mul_v(c[1], c[1], &p.base.base),
    ensures
        quad_table_consistent::<CubicExt<B>>(p),
{
    let bp = &p.base.base;
    let d = c.len() as int;
    B::lemma_degree_positive(bp);
    assert(B::in_field(c[1], bp));
    assert(p.frobenius@[1].value() == embed_v::<B>(c[1], bp));
    assert(p.frobenius@[0].value() == embed_v::<B>(c[0], bp));
    assert forall|k: int| 0 <= k < d implies (#[trigger] p.frobenius@[(k + 1) % d]).value()
        == CubicExt::<B>::mul_v(
        CubicExt::<B>::frobenius_v(p.frobenius@[k].value(), 1, &p.base),
        p.frobenius@[1].value(),
        &p.base,
    ) by {
        assert(B::in_field(c[k], bp));
        assert(p.frobenius@[k].value() == embed_v::<B>(c[k], bp));
        let next = (k + 1) % d;
        assert(0 <= next < d);
        assert(p.frobenius@[next].value() == embed_v::<B>(c[next], bp));
        B::lemma_frobenius_in_field(c[k], 1, bp);
        lemma_embedded::<B>(c[k], c[1], &p.base);
        lemma_embedded::<B>(B::frobenius_v(c[k], 1, bp), c[1], &p.base);
        assert(c[next] == B::mul_v(B::frobenius_v(c[k], 1, bp), c[1], bp));
    }
    // the image of the generator
    lemma_embedded::<B>(c[1], c[1], &p.base);
    B::lemma_closed(c[1], c[1], bp);
    lemma_embedded::<B>(B::mul_v(c[1], c[1], bp), c[1], &p.base);
    lemma_generator_image::<B>(&p.base);
}

} // verus!

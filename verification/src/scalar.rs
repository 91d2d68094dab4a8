//! The numbers that the geometry computes with.
//!
//! Every vector, vertex and triangle of this crate is generic over its number
//! type. A number type is anything that can be copied, added, subtracted,
//! multiplied, divided, negated, compared and made from a small integer.
//! Contracts speak of the results through what the verifier knows of each
//! operator: `a.add_spec(b)` is the sum that `a + b` returns, and
//! `a.add_req(b)` says that this sum exists.
//!
//! Every function that computes asks for [`exact`], and those whose result
//! rests on the laws of arithmetic ask for [`lawful`]. Where a function
//! divides, it also asks that the division leaves no remainder
//! ([`divides_exactly`]): a division that cuts the quotient to a whole
//! number is not admitted, because what comes out of it is not the point
//! on the plane or the weight in the triangle that the function is for.
//!
//! The verifier knows the operators of the signed whole numbers, so the
//! contracts can be met there, on inputs that divide without remainder. Of
//! the floating-point numbers it knows nothing: no caller can show that
//! they are `exact`, so no contract of this crate can be relied on for
//! them. The code runs on them all the same.
use core::cmp::Ordering;
use core::ops::{Add, Div, Mul, Neg, Sub};
use vstd::prelude::*;
use vstd::std_specs::cmp::PartialOrdSpec;
use vstd::std_specs::convert::FromSpec;
use vstd::std_specs::ops::{AddSpec, DivSpec, MulSpec, NegSpec, SubSpec};

verus! {

/// A number type that the geometry can compute with.
pub trait Scalar: Copy + Add<Output = Self> + Sub<Output = Self> + Mul<Output = Self> + Div<
    Output = Self,
> + Neg<Output = Self> + PartialOrd + From<i8> {

}

impl<T> Scalar for T where
    T: Copy + Add<Output = T> + Sub<Output = T> + Mul<Output = T> + Div<Output = T> + Neg<
        Output = T,
    > + PartialOrd + From<i8>,
 {
}

/// The comparison operators of `S` return what the verifier knows of them.
pub open spec fn ordered<S: Scalar>() -> bool {
    S::obeys_partial_cmp_spec()
}

/// Every operator of `S` returns what its `_spec` function says, and so does
/// the conversion from a small integer.
pub open spec fn exact<S: Scalar>() -> bool {
    &&& S::obeys_add_spec()
    &&& S::obeys_sub_spec()
    &&& S::obeys_mul_spec()
    &&& S::obeys_div_spec()
    &&& S::obeys_neg_spec()
    &&& S::obeys_from_spec()
    &&& ordered::<S>()
}

/// `a < b`.
pub open spec fn less<S: Scalar>(a: S, b: S) -> bool {
    a.partial_cmp_spec(&b) == Some(Ordering::Less)
}

/// `a > b`.
pub open spec fn greater<S: Scalar>(a: S, b: S) -> bool {
    a.partial_cmp_spec(&b) == Some(Ordering::Greater)
}

/// `a >= b`.
pub open spec fn at_least<S: Scalar>(a: S, b: S) -> bool {
    a.partial_cmp_spec(&b) == Some(Ordering::Greater) || a.partial_cmp_spec(&b) == Some(
        Ordering::Equal,
    )
}

/// The number zero.
pub open spec fn spec_zero<S: Scalar>() -> S {
    S::from_spec(0i8)
}

/// The number one.
pub open spec fn spec_one<S: Scalar>() -> S {
    S::from_spec(1i8)
}

/// `a` is strictly below or strictly above zero.
pub open spec fn nonzero<S: Scalar>(a: S) -> bool {
    less(a, spec_zero::<S>()) || less(spec_zero::<S>(), a)
}

/// `a / b` leaves no remainder: the quotient exists, and the divisor times
/// the quotient is the dividend.
pub open spec fn divides_exactly<S: Scalar>(a: S, b: S) -> bool {
    &&& a.div_req(b)
    &&& b.mul_req(a.div_spec(b))
    &&& b.mul_spec(a.div_spec(b)) == a
}

/// Marks a number for which a law is called upon. The laws below hold of
/// all numbers, but the verifier applies one only where a proof names the
/// numbers it is wanted for.
pub open spec fn for_one<S: Scalar>(a: S) -> bool {
    true
}

/// Marks two numbers for which a law is called upon.
pub open spec fn for_two<S: Scalar>(a: S, b: S) -> bool {
    true
}

/// Marks three numbers for which a law is called upon.
pub open spec fn for_three<S: Scalar>(a: S, b: S, c: S) -> bool {
    true
}

/// No number is below itself.
pub open spec fn law_irreflexive<S: Scalar>() -> bool {
    forall|a: S| !#[trigger] less(a, a)
}

/// A number and its negative add to zero.
pub open spec fn law_negation<S: Scalar>() -> bool {
    forall|a: S| #[trigger]
        for_one(a) ==> (a.neg_req() ==> a.add_req(a.neg_spec()) && a.add_spec(a.neg_spec())
            == spec_zero::<S>())
}

/// A sum does not depend on the order of its terms.
pub open spec fn law_add_commutes<S: Scalar>() -> bool {
    forall|a: S, b: S| #[trigger]
        for_two(a, b) ==> (a.add_req(b) ==> b.add_req(a) && a.add_spec(b) == b.add_spec(a))
}

/// A sum of three does not depend on which two are added first.
pub open spec fn law_add_associates<S: Scalar>() -> bool {
    forall|a: S, b: S, c: S| #[trigger]
        for_three(a, b, c) ==> (a.add_req(b) && b.add_req(c) && a.add_spec(b).add_req(c)
            ==> a.add_req(b.add_spec(c)) && a.add_spec(b).add_spec(c) == a.add_spec(
            b.add_spec(c),
        ))
}

/// Adding what was subtracted gives the number back.
pub open spec fn law_subtraction<S: Scalar>() -> bool {
    forall|a: S, b: S| #[trigger]
        for_two(a, b) ==> (a.sub_req(b) ==> a.sub_spec(b).add_req(b) && a.sub_spec(b).add_spec(b)
            == a)
}

/// A product does not depend on the order of its factors.
pub open spec fn law_mul_commutes<S: Scalar>() -> bool {
    forall|a: S, b: S| #[trigger]
        for_two(a, b) ==> (a.mul_req(b) ==> b.mul_req(a) && a.mul_spec(b) == b.mul_spec(a))
}

/// A product of three does not depend on which two are multiplied first.
pub open spec fn law_mul_associates<S: Scalar>() -> bool {
    forall|a: S, b: S, c: S| #[trigger]
        for_three(a, b, c) ==> (a.mul_req(b) && b.mul_req(c) && a.mul_spec(b).mul_req(c)
            ==> a.mul_req(b.mul_spec(c)) && a.mul_spec(b).mul_spec(c) == a.mul_spec(
            b.mul_spec(c),
        ))
}

/// A number times one is the number.
pub open spec fn law_mul_one<S: Scalar>() -> bool {
    forall|a: S| #[trigger]
        for_one(a) ==> a.mul_req(spec_one::<S>()) && a.mul_spec(spec_one::<S>()) == a
}

/// A difference times a number is the difference of the products.
pub open spec fn law_distributes<S: Scalar>() -> bool {
    forall|a: S, b: S, c: S| #[trigger]
        for_three(a, b, c) ==> (a.sub_req(b) && a.mul_req(c) && b.mul_req(c) && a.sub_spec(
            b,
        ).mul_req(c) ==> a.mul_spec(c).sub_req(b.mul_spec(c)) && a.sub_spec(b).mul_spec(c)
            == a.mul_spec(c).sub_spec(b.mul_spec(c)))
}

/// A product with a positive factor has the sign of the other factor; a
/// product with a negative factor has the opposite sign.
pub open spec fn law_sign_of_product<S: Scalar>() -> bool {
    forall|a: S, b: S| #[trigger]
        for_two(a, b) ==> (a.mul_req(b) ==> {
            &&& less(spec_zero::<S>(), b) ==> (at_least(a, spec_zero::<S>()) <==> at_least(
                a.mul_spec(b),
                spec_zero::<S>(),
            ))
            &&& less(b, spec_zero::<S>()) ==> (at_least(a, spec_zero::<S>()) <==> at_least(
                spec_zero::<S>(),
                a.mul_spec(b),
            ))
        })
}

/// The operators of `S` are exact and obey the laws of arithmetic that the
/// geometry rests on, wherever their results exist.
pub open spec fn lawful<S: Scalar>() -> bool {
    &&& exact::<S>()
    &&& law_irreflexive::<S>()
    &&& law_negation::<S>()
    &&& law_add_commutes::<S>()
    &&& law_add_associates::<S>()
    &&& law_subtraction::<S>()
    &&& law_mul_commutes::<S>()
    &&& law_mul_associates::<S>()
    &&& law_mul_one::<S>()
    &&& law_distributes::<S>()
    &&& law_sign_of_product::<S>()
}

/// The 64-bit whole numbers are lawful.
pub proof fn lemma_whole_numbers_are_lawful()
    ensures
        lawful::<i64>(),
{
    assert forall|a: i64, b: i64| #[trigger] for_two(a, b) implies (a.mul_req(b) ==> b.mul_req(a)
        && a.mul_spec(b) == b.mul_spec(a)) by {
        assert(a * b == b * a) by (nonlinear_arith);
    }
    assert forall|a: i64, b: i64, c: i64| #[trigger] for_three(a, b, c) implies (a.mul_req(b)
        && b.mul_req(c) && a.mul_spec(b).mul_req(c) ==> a.mul_req(b.mul_spec(c)) && a.mul_spec(
        b,
    ).mul_spec(c) == a.mul_spec(b.mul_spec(c))) by {
        assert((a * b) * c == a * (b * c)) by (nonlinear_arith);
    }
    assert forall|a: i64, b: i64, c: i64| #[trigger] for_three(a, b, c) implies (a.sub_req(b)
        && a.mul_req(c) && b.mul_req(c) && a.sub_spec(b).mul_req(c) ==> a.mul_spec(c).sub_req(
        b.mul_spec(c),
    ) && a.sub_spec(b).mul_spec(c) == a.mul_spec(c).sub_spec(b.mul_spec(c))) by {
        assert((a - b) * c == a * c - b * c) by (nonlinear_arith);
    }
    assert forall|a: i64| #[trigger] for_one(a) implies a.mul_req(spec_one::<i64>())
        && a.mul_spec(spec_one::<i64>()) == a by {
        assert(a * 1 == a) by (nonlinear_arith);
    }
    assert forall|a: i64, b: i64| #[trigger] for_two(a, b) implies (a.mul_req(b) ==> {
        &&& less(spec_zero::<i64>(), b) ==> (at_least(a, spec_zero::<i64>()) <==> at_least(
            a.mul_spec(b),
            spec_zero::<i64>(),
        ))
        &&& less(b, spec_zero::<i64>()) ==> (at_least(a, spec_zero::<i64>()) <==> at_least(
            spec_zero::<i64>(),
            a.mul_spec(b),
        ))
    }) by {
        assert(b > 0 ==> (a >= 0 <==> a * b >= 0)) by (nonlinear_arith);
        assert(b < 0 ==> (a >= 0 <==> 0 >= a * b)) by (nonlinear_arith);
    }
}

/// The number zero.
pub fn zero<S: Scalar>() -> (r: S)
    ensures
        S::obeys_from_spec() ==> r == spec_zero::<S>(),
{
    S::from(0i8)
}

/// The number one.
pub fn one<S: Scalar>() -> (r: S)
    ensures
        S::obeys_from_spec() ==> r == spec_one::<S>(),
{
    S::from(1i8)
}

/// Whether `a` is strictly below or strictly above zero.
pub fn is_nonzero<S: Scalar>(a: S) -> (r: bool)
    ensures
        exact::<S>() ==> r == nonzero(a),
{
    let z: S = zero();
    a < z || z < a
}

} // verus!

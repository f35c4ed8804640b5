//! The numeric operations that the library needs and does not compute itself.
use crate::input_processing::dual_axis::CustomStage;
use crate::scalar::Scalar;
use crate::scalar::ScalarPair;
use vstd::prelude::*;

verus! {

/// Arithmetic on scalars and pairs, supplied by the embedding application.
///
/// The library compares values, flips signs and decides which case a value
/// falls under. Where a result takes a sum, a difference, a product, a
/// quotient or a root, it asks an implementation of this trait, and its
/// contracts say which operation was asked for which arguments. Nothing is
/// assumed of what an implementation computes.
pub trait Arithmetic {
    /// The sum of two scalars.
    fn sum(&self, a: Scalar, b: Scalar) -> Scalar;

    /// The first scalar less the second.
    fn difference(&self, a: Scalar, b: Scalar) -> Scalar;

    /// The product of two scalars.
    fn multiply(&self, factor: Scalar, value: Scalar) -> Scalar;

    /// The first scalar divided by the second.
    fn quotient(&self, a: Scalar, b: Scalar) -> Scalar;

    /// The length of a pair.
    fn length(&self, value: ScalarPair) -> Scalar;

    /// The pair that points where `value` points and has the given `length`.
    fn resize(&self, value: ScalarPair, length: Scalar) -> ScalarPair;

    /// What the custom stage behind the handle `stage` gives for `value`.
    fn custom(&self, stage: CustomStage, value: ScalarPair) -> ScalarPair;
}

/// Whether `output` is the share of the way from `from` to `to` that
/// `value` has gone: `value` less `from`, divided by `to` less `from`.
pub open spec fn is_share<A: Arithmetic>(
    arithmetic: &A,
    from: Scalar,
    to: Scalar,
    value: Scalar,
    output: Scalar,
) -> bool {
    exists|gone: Scalar, whole: Scalar|
        {
            &&& call_ensures(A::difference, (arithmetic, value, from), gone)
            &&& call_ensures(A::difference, (arithmetic, to, from), whole)
            &&& #[trigger] call_ensures(A::quotient, (arithmetic, gone, whole), output)
        }
}

/// Whether the difference and the quotient of this arithmetic keep the
/// order of the values between zero and one, as exact arithmetic does.
///
/// Taking the same value off two values between it and one gives
/// differences that are not below zero and in the order of the two values.
/// Taking a value off a greater one gives a difference above zero. Dividing
/// a value that is not below zero by a greater divisor gives no more than
/// dividing a greater value by a smaller divisor, and the quotient lies
/// between zero and one where the divisor is not below the value.
pub open spec fn keeps_order<A: Arithmetic>(arithmetic: &A) -> bool {
    &&& forall|m: Scalar, a: Scalar, c: Scalar, da: Scalar, dc: Scalar|
        (Scalar { bits: 0 }).le(m) && m.le(a) && a.le(c) && c.le(Scalar { bits: 0x3f80_0000 })
            && #[trigger] call_ensures(A::difference, (arithmetic, a, m), da)
            && #[trigger] call_ensures(A::difference, (arithmetic, c, m), dc) ==> (Scalar {
            bits: 0,
        }).le(da) && da.le(dc)
    &&& forall|m: Scalar, a: Scalar, d: Scalar|
        (Scalar { bits: 0 }).le(m) && m.lt(a) && a.le(Scalar { bits: 0x3f80_0000 })
            && #[trigger] call_ensures(A::difference, (arithmetic, a, m), d) ==> (Scalar {
            bits: 0,
        }).lt(d)
    &&& forall|p: Scalar, q: Scalar, d: Scalar, e: Scalar, x: Scalar, y: Scalar|
        (Scalar { bits: 0 }).le(p) && p.le(q) && q.le(e) && e.le(d) && (Scalar { bits: 0 }).lt(e)
            && #[trigger] call_ensures(A::quotient, (arithmetic, p, d), x)
            && #[trigger] call_ensures(A::quotient, (arithmetic, q, e), y) ==> (Scalar {
            bits: 0,
        }).le(x) && x.le(y) && y.le(Scalar { bits: 0x3f80_0000 })
}

/// With an arithmetic that keeps the order, the share of the way from
/// `from` to one rises with the value and stays between zero and one.
pub proof fn lemma_share_rises<A: Arithmetic>(
    arithmetic: &A,
    from: Scalar,
    low: Scalar,
    high: Scalar,
    low_share: Scalar,
    high_share: Scalar,
)
    requires
        keeps_order(arithmetic),
        (Scalar { bits: 0 }).le(from),
        from.lt(low),
        low.le(high),
        high.lt(Scalar { bits: 0x3f80_0000 }),
        is_share(arithmetic, from, Scalar { bits: 0x3f80_0000 }, low, low_share),
        is_share(arithmetic, from, Scalar { bits: 0x3f80_0000 }, high, high_share),
    ensures
        (Scalar { bits: 0 }).le(low_share),
        low_share.le(high_share),
        high_share.le(Scalar { bits: 0x3f80_0000 }),
{
    let one = Scalar { bits: 0x3f80_0000 };
    let (low_gone, low_whole) = choose|gone: Scalar, whole: Scalar|
        {
            &&& call_ensures(A::difference, (arithmetic, low, from), gone)
            &&& call_ensures(A::difference, (arithmetic, one, from), whole)
            &&& #[trigger] call_ensures(A::quotient, (arithmetic, gone, whole), low_share)
        };
    let (high_gone, high_whole) = choose|gone: Scalar, whole: Scalar|
        {
            &&& call_ensures(A::difference, (arithmetic, high, from), gone)
            &&& call_ensures(A::difference, (arithmetic, one, from), whole)
            &&& #[trigger] call_ensures(A::quotient, (arithmetic, gone, whole), high_share)
        };
    assert(one.le(one)) by {
        Scalar::lemma_unit_values();
    }
    assert(from.lt(one));
    assert((Scalar { bits: 0 }).le(low_gone) && low_gone.le(high_gone));
    assert(high_gone.le(high_whole));
    assert(high_whole.le(low_whole) && low_whole.le(high_whole));
    assert((Scalar { bits: 0 }).lt(high_whole));
}

/// The share of the way from `from` to `to` that `value` has gone.
pub fn share<A: Arithmetic>(from: Scalar, to: Scalar, value: Scalar, arithmetic: &A) -> (r: Scalar)
    ensures
        is_share(arithmetic, from, to, value, r),
{
    let gone = arithmetic.difference(value, from);
    let whole = arithmetic.difference(to, from);
    arithmetic.quotient(gone, whole)
}

} // verus!

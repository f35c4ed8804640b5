//! Stages that work on the magnitude of a value, within a circle.
use crate::arithmetic::is_share;
use crate::arithmetic::share;
use crate::arithmetic::Arithmetic;
use crate::scalar::Scalar;
use crate::scalar::ScalarPair;
use vstd::prelude::*;

verus! {

/// Restricts the magnitude to at most `radius`, keeping the direction.
#[derive(Debug, Clone, Copy, PartialEq, Eq, Hash)]
pub struct CircleBounds {
    pub radius: Scalar,
}

/// Zeroes values whose magnitude is at most `radius`; other values pass unscaled.
#[derive(Debug, Clone, Copy, PartialEq, Eq, Hash)]
pub struct CircleExclusion {
    pub radius: Scalar,
}

/// Zeroes values whose magnitude is at most `radius` and rescales the rest
/// into the live zone.
#[derive(Debug, Clone, Copy, PartialEq, Eq, Hash)]
pub struct CircleDeadZone {
    pub radius: Scalar,
}

/// The pair of two positive zeroes.
pub open spec fn origin() -> ScalarPair {
    ScalarPair { x: Scalar { bits: 0 }, y: Scalar { bits: 0 } }
}

impl CircleBounds {
    /// Restricts values to a magnitude of at most `max`.
    pub open spec fn new_spec(max: Scalar) -> CircleBounds {
        CircleBounds { radius: max }
    }

    /// Whether `output` is what these bounds may give for `input`: the
    /// input where its length is at most the radius, and else the input
    /// resized to the radius.
    pub open spec fn clamps<A: Arithmetic>(
        self,
        arithmetic: &A,
        input: ScalarPair,
        output: ScalarPair,
    ) -> bool {
        exists|magnitude: Scalar| #[trigger]
            call_ensures(A::length, (arithmetic, input), magnitude) && if magnitude.le(
                self.radius,
            ) {
                output == input
            } else {
                call_ensures(A::resize, (arithmetic, input, self.radius), output)
            }
    }

    /// Restricts values to a magnitude of at most `max`.
    #[verifier::when_used_as_spec(new_spec)]
    pub fn new(max: Scalar) -> (r: CircleBounds)
        ensures
            r == CircleBounds::new_spec(max),
    {
        CircleBounds { radius: max }
    }

    /// Restricts `input_value` to a magnitude of at most the radius: a
    /// value that is no longer stays as it is, bit for bit, and a longer
    /// one is resized to the radius, which keeps its direction.
    #[must_use]
    pub fn clamp<A: Arithmetic>(&self, input_value: ScalarPair, arithmetic: &A) -> (r: ScalarPair)
        ensures
            self.clamps(arithmetic, input_value, r),
    {
        let magnitude = arithmetic.length(input_value);
        if magnitude.at_most(self.radius) {
            input_value
        } else {
            arithmetic.resize(input_value, self.radius)
        }
    }
}

impl CircleExclusion {
    /// Excludes values of a magnitude of at most `min`.
    pub open spec fn new_spec(min: Scalar) -> CircleExclusion {
        CircleExclusion { radius: min }
    }

    /// Whether `output` is what this exclusion may give for `input`: zero
    /// where the length of the input is at most the radius, and else the
    /// input itself.
    pub open spec fn excludes<A: Arithmetic>(
        self,
        arithmetic: &A,
        input: ScalarPair,
        output: ScalarPair,
    ) -> bool {
        exists|magnitude: Scalar| #[trigger]
            call_ensures(A::length, (arithmetic, input), magnitude) && output == if magnitude.le(
                self.radius,
            ) {
                origin()
            } else {
                input
            }
    }

    /// Excludes values of a magnitude of at most `min`.
    #[verifier::when_used_as_spec(new_spec)]
    pub fn new(min: Scalar) -> (r: CircleExclusion)
        ensures
            r == CircleExclusion::new_spec(min),
    {
        CircleExclusion { radius: min }
    }

    /// Forces `input_value` to zero where its magnitude is at most the
    /// radius, and hands any other value back unscaled, bit for bit.
    #[must_use]
    pub fn exclude<A: Arithmetic>(&self, input_value: ScalarPair, arithmetic: &A) -> (r: ScalarPair)
        ensures
            self.excludes(arithmetic, input_value, r),
    {
        let magnitude = arithmetic.length(input_value);
        if magnitude.at_most(self.radius) {
            ScalarPair { x: Scalar::zero(), y: Scalar::zero() }
        } else {
            input_value
        }
    }
}

impl CircleDeadZone {
    /// Puts the dead zone at magnitudes of at most `min`.
    pub open spec fn new_spec(min: Scalar) -> CircleDeadZone {
        CircleDeadZone { radius: min }
    }

    /// Whether `output` is what this dead zone gives for `input`: zero
    /// where the length of the input is at most the radius, the input
    /// resized to length one where its length is at least one, and else
    /// the input resized to the share of the way from the radius to one
    /// that its length has gone.
    pub open spec fn normalizes<A: Arithmetic>(
        self,
        arithmetic: &A,
        input: ScalarPair,
        output: ScalarPair,
    ) -> bool {
        exists|magnitude: Scalar| #[trigger]
            call_ensures(A::length, (arithmetic, input), magnitude) && if magnitude.le(
                self.radius,
            ) {
                output == origin()
            } else if (Scalar { bits: 0x3f80_0000 }).le(magnitude) {
                call_ensures(A::resize, (arithmetic, input, Scalar { bits: 0x3f80_0000 }), output)
            } else {
                exists|scaled: Scalar|
                    is_share(
                        arithmetic,
                        self.radius,
                        Scalar { bits: 0x3f80_0000 },
                        magnitude,
                        scaled,
                    ) && #[trigger] call_ensures(A::resize, (arithmetic, input, scaled), output)
            }
    }

    /// Puts the dead zone at magnitudes of at most `min`.
    #[verifier::when_used_as_spec(new_spec)]
    pub fn new(min: Scalar) -> (r: CircleDeadZone)
        ensures
            r == CircleDeadZone::new_spec(min),
    {
        CircleDeadZone { radius: min }
    }

    /// Forces `input_value` to zero where its magnitude is at most the
    /// radius, brings a value on or beyond the unit circle onto it, and
    /// rescales a value between the two, which spreads the live zone over
    /// the unit disc. The direction is kept.
    #[must_use]
    pub fn normalize<A: Arithmetic>(&self, input_value: ScalarPair, arithmetic: &A) -> (r:
        ScalarPair)
        ensures
            self.normalizes(arithmetic, input_value, r),
    {
        let magnitude = arithmetic.length(input_value);
        if magnitude.at_most(self.radius) {
            ScalarPair { x: Scalar::zero(), y: Scalar::zero() }
        } else if Scalar::one().at_most(magnitude) {
            arithmetic.resize(input_value, Scalar::one())
        } else {
            let scaled = share(self.radius, Scalar::one(), magnitude, arithmetic);
            arithmetic.resize(input_value, scaled)
        }
    }
}

} // verus!

//! Stages that work on each axis on its own, within a range of that axis.
use crate::arithmetic::is_share;
use crate::arithmetic::keeps_order;
use crate::arithmetic::lemma_share_rises;
use crate::arithmetic::share;
use crate::arithmetic::Arithmetic;
use crate::scalar::Scalar;
use crate::scalar::ScalarPair;
use vstd::prelude::*;

verus! {

/// A closed range `[min, max]` on one axis.
#[derive(Debug, Clone, Copy, Eq, Hash)]
pub struct AxisRange {
    pub min: Scalar,
    pub max: Scalar,
}

/// Restricts each axis to its own range.
#[derive(Debug, Clone, Copy, PartialEq, Eq, Hash)]
pub struct DualAxisBounds {
    pub bounds_x: AxisRange,
    pub bounds_y: AxisRange,
}

/// Zeroes each component that falls in the range of its axis; other values pass unscaled.
#[derive(Debug, Clone, Copy, PartialEq, Eq, Hash)]
pub struct DualAxisExclusion {
    pub exclusion_x: AxisRange,
    pub exclusion_y: AxisRange,
}

/// Zeroes each component that falls in the range of its axis and rescales the
/// rest into the live zone.
#[derive(Debug, Clone, Copy, PartialEq, Eq, Hash)]
pub struct DualAxisDeadZone {
    pub deadzone_x: AxisRange,
    pub deadzone_y: AxisRange,
}

impl AxisRange {
    /// The range `[-threshold, threshold]`.
    pub open spec fn symmetric_spec(threshold: Scalar) -> AxisRange {
        AxisRange { min: threshold.neg(), max: threshold }
    }

    /// The range from the smallest to the largest finite value.
    pub open spec fn full_spec() -> AxisRange {
        AxisRange { min: Scalar { bits: 0xff7f_ffff }, max: Scalar { bits: 0x7f7f_ffff } }
    }

    /// The range `[0, 0]`.
    pub open spec fn zero_spec() -> AxisRange {
        AxisRange { min: Scalar { bits: 0 }, max: Scalar { bits: 0 } }
    }

    /// Whether the two ranges have ends that are equal as scalars.
    pub open spec fn same(self, other: AxisRange) -> bool {
        self.min.key() == other.min.key() && self.max.key() == other.max.key()
    }

    /// Whether `value` lies in the range, its two ends included.
    pub open spec fn holds(self, value: Scalar) -> bool {
        self.min.le(value) && value.le(self.max)
    }

    /// The value brought into the range: the lower end for a value below
    /// it, the upper end for a value above it, and else the value itself.
    pub open spec fn clamp_spec(self, value: Scalar) -> Scalar {
        if value.lt(self.min) {
            self.min
        } else if self.max.lt(value) {
            self.max
        } else {
            value
        }
    }

    /// Zero for a value in the range, and else the value itself.
    pub open spec fn exclude_spec(self, value: Scalar) -> Scalar {
        if self.holds(value) {
            Scalar { bits: 0 }
        } else {
            value
        }
    }

    /// Whether `value` lies in the range, its two ends included.
    pub fn contains(&self, value: Scalar) -> (r: bool)
        ensures
            r == self.holds(value),
    {
        self.min.at_most(value) && value.at_most(self.max)
    }

    /// Brings `value` into the range. A value that is not a number is
    /// handed back as it is.
    pub fn clamp(&self, value: Scalar) -> (r: Scalar)
        ensures
            r == self.clamp_spec(value),
    {
        if value.less_than(self.min) {
            self.min
        } else if self.max.less_than(value) {
            self.max
        } else {
            value
        }
    }

    /// Forces a `value` in the range to zero and hands any other value
    /// back unscaled.
    pub fn exclude(&self, value: Scalar) -> (r: Scalar)
        ensures
            r == self.exclude_spec(value),
    {
        if self.contains(value) {
            Scalar::zero()
        } else {
            value
        }
    }

    /// A clamped number lies in the range, where the range has numbers for
    /// its ends and the lower end is not above the upper one.
    pub proof fn lemma_clamp_in_range(self, value: Scalar)
        requires
            self.min.le(self.max),
            !value.nan(),
        ensures
            self.holds(self.clamp_spec(value)),
    {
    }

    /// Clamping changes no value that lies in the range, and clamping twice
    /// is clamping once.
    pub proof fn lemma_clamp_keeps_inside(self, value: Scalar)
        ensures
            self.holds(value) ==> self.clamp_spec(value) == value,
            self.min.le(self.max) ==> self.clamp_spec(self.clamp_spec(value)) == self.clamp_spec(
                value,
            ),
    {
    }

    /// Exclusion leaves every value outside the range unchanged, bit for
    /// bit: above the upper end, below the lower end, or not a number.
    pub proof fn lemma_exclude_keeps_outside(self, value: Scalar)
        ensures
            self.max.lt(value) ==> self.exclude_spec(value) == value,
            value.lt(self.min) ==> self.exclude_spec(value) == value,
            value.nan() ==> self.exclude_spec(value) == value,
            self.holds(value) ==> self.exclude_spec(value).bits == 0,
    {
    }

    /// Whether `output` is what a dead zone at this range gives for `value`.
    ///
    /// A value in the range gives zero. A value at or beyond an edge of the
    /// live zone `[-1, 1]` gives that edge. A value between the upper end
    /// and one gives the share of the way from that end to one that it has
    /// gone. A value between minus one and the lower end gives, with the
    /// sign set, the share of the way from that end to minus one, taken on
    /// the mirrored values. Where no order holds, because something is not
    /// a number, the value comes back as it is.
    pub open spec fn normalizes<A: Arithmetic>(
        self,
        arithmetic: &A,
        value: Scalar,
        output: Scalar,
    ) -> bool {
        if self.holds(value) {
            output.bits == 0
        } else if (Scalar { bits: 0x3f80_0000 }).le(value) {
            output.bits == 0x3f80_0000
        } else if value.le(Scalar { bits: 0xbf80_0000 }) {
            output.bits == 0xbf80_0000
        } else if self.max.lt(value) {
            is_share(arithmetic, self.max, Scalar { bits: 0x3f80_0000 }, value, output)
        } else if value.lt(self.min) {
            exists|mirrored: Scalar| #[trigger]
                is_share(
                    arithmetic,
                    self.min.neg(),
                    Scalar { bits: 0x3f80_0000 },
                    value.neg(),
                    mirrored,
                ) && output == mirrored.neg()
        } else {
            output == value
        }
    }

    /// Takes this range as a dead zone: a `value` in the range becomes
    /// zero, a value at or beyond an edge of the live zone `[-1, 1]` becomes
    /// that edge, and a value between the dead zone and an edge is rescaled
    /// linearly, so that the live zone is spread over the full output
    /// range. The sign is kept.
    pub fn normalize<A: Arithmetic>(&self, value: Scalar, arithmetic: &A) -> (r: Scalar)
        ensures
            self.normalizes(arithmetic, value, r),
    {
        if self.contains(value) {
            Scalar::zero()
        } else if Scalar::one().at_most(value) {
            Scalar::one()
        } else if value.at_most(Scalar::neg_one()) {
            Scalar::neg_one()
        } else if self.max.less_than(value) {
            share(self.max, Scalar::one(), value, arithmetic)
        } else if value.less_than(self.min) {
            let mirrored = share(self.min.negated(), Scalar::one(), value.negated(), arithmetic);
            mirrored.negated()
        } else {
            value
        }
    }

    /// A dead zone is continuous at its ends: at each end of the range the
    /// output is exactly zero, and at each edge of the live zone it is
    /// exactly that edge, where the edge lies outside the range.
    pub proof fn lemma_normalize_at_the_ends<A: Arithmetic>(
        self,
        arithmetic: &A,
        output: Scalar,
    )
        requires
            self.min.le(self.max),
        ensures
            self.normalizes(arithmetic, self.min, output) ==> output.bits == 0,
            self.normalizes(arithmetic, self.max, output) ==> output.bits == 0,
            self.max.lt(Scalar { bits: 0x3f80_0000 }) && self.normalizes(
                arithmetic,
                Scalar { bits: 0x3f80_0000 },
                output,
            ) ==> output.bits == 0x3f80_0000,
            (Scalar { bits: 0xbf80_0000 }).lt(self.min) && self.normalizes(
                arithmetic,
                Scalar { bits: 0xbf80_0000 },
                output,
            ) ==> output.bits == 0xbf80_0000,
    {
        Scalar::lemma_unit_values();
    }

    /// With an arithmetic that keeps the order, the output of a dead zone
    /// does not fall as the input rises above the range: it is zero at the
    /// upper end, one at and beyond the edge of the live zone, and in
    /// between it lies between the two and follows the order of the inputs.
    pub proof fn lemma_normalize_rises_above<A: Arithmetic>(
        self,
        arithmetic: &A,
        low: Scalar,
        high: Scalar,
        low_output: Scalar,
        high_output: Scalar,
    )
        requires
            keeps_order(arithmetic),
            self.min.le(self.max),
            (Scalar { bits: 0 }).le(self.max),
            self.max.lt(Scalar { bits: 0x3f80_0000 }),
            self.max.le(low),
            low.le(high),
            self.normalizes(arithmetic, low, low_output),
            self.normalizes(arithmetic, high, high_output),
        ensures
            (Scalar { bits: 0 }).le(low_output),
            low_output.le(high_output),
            high_output.le(Scalar { bits: 0x3f80_0000 }),
    {
        let zero = Scalar { bits: 0 };
        let one = Scalar { bits: 0x3f80_0000 };
        Scalar::lemma_unit_values();
        assert(low_output.bits == 0 ==> low_output == zero);
        assert(high_output.bits == 0 ==> high_output == zero);
        assert(low_output.bits == 0x3f80_0000 ==> low_output == one);
        assert(high_output.bits == 0x3f80_0000 ==> high_output == one);
        if self.holds(high) {
        } else if one.le(high) {
            if !self.holds(low) && !one.le(low) {
                lemma_share_rises(arithmetic, self.max, low, low, low_output, low_output);
            }
        } else {
            if self.holds(low) {
                lemma_share_rises(arithmetic, self.max, high, high, high_output, high_output);
            } else {
                lemma_share_rises(arithmetic, self.max, low, high, low_output, high_output);
            }
        }
    }

    /// With an arithmetic that keeps the order, the output of a dead zone
    /// does not rise as the input falls below the range: it is zero at the
    /// lower end, minus one at and beyond the edge of the live zone, and in
    /// between it lies between the two and follows the order of the inputs.
    pub proof fn lemma_normalize_falls_below<A: Arithmetic>(
        self,
        arithmetic: &A,
        low: Scalar,
        high: Scalar,
        low_output: Scalar,
        high_output: Scalar,
    )
        requires
            keeps_order(arithmetic),
            self.min.le(self.max),
            self.min.le(Scalar { bits: 0 }),
            (Scalar { bits: 0xbf80_0000 }).lt(self.min),
            low.le(high),
            high.le(self.min),
            self.normalizes(arithmetic, low, low_output),
            self.normalizes(arithmetic, high, high_output),
        ensures
            (Scalar { bits: 0xbf80_0000 }).le(low_output),
            low_output.le(high_output),
            high_output.le(Scalar { bits: 0 }),
    {
        let zero = Scalar { bits: 0 };
        let one = Scalar { bits: 0x3f80_0000 };
        let minus_one = Scalar { bits: 0xbf80_0000 };
        Scalar::lemma_unit_values();
        assert(low_output.bits == 0 ==> low_output == zero);
        assert(high_output.bits == 0 ==> high_output == zero);
        assert(low_output.bits == 0xbf80_0000 ==> low_output == minus_one);
        assert(high_output.bits == 0xbf80_0000 ==> high_output == minus_one);
        self.min.lemma_neg_reverses_rank();
        low.lemma_neg_reverses_rank();
        high.lemma_neg_reverses_rank();
        if !self.holds(low) && !low.le(minus_one) {
            let low_mirrored = choose|mirrored: Scalar| #[trigger]
                is_share(arithmetic, self.min.neg(), one, low.neg(), mirrored) && low_output
                    == mirrored.neg();
            low_mirrored.lemma_neg_reverses_rank();
            if !self.holds(high) && !high.le(minus_one) {
                let high_mirrored = choose|mirrored: Scalar| #[trigger]
                    is_share(arithmetic, self.min.neg(), one, high.neg(), mirrored) && high_output
                        == mirrored.neg();
                high_mirrored.lemma_neg_reverses_rank();
                lemma_share_rises(
                    arithmetic,
                    self.min.neg(),
                    high.neg(),
                    low.neg(),
                    high_mirrored,
                    low_mirrored,
                );
            } else {
                lemma_share_rises(
                    arithmetic,
                    self.min.neg(),
                    low.neg(),
                    low.neg(),
                    low_mirrored,
                    low_mirrored,
                );
            }
        } else if !self.holds(high) && !high.le(minus_one) {
            let high_mirrored = choose|mirrored: Scalar| #[trigger]
                is_share(arithmetic, self.min.neg(), one, high.neg(), mirrored) && high_output
                    == mirrored.neg();
            high_mirrored.lemma_neg_reverses_rank();
            lemma_share_rises(
                arithmetic,
                self.min.neg(),
                high.neg(),
                high.neg(),
                high_mirrored,
                high_mirrored,
            );
        }
    }

    /// Beyond the live zone a dead zone and an exclusion at the same range
    /// differ: above one, the exclusion leaves the value as it is and the
    /// dead zone gives one.
    pub proof fn lemma_exclusion_differs_from_dead_zone<A: Arithmetic>(
        self,
        arithmetic: &A,
        value: Scalar,
        output: Scalar,
    )
        requires
            self.max.lt(value),
            (Scalar { bits: 0x3f80_0000 }).lt(value),
            self.normalizes(arithmetic, value, output),
        ensures
            self.exclude_spec(value) == value,
            output.bits == 0x3f80_0000,
            output.key() != self.exclude_spec(value).key(),
    {
        Scalar::lemma_unit_values();
        value.lemma_equal_iff_same_rank(output);
    }

    /// The range `[min, max]`.
    pub fn new(min: Scalar, max: Scalar) -> (r: AxisRange)
        ensures
            r == (AxisRange { min, max }),
    {
        AxisRange { min, max }
    }

    /// The range `[-threshold, threshold]`.
    pub fn symmetric(threshold: Scalar) -> (r: AxisRange)
        ensures
            r == AxisRange::symmetric_spec(threshold),
    {
        AxisRange { min: threshold.negated(), max: threshold }
    }

    /// The range that holds every finite value.
    pub fn full() -> (r: AxisRange)
        ensures
            r == AxisRange::full_spec(),
    {
        AxisRange { min: Scalar::min_value(), max: Scalar::max_value() }
    }

    /// The range `[0, 0]`.
    pub fn zero() -> (r: AxisRange)
        ensures
            r == AxisRange::zero_spec(),
    {
        AxisRange { min: Scalar::zero(), max: Scalar::zero() }
    }
}

impl DualAxisBounds {
    /// The value with each component brought into the range of its axis.
    pub open spec fn clamp_spec(self, value: ScalarPair) -> ScalarPair {
        ScalarPair {
            x: self.bounds_x.clamp_spec(value.x),
            y: self.bounds_y.clamp_spec(value.y),
        }
    }

    /// Clamps `input_value` within the bounds, each axis on its own.
    #[must_use]
    pub fn clamp(&self, input_value: ScalarPair) -> (r: ScalarPair)
        ensures
            r == self.clamp_spec(input_value),
    {
        ScalarPair {
            x: self.bounds_x.clamp(input_value.x),
            y: self.bounds_y.clamp(input_value.y),
        }
    }

    /// Restricts values to `[min, max]` on both axes.
    pub open spec fn all_spec(min: Scalar, max: Scalar) -> DualAxisBounds {
        DualAxisBounds { bounds_x: AxisRange { min, max }, bounds_y: AxisRange { min, max } }
    }

    /// Restricts values to `[min, max]` on both axes.
    #[verifier::when_used_as_spec(all_spec)]
    pub fn all(min: Scalar, max: Scalar) -> (r: DualAxisBounds)
        ensures
            r == DualAxisBounds::all_spec(min, max),
    {
        DualAxisBounds { bounds_x: AxisRange::new(min, max), bounds_y: AxisRange::new(min, max) }
    }

    /// Restricts values to `[-threshold, threshold]` on both axes.
    pub open spec fn symmetric_all_spec(threshold: Scalar) -> DualAxisBounds {
        DualAxisBounds { bounds_x: AxisRange::symmetric_spec(threshold), bounds_y: AxisRange::symmetric_spec(threshold) }
    }

    /// Restricts values to `[-threshold, threshold]` on both axes.
    #[verifier::when_used_as_spec(symmetric_all_spec)]
    pub fn symmetric_all(threshold: Scalar) -> (r: DualAxisBounds)
        ensures
            r == DualAxisBounds::symmetric_all_spec(threshold),
    {
        DualAxisBounds { bounds_x: AxisRange::symmetric(threshold), bounds_y: AxisRange::symmetric(threshold) }
    }

    /// Restricts values to `[min, max]` on the X-axis; the Y-axis gets the full range.
    pub open spec fn only_x_spec(min: Scalar, max: Scalar) -> DualAxisBounds {
        DualAxisBounds { bounds_x: AxisRange { min, max }, bounds_y: AxisRange::full_spec() }
    }

    /// Restricts values to `[min, max]` on the X-axis; the Y-axis gets the full range.
    #[verifier::when_used_as_spec(only_x_spec)]
    pub fn only_x(min: Scalar, max: Scalar) -> (r: DualAxisBounds)
        ensures
            r == DualAxisBounds::only_x_spec(min, max),
    {
        DualAxisBounds { bounds_x: AxisRange::new(min, max), bounds_y: AxisRange::full() }
    }

    /// Restricts values to `[min, max]` on the Y-axis; the X-axis gets the full range.
    pub open spec fn only_y_spec(min: Scalar, max: Scalar) -> DualAxisBounds {
        DualAxisBounds { bounds_x: AxisRange::full_spec(), bounds_y: AxisRange { min, max } }
    }

    /// Restricts values to `[min, max]` on the Y-axis; the X-axis gets the full range.
    #[verifier::when_used_as_spec(only_y_spec)]
    pub fn only_y(min: Scalar, max: Scalar) -> (r: DualAxisBounds)
        ensures
            r == DualAxisBounds::only_y_spec(min, max),
    {
        DualAxisBounds { bounds_x: AxisRange::full(), bounds_y: AxisRange::new(min, max) }
    }
}

impl DualAxisExclusion {
    /// The value with each component in the range of its axis forced to
    /// zero, and every other component unchanged.
    pub open spec fn exclude_spec(self, value: ScalarPair) -> ScalarPair {
        ScalarPair {
            x: self.exclusion_x.exclude_spec(value.x),
            y: self.exclusion_y.exclude_spec(value.y),
        }
    }

    /// Excludes `input_value` within the ranges, each axis on its own;
    /// what is not excluded passes unscaled.
    #[must_use]
    pub fn exclude(&self, input_value: ScalarPair) -> (r: ScalarPair)
        ensures
            r == self.exclude_spec(input_value),
    {
        ScalarPair {
            x: self.exclusion_x.exclude(input_value.x),
            y: self.exclusion_y.exclude(input_value.y),
        }
    }

    /// Excludes values within `[min, max]` on both axes.
    pub open spec fn all_spec(min: Scalar, max: Scalar) -> DualAxisExclusion {
        DualAxisExclusion { exclusion_x: AxisRange { min, max }, exclusion_y: AxisRange { min, max } }
    }

    /// Excludes values within `[min, max]` on both axes.
    #[verifier::when_used_as_spec(all_spec)]
    pub fn all(min: Scalar, max: Scalar) -> (r: DualAxisExclusion)
        ensures
            r == DualAxisExclusion::all_spec(min, max),
    {
        DualAxisExclusion { exclusion_x: AxisRange::new(min, max), exclusion_y: AxisRange::new(min, max) }
    }

    /// Excludes values within `[-threshold, threshold]` on both axes.
    pub open spec fn symmetric_all_spec(threshold: Scalar) -> DualAxisExclusion {
        DualAxisExclusion { exclusion_x: AxisRange::symmetric_spec(threshold), exclusion_y: AxisRange::symmetric_spec(threshold) }
    }

    /// Excludes values within `[-threshold, threshold]` on both axes.
    #[verifier::when_used_as_spec(symmetric_all_spec)]
    pub fn symmetric_all(threshold: Scalar) -> (r: DualAxisExclusion)
        ensures
            r == DualAxisExclusion::symmetric_all_spec(threshold),
    {
        DualAxisExclusion { exclusion_x: AxisRange::symmetric(threshold), exclusion_y: AxisRange::symmetric(threshold) }
    }

    /// Excludes values within `[min, max]` on the X-axis; the Y-axis gets the empty range `[0, 0]`.
    pub open spec fn only_x_spec(min: Scalar, max: Scalar) -> DualAxisExclusion {
        DualAxisExclusion { exclusion_x: AxisRange { min, max }, exclusion_y: AxisRange::zero_spec() }
    }

    /// Excludes values within `[min, max]` on the X-axis; the Y-axis gets the empty range `[0, 0]`.
    #[verifier::when_used_as_spec(only_x_spec)]
    pub fn only_x(min: Scalar, max: Scalar) -> (r: DualAxisExclusion)
        ensures
            r == DualAxisExclusion::only_x_spec(min, max),
    {
        DualAxisExclusion { exclusion_x: AxisRange::new(min, max), exclusion_y: AxisRange::zero() }
    }

    /// Excludes values within `[min, max]` on the Y-axis; the X-axis gets the empty range `[0, 0]`.
    pub open spec fn only_y_spec(min: Scalar, max: Scalar) -> DualAxisExclusion {
        DualAxisExclusion { exclusion_x: AxisRange::zero_spec(), exclusion_y: AxisRange { min, max } }
    }

    /// Excludes values within `[min, max]` on the Y-axis; the X-axis gets the empty range `[0, 0]`.
    #[verifier::when_used_as_spec(only_y_spec)]
    pub fn only_y(min: Scalar, max: Scalar) -> (r: DualAxisExclusion)
        ensures
            r == DualAxisExclusion::only_y_spec(min, max),
    {
        DualAxisExclusion { exclusion_x: AxisRange::zero(), exclusion_y: AxisRange::new(min, max) }
    }

    /// Excludes values within `[-threshold, threshold]` on the X-axis; the Y-axis gets the empty range `[0, 0]`.
    pub open spec fn symmetric_only_x_spec(threshold: Scalar) -> DualAxisExclusion {
        DualAxisExclusion { exclusion_x: AxisRange::symmetric_spec(threshold), exclusion_y: AxisRange::zero_spec() }
    }

    /// Excludes values within `[-threshold, threshold]` on the X-axis; the Y-axis gets the empty range `[0, 0]`.
    #[verifier::when_used_as_spec(symmetric_only_x_spec)]
    pub fn symmetric_only_x(threshold: Scalar) -> (r: DualAxisExclusion)
        ensures
            r == DualAxisExclusion::symmetric_only_x_spec(threshold),
    {
        DualAxisExclusion { exclusion_x: AxisRange::symmetric(threshold), exclusion_y: AxisRange::zero() }
    }

    /// Excludes values within `[-threshold, threshold]` on the Y-axis; the X-axis gets the empty range `[0, 0]`.
    pub open spec fn symmetric_only_y_spec(threshold: Scalar) -> DualAxisExclusion {
        DualAxisExclusion { exclusion_x: AxisRange::zero_spec(), exclusion_y: AxisRange::symmetric_spec(threshold) }
    }

    /// Excludes values within `[-threshold, threshold]` on the Y-axis; the X-axis gets the empty range `[0, 0]`.
    #[verifier::when_used_as_spec(symmetric_only_y_spec)]
    pub fn symmetric_only_y(threshold: Scalar) -> (r: DualAxisExclusion)
        ensures
            r == DualAxisExclusion::symmetric_only_y_spec(threshold),
    {
        DualAxisExclusion { exclusion_x: AxisRange::zero(), exclusion_y: AxisRange::symmetric(threshold) }
    }
}

impl DualAxisDeadZone {
    /// Normalizes `input_value`, each axis on its own: zero in the dead
    /// zone of the axis, the edge of the live zone at or beyond it, and
    /// between the two what the arithmetic gives.
    #[must_use]
    pub fn normalize<A: Arithmetic>(
        &self,
        input_value: ScalarPair,
        arithmetic: &A,
    ) -> (r: ScalarPair)
        ensures
            self.deadzone_x.normalizes(arithmetic, input_value.x, r.x),
            self.deadzone_y.normalizes(arithmetic, input_value.y, r.y),
    {
        let x = self.deadzone_x.normalize(input_value.x, arithmetic);
        let y = self.deadzone_y.normalize(input_value.y, arithmetic);
        ScalarPair { x, y }
    }

    /// Puts the dead zone at `[min, max]` on both axes.
    pub open spec fn all_spec(min: Scalar, max: Scalar) -> DualAxisDeadZone {
        DualAxisDeadZone { deadzone_x: AxisRange { min, max }, deadzone_y: AxisRange { min, max } }
    }

    /// Puts the dead zone at `[min, max]` on both axes.
    #[verifier::when_used_as_spec(all_spec)]
    pub fn all(min: Scalar, max: Scalar) -> (r: DualAxisDeadZone)
        ensures
            r == DualAxisDeadZone::all_spec(min, max),
    {
        DualAxisDeadZone { deadzone_x: AxisRange::new(min, max), deadzone_y: AxisRange::new(min, max) }
    }

    /// Puts the dead zone at `[-threshold, threshold]` on both axes.
    pub open spec fn symmetric_all_spec(threshold: Scalar) -> DualAxisDeadZone {
        DualAxisDeadZone { deadzone_x: AxisRange::symmetric_spec(threshold), deadzone_y: AxisRange::symmetric_spec(threshold) }
    }

    /// Puts the dead zone at `[-threshold, threshold]` on both axes.
    #[verifier::when_used_as_spec(symmetric_all_spec)]
    pub fn symmetric_all(threshold: Scalar) -> (r: DualAxisDeadZone)
        ensures
            r == DualAxisDeadZone::symmetric_all_spec(threshold),
    {
        DualAxisDeadZone { deadzone_x: AxisRange::symmetric(threshold), deadzone_y: AxisRange::symmetric(threshold) }
    }

    /// Puts the dead zone at `[min, max]` on the X-axis; the Y-axis gets the empty range `[0, 0]`.
    pub open spec fn only_x_spec(min: Scalar, max: Scalar) -> DualAxisDeadZone {
        DualAxisDeadZone { deadzone_x: AxisRange { min, max }, deadzone_y: AxisRange::zero_spec() }
    }

    /// Puts the dead zone at `[min, max]` on the X-axis; the Y-axis gets the empty range `[0, 0]`.
    #[verifier::when_used_as_spec(only_x_spec)]
    pub fn only_x(min: Scalar, max: Scalar) -> (r: DualAxisDeadZone)
        ensures
            r == DualAxisDeadZone::only_x_spec(min, max),
    {
        DualAxisDeadZone { deadzone_x: AxisRange::new(min, max), deadzone_y: AxisRange::zero() }
    }

    /// Puts the dead zone at `[min, max]` on the Y-axis; the X-axis gets the empty range `[0, 0]`.
    pub open spec fn only_y_spec(min: Scalar, max: Scalar) -> DualAxisDeadZone {
        DualAxisDeadZone { deadzone_x: AxisRange::zero_spec(), deadzone_y: AxisRange { min, max } }
    }

    /// Puts the dead zone at `[min, max]` on the Y-axis; the X-axis gets the empty range `[0, 0]`.
    #[verifier::when_used_as_spec(only_y_spec)]
    pub fn only_y(min: Scalar, max: Scalar) -> (r: DualAxisDeadZone)
        ensures
            r == DualAxisDeadZone::only_y_spec(min, max),
    {
        DualAxisDeadZone { deadzone_x: AxisRange::zero(), deadzone_y: AxisRange::new(min, max) }
    }

    /// Puts the dead zone at `[-threshold, threshold]` on the X-axis; the Y-axis gets the empty range `[0, 0]`.
    pub open spec fn symmetric_only_x_spec(threshold: Scalar) -> DualAxisDeadZone {
        DualAxisDeadZone { deadzone_x: AxisRange::symmetric_spec(threshold), deadzone_y: AxisRange::zero_spec() }
    }

    /// Puts the dead zone at `[-threshold, threshold]` on the X-axis; the Y-axis gets the empty range `[0, 0]`.
    #[verifier::when_used_as_spec(symmetric_only_x_spec)]
    pub fn symmetric_only_x(threshold: Scalar) -> (r: DualAxisDeadZone)
        ensures
            r == DualAxisDeadZone::symmetric_only_x_spec(threshold),
    {
        DualAxisDeadZone { deadzone_x: AxisRange::symmetric(threshold), deadzone_y: AxisRange::zero() }
    }

    /// Puts the dead zone at `[-threshold, threshold]` on the Y-axis; the X-axis gets the empty range `[0, 0]`.
    pub open spec fn symmetric_only_y_spec(threshold: Scalar) -> DualAxisDeadZone {
        DualAxisDeadZone { deadzone_x: AxisRange::zero_spec(), deadzone_y: AxisRange::symmetric_spec(threshold) }
    }

    /// Puts the dead zone at `[-threshold, threshold]` on the Y-axis; the X-axis gets the empty range `[0, 0]`.
    #[verifier::when_used_as_spec(symmetric_only_y_spec)]
    pub fn symmetric_only_y(threshold: Scalar) -> (r: DualAxisDeadZone)
        ensures
            r == DualAxisDeadZone::symmetric_only_y_spec(threshold),
    {
        DualAxisDeadZone { deadzone_x: AxisRange::zero(), deadzone_y: AxisRange::symmetric(threshold) }
    }
}

impl PartialEq for AxisRange {
    fn eq(&self, other: &AxisRange) -> (r: bool) {
        self.min == other.min && self.max == other.max
    }
}

impl vstd::std_specs::cmp::PartialEqSpecImpl for AxisRange {
    open spec fn obeys_eq_spec() -> bool {
        true
    }

    open spec fn eq_spec(&self, other: &AxisRange) -> bool {
        self.same(*other)
    }
}

} // verus!

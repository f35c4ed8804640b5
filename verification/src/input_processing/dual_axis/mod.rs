//! Processors for dual-axis input values.
use crate::arithmetic::Arithmetic;
use crate::scalar::Scalar;
use crate::scalar::ScalarPair;
use std::sync::Arc;
use vstd::prelude::*;

pub use self::circle::CircleBounds;
pub use self::circle::CircleDeadZone;
pub use self::circle::CircleExclusion;
pub use self::custom::CustomStage;
pub use self::range::AxisRange;
pub use self::range::DualAxisBounds;
pub use self::range::DualAxisDeadZone;
pub use self::range::DualAxisExclusion;

pub mod circle;
pub mod custom;
pub mod range;

verus! {

/// A processor for dual-axis input values.
#[must_use]
#[non_exhaustive]
#[derive(Debug, Clone, Eq, Hash)]
pub enum DualAxisProcessor {
    /// No processor is applied.
    NoOp,
    /// Flips the sign of the chosen axes.
    Inverted(DualAxisInverted),
    /// Multiplies each axis by its own factor.
    Sensitivity(DualAxisSensitivity),
    /// Rectangular value bounds.
    ValueBounds(DualAxisBounds),
    /// Rectangular unscaled deadzone.
    Exclusion(DualAxisExclusion),
    /// Rectangular scaled deadzone.
    DeadZone(DualAxisDeadZone),
    /// Circular value bounds.
    CircleBounds(CircleBounds),
    /// Circular unscaled deadzone.
    CircleExclusion(CircleExclusion),
    /// Circular scaled deadzone.
    CircleDeadZone(CircleDeadZone),
    /// Stages applied one after the other, the first one first. The handles
    /// are shared: attaching a stage to many pipelines copies none of it.
    Pipeline(Vec<Arc<DualAxisProcessor>>),
    /// A stage defined by the embedding application.
    Custom(CustomStage),
}

/// Flips the sign of dual-axis input values, axis by axis.
#[allow(non_camel_case_types)]
#[derive(Debug, Clone, Copy, PartialEq, Eq, Hash, Structural)]
#[must_use]
pub enum DualAxisInverted {
    /// Inverts both axes.
    ALL,
    /// Only inverts the X-axis inputs.
    ONLY_X,
    /// Only inverts the Y-axis inputs.
    ONLY_Y,
}

/// Scales dual-axis input values, each axis by its own multiplier.
#[derive(Debug, Clone, Copy, PartialEq, Eq, Hash)]
#[must_use]
pub struct DualAxisSensitivity(pub ScalarPair);

impl PartialEq for DualAxisProcessor {
    fn eq(&self, other: &DualAxisProcessor) -> (r: bool) {
        self.equals(other)
    }
}

impl vstd::std_specs::cmp::PartialEqSpecImpl for DualAxisProcessor {
    open spec fn obeys_eq_spec() -> bool {
        true
    }

    open spec fn eq_spec(&self, other: &DualAxisProcessor) -> bool {
        self.same(*other)
    }
}

impl Default for DualAxisProcessor {
    /// The empty processor.
    fn default() -> (r: DualAxisProcessor)
        ensures
            r is NoOp,
    {
        DualAxisProcessor::NoOp
    }
}

impl From<DualAxisInverted> for DualAxisProcessor {
    fn from(value: DualAxisInverted) -> (r: DualAxisProcessor) {
        DualAxisProcessor::Inverted(value)
    }
}

impl vstd::std_specs::convert::FromSpecImpl<DualAxisInverted> for DualAxisProcessor {
    open spec fn obeys_from_spec() -> bool {
        true
    }

    open spec fn from_spec(value: DualAxisInverted) -> DualAxisProcessor {
        DualAxisProcessor::Inverted(value)
    }
}

impl From<DualAxisSensitivity> for DualAxisProcessor {
    fn from(value: DualAxisSensitivity) -> (r: DualAxisProcessor) {
        DualAxisProcessor::Sensitivity(value)
    }
}

impl vstd::std_specs::convert::FromSpecImpl<DualAxisSensitivity> for DualAxisProcessor {
    open spec fn obeys_from_spec() -> bool {
        true
    }

    open spec fn from_spec(value: DualAxisSensitivity) -> DualAxisProcessor {
        DualAxisProcessor::Sensitivity(value)
    }
}

impl From<DualAxisBounds> for DualAxisProcessor {
    fn from(value: DualAxisBounds) -> (r: DualAxisProcessor) {
        DualAxisProcessor::ValueBounds(value)
    }
}

impl vstd::std_specs::convert::FromSpecImpl<DualAxisBounds> for DualAxisProcessor {
    open spec fn obeys_from_spec() -> bool {
        true
    }

    open spec fn from_spec(value: DualAxisBounds) -> DualAxisProcessor {
        DualAxisProcessor::ValueBounds(value)
    }
}

impl From<DualAxisExclusion> for DualAxisProcessor {
    fn from(value: DualAxisExclusion) -> (r: DualAxisProcessor) {
        DualAxisProcessor::Exclusion(value)
    }
}

impl vstd::std_specs::convert::FromSpecImpl<DualAxisExclusion> for DualAxisProcessor {
    open spec fn obeys_from_spec() -> bool {
        true
    }

    open spec fn from_spec(value: DualAxisExclusion) -> DualAxisProcessor {
        DualAxisProcessor::Exclusion(value)
    }
}

impl From<DualAxisDeadZone> for DualAxisProcessor {
    fn from(value: DualAxisDeadZone) -> (r: DualAxisProcessor) {
        DualAxisProcessor::DeadZone(value)
    }
}

impl vstd::std_specs::convert::FromSpecImpl<DualAxisDeadZone> for DualAxisProcessor {
    open spec fn obeys_from_spec() -> bool {
        true
    }

    open spec fn from_spec(value: DualAxisDeadZone) -> DualAxisProcessor {
        DualAxisProcessor::DeadZone(value)
    }
}

impl From<CircleBounds> for DualAxisProcessor {
    fn from(value: CircleBounds) -> (r: DualAxisProcessor) {
        DualAxisProcessor::CircleBounds(value)
    }
}

impl vstd::std_specs::convert::FromSpecImpl<CircleBounds> for DualAxisProcessor {
    open spec fn obeys_from_spec() -> bool {
        true
    }

    open spec fn from_spec(value: CircleBounds) -> DualAxisProcessor {
        DualAxisProcessor::CircleBounds(value)
    }
}

impl From<CircleExclusion> for DualAxisProcessor {
    fn from(value: CircleExclusion) -> (r: DualAxisProcessor) {
        DualAxisProcessor::CircleExclusion(value)
    }
}

impl vstd::std_specs::convert::FromSpecImpl<CircleExclusion> for DualAxisProcessor {
    open spec fn obeys_from_spec() -> bool {
        true
    }

    open spec fn from_spec(value: CircleExclusion) -> DualAxisProcessor {
        DualAxisProcessor::CircleExclusion(value)
    }
}

impl From<CircleDeadZone> for DualAxisProcessor {
    fn from(value: CircleDeadZone) -> (r: DualAxisProcessor) {
        DualAxisProcessor::CircleDeadZone(value)
    }
}

impl vstd::std_specs::convert::FromSpecImpl<CircleDeadZone> for DualAxisProcessor {
    open spec fn obeys_from_spec() -> bool {
        true
    }

    open spec fn from_spec(value: CircleDeadZone) -> DualAxisProcessor {
        DualAxisProcessor::CircleDeadZone(value)
    }
}

impl From<CustomStage> for DualAxisProcessor {
    fn from(value: CustomStage) -> (r: DualAxisProcessor) {
        DualAxisProcessor::Custom(value)
    }
}

impl vstd::std_specs::convert::FromSpecImpl<CustomStage> for DualAxisProcessor {
    open spec fn obeys_from_spec() -> bool {
        true
    }

    open spec fn from_spec(value: CustomStage) -> DualAxisProcessor {
        DualAxisProcessor::Custom(value)
    }
}

/// Provides methods for configuring and manipulating the processing pipeline
/// for dual-axis input.
///
/// An implementor says how it takes a processor; every other method builds
/// one stage and hands it to [`WithDualAxisProcessorExt::with_processor`].
pub trait WithDualAxisProcessorExt: Sized {
    /// Remove the current used [`DualAxisProcessor`].
    fn no_processor(self) -> Self;

    /// Replaces the current pipeline with the specified [`DualAxisProcessor`].
    fn replace_processor(self, processor: DualAxisProcessor) -> Self;

    /// Appends the given [`DualAxisProcessor`] as the next processing step.
    fn with_processor(self, processor: DualAxisProcessor) -> Self;

    /// Appends an inversion of both axes as the next processing step.
    fn inverted(self) -> (r: Self)
        ensures
            call_ensures(
                Self::with_processor,
                (self, DualAxisProcessor::Inverted(DualAxisInverted::ALL)),
                r,
            ),
    {
        self.with_processor(DualAxisProcessor::Inverted(DualAxisInverted::ALL))
    }

    /// Appends an inversion of the X-axis as the next processing step.
    fn inverted_x(self) -> (r: Self)
        ensures
            call_ensures(
                Self::with_processor,
                (self, DualAxisProcessor::Inverted(DualAxisInverted::ONLY_X)),
                r,
            ),
    {
        self.with_processor(DualAxisProcessor::Inverted(DualAxisInverted::ONLY_X))
    }

    /// Appends an inversion of the Y-axis as the next processing step.
    fn inverted_y(self) -> (r: Self)
        ensures
            call_ensures(
                Self::with_processor,
                (self, DualAxisProcessor::Inverted(DualAxisInverted::ONLY_Y)),
                r,
            ),
    {
        self.with_processor(DualAxisProcessor::Inverted(DualAxisInverted::ONLY_Y))
    }

    /// Appends a sensitivity that multiplies both axes by the given factor.
    fn sensitivity(self, sensitivity: Scalar) -> (r: Self)
        ensures
            call_ensures(
                Self::with_processor,
                (self, DualAxisProcessor::Sensitivity(DualAxisSensitivity::all(sensitivity))),
                r,
            ),
    {
        self.with_processor(DualAxisProcessor::Sensitivity(DualAxisSensitivity::all(sensitivity)))
    }

    /// Appends a sensitivity that multiplies only the X-axis by the given factor.
    fn sensitivity_x(self, sensitivity: Scalar) -> (r: Self)
        ensures
            call_ensures(
                Self::with_processor,
                (self, DualAxisProcessor::Sensitivity(DualAxisSensitivity::only_x(sensitivity))),
                r,
            ),
    {
        self.with_processor(DualAxisProcessor::Sensitivity(DualAxisSensitivity::only_x(sensitivity)))
    }

    /// Appends a sensitivity that multiplies only the Y-axis by the given factor.
    fn sensitivity_y(self, sensitivity: Scalar) -> (r: Self)
        ensures
            call_ensures(
                Self::with_processor,
                (self, DualAxisProcessor::Sensitivity(DualAxisSensitivity::only_y(sensitivity))),
                r,
            ),
    {
        self.with_processor(DualAxisProcessor::Sensitivity(DualAxisSensitivity::only_y(sensitivity)))
    }

    /// Appends bounds that restrict both axes to `[min, max]`.
    fn with_bounds(self, min: Scalar, max: Scalar) -> (r: Self)
        ensures
            call_ensures(
                Self::with_processor,
                (self, DualAxisProcessor::ValueBounds(DualAxisBounds::all(min, max))),
                r,
            ),
    {
        self.with_processor(DualAxisProcessor::ValueBounds(DualAxisBounds::all(min, max)))
    }

    /// Appends bounds that restrict both axes to `[-threshold, threshold]`.
    fn with_bounds_symmetric(self, threshold: Scalar) -> (r: Self)
        ensures
            call_ensures(
                Self::with_processor,
                (self, DualAxisProcessor::ValueBounds(DualAxisBounds::symmetric_all(threshold))),
                r,
            ),
    {
        self.with_processor(DualAxisProcessor::ValueBounds(DualAxisBounds::symmetric_all(threshold)))
    }

    /// Appends bounds that restrict only the X-axis to `[min, max]`.
    fn with_bounds_x(self, min: Scalar, max: Scalar) -> (r: Self)
        ensures
            call_ensures(
                Self::with_processor,
                (self, DualAxisProcessor::ValueBounds(DualAxisBounds::only_x(min, max))),
                r,
            ),
    {
        self.with_processor(DualAxisProcessor::ValueBounds(DualAxisBounds::only_x(min, max)))
    }

    /// Appends bounds that restrict both axes to `[-threshold, threshold]`.
    fn with_bounds_x_symmetric(self, threshold: Scalar) -> (r: Self)
        ensures
            call_ensures(
                Self::with_processor,
                (self, DualAxisProcessor::ValueBounds(DualAxisBounds::symmetric_all(threshold))),
                r,
            ),
    {
        self.with_processor(DualAxisProcessor::ValueBounds(DualAxisBounds::symmetric_all(threshold)))
    }

    /// Appends bounds that restrict only the Y-axis to `[min, max]`.
    fn with_bounds_y(self, min: Scalar, max: Scalar) -> (r: Self)
        ensures
            call_ensures(
                Self::with_processor,
                (self, DualAxisProcessor::ValueBounds(DualAxisBounds::only_y(min, max))),
                r,
            ),
    {
        self.with_processor(DualAxisProcessor::ValueBounds(DualAxisBounds::only_y(min, max)))
    }

    /// Appends bounds that restrict both axes to `[-threshold, threshold]`.
    fn with_bounds_y_symmetric(self, threshold: Scalar) -> (r: Self)
        ensures
            call_ensures(
                Self::with_processor,
                (self, DualAxisProcessor::ValueBounds(DualAxisBounds::symmetric_all(threshold))),
                r,
            ),
    {
        self.with_processor(DualAxisProcessor::ValueBounds(DualAxisBounds::symmetric_all(threshold)))
    }

    /// Appends bounds that restrict values to a magnitude of at most `max`.
    fn with_circle_bounds(self, max: Scalar) -> (r: Self)
        ensures
            call_ensures(
                Self::with_processor,
                (self, DualAxisProcessor::CircleBounds(CircleBounds::new(max))),
                r,
            ),
    {
        self.with_processor(DualAxisProcessor::CircleBounds(CircleBounds::new(max)))
    }

    /// Appends a scaled dead zone `[min, max]` on both axes.
    fn with_deadzone(self, min: Scalar, max: Scalar) -> (r: Self)
        ensures
            call_ensures(
                Self::with_processor,
                (self, DualAxisProcessor::DeadZone(DualAxisDeadZone::all(min, max))),
                r,
            ),
    {
        self.with_processor(DualAxisProcessor::DeadZone(DualAxisDeadZone::all(min, max)))
    }

    /// Appends a scaled dead zone `[-threshold, threshold]` on both axes.
    fn with_deadzone_symmetric(self, threshold: Scalar) -> (r: Self)
        ensures
            call_ensures(
                Self::with_processor,
                (self, DualAxisProcessor::DeadZone(DualAxisDeadZone::symmetric_all(threshold))),
                r,
            ),
    {
        self.with_processor(DualAxisProcessor::DeadZone(DualAxisDeadZone::symmetric_all(threshold)))
    }

    /// Appends a scaled dead zone `[min, max]` on the X-axis only.
    fn with_deadzone_x(self, min: Scalar, max: Scalar) -> (r: Self)
        ensures
            call_ensures(
                Self::with_processor,
                (self, DualAxisProcessor::DeadZone(DualAxisDeadZone::only_x(min, max))),
                r,
            ),
    {
        self.with_processor(DualAxisProcessor::DeadZone(DualAxisDeadZone::only_x(min, max)))
    }

    /// Appends a scaled dead zone `[-threshold, threshold]` on the X-axis only.
    fn with_deadzone_x_symmetric(self, threshold: Scalar) -> (r: Self)
        ensures
            call_ensures(
                Self::with_processor,
                (self, DualAxisProcessor::DeadZone(DualAxisDeadZone::symmetric_only_x(threshold))),
                r,
            ),
    {
        self.with_processor(DualAxisProcessor::DeadZone(DualAxisDeadZone::symmetric_only_x(threshold)))
    }

    /// Appends a scaled dead zone `[min, max]` on the Y-axis only.
    fn with_deadzone_y(self, min: Scalar, max: Scalar) -> (r: Self)
        ensures
            call_ensures(
                Self::with_processor,
                (self, DualAxisProcessor::DeadZone(DualAxisDeadZone::only_y(min, max))),
                r,
            ),
    {
        self.with_processor(DualAxisProcessor::DeadZone(DualAxisDeadZone::only_y(min, max)))
    }

    /// Appends a scaled dead zone `[-threshold, threshold]` on the Y-axis only.
    fn with_deadzone_y_symmetric(self, threshold: Scalar) -> (r: Self)
        ensures
            call_ensures(
                Self::with_processor,
                (self, DualAxisProcessor::DeadZone(DualAxisDeadZone::symmetric_only_y(threshold))),
                r,
            ),
    {
        self.with_processor(DualAxisProcessor::DeadZone(DualAxisDeadZone::symmetric_only_y(threshold)))
    }

    /// Appends a scaled dead zone for magnitudes of at most `min`.
    fn with_circle_deadzone(self, min: Scalar) -> (r: Self)
        ensures
            call_ensures(
                Self::with_processor,
                (self, DualAxisProcessor::CircleDeadZone(CircleDeadZone::new(min))),
                r,
            ),
    {
        self.with_processor(DualAxisProcessor::CircleDeadZone(CircleDeadZone::new(min)))
    }

    /// Appends an unscaled dead zone `[min, max]` on both axes.
    fn with_deadzone_unscaled(self, min: Scalar, max: Scalar) -> (r: Self)
        ensures
            call_ensures(
                Self::with_processor,
                (self, DualAxisProcessor::Exclusion(DualAxisExclusion::all(min, max))),
                r,
            ),
    {
        self.with_processor(DualAxisProcessor::Exclusion(DualAxisExclusion::all(min, max)))
    }

    /// Appends an unscaled dead zone `[-threshold, threshold]` on both axes.
    fn with_deadzone_symmetric_unscaled(self, threshold: Scalar) -> (r: Self)
        ensures
            call_ensures(
                Self::with_processor,
                (self, DualAxisProcessor::Exclusion(DualAxisExclusion::symmetric_all(threshold))),
                r,
            ),
    {
        self.with_processor(DualAxisProcessor::Exclusion(DualAxisExclusion::symmetric_all(threshold)))
    }

    /// Appends an unscaled dead zone `[min, max]` on the X-axis only.
    fn with_deadzone_x_unscaled(self, min: Scalar, max: Scalar) -> (r: Self)
        ensures
            call_ensures(
                Self::with_processor,
                (self, DualAxisProcessor::Exclusion(DualAxisExclusion::only_x(min, max))),
                r,
            ),
    {
        self.with_processor(DualAxisProcessor::Exclusion(DualAxisExclusion::only_x(min, max)))
    }

    /// Appends an unscaled dead zone `[-threshold, threshold]` on the X-axis only.
    fn with_deadzone_x_symmetric_unscaled(self, threshold: Scalar) -> (r: Self)
        ensures
            call_ensures(
                Self::with_processor,
                (self, DualAxisProcessor::Exclusion(DualAxisExclusion::symmetric_only_x(threshold))),
                r,
            ),
    {
        self.with_processor(DualAxisProcessor::Exclusion(DualAxisExclusion::symmetric_only_x(threshold)))
    }

    /// Appends an unscaled dead zone `[min, max]` on the Y-axis only.
    fn with_deadzone_y_unscaled(self, min: Scalar, max: Scalar) -> (r: Self)
        ensures
            call_ensures(
                Self::with_processor,
                (self, DualAxisProcessor::Exclusion(DualAxisExclusion::only_y(min, max))),
                r,
            ),
    {
        self.with_processor(DualAxisProcessor::Exclusion(DualAxisExclusion::only_y(min, max)))
    }

    /// Appends an unscaled dead zone `[-threshold, threshold]` on the Y-axis only.
    fn with_deadzone_y_symmetric_unscaled(self, threshold: Scalar) -> (r: Self)
        ensures
            call_ensures(
                Self::with_processor,
                (self, DualAxisProcessor::Exclusion(DualAxisExclusion::symmetric_only_y(threshold))),
                r,
            ),
    {
        self.with_processor(DualAxisProcessor::Exclusion(DualAxisExclusion::symmetric_only_y(threshold)))
    }

    /// Appends an unscaled dead zone for magnitudes of at most `min`.
    fn with_circle_deadzone_unscaled(self, min: Scalar) -> (r: Self)
        ensures
            call_ensures(
                Self::with_processor,
                (self, DualAxisProcessor::CircleExclusion(CircleExclusion::new(min))),
                r,
            ),
    {
        self.with_processor(DualAxisProcessor::CircleExclusion(CircleExclusion::new(min)))
    }
}

impl DualAxisInverted {
    /// Which axes are flipped: first X, then Y.
    pub open spec fn flips(self) -> (bool, bool) {
        match self {
            DualAxisInverted::ALL => (true, true),
            DualAxisInverted::ONLY_X => (true, false),
            DualAxisInverted::ONLY_Y => (false, true),
        }
    }

    /// The value with the sign of each flipped component reversed.
    pub open spec fn invert_spec(self, value: ScalarPair) -> ScalarPair {
        ScalarPair {
            x: if self.flips().0 {
                value.x.neg()
            } else {
                value.x
            },
            y: if self.flips().1 {
                value.y.neg()
            } else {
                value.y
            },
        }
    }

    /// Are inputs inverted on each axis?
    #[must_use]
    pub fn inverted(&self) -> (r: (bool, bool))
        ensures
            r == self.flips(),
    {
        match self {
            DualAxisInverted::ALL => (true, true),
            DualAxisInverted::ONLY_X => (true, false),
            DualAxisInverted::ONLY_Y => (false, true),
        }
    }

    /// Reverses the sign of `input_value` on every flipped axis.
    #[must_use]
    pub fn invert(&self, input_value: ScalarPair) -> (r: ScalarPair)
        ensures
            r == self.invert_spec(input_value),
    {
        let flips = self.inverted();
        let x = if flips.0 {
            input_value.x.negated()
        } else {
            input_value.x
        };
        let y = if flips.1 {
            input_value.y.negated()
        } else {
            input_value.y
        };
        ScalarPair { x, y }
    }

    /// Inverting twice with the same flips gives back every bit of the value.
    pub proof fn lemma_invert_involution(self, value: ScalarPair)
        ensures
            self.invert_spec(self.invert_spec(value)) == value,
    {
        value.x.lemma_neg_involution();
        value.y.lemma_neg_involution();
    }
}

impl DualAxisSensitivity {
    /// The sensitivity with the given values for each axis separately.
    pub open spec fn new_spec(sensitivity_x: Scalar, sensitivity_y: Scalar) -> DualAxisSensitivity {
        DualAxisSensitivity(ScalarPair { x: sensitivity_x, y: sensitivity_y })
    }

    /// The sensitivity with the same value for both axes.
    pub open spec fn all_spec(sensitivity: Scalar) -> DualAxisSensitivity {
        DualAxisSensitivity::new_spec(sensitivity, sensitivity)
    }

    /// The sensitivity that leaves the Y-axis as it is: its factor is one.
    pub open spec fn only_x_spec(sensitivity: Scalar) -> DualAxisSensitivity {
        DualAxisSensitivity::new_spec(sensitivity, Scalar { bits: 0x3f80_0000 })
    }

    /// The sensitivity that leaves the X-axis as it is: its factor is one.
    pub open spec fn only_y_spec(sensitivity: Scalar) -> DualAxisSensitivity {
        DualAxisSensitivity::new_spec(Scalar { bits: 0x3f80_0000 }, sensitivity)
    }

    /// Creates a [`DualAxisSensitivity`] with the given values for each axis separately.
    #[verifier::when_used_as_spec(new_spec)]
    pub fn new(sensitivity_x: Scalar, sensitivity_y: Scalar) -> (r: DualAxisSensitivity)
        ensures
            r == DualAxisSensitivity::new_spec(sensitivity_x, sensitivity_y),
    {
        DualAxisSensitivity(ScalarPair { x: sensitivity_x, y: sensitivity_y })
    }

    /// Creates a [`DualAxisSensitivity`] with the same value for both axes.
    #[verifier::when_used_as_spec(all_spec)]
    pub fn all(sensitivity: Scalar) -> (r: DualAxisSensitivity)
        ensures
            r == DualAxisSensitivity::all_spec(sensitivity),
    {
        DualAxisSensitivity::new(sensitivity, sensitivity)
    }

    /// Creates a [`DualAxisSensitivity`] that only affects the X-axis using the given value.
    #[verifier::when_used_as_spec(only_x_spec)]
    pub fn only_x(sensitivity: Scalar) -> (r: DualAxisSensitivity)
        ensures
            r == DualAxisSensitivity::only_x_spec(sensitivity),
    {
        DualAxisSensitivity::new(sensitivity, Scalar::one())
    }

    /// Creates a [`DualAxisSensitivity`] that only affects the Y-axis using the given value.
    #[verifier::when_used_as_spec(only_y_spec)]
    pub fn only_y(sensitivity: Scalar) -> (r: DualAxisSensitivity)
        ensures
            r == DualAxisSensitivity::only_y_spec(sensitivity),
    {
        DualAxisSensitivity::new(Scalar::one(), sensitivity)
    }

    /// Whether `output` is the `input` multiplied by the sensitivities,
    /// component by component: the X factor with the X component and the Y
    /// factor with the Y component.
    pub open spec fn scales<A: Arithmetic>(
        self,
        arithmetic: &A,
        input: ScalarPair,
        output: ScalarPair,
    ) -> bool {
        &&& call_ensures(A::multiply, (arithmetic, self.0.x, input.x), output.x)
        &&& call_ensures(A::multiply, (arithmetic, self.0.y, input.y), output.y)
    }

    /// Multiplies the `input_value` by the sensitivities, component by
    /// component.
    #[must_use]
    pub fn scale<A: Arithmetic>(&self, input_value: ScalarPair, arithmetic: &A) -> (r: ScalarPair)
        ensures
            self.scales(arithmetic, input_value, r),
    {
        let x = arithmetic.multiply(self.0.x, input_value.x);
        let y = arithmetic.multiply(self.0.y, input_value.y);
        ScalarPair { x, y }
    }

    /// Returns the sensitivity values.
    #[must_use]
    pub fn sensitivities(&self) -> (r: ScalarPair)
        ensures
            r == self.0,
    {
        self.0
    }
}

impl DualAxisProcessor {
    /// Whether `other` is the same processor: of the same kind, with
    /// parameters that are equal as scalars and, for pipelines, with the same
    /// stages in the same order. Processors of different kinds are never
    /// the same.
    pub open spec fn same(self, other: DualAxisProcessor) -> bool
        decreases self,
    {
        match (self, other) {
            (DualAxisProcessor::NoOp, DualAxisProcessor::NoOp) => true,
            (DualAxisProcessor::Inverted(a), DualAxisProcessor::Inverted(b)) => a == b,
            (DualAxisProcessor::Sensitivity(a), DualAxisProcessor::Sensitivity(b)) => a.0.same(b.0),
            (DualAxisProcessor::ValueBounds(a), DualAxisProcessor::ValueBounds(b)) => {
                a.bounds_x.same(b.bounds_x) && a.bounds_y.same(b.bounds_y)
            },
            (DualAxisProcessor::Exclusion(a), DualAxisProcessor::Exclusion(b)) => {
                a.exclusion_x.same(b.exclusion_x) && a.exclusion_y.same(b.exclusion_y)
            },
            (DualAxisProcessor::DeadZone(a), DualAxisProcessor::DeadZone(b)) => {
                a.deadzone_x.same(b.deadzone_x) && a.deadzone_y.same(b.deadzone_y)
            },
            (DualAxisProcessor::CircleBounds(a), DualAxisProcessor::CircleBounds(b)) => {
                a.radius.key() == b.radius.key()
            },
            (DualAxisProcessor::CircleExclusion(a), DualAxisProcessor::CircleExclusion(b)) => {
                a.radius.key() == b.radius.key()
            },
            (DualAxisProcessor::CircleDeadZone(a), DualAxisProcessor::CircleDeadZone(b)) => {
                a.radius.key() == b.radius.key()
            },
            (DualAxisProcessor::Pipeline(a), DualAxisProcessor::Pipeline(b)) => {
                &&& a@.len() == b@.len()
                &&& forall|i: int| 0 <= i < a@.len() ==> (#[trigger] *a@[i]).same(*b@[i])
            },
            (DualAxisProcessor::Custom(a), DualAxisProcessor::Custom(b)) => a.id == b.id,
            _ => false,
        }
    }

    /// Whether `other` is the same processor.
    pub fn equals(&self, other: &DualAxisProcessor) -> (r: bool)
        ensures
            r == self.same(*other),
        decreases self,
    {
        match (self, other) {
            (DualAxisProcessor::NoOp, DualAxisProcessor::NoOp) => true,
            (DualAxisProcessor::Inverted(a), DualAxisProcessor::Inverted(b)) => *a == *b,
            (DualAxisProcessor::Sensitivity(a), DualAxisProcessor::Sensitivity(b)) => a.0 == b.0,
            (DualAxisProcessor::ValueBounds(a), DualAxisProcessor::ValueBounds(b)) => {
                a.bounds_x == b.bounds_x && a.bounds_y == b.bounds_y
            },
            (DualAxisProcessor::Exclusion(a), DualAxisProcessor::Exclusion(b)) => {
                a.exclusion_x == b.exclusion_x && a.exclusion_y == b.exclusion_y
            },
            (DualAxisProcessor::DeadZone(a), DualAxisProcessor::DeadZone(b)) => {
                a.deadzone_x == b.deadzone_x && a.deadzone_y == b.deadzone_y
            },
            (DualAxisProcessor::CircleBounds(a), DualAxisProcessor::CircleBounds(b)) => {
                a.radius == b.radius
            },
            (DualAxisProcessor::CircleExclusion(a), DualAxisProcessor::CircleExclusion(b)) => {
                a.radius == b.radius
            },
            (DualAxisProcessor::CircleDeadZone(a), DualAxisProcessor::CircleDeadZone(b)) => {
                a.radius == b.radius
            },
            (DualAxisProcessor::Pipeline(a), DualAxisProcessor::Pipeline(b)) => {
                if a.len() != b.len() {
                    return false;
                }
                let mut i: usize = 0;
                while i < a.len()
                    invariant
                        i <= a@.len(),
                        a@.len() == b@.len(),
                        *self == DualAxisProcessor::Pipeline(*a),
                        *other == DualAxisProcessor::Pipeline(*b),
                        forall|j: int| 0 <= j < i ==> (#[trigger] *a@[j]).same(*b@[j]),
                    decreases a@.len() - i,
                {
                    proof {
                        assert(decreases_to!(*self => self->Pipeline_0));
                        assert(decreases_to!(*a => a[i as int]));
                    }
                    if !a[i].equals(&b[i]) {
                        return false;
                    }
                    i += 1;
                }
                true
            },
            (DualAxisProcessor::Custom(a), DualAxisProcessor::Custom(b)) => a.id == b.id,
            _ => false,
        }
    }

    /// A processor is the same as itself, whatever bits its parameters
    /// hold: two processors built from the same bits are equal.
    pub proof fn lemma_same_reflexive(self)
        ensures
            self.same(self),
        decreases self,
    {
        match self {
            DualAxisProcessor::Pipeline(sequence) => {
                assert forall|i: int| 0 <= i < sequence@.len() implies (#[trigger] *sequence@[i]).same(
                    *sequence@[i],
                ) by {
                    (*sequence@[i]).lemma_same_reflexive();
                }
            },
            _ => {},
        }
    }

    /// Whether this is a single stage: neither the empty processor nor a pipeline.
    pub open spec fn is_stage(self) -> bool {
        !(self is NoOp) && !(self is Pipeline)
    }

    /// The stages this processor contributes when it is composed with
    /// another: none for the empty processor, its members for a pipeline,
    /// and itself otherwise.
    pub open spec fn stages(self) -> Seq<DualAxisProcessor> {
        match self {
            DualAxisProcessor::NoOp => Seq::empty(),
            DualAxisProcessor::Pipeline(sequence) => Seq::new(sequence@.len(), |i: int| *sequence@[i]),
            _ => seq![self],
        }
    }

    /// Whether `result` is what composing `first` with `next` gives: the
    /// other operand where one is empty, and else the pipeline of the stages
    /// of `first` followed by those of `next`.
    pub open spec fn is_composition(
        first: DualAxisProcessor,
        next: DualAxisProcessor,
        result: DualAxisProcessor,
    ) -> bool {
        if next is NoOp {
            result == first
        } else if first is NoOp {
            result == next
        } else {
            result is Pipeline && result.stages() =~= first.stages() + next.stages()
        }
    }

    /// Whether `output` is a value that this processor may give for `input`,
    /// with the given arithmetic.
    ///
    /// The empty processor gives the input back. A pipeline feeds the
    /// output of each stage to the next one, the first stage first. Every
    /// other processor is one stage, and gives what that stage gives.
    pub open spec fn maps<A: Arithmetic>(
        self,
        arithmetic: &A,
        input: ScalarPair,
        output: ScalarPair,
    ) -> bool
        decreases self,
    {
        match self {
            DualAxisProcessor::NoOp => output == input,
            DualAxisProcessor::Inverted(inversion) => output == inversion.invert_spec(input),
            DualAxisProcessor::Sensitivity(sensitivity) => sensitivity.scales(
                arithmetic,
                input,
                output,
            ),
            DualAxisProcessor::ValueBounds(bounds) => output == bounds.clamp_spec(input),
            DualAxisProcessor::Exclusion(exclusion) => output == exclusion.exclude_spec(input),
            DualAxisProcessor::DeadZone(deadzone) => {
                &&& deadzone.deadzone_x.normalizes(arithmetic, input.x, output.x)
                &&& deadzone.deadzone_y.normalizes(arithmetic, input.y, output.y)
            },
            DualAxisProcessor::CircleBounds(bounds) => bounds.clamps(arithmetic, input, output),
            DualAxisProcessor::CircleExclusion(exclusion) => exclusion.excludes(
                arithmetic,
                input,
                output,
            ),
            DualAxisProcessor::CircleDeadZone(deadzone) => deadzone.normalizes(
                arithmetic,
                input,
                output,
            ),
            DualAxisProcessor::Custom(stage) => call_ensures(
                A::custom,
                (arithmetic, stage, input),
                output,
            ),
            DualAxisProcessor::Pipeline(sequence) => exists|values: Seq<ScalarPair>|
                {
                    &&& values.len() == sequence@.len() + 1
                    &&& values[0] == input
                    &&& values[sequence@.len() as int] == output
                    &&& forall|i: int|
                        0 <= i < sequence@.len() ==> (#[trigger] *sequence@[i]).maps(
                            arithmetic,
                            values[i],
                            values[i + 1],
                        )
                },
        }
    }

    /// Creates a [`DualAxisProcessor::Pipeline`] from the given `processors`,
    /// each kept as one stage, in their order.
    pub fn pipeline(processors: Vec<DualAxisProcessor>) -> (r: DualAxisProcessor)
        ensures
            r is Pipeline,
            r.stages() =~= processors@,
    {
        DualAxisProcessor::from_iter(processors)
    }

    /// Wraps each of the given `processors` in a shared handle and collects
    /// them, in their order, into a [`DualAxisProcessor::Pipeline`].
    pub fn from_iter(processors: Vec<DualAxisProcessor>) -> (r: DualAxisProcessor)
        ensures
            r is Pipeline,
            r.stages() =~= processors@,
    {
        let ghost given = processors@;
        let mut sequence: Vec<Arc<DualAxisProcessor>> = Vec::new();
        for stage in iter: processors.into_iter()
            invariant
                iter.seq() == given,
                sequence@.len() == iter.index(),
                forall|j: int| 0 <= j < sequence@.len() ==> *sequence@[j] == given[j],
        {
            sequence.push(Arc::new(stage));
        }
        DualAxisProcessor::Pipeline(sequence)
    }

    /// Computes the result by processing the `input_value`.
    ///
    /// Sums, products, quotients and lengths are taken by `arithmetic`;
    /// which case a value falls under is decided here.
    #[must_use]
    pub fn process<A: Arithmetic>(
        &self,
        input_value: ScalarPair,
        arithmetic: &A,
    ) -> (r: ScalarPair)
        ensures
            self.maps(arithmetic, input_value, r),
        decreases self,
    {
        match self {
            DualAxisProcessor::NoOp => input_value,
            DualAxisProcessor::Inverted(inversion) => inversion.invert(input_value),
            DualAxisProcessor::Sensitivity(sensitivity) => sensitivity.scale(input_value, arithmetic),
            DualAxisProcessor::ValueBounds(bounds) => bounds.clamp(input_value),
            DualAxisProcessor::Exclusion(exclusion) => exclusion.exclude(input_value),
            DualAxisProcessor::DeadZone(deadzone) => deadzone.normalize(input_value, arithmetic),
            DualAxisProcessor::CircleBounds(bounds) => bounds.clamp(input_value, arithmetic),
            DualAxisProcessor::CircleExclusion(exclusion) => exclusion.exclude(
                input_value,
                arithmetic,
            ),
            DualAxisProcessor::CircleDeadZone(deadzone) => deadzone.normalize(
                input_value,
                arithmetic,
            ),
            DualAxisProcessor::Custom(stage) => arithmetic.custom(*stage, input_value),
            DualAxisProcessor::Pipeline(sequence) => {
                let mut value = input_value;
                let ghost mut values: Seq<ScalarPair> = seq![input_value];
                let mut i: usize = 0;
                while i < sequence.len()
                    invariant
                        i <= sequence@.len(),
                        values.len() == i + 1,
                        values[0] == input_value,
                        values[i as int] == value,
                        forall|j: int|
                            0 <= j < i ==> (#[trigger] *sequence@[j]).maps(
                                arithmetic,
                                values[j],
                                values[j + 1],
                            ),
                        *self == DualAxisProcessor::Pipeline(*sequence),
                    decreases sequence@.len() - i,
                {
                    proof {
                        assert(decreases_to!(*self => self->Pipeline_0));
                        assert(decreases_to!(*sequence => sequence[i as int]));
                    }
                    let next = sequence[i].process(value, arithmetic);
                    proof {
                        values = values.push(next);
                    }
                    value = next;
                    i += 1;
                }
                value
            },
        }
    }

    /// Appends the given `next_processor` as the next processing step.
    ///
    /// - If either processor is [`DualAxisProcessor::NoOp`], returns the other.
    /// - If both processors are [`DualAxisProcessor::Pipeline`], merges the two pipelines.
    /// - If the current processor is [`DualAxisProcessor::Pipeline`], pushes the other into it.
    /// - If the given processor is [`DualAxisProcessor::Pipeline`], prepends the current one into it.
    /// - If neither processor is [`DualAxisProcessor::NoOp`] nor a pipeline,
    ///     creates a new pipeline containing them.
    pub fn with_processor(self, next_processor: DualAxisProcessor) -> (r: DualAxisProcessor)
        ensures
            DualAxisProcessor::is_composition(self, next_processor, r),
    {
        match next_processor {
            DualAxisProcessor::NoOp => self,
            DualAxisProcessor::Pipeline(next_seq) => match self {
                DualAxisProcessor::NoOp => DualAxisProcessor::Pipeline(next_seq),
                DualAxisProcessor::Pipeline(self_seq) => {
                    let mut merged = self_seq;
                    let mut rest = next_seq;
                    merged.append(&mut rest);
                    DualAxisProcessor::Pipeline(merged)
                },
                first => {
                    let mut sequence = next_seq;
                    sequence.insert(0, Arc::new(first));
                    DualAxisProcessor::Pipeline(sequence)
                },
            },
            other => match self {
                DualAxisProcessor::NoOp => other,
                DualAxisProcessor::Pipeline(self_seq) => {
                    let mut sequence = self_seq;
                    sequence.push(Arc::new(other));
                    DualAxisProcessor::Pipeline(sequence)
                },
                first => {
                    let mut sequence: Vec<Arc<DualAxisProcessor>> = Vec::new();
                    sequence.push(Arc::new(first));
                    sequence.push(Arc::new(other));
                    DualAxisProcessor::Pipeline(sequence)
                },
            },
        }
    }
}

impl DualAxisProcessor {
    /// Whether `result` is what comes of starting from the empty processor
    /// and appending the given `stages` one by one, in their order.
    pub open spec fn is_chain(stages: Seq<DualAxisProcessor>, result: DualAxisProcessor) -> bool
        decreases stages.len(),
    {
        if stages.len() == 0 {
            result is NoOp
        } else {
            exists|previous: DualAxisProcessor|
                #![trigger DualAxisProcessor::is_composition(previous, stages.last(), result)]
                DualAxisProcessor::is_chain(stages.drop_last(), previous)
                    && DualAxisProcessor::is_composition(previous, stages.last(), result)
        }
    }

    /// The empty processor is the identity of composition: composed with it
    /// on either side, a processor comes back unchanged.
    pub proof fn lemma_identity(processor: DualAxisProcessor, result: DualAxisProcessor)
        ensures
            DualAxisProcessor::is_composition(DualAxisProcessor::NoOp, processor, result)
                ==> result == processor,
            DualAxisProcessor::is_composition(processor, DualAxisProcessor::NoOp, result)
                ==> result == processor,
    {
    }

    /// The stages of a composition are those of the first operand followed
    /// by those of the second, whatever the operands are.
    pub proof fn lemma_composition_stages(
        first: DualAxisProcessor,
        next: DualAxisProcessor,
        result: DualAxisProcessor,
    )
        requires
            DualAxisProcessor::is_composition(first, next, result),
        ensures
            result.stages() =~= first.stages() + next.stages(),
            result is Pipeline <==> (first is Pipeline && next is NoOp) || (first is NoOp
                && next is Pipeline) || (!(first is NoOp) && !(next is NoOp)),
    {
    }

    /// Composition is associative: grouping three operands to the left or to
    /// the right gives processors of the same kind with the same stages, and
    /// the very same processor where the result is not a pipeline.
    pub proof fn lemma_associative(
        a: DualAxisProcessor,
        b: DualAxisProcessor,
        c: DualAxisProcessor,
        ab: DualAxisProcessor,
        bc: DualAxisProcessor,
        left: DualAxisProcessor,
        right: DualAxisProcessor,
    )
        requires
            DualAxisProcessor::is_composition(a, b, ab),
            DualAxisProcessor::is_composition(ab, c, left),
            DualAxisProcessor::is_composition(b, c, bc),
            DualAxisProcessor::is_composition(a, bc, right),
        ensures
            left.stages() =~= right.stages(),
            left is Pipeline <==> right is Pipeline,
            !(left is Pipeline) ==> left == right,
    {
        DualAxisProcessor::lemma_composition_stages(a, b, ab);
        DualAxisProcessor::lemma_composition_stages(ab, c, left);
        DualAxisProcessor::lemma_composition_stages(b, c, bc);
        DualAxisProcessor::lemma_composition_stages(a, bc, right);
    }

    /// Appending single stages one by one keeps every one of them, in order;
    /// one stage alone stays what it is, and two or more form a pipeline.
    pub proof fn lemma_chain_stages(stages: Seq<DualAxisProcessor>, result: DualAxisProcessor)
        requires
            stages.len() >= 1,
            forall|i: int| 0 <= i < stages.len() ==> (#[trigger] stages[i]).is_stage(),
            DualAxisProcessor::is_chain(stages, result),
        ensures
            result.stages() =~= stages,
            stages.len() == 1 ==> result == stages[0],
            stages.len() >= 2 ==> result is Pipeline,
        decreases stages.len(),
    {
        let previous = choose|previous: DualAxisProcessor|
            #![trigger DualAxisProcessor::is_composition(previous, stages.last(), result)]
            DualAxisProcessor::is_chain(stages.drop_last(), previous)
                && DualAxisProcessor::is_composition(previous, stages.last(), result);
        if stages.len() == 1 {
            assert(previous is NoOp);
        } else {
            let front = stages.drop_last();
            assert forall|i: int| 0 <= i < front.len() implies (#[trigger] front[i]).is_stage() by {
                assert(front[i] == stages[i]);
            }
            DualAxisProcessor::lemma_chain_stages(front, previous);
            assert(!(previous is NoOp));
            assert(front + seq![stages.last()] =~= stages);
        }
    }

    /// Whether `values` are the values that a run through the given `stages`
    /// passes: the input first, then the output of each stage in turn.
    pub open spec fn runs<A: Arithmetic>(
        stages: Seq<DualAxisProcessor>,
        arithmetic: &A,
        values: Seq<ScalarPair>,
    ) -> bool {
        &&& values.len() == stages.len() + 1
        &&& forall|i: int|
            0 <= i < stages.len() ==> (#[trigger] stages[i]).maps(
                arithmetic,
                values[i],
                values[i + 1],
            )
    }

    /// What a processor other than the empty one gives is what a run through
    /// its stages gives. The result holds the values that such a run passes.
    pub proof fn lemma_maps_runs<A: Arithmetic>(
        self,
        arithmetic: &A,
        input: ScalarPair,
        output: ScalarPair,
    ) -> (values: Seq<ScalarPair>)
        requires
            !(self is NoOp),
            self.maps(arithmetic, input, output),
        ensures
            DualAxisProcessor::runs(self.stages(), arithmetic, values),
            values[0] == input,
            values[self.stages().len() as int] == output,
    {
        match self {
            DualAxisProcessor::Pipeline(sequence) => {
                let values = choose|values: Seq<ScalarPair>|
                    {
                        &&& values.len() == sequence@.len() + 1
                        &&& values[0] == input
                        &&& values[sequence@.len() as int] == output
                        &&& forall|i: int|
                            0 <= i < sequence@.len() ==> (#[trigger] *sequence@[i]).maps(
                                arithmetic,
                                values[i],
                                values[i + 1],
                            )
                    };
                assert forall|i: int| 0 <= i < self.stages().len() implies (
                #[trigger] self.stages()[i]).maps(arithmetic, values[i], values[i + 1]) by {
                    assert(self.stages()[i] == *sequence@[i]);
                }
                values
            },
            _ => {
                let values = seq![input, output];
                assert(self.stages()[0] == self);
                values
            },
        }
    }

    /// Processing with a composition is processing with the first operand
    /// and then, on what it gives, with the second.
    pub proof fn lemma_composition_maps<A: Arithmetic>(
        first: DualAxisProcessor,
        next: DualAxisProcessor,
        result: DualAxisProcessor,
        arithmetic: &A,
        input: ScalarPair,
        middle: ScalarPair,
        output: ScalarPair,
    )
        requires
            DualAxisProcessor::is_composition(first, next, result),
            first.maps(arithmetic, input, middle),
            next.maps(arithmetic, middle, output),
        ensures
            result.maps(arithmetic, input, output),
    {
        if !(next is NoOp) && !(first is NoOp) {
            let head = first.lemma_maps_runs(arithmetic, input, middle);
            let tail = next.lemma_maps_runs(arithmetic, middle, output);
            let front = first.stages();
            let back = next.stages();
            let values = head + tail.subrange(1, tail.len() as int);
            let sequence = result->Pipeline_0;
            assert forall|i: int| 0 <= i < sequence@.len() implies (#[trigger] *sequence@[i]).maps(
                arithmetic,
                values[i],
                values[i + 1],
            ) by {
                assert(*sequence@[i] == result.stages()[i]);
                if i < front.len() {
                    assert(result.stages()[i] == front[i]);
                    assert(front[i].maps(arithmetic, head[i], head[i + 1]));
                } else {
                    let j = i - front.len();
                    assert(result.stages()[i] == back[j]);
                    assert(back[j].maps(arithmetic, tail[j], tail[j + 1]));
                    assert(values[i + 1] == tail[j + 1]);
                    assert(values[i] == tail[j]);
                }
            }
            assert(values.len() == sequence@.len() + 1);
            assert(values[0] == input);
            assert(values[sequence@.len() as int] == output);
        }
    }

    /// Building a pipeline by appending two or more single stages one by one
    /// gives what building it directly from their sequence gives: a pipeline
    /// that holds exactly these stages, in their order.
    pub proof fn lemma_chain_is_pipeline(stages: Seq<DualAxisProcessor>, result: DualAxisProcessor)
        requires
            stages.len() >= 2,
            forall|i: int| 0 <= i < stages.len() ==> (#[trigger] stages[i]).is_stage(),
            DualAxisProcessor::is_chain(stages, result),
        ensures
            result is Pipeline,
            result.stages() =~= stages,
    {
        DualAxisProcessor::lemma_chain_stages(stages, result);
    }
}

} // verus!

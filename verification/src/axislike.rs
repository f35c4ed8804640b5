//! Tools for working with directional axis-like user inputs
//! (gamesticks, D-Pads and emulated equivalents).
use crate::arithmetic::Arithmetic;
use crate::input_like::InputKind;
use crate::input_processing::dual_axis::CircleBounds;
use crate::scalar::feed_u32;
use crate::scalar::Scalar;
use crate::scalar::ScalarPair;
use std::hash::Hash;
use std::hash::Hasher;
use vstd::prelude::*;

verus! {

/// The bit pattern of 0.00001: a position that is shorter than this has no
/// direction.
pub const NEUTRAL_LENGTH_BITS: u32 = 0x3727_c5ac;

/// The direction of motion of the mouse.
#[derive(Debug, Clone, Copy, PartialEq, Eq, Hash, Structural)]
pub enum MouseMotionAxisType {
    /// Horizontal movement.
    X,
    /// Vertical movement.
    Y,
}

/// The type of axis used by an input.
#[derive(Debug, Clone, Copy, PartialEq, Eq, Hash, Structural)]
pub enum AxisType {
    /// Input associated with movement of the mouse.
    MouseMotion(MouseMotionAxisType),
}

/// An [`AxisType`] could not be converted into a more specialized variant.
#[derive(Debug, Clone, Copy, PartialEq, Eq, Structural)]
pub struct AxisConversionError;

impl AxisType {
    /// The number of the channel: each channel has its own.
    pub open spec fn code_spec(self) -> u32 {
        match self {
            AxisType::MouseMotion(MouseMotionAxisType::X) => 0,
            AxisType::MouseMotion(MouseMotionAxisType::Y) => 1,
        }
    }

    /// The number of the channel, by which it is hashed.
    pub fn code(&self) -> (r: u32)
        ensures
            r == self.code_spec(),
    {
        match self {
            AxisType::MouseMotion(MouseMotionAxisType::X) => 0,
            AxisType::MouseMotion(MouseMotionAxisType::Y) => 1,
        }
    }

    /// Two channels have the same number exactly when they are the same
    /// channel.
    pub proof fn lemma_code_injective(self, other: AxisType)
        ensures
            self.code_spec() == other.code_spec() <==> self == other,
    {
    }
}

impl From<MouseMotionAxisType> for AxisType {
    fn from(axis_type: MouseMotionAxisType) -> (r: AxisType) {
        AxisType::MouseMotion(axis_type)
    }
}

impl vstd::std_specs::convert::FromSpecImpl<MouseMotionAxisType> for AxisType {
    open spec fn obeys_from_spec() -> bool {
        true
    }

    open spec fn from_spec(axis_type: MouseMotionAxisType) -> AxisType {
        AxisType::MouseMotion(axis_type)
    }
}

impl TryFrom<AxisType> for MouseMotionAxisType {
    type Error = AxisConversionError;

    /// The mouse-motion direction that `axis_type` stands for. The
    /// conversion succeeds exactly on the mouse-motion axes.
    fn try_from(axis_type: AxisType) -> (r: Result<MouseMotionAxisType, AxisConversionError>) {
        match axis_type {
            AxisType::MouseMotion(inner) => Ok(inner),
        }
    }
}

impl vstd::std_specs::convert::TryFromSpecImpl<AxisType> for MouseMotionAxisType {
    open spec fn obeys_try_from_spec() -> bool {
        true
    }

    open spec fn try_from_spec(axis_type: AxisType) -> Result<
        MouseMotionAxisType,
        AxisConversionError,
    > {
        match axis_type {
            AxisType::MouseMotion(inner) => Ok(inner),
        }
    }
}

/// A single directional axis with a configurable trigger zone.
///
/// A value above `positive_low` or below `negative_low` triggers the input.
/// `positive_low` is meant to be at least `negative_low`.
///
/// `value` is a target value for input mocking. It takes no part in equality
/// or hashing.
#[derive(Debug, Clone, Copy)]
pub struct SingleAxis {
    /// The axis that is being checked.
    pub axis_type: AxisType,
    /// Any axis value higher than this will trigger the input.
    pub positive_low: Scalar,
    /// Any axis value lower than this will trigger the input.
    pub negative_low: Scalar,
    /// The target value for this input, used for input mocking.
    pub value: Option<Scalar>,
}

impl SingleAxis {
    /// Whether two axes describe the same input: the same channel, and
    /// thresholds that are equal as scalars. The mocking value is not looked at.
    pub open spec fn same(self, other: SingleAxis) -> bool {
        &&& self.axis_type == other.axis_type
        &&& self.positive_low.key() == other.positive_low.key()
        &&& self.negative_low.key() == other.negative_low.key()
    }

    /// Whether the trigger zone is well formed: `negative_low` is a number
    /// that is not above `positive_low`.
    pub open spec fn valid(self) -> bool {
        self.negative_low.le(self.positive_low)
    }

    /// Whether the trigger zone is well formed. No constructor checks this:
    /// an axis that fails it has a degenerate trigger zone.
    pub fn is_valid(&self) -> (r: bool)
        ensures
            r == self.valid(),
    {
        self.negative_low.at_most(self.positive_low)
    }

    /// What makes this axis the input it is: its channel and the canonical
    /// patterns of its two thresholds.
    pub open spec fn identity_spec(self) -> (AxisType, u32, u32) {
        (self.axis_type, self.positive_low.key(), self.negative_low.key())
    }

    /// What makes this axis the input it is. Equality compares it and
    /// hashing feeds it; the mocking value is no part of it.
    pub fn identity(&self) -> (r: (AxisType, u32, u32))
        ensures
            r == self.identity_spec(),
    {
        (self.axis_type, self.positive_low.canonical_bits(), self.negative_low.canonical_bits())
    }

    /// Creates a [`SingleAxis`] with `positive_low` set to `threshold` and
    /// `negative_low` set to its negation.
    #[must_use]
    pub fn symmetric(axis_type: AxisType, threshold: Scalar) -> (r: SingleAxis)
        ensures
            r.axis_type == axis_type,
            r.positive_low == threshold,
            r.negative_low == threshold.neg(),
            r.value is None,
    {
        SingleAxis {
            axis_type,
            positive_low: threshold,
            negative_low: threshold.negated(),
            value: None,
        }
    }

    /// Creates a [`SingleAxis`] with the specified `axis_type` and `value`.
    ///
    /// All thresholds are set to zero.
    #[must_use]
    pub fn from_value(axis_type: AxisType, value: Scalar) -> (r: SingleAxis)
        ensures
            r.axis_type == axis_type,
            r.positive_low.bits == 0,
            r.negative_low.bits == 0,
            r.value == Some(value),
    {
        SingleAxis {
            axis_type,
            positive_low: Scalar::zero(),
            negative_low: Scalar::zero(),
            value: Some(value),
        }
    }

    /// Creates a [`SingleAxis`] corresponding to horizontal mouse movement.
    #[must_use]
    pub fn mouse_motion_x() -> (r: SingleAxis)
        ensures
            r.axis_type == AxisType::MouseMotion(MouseMotionAxisType::X),
            r.positive_low.bits == 0,
            r.negative_low.bits == 0,
            r.value is None,
    {
        SingleAxis {
            axis_type: AxisType::MouseMotion(MouseMotionAxisType::X),
            positive_low: Scalar::zero(),
            negative_low: Scalar::zero(),
            value: None,
        }
    }

    /// Creates a [`SingleAxis`] corresponding to vertical mouse movement.
    #[must_use]
    pub fn mouse_motion_y() -> (r: SingleAxis)
        ensures
            r.axis_type == AxisType::MouseMotion(MouseMotionAxisType::Y),
            r.positive_low.bits == 0,
            r.negative_low.bits == 0,
            r.value is None,
    {
        SingleAxis {
            axis_type: AxisType::MouseMotion(MouseMotionAxisType::Y),
            positive_low: Scalar::zero(),
            negative_low: Scalar::zero(),
            value: None,
        }
    }

    /// Creates a [`SingleAxis`] with the `axis_type` and `negative_low` set to `threshold`.
    ///
    /// Positive values will not trigger the input: `positive_low` is the
    /// largest finite value.
    pub fn negative_only(axis_type: AxisType, threshold: Scalar) -> (r: SingleAxis)
        ensures
            r.axis_type == axis_type,
            r.negative_low == threshold,
            r.positive_low.bits == 0x7f7f_ffff,
            r.value is None,
    {
        SingleAxis {
            axis_type,
            negative_low: threshold,
            positive_low: Scalar::max_value(),
            value: None,
        }
    }

    /// Creates a [`SingleAxis`] with the `axis_type` and `positive_low` set to `threshold`.
    ///
    /// Negative values will not trigger the input: `negative_low` is the
    /// smallest finite value.
    pub fn positive_only(axis_type: AxisType, threshold: Scalar) -> (r: SingleAxis)
        ensures
            r.axis_type == axis_type,
            r.negative_low.bits == 0xff7f_ffff,
            r.positive_low == threshold,
            r.value is None,
    {
        SingleAxis {
            axis_type,
            negative_low: Scalar::min_value(),
            positive_low: threshold,
            value: None,
        }
    }

    /// Returns this [`SingleAxis`] with the deadzone set to the specified value.
    #[must_use]
    pub fn with_deadzone(self, deadzone: Scalar) -> (r: SingleAxis)
        ensures
            r.axis_type == self.axis_type,
            r.value == self.value,
            r.negative_low == deadzone.neg(),
            r.positive_low == deadzone,
    {
        SingleAxis {
            axis_type: self.axis_type,
            positive_low: deadzone,
            negative_low: deadzone.negated(),
            value: self.value,
        }
    }

    /// An axis around zero is well formed exactly when its threshold is a
    /// number that is not below zero; so it is for
    /// [`SingleAxis::symmetric`] and [`SingleAxis::with_deadzone`].
    pub proof fn lemma_symmetric_valid(axis: SingleAxis, threshold: Scalar)
        requires
            axis.positive_low == threshold,
            axis.negative_low == threshold.neg(),
        ensures
            axis.valid() <==> (Scalar { bits: 0 }).le(threshold),
    {
        threshold.lemma_neg_reverses_rank();
        Scalar::lemma_unit_values();
    }

    /// The mocking value never affects equality or what is hashed: two axes
    /// whose channel and thresholds have the same bits are equal and have
    /// the same identity, whatever their mocking values are.
    pub proof fn lemma_value_ignored(self, other: SingleAxis)
        requires
            self.axis_type == other.axis_type,
            self.positive_low.bits == other.positive_low.bits,
            self.negative_low.bits == other.negative_low.bits,
        ensures
            self.same(other),
            self.identity_spec() == other.identity_spec(),
    {
    }

    /// Two axes are equal exactly when they have the same identity, so equal
    /// axes feed the same values to a hasher.
    pub proof fn lemma_equal_iff_same_identity(self, other: SingleAxis)
        ensures
            self.same(other) <==> self.identity_spec() == other.identity_spec(),
    {
    }
}

impl PartialEq for SingleAxis {
    fn eq(&self, other: &SingleAxis) -> (r: bool) {
        let mine = self.identity();
        let theirs = other.identity();
        mine.0 == theirs.0 && mine.1 == theirs.1 && mine.2 == theirs.2
    }
}

impl Eq for SingleAxis {

}

impl vstd::std_specs::cmp::PartialEqSpecImpl for SingleAxis {
    open spec fn obeys_eq_spec() -> bool {
        true
    }

    open spec fn eq_spec(&self, other: &SingleAxis) -> bool {
        self.same(*other)
    }
}

impl Hash for SingleAxis {
    /// Feeds the identity of the axis to the hasher, and nothing else: the
    /// number of the channel, then the canonical patterns of the two
    /// thresholds. The mocking value is not fed.
    fn hash<H: Hasher>(&self, state: &mut H) {
        let identity = self.identity();
        feed_u32(state, identity.0.code());
        feed_u32(state, identity.1);
        feed_u32(state, identity.2);
    }
}

/// The combination of two input axes: a position in the plane whose neutral
/// origin is at (0, 0).
#[derive(Debug, Clone, Copy, PartialEq)]
pub struct DualAxisData {
    xy: ScalarPair,
}

impl DualAxisData {
    /// The position that this value holds.
    pub closed spec fn position(self) -> ScalarPair {
        self.xy
    }

    /// Creates a new [`DualAxisData`] from the provided (x,y) coordinates.
    pub fn new(x: Scalar, y: Scalar) -> (r: DualAxisData)
        ensures
            r.position() == (ScalarPair { x, y }),
    {
        DualAxisData { xy: ScalarPair { x, y } }
    }

    /// Creates a new [`DualAxisData`] directly from a pair.
    pub fn from_xy(xy: ScalarPair) -> (r: DualAxisData)
        ensures
            r.position() == xy,
    {
        DualAxisData { xy }
    }

    /// Merges the state of this [`DualAxisData`] with another: the sum of
    /// the two positions, component by component.
    ///
    /// The result may be longer than either position.
    pub fn merged_with<A: Arithmetic>(&self, other: DualAxisData, arithmetic: &A) -> (r:
        DualAxisData)
        ensures
            call_ensures(
                A::sum,
                (arithmetic, self.position().x, other.position().x),
                r.position().x,
            ),
            call_ensures(
                A::sum,
                (arithmetic, self.position().y, other.position().y),
                r.position().y,
            ),
    {
        let x = arithmetic.sum(self.xy.x, other.xy.x);
        let y = arithmetic.sum(self.xy.y, other.xy.y);
        DualAxisData { xy: ScalarPair { x, y } }
    }

    /// Whether `direction` is the direction of this position, if it has
    /// one: none where the length of the position is less than 0.00001, and
    /// else the position resized to length one.
    pub open spec fn points<A: Arithmetic>(
        self,
        arithmetic: &A,
        direction: Option<ScalarPair>,
    ) -> bool {
        exists|magnitude: Scalar| #[trigger]
            call_ensures(A::length, (arithmetic, self.position()), magnitude) && match direction {
                Some(unit) => !magnitude.lt(Scalar { bits: NEUTRAL_LENGTH_BITS }) && call_ensures(
                    A::resize,
                    (arithmetic, self.position(), Scalar { bits: 0x3f80_0000 }),
                    unit,
                ),
                None => magnitude.lt(Scalar { bits: NEUTRAL_LENGTH_BITS }),
            }
    }

    /// The direction that this axis is pointing towards, if any: `None`
    /// where the position is shorter than 0.00001, and else the position
    /// resized to length one.
    #[must_use]
    pub fn direction<A: Arithmetic>(&self, arithmetic: &A) -> (r: Option<ScalarPair>)
        ensures
            self.points(arithmetic, r),
    {
        let magnitude = arithmetic.length(self.xy);
        let threshold = Scalar::from_bits(NEUTRAL_LENGTH_BITS);
        assert(call_ensures(A::length, (arithmetic, self.position()), magnitude));
        if magnitude.less_than(threshold) {
            None
        } else {
            let unit = arithmetic.resize(self.xy, Scalar::one());
            assert(call_ensures(
                A::resize,
                (arithmetic, self.position(), Scalar { bits: 0x3f80_0000 }),
                unit,
            ));
            Some(unit)
        }
    }

    /// How far from the origin is this axis's position?
    #[must_use]
    pub fn length<A: Arithmetic>(&self, arithmetic: &A) -> (r: Scalar)
        ensures
            call_ensures(A::length, (arithmetic, self.position()), r),
    {
        arithmetic.length(self.xy)
    }

    /// Clamps the magnitude of the axis: a position that is longer than
    /// `max` is resized to `max`, and any other position stays as it is.
    pub fn clamp_length<A: Arithmetic>(&mut self, max: Scalar, arithmetic: &A)
        ensures
            (CircleBounds { radius: max }).clamps(
                arithmetic,
                old(self).position(),
                final(self).position(),
            ),
    {
        let bounds = CircleBounds::new(max);
        self.xy = bounds.clamp(self.xy, arithmetic);
    }

    /// The value along the x-axis.
    #[must_use]
    pub fn x(&self) -> (r: Scalar)
        ensures
            r == self.position().x,
    {
        self.xy.x
    }

    /// The value along the y-axis.
    #[must_use]
    pub fn y(&self) -> (r: Scalar)
        ensures
            r == self.position().y,
    {
        self.xy.y
    }

    /// The (x, y) values.
    #[must_use]
    pub fn xy(&self) -> (r: ScalarPair)
        ensures
            r == self.position(),
    {
        self.xy
    }
}

impl Default for DualAxisData {
    /// The neutral position.
    fn default() -> (r: DualAxisData)
        ensures
            r.position().x.bits == 0,
            r.position().y.bits == 0,
    {
        DualAxisData { xy: ScalarPair { x: Scalar::zero(), y: Scalar::zero() } }
    }
}

impl From<DualAxisData> for ScalarPair {
    fn from(data: DualAxisData) -> (r: ScalarPair) {
        data.xy
    }
}

impl vstd::std_specs::convert::FromSpecImpl<DualAxisData> for ScalarPair {
    open spec fn obeys_from_spec() -> bool {
        true
    }

    open spec fn from_spec(data: DualAxisData) -> ScalarPair {
        data.position()
    }
}

/// A virtual axis that gives a value between -1 and 1, made of two
/// button-like inputs.
#[derive(Debug, Clone, Copy, PartialEq, Eq, Hash)]
pub struct VirtualAxis {
    /// The input that represents the negative direction of this virtual axis.
    pub negative: InputKind,
    /// The input that represents the positive direction of this virtual axis.
    pub positive: InputKind,
}

} // verus!

use input_manager::arithmetic::share;
use input_manager::arithmetic::Arithmetic;
use input_manager::axislike::DualAxisData;
use input_manager::input_processing::dual_axis::CustomStage;
use input_manager::input_processing::dual_axis::AxisRange;
use input_manager::input_processing::dual_axis::CircleBounds;
use input_manager::input_processing::dual_axis::CircleDeadZone;
use input_manager::input_processing::dual_axis::CircleExclusion;
use input_manager::input_processing::dual_axis::DualAxisBounds;
use input_manager::input_processing::dual_axis::DualAxisDeadZone;
use input_manager::input_processing::dual_axis::DualAxisExclusion;
use input_manager::input_processing::dual_axis::DualAxisProcessor;
use input_manager::scalar::Scalar;
use input_manager::scalar::ScalarPair;

fn scalar(value: f32) -> Scalar {
    Scalar::from_bits(value.to_bits())
}

fn float(value: Scalar) -> f32 {
    f32::from_bits(value.to_bits())
}

fn pair(x: f32, y: f32) -> ScalarPair {
    ScalarPair::new(scalar(x), scalar(y))
}

struct Floats;

fn float_of(value: Scalar) -> f32 {
    f32::from_bits(value.to_bits())
}

fn scalar_of(value: f32) -> Scalar {
    Scalar::from_bits(value.to_bits())
}

impl Arithmetic for Floats {
    fn sum(&self, a: Scalar, b: Scalar) -> Scalar {
        scalar_of(float_of(a) + float_of(b))
    }

    fn difference(&self, a: Scalar, b: Scalar) -> Scalar {
        scalar_of(float_of(a) - float_of(b))
    }

    fn quotient(&self, a: Scalar, b: Scalar) -> Scalar {
        scalar_of(float_of(a) / float_of(b))
    }

    fn multiply(&self, factor: Scalar, value: Scalar) -> Scalar {
        scalar_of(float_of(factor) * float_of(value))
    }

    fn length(&self, value: ScalarPair) -> Scalar {
        let x = float_of(value.x);
        let y = float_of(value.y);
        scalar_of((x * x + y * y).sqrt())
    }

    fn resize(&self, value: ScalarPair, length: Scalar) -> ScalarPair {
        let current = float_of(self.length(value));
        let wanted = float_of(length);
        ScalarPair::new(
            scalar_of(float_of(value.x) / current * wanted),
            scalar_of(float_of(value.y) / current * wanted),
        )
    }

    fn custom(&self, stage: CustomStage, value: ScalarPair) -> ScalarPair {
        if stage.id == 1 {
            ScalarPair::new(value.y, value.x)
        } else {
            value
        }
    }
}

fn samples() -> Vec<f32> {
    vec![
        0.0,
        -0.0,
        1.0,
        -1.0,
        0.5,
        -0.5,
        1.0e-30,
        -1.0e-30,
        f32::MIN_POSITIVE,
        f32::from_bits(1),
        -f32::from_bits(1),
        f32::MAX,
        f32::MIN,
        f32::INFINITY,
        f32::NEG_INFINITY,
        f32::NAN,
        -f32::NAN,
        3.25,
        -7.75,
    ]
}

#[test]
fn order_of_scalars_is_the_order_of_their_values() {
    for a in samples() {
        for b in samples() {
            assert_eq!(scalar(a).at_most(scalar(b)), a <= b, "{a} <= {b}");
            assert_eq!(scalar(a).less_than(scalar(b)), a < b, "{a} < {b}");
        }
    }
}

#[test]
fn equality_of_scalars_is_equality_of_numbers() {
    for a in samples() {
        for b in samples() {
            let expected = (a.is_nan() && b.is_nan()) || a == b;
            assert_eq!(scalar(a) == scalar(b), expected, "{a} == {b}");
        }
    }
}

#[test]
fn range_clamps_like_a_comparison_of_numbers() {
    let range = AxisRange::new(scalar(-0.5), scalar(2.0));
    assert_eq!(range.clamp(scalar(-3.0)).to_bits(), (-0.5f32).to_bits());
    assert_eq!(range.clamp(scalar(-0.5)).to_bits(), (-0.5f32).to_bits());
    assert_eq!(range.clamp(scalar(0.25)).to_bits(), (0.25f32).to_bits());
    assert_eq!(range.clamp(scalar(2.0)).to_bits(), (2.0f32).to_bits());
    assert_eq!(range.clamp(scalar(2.5)).to_bits(), (2.0f32).to_bits());
    assert_eq!(range.clamp(scalar(f32::INFINITY)).to_bits(), (2.0f32).to_bits());
    assert_eq!(range.clamp(scalar(f32::NEG_INFINITY)).to_bits(), (-0.5f32).to_bits());
    assert!(range.clamp(scalar(f32::NAN)).is_nan());
    for v in samples() {
        if !v.is_nan() {
            assert_eq!(range.clamp(scalar(v)), scalar(v.clamp(-0.5, 2.0)));
        }
    }
}

#[test]
fn bounds_clamp_each_axis_on_its_own() {
    let bounds = DualAxisBounds::only_x(scalar(-1.0), scalar(1.0));
    assert_eq!(bounds.clamp(pair(5.0, 5.0)), pair(1.0, 5.0));
    assert_eq!(bounds.clamp(pair(-5.0, -5.0)), pair(-1.0, -5.0));
    let both = DualAxisBounds::symmetric_all(scalar(2.0));
    assert_eq!(both.clamp(pair(3.0, -3.0)), pair(2.0, -2.0));
    assert_eq!(both.clamp(pair(0.5, -0.5)), pair(0.5, -0.5));
    let processor = DualAxisProcessor::ValueBounds(both);
    assert_eq!(processor.process(pair(3.0, 1.0), &Floats), pair(2.0, 1.0));
}

#[test]
fn exclusion_zeroes_the_range_and_leaves_the_rest_unscaled() {
    let exclusion = DualAxisExclusion::all(scalar(-0.2), scalar(0.3));
    assert_eq!(exclusion.exclude(pair(0.1, -0.1)).x.to_bits(), 0);
    assert_eq!(exclusion.exclude(pair(0.1, -0.1)).y.to_bits(), 0);
    assert_eq!(exclusion.exclude(pair(0.3, -0.2)), pair(0.0, 0.0));
    assert_eq!(exclusion.exclude(pair(0.31, -0.21)).x.to_bits(), (0.31f32).to_bits());
    assert_eq!(exclusion.exclude(pair(0.31, -0.21)).y.to_bits(), (-0.21f32).to_bits());
    assert_eq!(exclusion.exclude(pair(5.0, 0.0)), pair(5.0, 0.0));
    let only_y = DualAxisExclusion::symmetric_only_y(scalar(0.5));
    assert_eq!(only_y.exclude(pair(0.25, 0.25)), pair(0.25, 0.0));
    let processor = DualAxisProcessor::Exclusion(exclusion);
    assert_eq!(processor.process(pair(0.1, 0.9), &Floats), pair(0.0, 0.9));
    assert!(AxisRange::new(scalar(-0.2), scalar(0.3)).contains(scalar(0.3)));
    assert!(!AxisRange::new(scalar(-0.2), scalar(0.3)).contains(scalar(f32::NAN)));
}

#[test]
fn dead_zone_is_zero_at_its_ends_and_the_edge_at_the_edge() {
    let deadzone = DualAxisDeadZone::all(scalar(-0.2), scalar(0.2));
    assert_eq!(deadzone.normalize(pair(0.2, -0.2), &Floats), pair(0.0, 0.0));
    assert_eq!(deadzone.normalize(pair(0.1, 0.0), &Floats), pair(0.0, 0.0));
    let at_edge = deadzone.normalize(pair(1.0, -1.0), &Floats);
    assert_eq!(at_edge.x.to_bits(), (1.0f32).to_bits());
    assert_eq!(at_edge.y.to_bits(), (-1.0f32).to_bits());
    let beyond = deadzone.normalize(pair(7.0, -7.0), &Floats);
    assert_eq!(beyond.x.to_bits(), (1.0f32).to_bits());
    assert_eq!(beyond.y.to_bits(), (-1.0f32).to_bits());
    let between = deadzone.normalize(pair(0.6, -0.6), &Floats);
    assert_eq!(between.x.to_bits(), ((0.6f32 - 0.2) / (1.0 - 0.2)).to_bits());
    assert_eq!(between.y.to_bits(), ((-0.6f32 + 0.2) / (-0.2 + 1.0)).to_bits());
}

#[test]
fn dead_zone_rises_between_its_end_and_the_edge() {
    let deadzone = AxisRange::symmetric(scalar(0.25));
    let mut last = 0.0f32;
    for step in 0..=75 {
        let value = 0.25 + step as f32 * 0.01;
        let output = float(deadzone.normalize(scalar(value), &Floats));
        assert!(output >= last, "{value}: {output} < {last}");
        assert!(output <= 1.0);
        last = output;
    }
}

#[test]
fn exclusion_and_dead_zone_differ_above_the_range() {
    let range = AxisRange::new(scalar(-0.2), scalar(0.2));
    for value in [0.3f32, 0.5, 0.9, 1.5, 4.0] {
        let excluded = range.exclude(scalar(value));
        let normalized = range.normalize(scalar(value), &Floats);
        assert_eq!(excluded.to_bits(), value.to_bits());
        assert_ne!(normalized, excluded);
    }
}

#[test]
fn circle_stages_decide_by_the_length() {
    let bounds = CircleBounds::new(scalar(5.0));
    assert_eq!(bounds.clamp(pair(3.0, 4.0), &Floats), pair(3.0, 4.0));
    assert_eq!(bounds.clamp(pair(6.0, 8.0), &Floats), pair(3.0, 4.0));

    let exclusion = CircleExclusion::new(scalar(5.0));
    assert_eq!(exclusion.exclude(pair(3.0, 4.0), &Floats), pair(0.0, 0.0));
    assert_eq!(exclusion.exclude(pair(6.0, 8.0), &Floats), pair(6.0, 8.0));

    let deadzone = CircleDeadZone::new(scalar(0.5));
    assert_eq!(deadzone.normalize(pair(0.3, 0.4), &Floats), pair(0.0, 0.0));
    let far = deadzone.normalize(pair(0.0, 0.75), &Floats);
    assert_eq!(far, pair(0.0, 0.5));
    assert_eq!(deadzone.normalize(pair(3.0, 4.0), &Floats), pair(0.6, 0.8));
    assert_eq!(deadzone.normalize(pair(0.0, -1.0), &Floats), pair(0.0, -1.0));
}

#[test]
fn neutral_position_has_no_direction() {
    assert_eq!(DualAxisData::new(scalar(0.0), scalar(0.0)).direction(&Floats), None);
    assert_eq!(
        DualAxisData::new(scalar(0.000001), scalar(0.0)).direction(&Floats),
        None
    );
    assert_eq!(
        DualAxisData::new(scalar(0.5), scalar(0.0)).direction(&Floats),
        Some(pair(1.0, 0.0))
    );
    let data = DualAxisData::new(scalar(3.0), scalar(4.0));
    assert_eq!(float(data.length(&Floats)), 5.0);
    assert_eq!(data.direction(&Floats), Some(pair(0.6, 0.8)));
}

#[test]
fn clamp_length_shortens_only_what_is_longer() {
    let mut data = DualAxisData::new(scalar(6.0), scalar(8.0));
    data.clamp_length(scalar(5.0), &Floats);
    assert_eq!(data.xy(), pair(3.0, 4.0));
    data.clamp_length(scalar(7.0), &Floats);
    assert_eq!(data.x().to_bits(), (3.0f32).to_bits());
    assert_eq!(data.y().to_bits(), (4.0f32).to_bits());
}

#[test]
fn share_is_the_part_of_the_way_gone() {
    let quarter = share(scalar(0.5), scalar(1.5), scalar(0.75), &Floats);
    assert_eq!(quarter.to_bits(), (0.25f32).to_bits());
    let all = share(scalar(0.5), scalar(1.0), scalar(1.0), &Floats);
    assert_eq!(all.to_bits(), (1.0f32).to_bits());
    let none = share(scalar(0.5), scalar(1.0), scalar(0.5), &Floats);
    assert_eq!(none.to_bits(), (0.0f32).to_bits());
}

#[test]
fn dead_zone_keeps_the_sign_on_both_sides() {
    let deadzone = AxisRange::new(scalar(-0.5), scalar(0.25));
    let above = deadzone.normalize(scalar(0.625), &Floats);
    assert_eq!(above.to_bits(), (0.5f32).to_bits());
    let below = deadzone.normalize(scalar(-0.75), &Floats);
    assert_eq!(below.to_bits(), (-0.5f32).to_bits());
    assert!(deadzone.normalize(scalar(f32::NAN), &Floats).is_nan());
}

#[test]
fn dead_zone_falls_between_minus_one_and_its_lower_end() {
    let deadzone = AxisRange::symmetric(scalar(0.25));
    let mut last = 0.0f32;
    for step in 0..=75 {
        let value = -0.25 - step as f32 * 0.01;
        let output = float(deadzone.normalize(scalar(value), &Floats));
        assert!(output <= last, "{value}: {output} > {last}");
        assert!(output >= -1.0);
        last = output;
    }
}

#[test]
fn tiny_dead_zone_can_leave_a_value_as_it_is() {
    let range = AxisRange::symmetric(scalar(1.0e-30));
    let value = scalar(0.5);
    assert_eq!(range.normalize(value, &Floats).to_bits(), (0.5f32).to_bits());
    assert_eq!(range.exclude(value).to_bits(), (0.5f32).to_bits());
}

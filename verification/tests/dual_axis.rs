use input_manager::arithmetic::Arithmetic;
use input_manager::input_processing::dual_axis::AxisRange;
use input_manager::input_processing::dual_axis::CircleBounds;
use input_manager::input_processing::dual_axis::CustomStage;
use input_manager::input_processing::dual_axis::DualAxisBounds;
use input_manager::input_processing::dual_axis::DualAxisDeadZone;
use input_manager::input_processing::dual_axis::DualAxisExclusion;
use input_manager::input_processing::dual_axis::DualAxisInverted;
use input_manager::input_processing::dual_axis::DualAxisProcessor;
use input_manager::input_processing::dual_axis::DualAxisSensitivity;
use input_manager::input_processing::dual_axis::WithDualAxisProcessorExt;
use input_manager::scalar::Scalar;
use input_manager::scalar::ScalarPair;
use std::sync::Arc;

fn scalar(value: f32) -> Scalar {
    Scalar::from_bits(value.to_bits())
}

fn pair(x: f32, y: f32) -> ScalarPair {
    ScalarPair::new(scalar(x), scalar(y))
}

struct Floats;

fn float_of(value: Scalar) -> f32 {
    f32::from_bits(value.to_bits())
}

fn scalar_of(value: f32) -> Scalar {
    Scalar::from_bits(value.to_bits())
}

impl Arithmetic for Floats {
    fn sum(&self, a: Scalar, b: Scalar) -> Scalar {
        scalar_of(float_of(a) + float_of(b))
    }

    fn difference(&self, a: Scalar, b: Scalar) -> Scalar {
        scalar_of(float_of(a) - float_of(b))
    }

    fn quotient(&self, a: Scalar, b: Scalar) -> Scalar {
        scalar_of(float_of(a) / float_of(b))
    }

    fn multiply(&self, factor: Scalar, value: Scalar) -> Scalar {
        scalar_of(float_of(factor) * float_of(value))
    }

    fn length(&self, value: ScalarPair) -> Scalar {
        let x = float_of(value.x);
        let y = float_of(value.y);
        scalar_of((x * x + y * y).sqrt())
    }

    fn resize(&self, value: ScalarPair, length: Scalar) -> ScalarPair {
        let current = float_of(self.length(value));
        let wanted = float_of(length);
        ScalarPair::new(
            scalar_of(float_of(value.x) / current * wanted),
            scalar_of(float_of(value.y) / current * wanted),
        )
    }

    fn custom(&self, stage: CustomStage, value: ScalarPair) -> ScalarPair {
        if stage.id == 1 {
            ScalarPair::new(value.y, value.x)
        } else {
            value
        }
    }
}

#[test]
fn test_axis_processing_pipeline() {
    let pipeline = DualAxisProcessor::Pipeline(vec![
        Arc::new(DualAxisInverted::ALL.into()),
        Arc::new(DualAxisSensitivity::all(scalar(2.0)).into()),
    ]);

    for x in -300..300 {
        let x = x as f32 * 0.01;
        for y in -300..300 {
            let y = y as f32 * 0.01;
            let value = pair(x, y);

            assert_eq!(pipeline.process(value, &Floats), pair(x * -2.0, y * -2.0));
        }
    }
}

#[test]
fn test_dual_axis_processing_pipeline_creation() {
    assert_eq!(
        DualAxisProcessor::pipeline(vec![]),
        DualAxisProcessor::Pipeline(vec![])
    );
    assert_eq!(
        DualAxisProcessor::from_iter(vec![]),
        DualAxisProcessor::Pipeline(vec![])
    );

    assert_eq!(
        DualAxisProcessor::pipeline(vec![DualAxisInverted::ALL.into()]),
        DualAxisProcessor::Pipeline(vec![Arc::new(DualAxisInverted::ALL.into())])
    );

    assert_eq!(
        DualAxisProcessor::from_iter(vec![DualAxisInverted::ALL.into()]),
        DualAxisProcessor::Pipeline(vec![Arc::new(DualAxisInverted::ALL.into())])
    );

    assert_eq!(
        DualAxisProcessor::pipeline(vec![
            DualAxisInverted::ALL.into(),
            DualAxisSensitivity::all(scalar(2.0)).into(),
        ]),
        DualAxisProcessor::Pipeline(vec![
            Arc::new(DualAxisInverted::ALL.into()),
            Arc::new(DualAxisSensitivity::all(scalar(2.0)).into()),
        ])
    );

    assert_eq!(
        DualAxisProcessor::from_iter(vec![
            DualAxisInverted::ALL.into(),
            DualAxisSensitivity::all(scalar(2.0)).into(),
        ]),
        DualAxisProcessor::Pipeline(vec![
            Arc::new(DualAxisInverted::ALL.into()),
            Arc::new(DualAxisSensitivity::all(scalar(2.0)).into()),
        ])
    );
}

#[test]
fn test_dual_axis_inverted() {
    let all = DualAxisInverted::ALL;
    assert_eq!(all.inverted(), (true, true));

    let only_x = DualAxisInverted::ONLY_X;
    assert_eq!(only_x.inverted(), (true, false));

    let only_y = DualAxisInverted::ONLY_Y;
    assert_eq!(only_y.inverted(), (false, true));

    for x in -300..300 {
        let x = x as f32 * 0.01;

        for y in -300..300 {
            let y = y as f32 * 0.01;
            let value = pair(x, y);
            let negated = pair(-x, -y);

            let processor = DualAxisProcessor::Inverted(all);
            assert_eq!(DualAxisProcessor::from(all), processor);
            assert_eq!(processor.process(value, &Floats), all.invert(value));
            assert_eq!(all.invert(value), negated);
            assert_eq!(all.invert(negated), value);

            let processor = DualAxisProcessor::Inverted(only_x);
            assert_eq!(DualAxisProcessor::from(only_x), processor);
            assert_eq!(processor.process(value, &Floats), only_x.invert(value));
            assert_eq!(only_x.invert(value), pair(-x, y));
            assert_eq!(only_x.invert(negated), pair(x, -y));

            let processor = DualAxisProcessor::Inverted(only_y);
            assert_eq!(DualAxisProcessor::from(only_y), processor);
            assert_eq!(processor.process(value, &Floats), only_y.invert(value));
            assert_eq!(only_y.invert(value), pair(x, -y));
            assert_eq!(only_y.invert(negated), pair(-x, y));
        }
    }
}

#[test]
fn test_dual_axis_sensitivity() {
    for x in -300..300 {
        let x = x as f32 * 0.01;

        for y in -300..300 {
            let y = y as f32 * 0.01;
            let value = pair(x, y);

            let sensitivity = x;

            let all = DualAxisSensitivity::all(scalar(sensitivity));
            let processor = DualAxisProcessor::Sensitivity(all);
            assert_eq!(DualAxisProcessor::from(all), processor);
            assert_eq!(processor.process(value, &Floats), all.scale(value, &Floats));
            assert_eq!(all.sensitivities(), ScalarPair::splat(scalar(sensitivity)));
            assert_eq!(all.scale(value, &Floats), pair(sensitivity * x, sensitivity * y));

            let only_x = DualAxisSensitivity::only_x(scalar(sensitivity));
            let processor = DualAxisProcessor::Sensitivity(only_x);
            assert_eq!(DualAxisProcessor::from(only_x), processor);
            assert_eq!(processor.process(value, &Floats), only_x.scale(value, &Floats));
            assert_eq!(only_x.sensitivities(), pair(sensitivity, 1.0));
            assert_eq!(only_x.scale(value, &Floats).x, scalar(x * sensitivity));
            assert_eq!(only_x.scale(value, &Floats).y, scalar(y));

            let only_y = DualAxisSensitivity::only_y(scalar(sensitivity));
            let processor = DualAxisProcessor::Sensitivity(only_y);
            assert_eq!(DualAxisProcessor::from(only_y), processor);
            assert_eq!(processor.process(value, &Floats), only_y.scale(value, &Floats));
            assert_eq!(only_y.sensitivities(), pair(1.0, sensitivity));
            assert_eq!(only_y.scale(value, &Floats).x, scalar(x));
            assert_eq!(only_y.scale(value, &Floats).y, scalar(y * sensitivity));

            let sensitivity2 = y;
            let separate = DualAxisSensitivity::new(scalar(sensitivity), scalar(sensitivity2));
            let processor = DualAxisProcessor::Sensitivity(separate);
            assert_eq!(DualAxisProcessor::from(separate), processor);
            assert_eq!(processor.process(value, &Floats), separate.scale(value, &Floats));
            assert_eq!(separate.sensitivities(), pair(sensitivity, sensitivity2));
            assert_eq!(separate.scale(value, &Floats).x, scalar(x * sensitivity));
            assert_eq!(separate.scale(value, &Floats).y, scalar(y * sensitivity2));
        }
    }
}

#[test]
fn inverted_then_doubled_gives_the_negated_double() {
    let pipeline = DualAxisProcessor::pipeline(vec![
        DualAxisInverted::ALL.into(),
        DualAxisSensitivity::all(scalar(2.0)).into(),
    ]);
    let result = pipeline.process(pair(1.5, 2.0), &Floats);
    assert_eq!(result.x.to_bits(), (-3.0f32).to_bits());
    assert_eq!(result.y.to_bits(), (-4.0f32).to_bits());
}

#[test]
fn empty_processor_is_the_identity_of_composition() {
    let stage = DualAxisProcessor::from(DualAxisInverted::ONLY_X);
    assert_eq!(DualAxisProcessor::NoOp.with_processor(stage.clone()), stage);
    assert_eq!(stage.clone().with_processor(DualAxisProcessor::NoOp), stage);
    assert_eq!(
        DualAxisProcessor::NoOp.with_processor(DualAxisProcessor::NoOp),
        DualAxisProcessor::NoOp
    );
    let pipeline = DualAxisProcessor::pipeline(vec![stage.clone()]);
    assert_eq!(DualAxisProcessor::NoOp.with_processor(pipeline.clone()), pipeline);
    assert_eq!(pipeline.clone().with_processor(DualAxisProcessor::NoOp), pipeline);
    assert_eq!(DualAxisProcessor::default(), DualAxisProcessor::NoOp);
}

#[test]
fn empty_processor_gives_the_input_back() {
    let value = pair(0.25, -7.5);
    let result = DualAxisProcessor::NoOp.process(value, &Floats);
    assert_eq!(result.x.to_bits(), value.x.to_bits());
    assert_eq!(result.y.to_bits(), value.y.to_bits());
}

#[test]
fn appending_stage_by_stage_equals_the_direct_pipeline() {
    let a = DualAxisProcessor::from(DualAxisInverted::ALL);
    let b = DualAxisProcessor::from(DualAxisSensitivity::all(scalar(2.0)));
    let c = DualAxisProcessor::CircleBounds(CircleBounds::new(scalar(1.0)));
    let direct = DualAxisProcessor::pipeline(vec![a.clone(), b.clone(), c.clone()]);
    let appended = a.clone().with_processor(b.clone()).with_processor(c.clone());
    assert_eq!(appended, direct);
    let from_empty = DualAxisProcessor::NoOp
        .with_processor(a.clone())
        .with_processor(b.clone())
        .with_processor(c.clone());
    assert_eq!(from_empty, direct);
    let grouped_right = a.with_processor(b.with_processor(c));
    assert_eq!(grouped_right, direct);
}

#[test]
fn with_processor_covers_every_pairing_of_stage_and_pipeline() {
    let a = DualAxisProcessor::from(DualAxisInverted::ALL);
    let b = DualAxisProcessor::from(DualAxisInverted::ONLY_X);
    let c = DualAxisProcessor::from(DualAxisInverted::ONLY_Y);
    let d = DualAxisProcessor::Custom(CustomStage { id: 7 });
    let ab = DualAxisProcessor::pipeline(vec![a.clone(), b.clone()]);
    let cd = DualAxisProcessor::pipeline(vec![c.clone(), d.clone()]);

    assert_eq!(a.clone().with_processor(b.clone()), ab);
    assert_eq!(
        ab.clone().with_processor(c.clone()),
        DualAxisProcessor::pipeline(vec![a.clone(), b.clone(), c.clone()])
    );
    assert_eq!(
        b.clone().with_processor(cd.clone()),
        DualAxisProcessor::pipeline(vec![b.clone(), c.clone(), d.clone()])
    );
    assert_eq!(
        ab.with_processor(cd),
        DualAxisProcessor::pipeline(vec![a, b, c, d])
    );
}

#[test]
fn nested_pipelines_run_their_stages_in_order() {
    let inner = DualAxisProcessor::pipeline(vec![
        DualAxisSensitivity::new(scalar(2.0), scalar(3.0)).into(),
        DualAxisInverted::ONLY_Y.into(),
    ]);
    let outer = DualAxisProcessor::pipeline(vec![
        DualAxisInverted::ONLY_X.into(),
        inner,
        DualAxisSensitivity::all(scalar(0.5)).into(),
    ]);
    assert_eq!(outer.process(pair(1.0, 1.0), &Floats), pair(-1.0, -1.5));
}

#[test]
fn inverting_twice_gives_back_every_bit() {
    let patterns = [0u32, 0x8000_0000, 0x7fc0_0000, 0xffc0_0001, 0x7f80_0000, 0x3f80_0000, 1];
    for x in patterns {
        for y in patterns {
            let value = ScalarPair::from_bits(x, y);
            let twice = DualAxisInverted::ALL.invert(DualAxisInverted::ALL.invert(value));
            assert_eq!(twice.x.to_bits(), x);
            assert_eq!(twice.y.to_bits(), y);
        }
    }
}

#[test]
fn scale_multiplies_component_by_component() {
    let stage = DualAxisSensitivity::new(scalar(-1.0), scalar(0.5));
    let result = stage.scale(pair(1.5, 2.5), &Floats);
    assert_eq!(result.x.to_bits(), (-1.5f32).to_bits());
    assert_eq!(result.y.to_bits(), (1.25f32).to_bits());
}

#[test]
fn stage_constructors_fill_both_axes() {
    let bounds = DualAxisBounds::only_x(scalar(-2.0), scalar(3.0));
    assert_eq!(bounds.bounds_x, AxisRange::new(scalar(-2.0), scalar(3.0)));
    assert_eq!(bounds.bounds_y.min.to_bits(), f32::MIN.to_bits());
    assert_eq!(bounds.bounds_y.max.to_bits(), f32::MAX.to_bits());

    let deadzone = DualAxisDeadZone::symmetric_only_y(scalar(0.2));
    assert_eq!(deadzone.deadzone_x, AxisRange::zero());
    assert_eq!(deadzone.deadzone_y.min.to_bits(), (-0.2f32).to_bits());
    assert_eq!(deadzone.deadzone_y.max.to_bits(), (0.2f32).to_bits());

    let exclusion = DualAxisExclusion::symmetric_all(scalar(0.1));
    assert_eq!(exclusion.exclusion_x, exclusion.exclusion_y);
    assert_eq!(exclusion.exclusion_x.min.to_bits(), (-0.1f32).to_bits());
}

#[test]
fn stages_with_the_same_bits_are_equal() {
    let nan = f32::from_bits(0x7fc0_0001);
    assert_eq!(
        DualAxisSensitivity::new(scalar(nan), scalar(1.0)),
        DualAxisSensitivity::new(scalar(nan), scalar(1.0))
    );
    assert_eq!(CircleBounds::new(scalar(f32::INFINITY)), CircleBounds::new(scalar(f32::INFINITY)));
    assert_ne!(CircleBounds::new(scalar(1.0)), CircleBounds::new(scalar(2.0)));
}

struct Slot {
    processor: DualAxisProcessor,
}

impl WithDualAxisProcessorExt for Slot {
    fn no_processor(self) -> Self {
        Slot { processor: DualAxisProcessor::NoOp }
    }

    fn replace_processor(self, processor: DualAxisProcessor) -> Self {
        Slot { processor }
    }

    fn with_processor(self, processor: DualAxisProcessor) -> Self {
        Slot { processor: self.processor.with_processor(processor) }
    }
}

#[test]
fn extension_methods_append_the_stage_they_name() {
    let slot = Slot { processor: DualAxisProcessor::NoOp }
        .inverted_x()
        .sensitivity(scalar(2.0))
        .with_deadzone_symmetric(scalar(0.1))
        .with_circle_bounds(scalar(1.0));
    assert_eq!(
        slot.processor,
        DualAxisProcessor::pipeline(vec![
            DualAxisInverted::ONLY_X.into(),
            DualAxisSensitivity::all(scalar(2.0)).into(),
            DualAxisProcessor::DeadZone(DualAxisDeadZone::symmetric_all(scalar(0.1))),
            DualAxisProcessor::CircleBounds(CircleBounds::new(scalar(1.0))),
        ])
    );
    let cleared = slot.no_processor();
    assert_eq!(cleared.processor, DualAxisProcessor::NoOp);
    let replaced = cleared.replace_processor(DualAxisInverted::ALL.into());
    assert_eq!(replaced.processor, DualAxisProcessor::Inverted(DualAxisInverted::ALL));
}

#[test]
fn custom_stage_is_asked_of_the_arithmetic() {
    let swap = DualAxisProcessor::Custom(CustomStage { id: 1 });
    assert_eq!(swap.process(pair(1.0, 2.0), &Floats), pair(2.0, 1.0));
    let pipeline = DualAxisProcessor::pipeline(vec![swap, DualAxisInverted::ONLY_X.into()]);
    assert_eq!(pipeline.process(pair(1.0, 2.0), &Floats), pair(-2.0, 1.0));
    assert_eq!(DualAxisProcessor::from(CustomStage { id: 1 }), DualAxisProcessor::Custom(CustomStage { id: 1 }));
}

#[test]
fn every_stage_runs_inside_a_pipeline() {
    let pipeline = DualAxisProcessor::pipeline(vec![
        DualAxisSensitivity::all(scalar(4.0)).into(),
        DualAxisBounds::symmetric_all(scalar(2.0)).into(),
        DualAxisExclusion::only_y(scalar(-0.5), scalar(0.5)).into(),
        DualAxisDeadZone::only_x(scalar(-0.5), scalar(0.5)).into(),
        CircleBounds::new(scalar(0.5)).into(),
    ]);
    // (0.25, 0.1) -> (1, 0.4) -> (1, 0.4) -> (1, 0) -> (1, 0) -> (0.5, 0)
    assert_eq!(pipeline.process(pair(0.25, 0.1), &Floats), pair(0.5, 0.0));
}

#[test]
fn processors_are_equal_by_kind_and_parameters() {
    let nan = f32::from_bits(0x7fc0_0000);
    let other_nan = f32::from_bits(0xffc0_0123);
    let a = DualAxisProcessor::pipeline(vec![
        DualAxisSensitivity::new(scalar(nan), scalar(0.0)).into(),
        DualAxisBounds::all(scalar(-1.0), scalar(1.0)).into(),
    ]);
    let b = DualAxisProcessor::pipeline(vec![
        DualAxisSensitivity::new(scalar(other_nan), scalar(-0.0)).into(),
        DualAxisBounds::all(scalar(-1.0), scalar(1.0)).into(),
    ]);
    assert_eq!(a, a.clone());
    assert_eq!(a, b);
    assert!(a.equals(&b));
    assert_ne!(
        DualAxisProcessor::Exclusion(DualAxisExclusion::all(scalar(0.0), scalar(1.0))),
        DualAxisProcessor::DeadZone(DualAxisDeadZone::all(scalar(0.0), scalar(1.0)))
    );
    assert_ne!(
        DualAxisProcessor::pipeline(vec![DualAxisInverted::ALL.into()]),
        DualAxisProcessor::from(DualAxisInverted::ALL)
    );
    assert_ne!(
        DualAxisProcessor::pipeline(vec![DualAxisInverted::ALL.into()]),
        DualAxisProcessor::pipeline(vec![DualAxisInverted::ALL.into(), DualAxisInverted::ALL.into()])
    );
    assert_ne!(DualAxisProcessor::NoOp, DualAxisProcessor::pipeline(vec![]));
}

use input_manager::axislike::SingleAxis;
use input_manager::input_like::chords::Chord;
use input_manager::input_like::chords::InputObject;
use input_manager::input_like::CustomInput;
use input_manager::input_like::DualAxis;
use input_manager::input_like::InputView;
use input_manager::input_like::InputKind;
use input_manager::scalar::Scalar;

fn scalar(value: f32) -> Scalar {
    Scalar::from_bits(value.to_bits())
}

fn key(code: u32) -> InputObject {
    InputObject::Leaf(InputKind::Keyboard(code))
}

fn axis() -> InputObject {
    InputObject::Leaf(InputKind::SingleAxis(SingleAxis::mouse_motion_x()))
}

#[test]
fn chord_with_an_axis_only_member_is_never_pressed() {
    let chord = Chord::new(vec![key(1), axis()]);
    let down = vec![InputKind::Keyboard(1)];
    assert!(!chord.input_pressed(&down));
    let all_down = vec![
        InputKind::Keyboard(1),
        InputKind::SingleAxis(SingleAxis::mouse_motion_x()),
    ];
    assert!(!chord.input_pressed(&all_down));
}

#[test]
fn chord_is_pressed_when_every_member_is() {
    let chord = Chord::new(vec![key(1), InputObject::Leaf(InputKind::Mouse(0))]);
    assert!(chord.input_pressed(&vec![InputKind::Mouse(0), InputKind::Keyboard(1)]));
    assert!(!chord.input_pressed(&vec![InputKind::Keyboard(1)]));
    assert!(!chord.input_pressed(&vec![InputKind::Mouse(1), InputKind::Keyboard(1)]));
    assert!(!chord.input_pressed(&vec![InputKind::GamepadButton(0), InputKind::Keyboard(1)]));
    assert!(!chord.input_pressed(&vec![]));
}

#[test]
fn empty_chord_is_pressed() {
    let chord = Chord::new(vec![]);
    assert!(chord.input_pressed(&vec![]));
    assert_eq!(chord.len(), 0);
    assert!(chord.raw_inputs().is_empty());
}

#[test]
fn nested_chord_is_pressed_through_its_own_members() {
    let inner = Chord::new(vec![key(1), key(2)]);
    let outer = Chord::new(vec![InputObject::Chord(inner), key(3)]);
    let outer_object = InputObject::Chord(outer.clone());
    assert!(outer.input_pressed(&vec![
        InputKind::Keyboard(3),
        InputKind::Keyboard(2),
        InputKind::Keyboard(1),
    ]));
    assert!(!outer.input_pressed(&vec![InputKind::Keyboard(3), InputKind::Keyboard(1)]));
    assert!(outer_object.input_pressed(&vec![
        InputKind::Keyboard(1),
        InputKind::Keyboard(2),
        InputKind::Keyboard(3),
    ]));
}

#[test]
fn nested_chord_flattens_to_the_same_leaves() {
    let a = key(10);
    let b = InputObject::Leaf(InputKind::GamepadButton(4));
    let c = axis();
    let nested = Chord::new(vec![
        InputObject::Chord(Chord::new(vec![a.clone(), b.clone()])),
        c.clone(),
    ]);
    let flat = Chord::new(vec![a, b, c]);
    assert_eq!(nested.raw_inputs(), flat.raw_inputs());
    assert_eq!(
        flat.raw_inputs(),
        vec![
            InputKind::Keyboard(10),
            InputKind::GamepadButton(4),
            InputKind::SingleAxis(SingleAxis::mouse_motion_x()),
        ]
    );
    assert_eq!(nested.len(), 3);
    assert_eq!(flat.len(), 3);
}

#[test]
fn contains_looks_at_leaves_at_any_depth() {
    let deep = Chord::new(vec![InputObject::Chord(Chord::new(vec![
        InputObject::Chord(Chord::new(vec![key(5)])),
        key(6),
    ]))]);
    assert!(deep.contains(&key(5)));
    assert!(deep.contains(&key(6)));
    assert!(!deep.contains(&key(7)));
    assert!(!deep.contains(&InputObject::Leaf(InputKind::Mouse(5))));
    assert!(!deep.contains(&InputObject::Chord(Chord::new(vec![key(5)]))));
    assert!(!Chord::new(vec![]).contains(&key(5)));
}

#[test]
fn contains_ignores_the_mocking_value_of_an_axis() {
    let stored = SingleAxis::symmetric(
        input_manager::axislike::MouseMotionAxisType::Y.into(),
        scalar(0.5),
    );
    let mut asked = stored;
    asked.value = Some(scalar(0.75));
    let chord = Chord::new(vec![InputObject::Leaf(InputKind::SingleAxis(stored))]);
    assert!(chord.contains(&InputObject::Leaf(InputKind::SingleAxis(asked))));
    let other = SingleAxis::symmetric(
        input_manager::axislike::MouseMotionAxisType::Y.into(),
        scalar(0.25),
    );
    assert!(!chord.contains(&InputObject::Leaf(InputKind::SingleAxis(other))));
}

#[test]
fn chord_members_may_repeat() {
    let chord = Chord::new(vec![key(1), key(1)]);
    assert_eq!(chord.len(), 2);
    assert_eq!(chord.inputs.len(), 2);
    assert!(chord.input_pressed(&vec![InputKind::Keyboard(1)]));
}

#[test]
fn clone_of_a_chord_is_a_deep_equal_copy() {
    let chord = Chord::new(vec![InputObject::Chord(Chord::new(vec![key(1), axis()])), key(2)]);
    let copy = chord.clone();
    assert_eq!(copy, chord);
    assert_eq!(copy.raw_inputs(), chord.raw_inputs());
    let object = InputObject::Chord(chord);
    assert_eq!(object.clone(), object);
    assert_eq!(object.raw_inputs().len(), 3);
}

#[test]
fn inputs_of_different_kinds_are_never_equal() {
    assert_ne!(InputKind::Keyboard(1), InputKind::Mouse(1));
    assert_ne!(InputKind::Keyboard(1), InputKind::GamepadButton(1));
    assert_ne!(
        InputKind::SingleAxis(SingleAxis::mouse_motion_x()),
        InputKind::DualAxis(DualAxis {
            x: SingleAxis::mouse_motion_x(),
            y: SingleAxis::mouse_motion_y(),
        })
    );
    assert_ne!(key(1), InputObject::Chord(Chord::new(vec![key(1)])));
    assert_eq!(InputKind::Keyboard(1), InputKind::Keyboard(1));
}

#[test]
fn a_leaf_has_exactly_one_view() {
    let button = InputKind::GamepadButton(3);
    assert_eq!(button.as_button(), Some(button));
    assert_eq!(button.as_axis(), None);
    assert_eq!(button.as_dual_axis(), None);

    let single = InputKind::SingleAxis(SingleAxis::mouse_motion_y());
    assert_eq!(single.as_button(), None);
    assert_eq!(single.as_axis(), Some(SingleAxis::mouse_motion_y()));
    assert_eq!(single.as_dual_axis(), None);

    let pair = DualAxis { x: SingleAxis::mouse_motion_x(), y: SingleAxis::mouse_motion_y() };
    let dual = InputKind::DualAxis(pair);
    assert_eq!(dual.as_button(), None);
    assert_eq!(dual.as_axis(), None);
    assert_eq!(dual.as_dual_axis(), Some(pair));

    let chord = Chord::new(vec![key(1)]);
    assert_eq!(chord.as_button(), Some(&chord));
    assert_eq!(chord.as_axis(), None);
    assert_eq!(chord.as_dual_axis(), None);
}

#[test]
fn among_finds_the_same_input_only() {
    let inputs = vec![InputKind::Keyboard(1), InputKind::Mouse(2)];
    assert!(InputKind::Mouse(2).among(&inputs));
    assert!(!InputKind::Mouse(1).among(&inputs));
    assert!(!InputKind::Keyboard(1).among(&vec![]));
}

#[test]
fn custom_inputs_have_the_view_they_name() {
    let button = InputKind::Custom(CustomInput { id: 9, view: InputView::Button });
    let axis = InputKind::Custom(CustomInput { id: 9, view: InputView::SingleAxis });
    assert_eq!(button.view(), InputView::Button);
    assert_eq!(axis.view(), InputView::SingleAxis);
    assert_eq!(button.as_button(), Some(button));
    assert_eq!(axis.as_button(), None);
    assert_eq!(axis.as_axis(), None);
    assert_ne!(button, axis);
    assert_ne!(button, InputKind::Keyboard(9));
    assert_eq!(button, InputKind::Custom(CustomInput { id: 9, view: InputView::Button }));
    assert_eq!(InputKind::Keyboard(1).view(), InputView::Button);
    assert_eq!(
        InputKind::SingleAxis(SingleAxis::mouse_motion_x()).view(),
        InputView::SingleAxis
    );

    let chord = Chord::new(vec![InputObject::Leaf(button), key(1)]);
    assert!(chord.input_pressed(&vec![InputKind::Keyboard(1), button]));
    assert!(!chord.input_pressed(&vec![InputKind::Keyboard(1)]));
    let blocked = Chord::new(vec![InputObject::Leaf(axis), key(1)]);
    assert!(!blocked.input_pressed(&vec![InputKind::Keyboard(1), axis]));
    assert!(blocked.contains(&InputObject::Leaf(axis)));
}

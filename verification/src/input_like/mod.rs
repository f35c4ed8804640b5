//! Input objects: the leaf inputs, and what every input can be asked.
use crate::axislike::SingleAxis;
use vstd::prelude::*;

pub mod chords;

verus! {

/// Two single axes read together as one two-dimensional input.
#[derive(Debug, Clone, Copy, PartialEq, Eq, Hash)]
pub struct DualAxis {
    /// The axis that gives the horizontal component.
    pub x: SingleAxis,
    /// The axis that gives the vertical component.
    pub y: SingleAxis,
}

/// What an input can be read as.
#[derive(Debug, Clone, Copy, PartialEq, Eq, Hash, Structural)]
pub enum InputView {
    /// Pressed or released.
    Button,
    /// One value.
    SingleAxis,
    /// Two values.
    DualAxis,
}

/// An input that the embedding application defines and polls: the handle
/// under which the application knows it, and the one view that it has.
#[derive(Debug, Clone, Copy, PartialEq, Eq, Hash, Structural)]
pub struct CustomInput {
    pub id: u64,
    pub view: InputView,
}

/// A leaf input: one physical or virtual channel, of exactly one capability.
///
/// Buttons are named by the stable identifier of their physical source.
#[derive(Debug, Clone, Copy, Eq, Hash)]
pub enum InputKind {
    /// A button on a gamepad.
    GamepadButton(u32),
    /// A key on the keyboard.
    Keyboard(u32),
    /// A button on the mouse.
    Mouse(u32),
    /// A single axis of continuous motion.
    SingleAxis(SingleAxis),
    /// Two paired axes of continuous motion.
    DualAxis(DualAxis),
    /// An input of the embedding application's own.
    Custom(CustomInput),
}

impl InputKind {
    /// The one view that this leaf has.
    pub open spec fn view_spec(self) -> InputView {
        match self {
            InputKind::GamepadButton(_) => InputView::Button,
            InputKind::Keyboard(_) => InputView::Button,
            InputKind::Mouse(_) => InputView::Button,
            InputKind::SingleAxis(_) => InputView::SingleAxis,
            InputKind::DualAxis(_) => InputView::DualAxis,
            InputKind::Custom(custom) => custom.view,
        }
    }

    /// Whether this leaf has a button view.
    pub open spec fn is_button(self) -> bool {
        self.view_spec() == InputView::Button
    }

    /// The one view that this leaf has.
    pub fn view(&self) -> (r: InputView)
        ensures
            r == self.view_spec(),
    {
        match self {
            InputKind::GamepadButton(_) | InputKind::Keyboard(_) | InputKind::Mouse(_) => {
                InputView::Button
            },
            InputKind::SingleAxis(_) => InputView::SingleAxis,
            InputKind::DualAxis(_) => InputView::DualAxis,
            InputKind::Custom(custom) => custom.view,
        }
    }

    /// Whether two leaves are the same input: of the same kind, with the same
    /// payload. Leaves of different kinds are never the same.
    pub open spec fn same(self, other: InputKind) -> bool {
        match (self, other) {
            (InputKind::GamepadButton(a), InputKind::GamepadButton(b)) => a == b,
            (InputKind::Keyboard(a), InputKind::Keyboard(b)) => a == b,
            (InputKind::Mouse(a), InputKind::Mouse(b)) => a == b,
            (InputKind::SingleAxis(a), InputKind::SingleAxis(b)) => a.same(b),
            (InputKind::DualAxis(a), InputKind::DualAxis(b)) => a.x.same(b.x) && a.y.same(b.y),
            (InputKind::Custom(a), InputKind::Custom(b)) => a == b,
            _ => false,
        }
    }

    /// Whether one of the given `inputs` is the same input as this one.
    pub open spec fn is_among(self, inputs: Seq<InputKind>) -> bool {
        exists|i: int| 0 <= i < inputs.len() && (#[trigger] inputs[i]).same(self)
    }

    /// Whether one of the given `inputs` is the same input as this one.
    pub fn among(&self, inputs: &Vec<InputKind>) -> (r: bool)
        ensures
            r == self.is_among(inputs@),
    {
        let mut i: usize = 0;
        while i < inputs.len()
            invariant
                i <= inputs@.len(),
                forall|j: int| 0 <= j < i ==> !(#[trigger] inputs@[j]).same(*self),
            decreases inputs@.len() - i,
        {
            if inputs[i] == *self {
                return true;
            }
            i += 1;
        }
        false
    }

    /// The button view: the leaf itself where it is button-like.
    pub fn as_button(&self) -> (r: Option<InputKind>)
        ensures
            r == if self.is_button() {
                Some(*self)
            } else {
                None
            },
    {
        match self.view() {
            InputView::Button => Some(*self),
            _ => None,
        }
    }

    /// The single-axis view: the axis where the leaf is a single axis of the
    /// library. An application's own axis has no description here; `view`
    /// tells what it is.
    pub fn as_axis(&self) -> (r: Option<SingleAxis>)
        ensures
            r == match *self {
                InputKind::SingleAxis(axis) => Some(axis),
                _ => None,
            },
    {
        match self {
            InputKind::SingleAxis(axis) => Some(*axis),
            _ => None,
        }
    }

    /// The dual-axis view: the pair where the leaf is a dual axis of the
    /// library. An application's own dual axis has no description here;
    /// `view` tells what it is.
    pub fn as_dual_axis(&self) -> (r: Option<DualAxis>)
        ensures
            r == match *self {
                InputKind::DualAxis(pair) => Some(pair),
                _ => None,
            },
    {
        match self {
            InputKind::DualAxis(pair) => Some(*pair),
            _ => None,
        }
    }

    /// A leaf has at most one view: a button is no axis, and a single axis
    /// is no dual axis.
    pub proof fn lemma_one_capability(self)
        ensures
            !(self.is_button() && self is SingleAxis),
            !(self.is_button() && self is DualAxis),
            !(self is SingleAxis && self is DualAxis),
            self.is_button() ==> self.view_spec() != InputView::SingleAxis && self.view_spec()
                != InputView::DualAxis,
    {
    }
}

impl PartialEq for InputKind {
    fn eq(&self, other: &InputKind) -> (r: bool) {
        match (self, other) {
            (InputKind::GamepadButton(a), InputKind::GamepadButton(b)) => *a == *b,
            (InputKind::Keyboard(a), InputKind::Keyboard(b)) => *a == *b,
            (InputKind::Mouse(a), InputKind::Mouse(b)) => *a == *b,
            (InputKind::SingleAxis(a), InputKind::SingleAxis(b)) => *a == *b,
            (InputKind::DualAxis(a), InputKind::DualAxis(b)) => a.x == b.x && a.y == b.y,
            (InputKind::Custom(a), InputKind::Custom(b)) => a.id == b.id && a.view == b.view,
            _ => false,
        }
    }
}

impl vstd::std_specs::cmp::PartialEqSpecImpl for InputKind {
    open spec fn obeys_eq_spec() -> bool {
        true
    }

    open spec fn eq_spec(&self, other: &InputKind) -> bool {
        self.same(*other)
    }
}

} // verus!

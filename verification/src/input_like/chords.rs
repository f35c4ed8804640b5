//! Chords: input objects made of other input objects, combined by logical AND.
use crate::axislike::SingleAxis;
use crate::input_like::DualAxis;
use crate::input_like::InputKind;
use vstd::prelude::*;

verus! {

/// Any input: a leaf, or a chord of inputs.
#[derive(Debug, Eq)]
pub enum InputObject {
    /// An atomic input, backed by one channel.
    Leaf(InputKind),
    /// A composite input.
    Chord(Chord),
}

/// An ordered collection of inputs that counts as pressed only when every
/// member is pressed. Members may repeat, and may be chords themselves.
#[derive(Debug, Eq)]
pub struct Chord {
    pub inputs: Vec<InputObject>,
}

/// The leaves of the first `count` of the given `inputs`, member by member,
/// each chord among them replaced by its own leaves.
pub open spec fn leaves_of(inputs: Seq<InputObject>, count: nat) -> Seq<InputKind>
    decreases inputs, count,
{
    if count == 0 || count > inputs.len() {
        Seq::empty()
    } else {
        leaves_of(inputs, (count - 1) as nat) + inputs[count - 1].leaves()
    }
}

impl InputObject {
    /// The atomic leaves of this input: itself for a leaf, and for a chord
    /// the leaves of all its members, however deep they are nested.
    pub open spec fn leaves(self) -> Seq<InputKind>
        decreases self, 0nat,
    {
        match self {
            InputObject::Leaf(kind) => seq![kind],
            InputObject::Chord(chord) => leaves_of(chord.inputs@, chord.inputs@.len()),
        }
    }

    /// Whether `other` is the same input: both are leaves and the same
    /// leaf, or both are chords with the same members in the same order.
    /// A leaf and a chord are never the same.
    pub open spec fn same(self, other: InputObject) -> bool
        decreases self,
    {
        match (self, other) {
            (InputObject::Leaf(a), InputObject::Leaf(b)) => a.same(b),
            (InputObject::Chord(a), InputObject::Chord(b)) => {
                &&& a.inputs@.len() == b.inputs@.len()
                &&& forall|i: int|
                    0 <= i < a.inputs@.len() ==> (#[trigger] a.inputs@[i]).same(b.inputs@[i])
            },
            _ => false,
        }
    }

    /// Whether `other` is the same input.
    pub fn equals(&self, other: &InputObject) -> (r: bool)
        ensures
            r == self.same(*other),
        decreases self,
    {
        match (self, other) {
            (InputObject::Leaf(a), InputObject::Leaf(b)) => *a == *b,
            (InputObject::Chord(a), InputObject::Chord(b)) => a.equals(b),
            _ => false,
        }
    }

    /// Whether `other` has the shape of this input and the same leaves in
    /// the same places.
    pub open spec fn alike(self, other: InputObject) -> bool
        decreases self,
    {
        match (self, other) {
            (InputObject::Leaf(a), InputObject::Leaf(b)) => a == b,
            (InputObject::Chord(a), InputObject::Chord(b)) => {
                &&& a.inputs@.len() == b.inputs@.len()
                &&& forall|i: int|
                    0 <= i < a.inputs@.len() ==> (#[trigger] a.inputs@[i]).alike(b.inputs@[i])
            },
            _ => false,
        }
    }

    /// A deep copy that shares nothing with this input.
    pub fn deep_copy(&self) -> (r: InputObject)
        ensures
            self.alike(r),
        decreases self,
    {
        match self {
            InputObject::Leaf(kind) => InputObject::Leaf(*kind),
            InputObject::Chord(chord) => InputObject::Chord(chord.deep_copy()),
        }
    }

    /// Whether this input has a button view: every chord has one, and a leaf
    /// where it is button-like.
    pub open spec fn has_button(self) -> bool {
        match self {
            InputObject::Leaf(kind) => kind.is_button(),
            InputObject::Chord(_) => true,
        }
    }

    /// Whether the button view of this input is pressed while exactly the
    /// buttons in `down` are held. An input without a button view is not pressed.
    pub open spec fn pressed(self, down: Seq<InputKind>) -> bool
        decreases self,
    {
        match self {
            InputObject::Leaf(kind) => kind.is_button() && kind.is_among(down),
            InputObject::Chord(chord) => forall|i: int|
                0 <= i < chord.inputs@.len() ==> (#[trigger] chord.inputs@[i]).pressed(down),
        }
    }

    /// Whether this input is pressed while exactly the buttons in `down` are held.
    pub fn input_pressed(&self, down: &Vec<InputKind>) -> (r: bool)
        ensures
            r == self.pressed(down@),
        decreases self,
    {
        match self {
            InputObject::Leaf(kind) => {
                match kind.as_button() {
                    Some(button) => button.among(down),
                    None => false,
                }
            },
            InputObject::Chord(chord) => chord.input_pressed(down),
        }
    }

    /// The atomic leaves of this input, in order.
    pub fn raw_inputs(&self) -> (r: Vec<InputKind>)
        ensures
            r@ == self.leaves(),
        decreases self,
    {
        match self {
            InputObject::Leaf(kind) => {
                let mut leaves: Vec<InputKind> = Vec::new();
                leaves.push(*kind);
                leaves
            },
            InputObject::Chord(chord) => chord.raw_inputs(),
        }
    }
}

impl Chord {
    /// The atomic leaves of the chord: the leaves of its members in order,
    /// with chords among the members flattened all the way down.
    pub open spec fn leaves(self) -> Seq<InputKind> {
        leaves_of(self.inputs@, self.inputs@.len())
    }

    /// Whether the chord is pressed while exactly the buttons in `down` are
    /// held: every immediate member has a button view, and it is pressed.
    pub open spec fn pressed(self, down: Seq<InputKind>) -> bool {
        forall|i: int| 0 <= i < self.inputs@.len() ==> (#[trigger] self.inputs@[i]).pressed(down)
    }

    /// Whether `input` is one of the atomic leaves of the chord.
    pub open spec fn has_leaf(self, input: InputObject) -> bool {
        match input {
            InputObject::Leaf(kind) => kind.is_among(self.leaves()),
            InputObject::Chord(_) => false,
        }
    }

    /// The chord of the given members, in their order.
    pub fn new(inputs: Vec<InputObject>) -> (r: Chord)
        ensures
            r.inputs == inputs,
    {
        Chord { inputs }
    }

    /// Whether the chord holds `input` among its atomic leaves, at any depth.
    /// A chord is never a leaf, so no chord is contained.
    pub fn contains(&self, input: &InputObject) -> (r: bool)
        ensures
            r == self.has_leaf(*input),
    {
        match input {
            InputObject::Leaf(kind) => {
                let leaves = self.raw_inputs();
                kind.among(&leaves)
            },
            InputObject::Chord(_) => false,
        }
    }

    /// Whether every immediate member is pressed while exactly the buttons
    /// in `down` are held. A member without a button view is not pressed,
    /// and so blocks the chord.
    pub fn input_pressed(&self, down: &Vec<InputKind>) -> (r: bool)
        ensures
            r == self.pressed(down@),
        decreases self,
    {
        let mut i: usize = 0;
        while i < self.inputs.len()
            invariant
                i <= self.inputs@.len(),
                forall|j: int| 0 <= j < i ==> (#[trigger] self.inputs@[j]).pressed(down@),
            decreases self.inputs@.len() - i,
        {
            proof {
                assert(decreases_to!(*self => self.inputs));
                assert(decreases_to!(self.inputs => self.inputs[i as int]));
            }
            if !self.inputs[i].input_pressed(down) {
                return false;
            }
            i += 1;
        }
        true
    }

    /// Whether `other` has the same members in the same order.
    pub open spec fn same(self, other: Chord) -> bool {
        InputObject::Chord(self).same(InputObject::Chord(other))
    }

    /// Whether `other` has the same members in the same order.
    pub fn equals(&self, other: &Chord) -> (r: bool)
        ensures
            r == self.same(*other),
        decreases self,
    {
        if self.inputs.len() != other.inputs.len() {
            return false;
        }
        let mut i: usize = 0;
        while i < self.inputs.len()
            invariant
                i <= self.inputs@.len(),
                self.inputs@.len() == other.inputs@.len(),
                forall|j: int| 0 <= j < i ==> (#[trigger] self.inputs@[j]).same(other.inputs@[j]),
            decreases self.inputs@.len() - i,
        {
            proof {
                assert(decreases_to!(*self => self.inputs));
                assert(decreases_to!(self.inputs => self.inputs[i as int]));
            }
            if !self.inputs[i].equals(&other.inputs[i]) {
                return false;
            }
            i += 1;
        }
        true
    }

    /// A deep copy that shares nothing with this chord: the same members,
    /// in the same order, each copied in turn.
    pub fn deep_copy(&self) -> (r: Chord)
        ensures
            InputObject::Chord(*self).alike(InputObject::Chord(r)),
        decreases self,
    {
        let mut inputs: Vec<InputObject> = Vec::new();
        let mut i: usize = 0;
        while i < self.inputs.len()
            invariant
                i <= self.inputs@.len(),
                inputs@.len() == i,
                forall|j: int| 0 <= j < i ==> (#[trigger] self.inputs@[j]).alike(inputs@[j]),
            decreases self.inputs@.len() - i,
        {
            proof {
                assert(decreases_to!(*self => self.inputs));
                assert(decreases_to!(self.inputs => self.inputs[i as int]));
            }
            let member = self.inputs[i].deep_copy();
            inputs.push(member);
            i += 1;
        }
        Chord { inputs }
    }

    /// The button view of a chord is the chord itself.
    pub fn as_button(&self) -> (r: Option<&Chord>)
        ensures
            r == Some(self),
    {
        Some(self)
    }

    /// A chord has no single-axis view.
    pub fn as_axis(&self) -> (r: Option<SingleAxis>)
        ensures
            r is None,
    {
        None
    }

    /// A chord has no dual-axis view.
    pub fn as_dual_axis(&self) -> (r: Option<DualAxis>)
        ensures
            r is None,
    {
        None
    }

    /// The atomic leaves of the chord, in order.
    pub fn raw_inputs(&self) -> (r: Vec<InputKind>)
        ensures
            r@ == self.leaves(),
        decreases self,
    {
        let mut leaves: Vec<InputKind> = Vec::new();
        let mut i: usize = 0;
        while i < self.inputs.len()
            invariant
                i <= self.inputs@.len(),
                leaves@ == leaves_of(self.inputs@, i as nat),
            decreases self.inputs@.len() - i,
        {
            proof {
                assert(decreases_to!(*self => self.inputs));
                assert(decreases_to!(self.inputs => self.inputs[i as int]));
            }
            let mut more = self.inputs[i].raw_inputs();
            leaves.append(&mut more);
            i += 1;
        }
        leaves
    }

    /// The number of atomic leaves of the chord.
    pub fn len(&self) -> (r: usize)
        ensures
            r == self.leaves().len(),
    {
        self.raw_inputs().len()
    }
}

/// Among the first `count` members of a sequence that continues with more
/// members, the leaves are those of the sequence cut short.
pub proof fn lemma_leaves_of_prefix(front: Seq<InputObject>, back: Seq<InputObject>, count: nat)
    requires
        count <= front.len(),
    ensures
        leaves_of(front + back, count) =~= leaves_of(front, count),
    decreases count,
{
    if count > 0 {
        lemma_leaves_of_prefix(front, back, (count - 1) as nat);
        assert((front + back)[count - 1] == front[count - 1]);
    }
}

/// The leaves of two sequences of members put end to end are the leaves of
/// the first followed by the leaves of the second.
pub proof fn lemma_leaves_of_concat(front: Seq<InputObject>, back: Seq<InputObject>, count: nat)
    requires
        count <= back.len(),
    ensures
        leaves_of(front + back, front.len() + count) =~= leaves_of(front, front.len()) + leaves_of(
            back,
            count,
        ),
    decreases count,
{
    if count == 0 {
        lemma_leaves_of_prefix(front, back, front.len());
    } else {
        lemma_leaves_of_concat(front, back, (count - 1) as nat);
        assert((front + back)[front.len() + count - 1] == back[count - 1]);
    }
}

/// A chord nested in a chord flattens away: putting the chord `inner` among
/// the members gives the same leaves, in the same order, as putting the
/// members of `inner` in its place.
pub proof fn lemma_nested_chord_flattens(
    before: Seq<InputObject>,
    inner: Chord,
    after: Seq<InputObject>,
    nested: Chord,
    flat: Chord,
)
    requires
        nested.inputs@ == before + seq![InputObject::Chord(inner)] + after,
        flat.inputs@ == before + inner.inputs@ + after,
    ensures
        nested.leaves() == flat.leaves(),
{
    let single = seq![InputObject::Chord(inner)];
    lemma_leaves_of_concat(before, single, 1);
    lemma_leaves_of_concat(before + single, after, after.len());
    lemma_leaves_of_concat(before, inner.inputs@, inner.inputs@.len());
    lemma_leaves_of_concat(before + inner.inputs@, after, after.len());
    assert(single[0].leaves() == inner.leaves());
    assert(leaves_of(single, 1) == leaves_of(single, 0) + single[0].leaves());
    assert(nested.leaves() =~= flat.leaves());
}

/// An input is the same as itself, whatever bits its axes hold, and so is
/// every input that has its shape and the same leaves in the same places:
/// a deep copy is equal to what it was copied from.
pub proof fn lemma_alike_is_same(input: InputObject, other: InputObject)
    requires
        input.alike(other),
    ensures
        input.same(other),
    decreases input,
{
    match (input, other) {
        (InputObject::Chord(a), InputObject::Chord(b)) => {
            assert forall|i: int| 0 <= i < a.inputs@.len() implies (#[trigger] a.inputs@[i]).same(
                b.inputs@[i],
            ) by {
                lemma_alike_is_same(a.inputs@[i], b.inputs@[i]);
            }
        },
        _ => {},
    }
}

/// A chord is strict: one immediate member without a button view keeps it
/// from being pressed, whatever buttons are held.
pub proof fn lemma_member_without_button_blocks(chord: Chord, member: int, down: Seq<InputKind>)
    requires
        0 <= member < chord.inputs@.len(),
        !chord.inputs@[member].has_button(),
    ensures
        !chord.pressed(down),
{
    assert(!chord.inputs@[member].pressed(down));
}

impl PartialEq for InputObject {
    fn eq(&self, other: &InputObject) -> (r: bool) {
        self.equals(other)
    }
}

impl vstd::std_specs::cmp::PartialEqSpecImpl for InputObject {
    open spec fn obeys_eq_spec() -> bool {
        true
    }

    open spec fn eq_spec(&self, other: &InputObject) -> bool {
        self.same(*other)
    }
}

impl PartialEq for Chord {
    fn eq(&self, other: &Chord) -> (r: bool) {
        self.equals(other)
    }
}

impl vstd::std_specs::cmp::PartialEqSpecImpl for Chord {
    open spec fn obeys_eq_spec() -> bool {
        true
    }

    open spec fn eq_spec(&self, other: &Chord) -> bool {
        self.same(*other)
    }
}

impl Clone for InputObject {
    fn clone(&self) -> (r: InputObject)
        ensures
            self.alike(r),
    {
        self.deep_copy()
    }
}

impl Clone for Chord {
    fn clone(&self) -> (r: Chord)
        ensures
            InputObject::Chord(*self).alike(InputObject::Chord(r)),
    {
        self.deep_copy()
    }
}

} // verus!

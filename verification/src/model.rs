//! The scene, what the mouse does to it, and what is drawn of it.

use vstd::prelude::*;
use crate::frame::{frame_file_name, frame_name};
use crate::geometry::{Point, MAX_NUM_SQUARES, NUM_X, NUM_Y};
use crate::palette::{color_of_layer, layer_color, Rgb};
use crate::square::Square;
use crate::structure::{
    covers_grid, gen_structures, stack_views, visible_layers, SquareStructure, StackView,
};

verus! {

/// A button of the mouse.
#[derive(Clone, Copy, Debug, PartialEq, Eq, Structural)]
pub enum Button {
    Left,
    Right,
    Other,
}

/// What the mouse wheel did: it was turned up or down by lines, or neither.
#[derive(Clone, Copy, Debug, PartialEq, Eq, Structural)]
pub enum Wheel {
    Up,
    Down,
    Still,
}

/// The scene: the grid of stacks, how many layers of each stack are asked
/// for, and the number of the next frame to be written out.
pub struct Model {
    squares: Vec<SquareStructure>,
    current_num_squares: usize,
    export: usize,
}

/// What a [`Model`] holds, as plain values.
pub struct ModelView {
    pub squares: Seq<StackView>,
    pub current_num_squares: nat,
    pub export: nat,
}

impl ModelView {
    /// The stacks cover the grid, and at least one layer and at most a full
    /// stack is asked for.
    pub open spec fn wf(self) -> bool {
        &&& covers_grid(self.squares)
        &&& 1 <= self.current_num_squares <= MAX_NUM_SQUARES
    }
}

impl View for Model {
    type V = ModelView;

    closed spec fn view(&self) -> ModelView {
        ModelView {
            squares: stack_views(self.squares@),
            current_num_squares: self.current_num_squares as nat,
            export: self.export as nat,
        }
    }
}

/// Whether the stacks of `after` stand where those of `before` stand, each
/// with the randomness of the one it replaces.
pub open spec fn same_places(before: Seq<StackView>, after: Seq<StackView>) -> bool {
    &&& after.len() == before.len()
    &&& forall|k: int|
        0 <= k < before.len() ==> {
            &&& (#[trigger] after[k]).position == before[k].position
            &&& after[k].randomness == before[k].randomness
        }
}

/// The number of layers asked for after the wheel was turned: one more when
/// it was turned up, one less when it was turned down, and the same where
/// that would leave the range from one layer to a full stack.
pub open spec fn wheel_target(current: nat, dt: Wheel) -> nat {
    match dt {
        Wheel::Up => if current < MAX_NUM_SQUARES {
            current + 1
        } else {
            current
        },
        Wheel::Down => if current > 1 {
            (current - 1) as nat
        } else {
            current
        },
        Wheel::Still => current,
    }
}

impl Model {
    /// The stacks of the grid, column after column.
    pub fn squares(&self) -> (s: &Vec<SquareStructure>)
        ensures
            stack_views(s@) == self@.squares,
    {
        &self.squares
    }

    /// How many layers of each stack are asked for.
    pub fn current_num_squares(&self) -> (n: usize)
        ensures
            n == self@.current_num_squares,
    {
        self.current_num_squares
    }

    /// The number of the next frame to be written out.
    pub fn export(&self) -> (n: usize)
        ensures
            n == self@.export,
    {
        self.export
    }
}

/// The scene at the start: freshly drawn stacks over the whole grid, one
/// layer asked for, no frame written yet.
pub fn model() -> (m: Model)
    ensures
        m@.wf(),
        m@.current_num_squares == 1,
        m@.export == 0,
{
    let squares: Vec<SquareStructure> = gen_structures();
    Model { squares, current_num_squares: 1, export: 0 }
}

/// Names the frame that is to be written out now, and counts it.
pub fn save_frame(model: &mut Model) -> (name: String)
    requires
        old(model)@.export < usize::MAX,
    ensures
        name@ == frame_name(old(model)@.export),
        final(model)@.export == old(model)@.export + 1,
        final(model)@.squares == old(model)@.squares,
        final(model)@.current_num_squares == old(model)@.current_num_squares,
        old(model)@.wf() ==> final(model)@.wf(),
{
    let name: String = frame_file_name(model.export);
    model.export += 1;
    name
}

/// Replaces every outline of every stack by a freshly drawn one.
fn regenerate(squares: &mut Vec<SquareStructure>)
    ensures
        same_places(stack_views(old(squares)@), stack_views(final(squares)@)),
        forall|k: int| 0 <= k < final(squares)@.len() ==> (#[trigger] final(squares)@[k])@.wf(),
{
    let n: usize = squares.len();
    let mut k: usize = 0;
    while k < n
        invariant
            k <= n,
            squares@.len() == n,
            old(squares)@.len() == n,
            forall|j: int| 0 <= j < k ==> (#[trigger] squares@[j])@.wf(),
            forall|j: int| k <= j < n ==> #[trigger] squares@[j] == old(squares)@[j],
            forall|j: int|
                0 <= j < n ==> {
                    &&& (#[trigger] squares@[j])@.position == old(squares)@[j]@.position
                    &&& squares@[j]@.randomness == old(squares)@[j]@.randomness
                },
        decreases n - k,
    {
        squares[k].set_points();
        k += 1;
    }
}

/// A button of the mouse was released.
///
/// The left button regenerates every stack. The right button has the frame
/// written out: the result is the name of its file. Any other button does
/// nothing.
pub fn mouse_released(model: &mut Model, button: Button) -> (saved: Option<String>)
    requires
        button == Button::Right ==> old(model)@.export < usize::MAX,
    ensures
        old(model)@.wf() ==> final(model)@.wf(),
        final(model)@.current_num_squares == old(model)@.current_num_squares,
        same_places(old(model)@.squares, final(model)@.squares),
        button != Button::Left ==> final(model)@.squares == old(model)@.squares,
        button == Button::Right <==> saved is Some,
        button == Button::Right ==> saved->0@ == frame_name(old(model)@.export),
        final(model)@.export == old(model)@.export + if button == Button::Right {
            1nat
        } else {
            0nat
        },
{
    match button {
        Button::Left => {
            regenerate(&mut model.squares);
            None
        },
        Button::Right => Some(save_frame(model)),
        Button::Other => None,
    }
}

/// The number of layers asked for after the wheel was turned while `current`
/// were asked for.
pub fn wheel_step(current: usize, dt: Wheel) -> (next: usize)
    ensures
        next == wheel_target(current as nat, dt),
{
    match dt {
        Wheel::Up => {
            if current < MAX_NUM_SQUARES {
                current + 1
            } else {
                current
            }
        },
        Wheel::Down => {
            if current > 1 {
                current - 1
            } else {
                current
            }
        },
        Wheel::Still => current,
    }
}

/// The mouse wheel was turned.
///
/// Turning it up asks for one layer more, turning it down for one less,
/// within the range from one layer to a full stack. Where the number
/// changes, the frame is written out: the result is the name of its file.
pub fn mouse_wheel(model: &mut Model, dt: Wheel) -> (saved: Option<String>)
    requires
        wheel_target(old(model)@.current_num_squares, dt) != old(model)@.current_num_squares
            ==> old(model)@.export < usize::MAX,
    ensures
        old(model)@.wf() ==> final(model)@.wf(),
        final(model)@.squares == old(model)@.squares,
        final(model)@.current_num_squares == wheel_target(old(model)@.current_num_squares, dt),
        final(model)@.current_num_squares != old(model)@.current_num_squares <==> saved is Some,
        saved is Some ==> saved->0@ == frame_name(old(model)@.export),
        final(model)@.export == old(model)@.export + if saved is Some {
            1nat
        } else {
            0nat
        },
{
    let next: usize = wheel_step(model.current_num_squares, dt);
    if next != model.current_num_squares {
        model.current_num_squares = next;
        Some(save_frame(model))
    } else {
        None
    }
}

/// One outline as it is drawn: where its stack stands, the colour and weight
/// of the stroke, and the points of the path relative to the stack's place.
pub struct Stroke {
    pub position: Point,
    pub color: Rgb,
    pub weight: i64,
    pub points: Vec<Point>,
}

/// What a [`Stroke`] holds, as plain values.
pub struct StrokeView {
    pub position: Point,
    pub color: Rgb,
    pub weight: int,
    pub points: Seq<Point>,
}

impl View for Stroke {
    type V = StrokeView;

    open spec fn view(&self) -> StrokeView {
        StrokeView {
            position: self.position,
            color: self.color,
            weight: self.weight as int,
            points: self.points@,
        }
    }
}

/// The views of a sequence of strokes, one for one.
pub open spec fn stroke_views(strokes: Seq<Stroke>) -> Seq<StrokeView> {
    strokes.map_values(|s: Stroke| s@)
}

/// The stroke that draws layer `i` of `stack`.
pub open spec fn layer_stroke(stack: StackView, i: int) -> StrokeView {
    StrokeView {
        position: stack.position,
        color: layer_color(i),
        weight: stack.collection[i].weight,
        points: stack.collection[i].points,
    }
}

/// The strokes that draw `stack` when `current` layers are asked for: its
/// visible layers from the lowest up.
pub open spec fn stack_strokes(stack: StackView, current: nat) -> Seq<StrokeView> {
    Seq::new(
        visible_layers(stack.randomness, current as int) as nat,
        |i: int| layer_stroke(stack, i),
    )
}

/// The strokes that draw `stacks` when `current` layers are asked for: those
/// of the first stack, those of the second, and so on.
pub open spec fn scene_strokes(stacks: Seq<StackView>, current: nat) -> Seq<StrokeView>
    decreases stacks.len(),
{
    if stacks.len() == 0 {
        Seq::empty()
    } else {
        scene_strokes(stacks.drop_last(), current) + stack_strokes(stacks.last(), current)
    }
}

/// What is drawn of the scene, in drawing order: for each stack in turn its
/// visible layers from the lowest up, each in the colour of its layer.
pub fn view(model: &Model) -> (strokes: Vec<Stroke>)
    ensures
        stroke_views(strokes@) == scene_strokes(model@.squares, model@.current_num_squares),
{
    let ghost stacks: Seq<StackView> = model@.squares;
    let ghost current: nat = model@.current_num_squares;
    let mut strokes: Vec<Stroke> = Vec::new();
    let n: usize = model.squares.len();
    let mut s: usize = 0;
    while s < n
        invariant
            s <= n,
            n == model.squares@.len(),
            stacks == model@.squares,
            current == model@.current_num_squares,
            stroke_views(strokes@) =~= scene_strokes(stacks.take(s as int), current),
        decreases n - s,
    {
        let structure: &SquareStructure = &model.squares[s];
        let shown: usize = structure.visible(model.current_num_squares);
        let collection: &Vec<Square> = structure.collection();
        let ghost before: Seq<StrokeView> = stroke_views(strokes@);
        let mut i: usize = 0;
        while i < shown
            invariant
                i <= shown <= MAX_NUM_SQUARES,
                s < stacks.len(),
                collection@.len() == MAX_NUM_SQUARES,
                shown == visible_layers(stacks[s as int].randomness, current as int),
                structure@ == stacks[s as int],
                structure@.collection == crate::structure::square_views(collection@),
                stroke_views(strokes@) =~= before + stack_strokes(stacks[s as int], current).take(
                    i as int,
                ),
            decreases shown - i,
        {
            let square: &Square = &collection[i];
            let points: Vec<Point> = square.points().clone();
            let ghost drawn: Seq<StrokeView> = stroke_views(strokes@);
            strokes.push(
                Stroke {
                    position: structure.position(),
                    color: color_of_layer(i),
                    weight: square.weight(),
                    points,
                },
            );
            assert(stroke_views(strokes@) =~= drawn.push(
                layer_stroke(stacks[s as int], i as int),
            ));
            i += 1;
        }
        proof {
            let upto: Seq<StackView> = stacks.take(s + 1);
            assert(upto.drop_last() =~= stacks.take(s as int));
            assert(upto.last() == stacks[s as int]);
            let all: Seq<StrokeView> = stack_strokes(stacks[s as int], current);
            assert(all.take(shown as int) =~= all);
        }
        s += 1;
    }
    assert(stacks.take(n as int) =~= stacks);
    strokes
}

/// Turning the wheel never asks for less than one layer or for more than a
/// full stack.
pub proof fn lemma_wheel_keeps_range(current: nat, dt: Wheel)
    requires
        1 <= current <= MAX_NUM_SQUARES,
    ensures
        1 <= wheel_target(current, dt) <= MAX_NUM_SQUARES,
{
}

} // verus!

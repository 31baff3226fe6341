//! A stack of outlines at one grid cell, and the grid of stacks.

use vstd::prelude::*;
use crate::geometry::{cell_position, cell_x, cell_y, in_grid, Point, MAX_NUM_SQUARES, NUM_X, NUM_Y};
use crate::square::{Square, SquareView};

verus! {

/// The stack of one grid cell: where it stands, its outlines from the lowest
/// layer up, and its randomness in eighths.
pub struct SquareStructure {
    position: Point,
    collection: Vec<Square>,
    randomness: i32,
}

/// What a [`SquareStructure`] holds, as plain values.
pub struct StackView {
    pub position: Point,
    pub collection: Seq<SquareView>,
    pub randomness: int,
}

/// The views of a sequence of outlines, one for one.
pub open spec fn square_views(squares: Seq<Square>) -> Seq<SquareView> {
    squares.map_values(|s: Square| s@)
}

/// The views of a sequence of stacks, one for one.
pub open spec fn stack_views(stacks: Seq<SquareStructure>) -> Seq<StackView> {
    stacks.map_values(|s: SquareStructure| s@)
}

/// Randomness of the stack at cell `(i_x, i_y)`, in eighths: how far the cell
/// lies above the grid's diagonal, less one.
pub open spec fn cell_randomness(i_x: int, i_y: int) -> int {
    i_y - (i_x + 1)
}

/// How many layers of a stack are drawn when `current` layers are asked for:
/// a stack shows at most one layer more than the magnitude of its randomness.
pub open spec fn visible_layers(randomness: int, current: int) -> int {
    vstd::math::min(current, vstd::math::abs(randomness) as int + 1)
}

impl StackView {
    /// A full stack whose every outline fits its layer, with a randomness
    /// that a cell of the grid can have.
    pub open spec fn wf(self) -> bool {
        &&& -NUM_X <= self.randomness <= NUM_Y - 2
        &&& self.collection.len() == MAX_NUM_SQUARES
        &&& forall|i: int|
            0 <= i < MAX_NUM_SQUARES ==> {
                &&& (#[trigger] self.collection[i]).wf()
                &&& self.collection[i].fits_layer(self.randomness, i)
            }
    }

    /// Whether the stack stands where cell `(i_x, i_y)` is and has that
    /// cell's randomness.
    pub open spec fn at_cell(self, i_x: int, i_y: int) -> bool {
        &&& self.position.x == cell_x(i_x)
        &&& self.position.y == cell_y(i_y)
        &&& self.randomness == cell_randomness(i_x, i_y)
    }
}

/// Whether `stacks` covers the grid: one well-formed stack for each cell,
/// column after column, each column from its first row to its last.
pub open spec fn covers_grid(stacks: Seq<StackView>) -> bool {
    &&& stacks.len() == NUM_X * NUM_Y
    &&& forall|k: int|
        0 <= k < NUM_X * NUM_Y ==> {
            &&& (#[trigger] stacks[k]).wf()
            &&& stacks[k].at_cell(k / (NUM_Y as int), k % (NUM_Y as int))
        }
}

/// A well-formed stack shows at least one of its layers and never more than
/// it holds, as long as at least one layer is asked for.
pub proof fn lemma_visible_in_range(stack: StackView, current: int)
    requires
        stack.wf(),
        1 <= current,
    ensures
        1 <= visible_layers(stack.randomness, current) <= MAX_NUM_SQUARES,
        visible_layers(stack.randomness, current) <= stack.collection.len(),
        visible_layers(stack.randomness, current) <= current,
{
}

/// Stacks that cover the grid are sixty-three.
pub proof fn lemma_grid_size(stacks: Seq<StackView>)
    requires
        covers_grid(stacks),
    ensures
        stacks.len() == 63,
{
}

impl View for SquareStructure {
    type V = StackView;

    closed spec fn view(&self) -> StackView {
        StackView {
            position: self.position,
            collection: square_views(self.collection@),
            randomness: self.randomness as int,
        }
    }
}

/// Eight fresh outlines for a stack of the given randomness, the lowest
/// layer first.
fn gen_collection(randomness: i32) -> (collection: Vec<Square>)
    ensures
        collection@.len() == MAX_NUM_SQUARES,
        forall|i: int|
            0 <= i < MAX_NUM_SQUARES ==> {
                &&& (#[trigger] collection@[i])@.wf()
                &&& collection@[i]@.fits_layer(randomness as int, i)
            },
{
    let mut collection: Vec<Square> = Vec::new();
    let mut i: usize = 0;
    while i < MAX_NUM_SQUARES
        invariant
            i <= MAX_NUM_SQUARES,
            collection@.len() == i,
            forall|k: int|
                0 <= k < i ==> {
                    &&& (#[trigger] collection@[k])@.wf()
                    &&& collection@[k]@.fits_layer(randomness as int, k)
                },
        decreases MAX_NUM_SQUARES - i,
    {
        collection.push(Square::new(randomness, i));
        i += 1;
    }
    collection
}

impl SquareStructure {
    #[verifier::type_invariant]
    spec fn full_stack(&self) -> bool {
        self@.wf()
    }

    /// The stack of grid cell `(i_x, i_y)`, with freshly drawn outlines.
    pub fn new(i_x: i32, i_y: i32) -> (s: SquareStructure)
        requires
            in_grid(i_x as int, i_y as int),
        ensures
            s@.at_cell(i_x as int, i_y as int),
            s@.wf(),
    {
        let randomness: i32 = i_y - (i_x + 1);
        let collection: Vec<Square> = gen_collection(randomness);
        SquareStructure { position: cell_position(i_x, i_y), collection, randomness }
    }

    /// Replaces every outline of the stack by a freshly drawn one. The stack
    /// stays where it is and keeps its randomness.
    pub fn set_points(&mut self)
        ensures
            final(self)@.position == old(self)@.position,
            final(self)@.randomness == old(self)@.randomness,
            final(self)@.wf(),
    {
        proof {
            use_type_invariant(&*self);
        }
        self.collection = gen_collection(self.randomness);
    }

    /// How many of the stack's layers are drawn when `current_num_squares`
    /// are asked for.
    pub fn visible(&self, current_num_squares: usize) -> (n: usize)
        ensures
            n == visible_layers(self@.randomness, current_num_squares as int),
            n <= MAX_NUM_SQUARES,
    {
        proof {
            use_type_invariant(self);
        }
        let magnitude: i32 = if self.randomness < 0 {
            -self.randomness
        } else {
            self.randomness
        };
        let bound: usize = magnitude as usize + 1;
        if current_num_squares < bound {
            current_num_squares
        } else {
            bound
        }
    }

    /// Where the stack stands, in units from the window's centre.
    pub fn position(&self) -> (p: Point)
        ensures
            p == self@.position,
    {
        self.position
    }

    /// The stack's outlines, the lowest layer first.
    pub fn collection(&self) -> (c: &Vec<Square>)
        ensures
            square_views(c@) == self@.collection,
            self@.wf(),
    {
        proof {
            use_type_invariant(self);
        }
        &self.collection
    }

    /// The stack's randomness, in eighths.
    pub fn randomness(&self) -> (r: i32)
        ensures
            r == self@.randomness,
            -NUM_X <= r <= NUM_Y - 2,
    {
        proof {
            use_type_invariant(self);
        }
        self.randomness
    }
}

/// The stacks of the whole grid, column after column, each with freshly drawn
/// outlines.
pub fn gen_structures() -> (sqrs: Vec<SquareStructure>)
    ensures
        covers_grid(stack_views(sqrs@)),
{
    let mut sqrs: Vec<SquareStructure> = Vec::new();
    let mut i: i32 = 0;
    while i < NUM_X
        invariant
            0 <= i <= NUM_X,
            sqrs@.len() == i * NUM_Y,
            forall|k: int|
                0 <= k < i * NUM_Y ==> {
                    &&& (#[trigger] sqrs@[k])@.wf()
                    &&& sqrs@[k]@.at_cell(k / (NUM_Y as int), k % (NUM_Y as int))
                },
        decreases NUM_X - i,
    {
        let mut j: i32 = 0;
        while j < NUM_Y
            invariant
                0 <= i < NUM_X,
                0 <= j <= NUM_Y,
                sqrs@.len() == i * NUM_Y + j,
                forall|k: int|
                    0 <= k < i * NUM_Y + j ==> {
                        &&& (#[trigger] sqrs@[k])@.wf()
                        &&& sqrs@[k]@.at_cell(k / (NUM_Y as int), k % (NUM_Y as int))
                    },
            decreases NUM_Y - j,
        {
            let q: SquareStructure = SquareStructure::new(i, j);
            sqrs.push(q);
            j += 1;
        }
        i += 1;
    }
    sqrs
}

} // verus!

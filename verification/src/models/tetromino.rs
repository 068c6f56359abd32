//! The falling piece: its orientation, the table of cells of each of the
//! seven shapes, and what moving and rotating do to it.

use vstd::prelude::*;

pub mod i;
pub mod j;
pub mod l;
pub mod o;
pub mod s;
pub mod t;
pub mod z;

use crate::models::block::{
    all_representable, cells_of, lemma_cells_of_injective, Block, Cell, Color, Direction,
};
use crate::models::tetromino::i::I;
use crate::models::tetromino::j::J;
use crate::models::tetromino::l::L;
use crate::models::tetromino::o::O;
use crate::models::tetromino::s::S;
use crate::models::tetromino::t::T;
use crate::models::tetromino::z::Z;

verus! {

/// The way a piece faces. A piece is dealt facing North. A turn to the right
/// goes North, East, South, West and back to North; a turn to the left goes
/// the other way round.
#[derive(Clone, Copy, Debug, PartialEq, Eq, Structural)]
pub enum TetrominoDirection {
    North,
    East,
    South,
    West,
}

/// The two ways to turn a piece by a quarter: `Left` is counter-clockwise,
/// `Right` is clockwise.
#[derive(Clone, Copy, Debug)]
pub enum RotateDirection {
    Left,
    Right,
}

/// The three ways a piece can be pushed; a piece never moves up.
#[derive(Clone, Copy, Debug)]
pub enum MoveDirection {
    Left,
    Right,
    Down,
}

/// The seven shapes of piece.
#[derive(Clone, Copy, Debug, PartialEq, Eq, Structural)]
pub enum Shape {
    I,
    J,
    L,
    O,
    S,
    T,
    Z,
}

impl RotateDirection {
    /// The turn that undoes this one.
    pub open spec fn opposite(self) -> RotateDirection {
        match self {
            RotateDirection::Left => RotateDirection::Right,
            RotateDirection::Right => RotateDirection::Left,
        }
    }

    /// The number of clockwise quarter turns that this turn amounts to.
    pub open spec fn quarter_turns(self) -> int {
        match self {
            RotateDirection::Left => 3,
            RotateDirection::Right => 1,
        }
    }
}

impl MoveDirection {
    /// The grid direction of this push.
    pub open spec fn direction(self) -> Direction {
        match self {
            MoveDirection::Left => Direction::Left,
            MoveDirection::Right => Direction::Right,
            MoveDirection::Down => Direction::Down,
        }
    }
}

impl From<MoveDirection> for Direction {
    fn from(move_dir: MoveDirection) -> (dir: Direction) {
        match move_dir {
            MoveDirection::Left => Direction::Left,
            MoveDirection::Right => Direction::Right,
            MoveDirection::Down => Direction::Down,
        }
    }
}

impl vstd::std_specs::convert::FromSpecImpl<MoveDirection> for Direction {
    open spec fn obeys_from_spec() -> bool {
        true
    }

    open spec fn from_spec(move_dir: MoveDirection) -> Direction {
        move_dir.direction()
    }
}

impl TetrominoDirection {
    /// The number of clockwise quarter turns that lead from North to `self`.
    pub open spec fn quarter_turns(self) -> int {
        match self {
            TetrominoDirection::North => 0,
            TetrominoDirection::East => 1,
            TetrominoDirection::South => 2,
            TetrominoDirection::West => 3,
        }
    }

    /// The orientation that `n` clockwise quarter turns from North lead to.
    pub open spec fn from_quarter_turns(n: int) -> TetrominoDirection {
        let k = n % 4;
        if k == 0 {
            TetrominoDirection::North
        } else if k == 1 {
            TetrominoDirection::East
        } else if k == 2 {
            TetrominoDirection::South
        } else {
            TetrominoDirection::West
        }
    }

    /// The orientation after one quarter turn in direction `rotate_dir`.
    pub open spec fn turned(self, rotate_dir: RotateDirection) -> TetrominoDirection {
        Self::from_quarter_turns(self.quarter_turns() + rotate_dir.quarter_turns())
    }

    /// The orientation after one quarter turn in direction `rotate_dir`.
    pub fn rotate(&self, rotate_dir: RotateDirection) -> (turned: Self)
        ensures
            turned == self.turned(rotate_dir),
    {
        match rotate_dir {
            RotateDirection::Left => match self {
                TetrominoDirection::North => TetrominoDirection::West,
                TetrominoDirection::West => TetrominoDirection::South,
                TetrominoDirection::South => TetrominoDirection::East,
                TetrominoDirection::East => TetrominoDirection::North,
            },
            RotateDirection::Right => match self {
                TetrominoDirection::North => TetrominoDirection::East,
                TetrominoDirection::West => TetrominoDirection::North,
                TetrominoDirection::South => TetrominoDirection::West,
                TetrominoDirection::East => TetrominoDirection::South,
            },
        }
    }
}

impl Shape {
    /// The colour that pieces of this shape have when they are dealt.
    pub open spec fn color(self) -> Color {
        match self {
            Shape::I => Color::Cyan,
            Shape::J => Color::Blue,
            Shape::L => Color::Orange,
            Shape::O => Color::Yellow,
            Shape::S => Color::Green,
            Shape::T => Color::Purple,
            Shape::Z => Color::Red,
        }
    }

    /// The definition of the shapes: for each shape and orientation, the four
    /// cells of the piece as `(dx, dy)` from its axis, in the order in which
    /// they are listed. A piece is dealt facing North; each orientation is
    /// the one before it turned by a quarter to the right. The square is the
    /// same in every orientation.
    pub open spec fn layout(self, facing: TetrominoDirection) -> Seq<(int, int)> {
        match self {
            Shape::I => match facing {
                TetrominoDirection::North => seq![(-2, 0), (-1, 0), (0, 0), (1, 0)],
                TetrominoDirection::East => seq![(0, -1), (0, 0), (0, 1), (0, 2)],
                TetrominoDirection::South => seq![(-1, 0), (0, 0), (1, 0), (2, 0)],
                TetrominoDirection::West => seq![(0, -2), (0, -1), (0, 0), (0, 1)],
            },
            Shape::J => match facing {
                TetrominoDirection::North => seq![(-1, 0), (-1, 1), (0, 0), (1, 0)],
                TetrominoDirection::East => seq![(0, -1), (0, 0), (0, 1), (1, 1)],
                TetrominoDirection::South => seq![(-1, 0), (0, 0), (1, -1), (1, 0)],
                TetrominoDirection::West => seq![(-1, -1), (0, -1), (0, 0), (0, 1)],
            },
            Shape::L => match facing {
                TetrominoDirection::North => seq![(-1, 0), (0, 0), (1, 0), (1, 1)],
                TetrominoDirection::East => seq![(0, -1), (0, 0), (0, 1), (1, -1)],
                TetrominoDirection::South => seq![(-1, -1), (-1, 0), (0, 0), (1, 0)],
                TetrominoDirection::West => seq![(-1, 1), (0, -1), (0, 0), (0, 1)],
            },
            Shape::O => seq![(0, 0), (0, 1), (1, 0), (1, 1)],
            Shape::S => match facing {
                TetrominoDirection::North => seq![(-1, -1), (0, -1), (0, 0), (1, 0)],
                TetrominoDirection::East => seq![(-1, 0), (-1, 1), (0, -1), (0, 0)],
                TetrominoDirection::South => seq![(-1, 0), (0, 0), (0, 1), (1, 1)],
                TetrominoDirection::West => seq![(0, 0), (0, 1), (1, -1), (1, 0)],
            },
            Shape::T => match facing {
                TetrominoDirection::North => seq![(-1, 0), (0, 0), (0, 1), (1, 0)],
                TetrominoDirection::East => seq![(0, -1), (0, 0), (0, 1), (1, 0)],
                TetrominoDirection::South => seq![(-1, 0), (0, -1), (0, 0), (1, 0)],
                TetrominoDirection::West => seq![(-1, 0), (0, -1), (0, 0), (0, 1)],
            },
            Shape::Z => match facing {
                TetrominoDirection::North => seq![(-1, 1), (0, 0), (0, 1), (1, 0)],
                TetrominoDirection::East => seq![(0, -1), (0, 0), (1, 0), (1, 1)],
                TetrominoDirection::South => seq![(-1, 0), (0, -1), (0, 0), (1, -1)],
                TetrominoDirection::West => seq![(-1, -1), (-1, 0), (0, 0), (0, 1)],
            },
        }
    }

    /// How far a quarter turn in direction `rotate_dir` carries the axis of a
    /// piece that faces `facing`. Only the bar moves its axis, by one cell:
    /// its axis lies beside the centre of the bar, not on it.
    pub open spec fn kick(self, facing: TetrominoDirection, rotate_dir: RotateDirection) -> (
        int,
        int,
    ) {
        match self {
            Shape::I => match rotate_dir {
                RotateDirection::Left => match facing {
                    TetrominoDirection::North => (-1, 0),
                    TetrominoDirection::East => (0, 1),
                    TetrominoDirection::South => (1, 0),
                    TetrominoDirection::West => (0, -1),
                },
                RotateDirection::Right => match facing {
                    TetrominoDirection::North => (0, -1),
                    TetrominoDirection::East => (-1, 0),
                    TetrominoDirection::South => (0, 1),
                    TetrominoDirection::West => (1, 0),
                },
            },
            _ => (0, 0),
        }
    }
}

/// The place `(dx, dy)` after a quarter turn to the right about `(0, 0)`.
pub open spec fn quarter_right(d: (int, int)) -> (int, int) {
    (d.1, -d.0)
}

impl Shape {
    /// The J, the L, the S, the T and the Z turn about their axis: the cells
    /// of each orientation are those of the orientation before it, turned by
    /// a quarter to the right about the axis.
    pub proof fn lemma_layout_quarter_turn(self, facing: TetrominoDirection)
        requires
            !(self is I),
            !(self is O),
        ensures
            self.layout(facing).len() == 4,
            self.layout(facing.turned(RotateDirection::Right)).to_set() == self.layout(
                facing,
            ).map_values(|d: (int, int)| quarter_right(d)).to_set(),
    {
        let before = self.layout(facing);
        let after = self.layout(facing.turned(RotateDirection::Right));
        let turned = before.map_values(|d: (int, int)| quarter_right(d));
        assert(turned[0] == quarter_right(before[0]));
        assert(turned[1] == quarter_right(before[1]));
        assert(turned[2] == quarter_right(before[2]));
        assert(turned[3] == quarter_right(before[3]));
        assert(after.contains(turned[0]) && after.contains(turned[1]) && after.contains(
            turned[2],
        ) && after.contains(turned[3]));
        assert(turned.contains(after[0]) && turned.contains(after[1]) && turned.contains(
            after[2],
        ) && turned.contains(after[3]));
        assert forall|d: (int, int)| after.to_set().contains(d) <==> turned.to_set().contains(
            d,
        ) by {
            if after.contains(d) {
                let k = choose|k: int| 0 <= k < after.len() && after[k] == d;
                assert(k == 0 || k == 1 || k == 2 || k == 3);
            }
            if turned.contains(d) {
                let k = choose|k: int| 0 <= k < turned.len() && turned[k] == d;
                assert(k == 0 || k == 1 || k == 2 || k == 3);
            }
        }
        assert(after.to_set() =~= turned.to_set());
    }

    /// Every shape but the square covers other cells in each orientation,
    /// and no shape lists a cell twice.
    pub proof fn lemma_layouts_distinct(self, one: TetrominoDirection, other: TetrominoDirection)
        ensures
            self.layout(one).len() == 4,
            self.layout(one).no_duplicates(),
            !(self is O) && one != other ==> self.layout(one).to_set() != self.layout(
                other,
            ).to_set(),
    {
        let a = self.layout(one);
        let b = self.layout(other);
        if !(self is O) && one != other {
            // One of the cells of `a` is no cell of `b`.
            let k = choose|k: int|
                0 <= k < 4 && a[k] != b[0] && a[k] != b[1] && a[k] != b[2] && a[k] != b[3];
            assert(exists|k: int|
                0 <= k < 4 && a[k] != b[0] && a[k] != b[1] && a[k] != b[2] && a[k] != b[3]) by {
                if a[0] != b[0] && a[0] != b[1] && a[0] != b[2] && a[0] != b[3] {
                } else if a[1] != b[0] && a[1] != b[1] && a[1] != b[2] && a[1] != b[3] {
                } else if a[2] != b[0] && a[2] != b[1] && a[2] != b[2] && a[2] != b[3] {
                } else {
                    assert(a[3] != b[0] && a[3] != b[1] && a[3] != b[2] && a[3] != b[3]);
                }
            }
            assert(a.contains(a[k]));
            assert(a.to_set().contains(a[k]));
            if b.contains(a[k]) {
                let j = choose|j: int| 0 <= j < b.len() && b[j] == a[k];
                assert(j == 0 || j == 1 || j == 2 || j == 3);
            }
            assert(!b.to_set().contains(a[k]));
        }
    }

    /// The bar is straight: in each orientation its four cells follow one
    /// another in a row or in a column, and the axis is the second or the
    /// third of them.
    pub proof fn lemma_bar_is_straight(facing: TetrominoDirection)
        ensures
            ({
                let bar = Shape::I.layout(facing);
                &&& bar.len() == 4
                &&& bar[1] == (0int, 0int) || bar[2] == (0int, 0int)
                &&& (forall|i: int| 0 <= i < 3 ==> #[trigger] bar[i + 1] == (bar[i].0 + 1, bar[i].1))
                    || (forall|i: int|
                    0 <= i < 3 ==> #[trigger] bar[i + 1] == (bar[i].0, bar[i].1 + 1))
            }),
    {
    }
}

/// The mathematical value of a piece: its shape, the way it faces and the
/// cell of its axis.
pub ghost struct Pose {
    pub shape: Shape,
    pub facing: TetrominoDirection,
    pub pivot: Cell,
}

impl Pose {
    /// The four cells that the piece occupies.
    pub open spec fn cells(self) -> Seq<Cell> {
        self.shape.layout(self.facing).map_values(|d: (int, int)| self.pivot.offset(d.0, d.1))
    }

    /// The piece pushed by one cell; it faces the same way.
    pub open spec fn moved(self, move_dir: MoveDirection) -> Pose {
        Pose {
            shape: self.shape,
            facing: self.facing,
            pivot: self.pivot.shifted(move_dir.direction()),
        }
    }

    /// The piece turned by a quarter.
    pub open spec fn rotated(self, rotate_dir: RotateDirection) -> Pose {
        let by = self.shape.kick(self.facing, rotate_dir);
        Pose {
            shape: self.shape,
            facing: self.facing.turned(rotate_dir),
            pivot: self.pivot.offset(by.0, by.1),
        }
    }
}

impl Pose {
    /// A quarter turn followed by the opposite quarter turn restores the
    /// piece: it faces as before and its axis is where it was.
    pub proof fn lemma_rotate_inverse(self, rotate_dir: RotateDirection)
        ensures
            self.rotated(rotate_dir).rotated(rotate_dir.opposite()) == self,
    {
    }

    /// Four quarter turns the same way restore the piece, and with it the
    /// cells that it occupies.
    pub proof fn lemma_four_rotations(self, rotate_dir: RotateDirection)
        ensures
            self.rotated(rotate_dir).rotated(rotate_dir).rotated(rotate_dir).rotated(rotate_dir)
                == self,
            self.rotated(rotate_dir).rotated(rotate_dir).rotated(rotate_dir).rotated(
                rotate_dir,
            ).cells() == self.cells(),
    {
    }

    /// A push carries each cell of the piece by one cell in the direction of
    /// the push, and keeps their order.
    pub proof fn lemma_moved_cells(self, move_dir: MoveDirection)
        ensures
            self.moved(move_dir).cells() == self.cells().map_values(
                |c: Cell| c.shifted(move_dir.direction()),
            ),
    {
        assert(self.moved(move_dir).cells() =~= self.cells().map_values(
            |c: Cell| c.shifted(move_dir.direction()),
        ));
    }

    /// Where the four cells of a piece fit the machine integers, each of
    /// them does, and so does the axis, which is one of them.
    pub proof fn lemma_cells_fit(self)
        requires
            all_representable(self.cells()),
        ensures
            self.pivot.representable(),
            self.cells()[0].representable(),
            self.cells()[1].representable(),
            self.cells()[2].representable(),
            self.cells()[3].representable(),
    {
        let cells = self.cells();
        assert(cells.len() == 4);
        assert(cells[0] == self.pivot || cells[1] == self.pivot || cells[2] == self.pivot
            || cells[3] == self.pivot);
    }

    /// A piece always occupies four cells, whatever its shape and the way it
    /// faces. Its axis is one of them, and the others have the colour of the
    /// axis and lie at most two columns and two rows from it.
    pub proof fn lemma_four_cells(self)
        ensures
            self.cells().len() == 4,
            self.cells().contains(self.pivot),
            forall|i: int|
                0 <= i < 4 ==> {
                    let cell = #[trigger] self.cells()[i];
                    &&& cell.color == self.pivot.color
                    &&& self.pivot.x - 2 <= cell.x <= self.pivot.x + 2
                    &&& self.pivot.y - 2 <= cell.y <= self.pivot.y + 2
                },
    {
        let cells = self.cells();
        assert(cells.len() == 4);
        assert(cells[0] == self.pivot || cells[1] == self.pivot || cells[2] == self.pivot
            || cells[3] == self.pivot);
    }
}

/// What `dry_move` lists is, block for block, what `blocks` lists once
/// `move_` has been applied: `dry` is the result of `dry_move` on `before`,
/// `after` is `before` after `move_`, and `committed` is the result of
/// `blocks` on `after`.
pub proof fn lemma_dry_move_agrees<P: Tetromino>(
    before: P,
    after: P,
    move_dir: MoveDirection,
    dry: Seq<Block>,
    committed: Seq<Block>,
)
    requires
        cells_of(dry) == before@.moved(move_dir).cells(),
        after@ == before@.moved(move_dir),
        cells_of(committed) == after@.cells(),
    ensures
        dry == committed,
{
    lemma_cells_of_injective(dry, committed);
}

/// What `dry_rotate` lists is, block for block, what `blocks` lists once
/// `rotate` has been applied: `dry` is the result of `dry_rotate` on
/// `before`, `after` is `before` after `rotate`, and `committed` is the
/// result of `blocks` on `after`.
pub proof fn lemma_dry_rotate_agrees<P: Tetromino>(
    before: P,
    after: P,
    rotate_dir: RotateDirection,
    dry: Seq<Block>,
    committed: Seq<Block>,
)
    requires
        cells_of(dry) == before@.rotated(rotate_dir).cells(),
        after@ == before@.rotated(rotate_dir),
        cells_of(committed) == after@.cells(),
    ensures
        dry == committed,
{
    lemma_cells_of_injective(dry, committed);
}

/// What every piece can do. A piece out of the grid is a piece like any
/// other: whether a position is allowed is for the field to say.
pub trait Tetromino: View<V = Pose> + Sized {
    /// Pushes the piece by one cell.
    fn move_(&mut self, move_dir: MoveDirection)
        requires
            old(self)@.moved(move_dir).pivot.representable(),
        ensures
            final(self)@ == old(self)@.moved(move_dir),
    ;

    /// Turns the piece by a quarter.
    fn rotate(&mut self, rotate_dir: RotateDirection)
        requires
            old(self)@.rotated(rotate_dir).pivot.representable(),
        ensures
            final(self)@ == old(self)@.rotated(rotate_dir),
    ;

    /// The cells that the piece would occupy after `move_(move_dir)`; the
    /// piece stays as it is.
    fn dry_move(&self, move_dir: MoveDirection) -> (blocks: Vec<Block>)
        requires
            all_representable(self@.moved(move_dir).cells()),
        ensures
            blocks@.len() == 4,
            cells_of(blocks@) == self@.moved(move_dir).cells(),
    ;

    /// The cells that the piece would occupy after `rotate(rotate_dir)`; the
    /// piece stays as it is.
    fn dry_rotate(&self, rotate_dir: RotateDirection) -> (blocks: Vec<Block>)
        requires
            all_representable(self@.rotated(rotate_dir).cells()),
        ensures
            blocks@.len() == 4,
            cells_of(blocks@) == self@.rotated(rotate_dir).cells(),
    ;

    /// The four cells that the piece occupies.
    fn blocks(&self) -> (blocks: Vec<Block>)
        requires
            all_representable(self@.cells()),
        ensures
            blocks@.len() == 4,
            cells_of(blocks@) == self@.cells(),
    ;
}

/// Any one of the seven pieces.
#[derive(Clone, Copy, Debug, PartialEq, Eq, Structural)]
pub enum Piece {
    I(I),
    J(J),
    L(L),
    O(O),
    S(S),
    T(T),
    Z(Z),
}

impl View for Piece {
    type V = Pose;

    open spec fn view(&self) -> Pose {
        match self {
            Piece::I(piece) => piece@,
            Piece::J(piece) => piece@,
            Piece::L(piece) => piece@,
            Piece::O(piece) => piece@,
            Piece::S(piece) => piece@,
            Piece::T(piece) => piece@,
            Piece::Z(piece) => piece@,
        }
    }
}

impl Tetromino for Piece {
    fn move_(&mut self, move_dir: MoveDirection) {
        match self {
            Piece::I(piece) => piece.move_(move_dir),
            Piece::J(piece) => piece.move_(move_dir),
            Piece::L(piece) => piece.move_(move_dir),
            Piece::O(piece) => piece.move_(move_dir),
            Piece::S(piece) => piece.move_(move_dir),
            Piece::T(piece) => piece.move_(move_dir),
            Piece::Z(piece) => piece.move_(move_dir),
        }
    }

    fn rotate(&mut self, rotate_dir: RotateDirection) {
        match self {
            Piece::I(piece) => piece.rotate(rotate_dir),
            Piece::J(piece) => piece.rotate(rotate_dir),
            Piece::L(piece) => piece.rotate(rotate_dir),
            Piece::O(piece) => piece.rotate(rotate_dir),
            Piece::S(piece) => piece.rotate(rotate_dir),
            Piece::T(piece) => piece.rotate(rotate_dir),
            Piece::Z(piece) => piece.rotate(rotate_dir),
        }
    }

    fn dry_move(&self, move_dir: MoveDirection) -> (blocks: Vec<Block>) {
        match self {
            Piece::I(piece) => piece.dry_move(move_dir),
            Piece::J(piece) => piece.dry_move(move_dir),
            Piece::L(piece) => piece.dry_move(move_dir),
            Piece::O(piece) => piece.dry_move(move_dir),
            Piece::S(piece) => piece.dry_move(move_dir),
            Piece::T(piece) => piece.dry_move(move_dir),
            Piece::Z(piece) => piece.dry_move(move_dir),
        }
    }

    fn dry_rotate(&self, rotate_dir: RotateDirection) -> (blocks: Vec<Block>) {
        match self {
            Piece::I(piece) => piece.dry_rotate(rotate_dir),
            Piece::J(piece) => piece.dry_rotate(rotate_dir),
            Piece::L(piece) => piece.dry_rotate(rotate_dir),
            Piece::O(piece) => piece.dry_rotate(rotate_dir),
            Piece::S(piece) => piece.dry_rotate(rotate_dir),
            Piece::T(piece) => piece.dry_rotate(rotate_dir),
            Piece::Z(piece) => piece.dry_rotate(rotate_dir),
        }
    }

    fn blocks(&self) -> (blocks: Vec<Block>) {
        match self {
            Piece::I(piece) => piece.blocks(),
            Piece::J(piece) => piece.blocks(),
            Piece::L(piece) => piece.blocks(),
            Piece::O(piece) => piece.blocks(),
            Piece::S(piece) => piece.blocks(),
            Piece::T(piece) => piece.blocks(),
            Piece::Z(piece) => piece.blocks(),
        }
    }
}

impl Piece {
    /// Which of the seven shapes this piece has.
    pub fn shape(&self) -> (shape: Shape)
        ensures
            shape == self@.shape,
    {
        proof {
            self.lemma_shape();
        }
        match self {
            Piece::I(_) => Shape::I,
            Piece::J(_) => Shape::J,
            Piece::L(_) => Shape::L,
            Piece::O(_) => Shape::O,
            Piece::S(_) => Shape::S,
            Piece::T(_) => Shape::T,
            Piece::Z(_) => Shape::Z,
        }
    }

    /// The variant of a piece is the shape of its pose.
    pub proof fn lemma_shape(self)
        ensures
            self is I <==> self@.shape == Shape::I,
            self is J <==> self@.shape == Shape::J,
            self is L <==> self@.shape == Shape::L,
            self is O <==> self@.shape == Shape::O,
            self is S <==> self@.shape == Shape::S,
            self is T <==> self@.shape == Shape::T,
            self is Z <==> self@.shape == Shape::Z,
    {
        match self {
            Piece::I(piece) => piece.lemma_shape(),
            Piece::J(piece) => piece.lemma_shape(),
            Piece::L(piece) => piece.lemma_shape(),
            Piece::O(piece) => piece.lemma_shape(),
            Piece::S(piece) => piece.lemma_shape(),
            Piece::T(piece) => piece.lemma_shape(),
            Piece::Z(piece) => piece.lemma_shape(),
        }
    }
}

/// The poses that a sequence of pieces stands for, in the same order.
pub open spec fn poses_of(pieces: Seq<Piece>) -> Seq<Pose> {
    pieces.map_values(|piece: Piece| piece@)
}

} // verus!

//! A coloured unit cell of the grid, and the four directions it can step in.

use vstd::prelude::*;

verus! {

/// The colour of a cell; each shape of piece has its own.
#[derive(Clone, Copy, Debug, PartialEq, Eq, Structural)]
pub enum Color {
    Cyan,
    Blue,
    Orange,
    Green,
    Red,
    Purple,
    Yellow,
}

/// The side of a cell on the screen, in pixels.
pub const CELL_SIZE: i64 = 32;

/// The row of the grid that is drawn at the top of the screen. The rows above
/// it, where pieces appear, are not shown.
pub const TOP_VISIBLE_ROW: i64 = 19;

impl Color {
    /// The column of the sprite sheet that holds the image of a cell of this
    /// colour.
    pub open spec fn sprite_index(self) -> int {
        match self {
            Color::Cyan => 1,
            Color::Blue => 2,
            Color::Orange => 3,
            Color::Green => 4,
            Color::Red => 5,
            Color::Purple => 6,
            Color::Yellow => 7,
        }
    }

    /// The column of the sprite sheet that holds the image of a cell of this
    /// colour.
    pub fn sprite_column(&self) -> (col: u32)
        ensures
            col == self.sprite_index(),
    {
        match self {
            Color::Cyan => 1,
            Color::Blue => 2,
            Color::Orange => 3,
            Color::Green => 4,
            Color::Red => 5,
            Color::Purple => 6,
            Color::Yellow => 7,
        }
    }
}

/// A step of one cell along a grid axis. `Up` raises `y`, `Right` raises `x`.
#[derive(Clone, Copy, Debug)]
pub enum Direction {
    Left,
    Up,
    Right,
    Down,
}

/// The mathematical value of a [`Block`]: a colour at unbounded integer
/// coordinates.
pub ghost struct Cell {
    pub color: Color,
    pub x: int,
    pub y: int,
}

impl Cell {
    /// The cell `dx` columns to the right and `dy` rows above this one.
    pub open spec fn offset(self, dx: int, dy: int) -> Cell {
        Cell { color: self.color, x: self.x + dx, y: self.y + dy }
    }

    /// The neighbouring cell in direction `dir`.
    pub open spec fn shifted(self, dir: Direction) -> Cell {
        match dir {
            Direction::Left => self.offset(-1, 0),
            Direction::Right => self.offset(1, 0),
            Direction::Down => self.offset(0, -1),
            Direction::Up => self.offset(0, 1),
        }
    }

    /// Where the cell is drawn, in pixels from the left and from the top of
    /// the screen: row 19 is the top row of the screen, row 0 the lowest.
    pub open spec fn screen_position(self) -> (int, int) {
        (self.x * CELL_SIZE, (TOP_VISIBLE_ROW - self.y) * CELL_SIZE)
    }

    /// Both coordinates fit the machine integers that a [`Block`] stores.
    pub open spec fn representable(self) -> bool {
        &&& i32::MIN <= self.x <= i32::MAX
        &&& i32::MIN <= self.y <= i32::MAX
    }
}

/// The cells that a sequence of blocks stands for, in the same order.
pub open spec fn cells_of(blocks: Seq<Block>) -> Seq<Cell> {
    blocks.map_values(|b: Block| b@)
}

/// Every cell of the sequence fits the machine integers of a [`Block`].
pub open spec fn all_representable(cells: Seq<Cell>) -> bool {
    forall|i: int| 0 <= i < cells.len() ==> (#[trigger] cells[i]).representable()
}

/// An immutable coloured cell at grid coordinates `(x, y)`; row 0 is the
/// bottom row.
#[derive(Clone, Copy, Debug, PartialEq, Eq, Structural)]
pub struct Block {
    color: Color,
    x: i32,
    y: i32,
}

impl View for Block {
    type V = Cell;

    closed spec fn view(&self) -> Cell {
        Cell { color: self.color, x: self.x as int, y: self.y as int }
    }
}

impl Block {
    pub fn new(color: Color, x: i32, y: i32) -> (block: Self)
        ensures
            block@ == (Cell { color, x: x as int, y: y as int }),
    {
        Self { color, x, y }
    }

    /// The block one cell further in direction `dir`; `self` is unchanged.
    pub fn move_(&self, dir: Direction) -> (moved: Self)
        requires
            self@.shifted(dir).representable(),
        ensures
            moved@ == self@.shifted(dir),
    {
        let color = self.color;
        let (x, y): (i32, i32) = match dir {
            Direction::Left => (self.x - 1, self.y),
            Direction::Right => (self.x + 1, self.y),
            Direction::Down => (self.x, self.y - 1),
            Direction::Up => (self.x, self.y + 1),
        };
        Self { color, x, y }
    }

    pub fn color(&self) -> (color: &Color)
        ensures
            *color == self@.color,
    {
        &self.color
    }

    pub fn x(&self) -> (x: &i32)
        ensures
            *x == self@.x,
    {
        &self.x
    }

    pub fn y(&self) -> (y: &i32)
        ensures
            *y == self@.y,
    {
        &self.y
    }

    /// Where the block is drawn, in pixels from the left and from the top of
    /// the screen.
    pub fn screen_position(&self) -> (position: (i64, i64))
        ensures
            position.0 == self@.screen_position().0,
            position.1 == self@.screen_position().1,
    {
        let x: i64 = self.x as i64;
        let y: i64 = self.y as i64;
        (x * CELL_SIZE, (TOP_VISIBLE_ROW - y) * CELL_SIZE)
    }

    /// A block is determined by its cell: two blocks with the same view are
    /// the same block.
    pub proof fn lemma_view_injective(a: Block, b: Block)
        requires
            a@ == b@,
        ensures
            a == b,
    {
    }
}

/// Blocks are determined by their cells: two sequences of blocks that stand
/// for the same cells are the same sequence.
pub proof fn lemma_cells_of_injective(a: Seq<Block>, b: Seq<Block>)
    requires
        cells_of(a) == cells_of(b),
    ensures
        a == b,
{
    assert(a.len() == cells_of(a).len());
    assert(b.len() == cells_of(b).len());
    assert forall|i: int| 0 <= i < a.len() implies a[i] == b[i] by {
        assert(cells_of(a)[i] == a[i]@);
        assert(cells_of(b)[i] == b[i]@);
        Block::lemma_view_injective(a[i], b[i]);
    }
    assert(a =~= b);
}

} // verus!

//! The playing field: a grid of ten columns and twenty-four rows in which
//! each cell is empty or holds a colour. Row 0 is the bottom row; rows 20 to
//! 23 lie above the stack, and new pieces appear there.

use vstd::prelude::*;

use crate::models::block::{cells_of, Block, Cell, Color};

verus! {

/// The number of columns of the field.
pub const WIDTH: usize = 10;

/// The number of rows of the field, the rows above the stack included.
pub const HEIGHT: usize = 24;

/// The number of rows of the stack: a piece can be fixed once one of its
/// cells lies below this row.
pub const STACK_HEIGHT: i32 = 20;

/// The mathematical value of a row: its cells from left to right.
pub type Row = Seq<Option<Color>>;

/// The mathematical value of a field: its rows from the bottom up.
pub type Grid = Seq<Row>;

/// The rows of a nested vector, as sequences.
pub open spec fn rows_of(grid: Vec<Vec<Option<Color>>>) -> Grid {
    grid@.map_values(|row: Vec<Option<Color>>| row@)
}

/// The grid has the size of the field.
pub open spec fn well_formed(grid: Grid) -> bool {
    &&& grid.len() == HEIGHT
    &&& forall|y: int| 0 <= y < grid.len() ==> (#[trigger] grid[y]).len() == WIDTH
}

/// The cell lies on the field.
pub open spec fn in_bounds(cell: Cell) -> bool {
    &&& 0 <= cell.x < WIDTH
    &&& 0 <= cell.y < HEIGHT
}

/// The cell lies on the field and nothing is stored there.
pub open spec fn cell_vacant(grid: Grid, cell: Cell) -> bool {
    &&& in_bounds(cell)
    &&& grid[cell.y][cell.x] is None
}

/// Every one of the cells lies on the field and is empty.
pub open spec fn vacant(grid: Grid, cells: Seq<Cell>) -> bool {
    forall|i: int| 0 <= i < cells.len() ==> cell_vacant(grid, #[trigger] cells[i])
}

/// At least one of the cells lies in the stack, below the rows where
/// pieces appear.
pub open spec fn reaches_stack(cells: Seq<Cell>) -> bool {
    exists|i: int| 0 <= i < cells.len() && (#[trigger] cells[i]).y < STACK_HEIGHT
}

/// The grid with the colour of the cell stored at its place. A cell off the
/// field leaves the grid as it is.
pub open spec fn put(grid: Grid, cell: Cell) -> Grid {
    if in_bounds(cell) {
        grid.update(cell.y, grid[cell.y].update(cell.x, Some(cell.color)))
    } else {
        grid
    }
}

/// The grid with each of the cells stored at its place, the first cell
/// first.
pub open spec fn fixed(grid: Grid, cells: Seq<Cell>) -> Grid
    decreases cells.len(),
{
    if cells.len() == 0 {
        grid
    } else {
        put(fixed(grid, cells.drop_last()), cells.last())
    }
}

/// Every cell of the row holds a colour.
pub open spec fn row_filled(row: Row) -> bool {
    forall|x: int| 0 <= x < row.len() ==> (#[trigger] row[x]) is Some
}

/// A row of the field with nothing in it.
pub open spec fn empty_row() -> Row {
    Seq::new(WIDTH as nat, |x: int| None)
}

/// The field with nothing in it.
pub open spec fn empty_grid() -> Grid {
    Seq::new(HEIGHT as nat, |y: int| empty_row())
}

/// The rows of the grid that are filled, from the bottom up.
pub open spec fn filled_rows(grid: Grid) -> Grid {
    grid.filter(|row: Row| row_filled(row))
}

/// The rows of the grid that are not filled, from the bottom up.
pub open spec fn kept_rows(grid: Grid) -> Grid {
    grid.filter(|row: Row| !row_filled(row))
}

/// The grid after its filled rows have been cleared: the other rows move
/// down and keep their order, and as many empty rows come in at the top as
/// rows were filled.
pub open spec fn cleared(grid: Grid) -> Grid {
    kept_rows(grid) + Seq::new(filled_rows(grid).len(), |i: int| empty_row())
}

/// The fixed grid of the game.
#[derive(Clone, Debug, PartialEq, Eq)]
pub struct Field(Vec<Vec<Option<Color>>>);

impl View for Field {
    type V = Grid;

    closed spec fn view(&self) -> Grid {
        rows_of(self.0)
    }
}

impl Field {
    /// The field has its ten columns and twenty-four rows. The functions of
    /// a field ask for this and keep it.
    pub open spec fn wf(&self) -> bool {
        well_formed(self@)
    }

    /// A field with the given rows, the bottom row first.
    pub fn new(grid: Vec<Vec<Option<Color>>>) -> (field: Self)
        ensures
            field@ == rows_of(grid),
    {
        Field(grid)
    }

    /// The rows of the field, the bottom row first.
    pub fn rows(&self) -> (grid: &Vec<Vec<Option<Color>>>)
        ensures
            rows_of(*grid) == self@,
    {
        &self.0
    }

    /// Whether all the blocks lie on the field, on cells that are empty. A
    /// block off the field is never vacant.
    pub fn is_vacant(&self, blocks: &Vec<Block>) -> (free: bool)
        requires
            self.wf(),
        ensures
            free == vacant(self@, cells_of(blocks@)),
            (exists|i: int| 0 <= i < blocks@.len() && !in_bounds(#[trigger] blocks@[i]@)) ==> !free,
    {
        let mut i: usize = 0;
        while i < blocks.len()
            invariant
                self.wf(),
                0 <= i <= blocks.len(),
                forall|k: int| 0 <= k < i ==> cell_vacant(self@, #[trigger] cells_of(blocks@)[k]),
            decreases blocks.len() - i,
        {
            assert(cells_of(blocks@)[i as int] == blocks@[i as int]@);
            let free = match self.get(&blocks[i]) {
                Some(color_or_none) => color_or_none.is_none(),
                None => false,
            };
            if !free {
                return false;
            }
            i += 1;
        }
        proof {
            if exists|i: int| 0 <= i < blocks@.len() && !in_bounds(#[trigger] blocks@[i]@) {
                let k = choose|i: int| 0 <= i < blocks@.len() && !in_bounds(#[trigger] blocks@[i]@);
                assert(cells_of(blocks@)[k] == blocks@[k]@);
            }
        }
        true
    }

    /// Whether a piece on these blocks may be fixed: at least one of them
    /// lies in the stack.
    pub fn can_fix(blocks: &Vec<Block>) -> (fixable: bool)
        ensures
            fixable == reaches_stack(cells_of(blocks@)),
            fixable <==> exists|i: int| 0 <= i < blocks@.len() && (#[trigger] blocks@[i])@.y < 20,
    {
        let mut i: usize = 0;
        while i < blocks.len()
            invariant
                0 <= i <= blocks.len(),
                forall|k: int| 0 <= k < i ==> (#[trigger] cells_of(blocks@)[k]).y >= STACK_HEIGHT,
            decreases blocks.len() - i,
        {
            assert(cells_of(blocks@)[i as int] == blocks@[i as int]@);
            if *blocks[i].y() < STACK_HEIGHT {
                return true;
            }
            i += 1;
        }
        proof {
            assert forall|k: int| 0 <= k < blocks@.len() implies (#[trigger] blocks@[k])@.y
                >= STACK_HEIGHT by {
                assert(cells_of(blocks@)[k] == blocks@[k]@);
            }
        }
        false
    }

    /// Stores the colour of each block at its place, the first block first.
    /// A block off the field is passed over.
    pub fn fix_blocks(&mut self, blocks: Vec<Block>)
        requires
            old(self).wf(),
        ensures
            final(self).wf(),
            final(self)@ == fixed(old(self)@, cells_of(blocks@)),
    {
        let mut i: usize = 0;
        while i < blocks.len()
            invariant
                self.wf(),
                0 <= i <= blocks.len(),
                self@ == fixed(old(self)@, cells_of(blocks@).take(i as int)),
            decreases blocks.len() - i,
        {
            proof {
                let done = cells_of(blocks@).take(i + 1);
                assert(done.drop_last() == cells_of(blocks@).take(i as int));
                assert(done.last() == blocks@[i as int]@);
            }
            self.set(&blocks[i]);
            i += 1;
        }
        assert(cells_of(blocks@).take(i as int) == cells_of(blocks@));
    }

    /// Clears every filled row, from the top row down: the rows above a
    /// cleared row move down by one and an empty row comes in at the top.
    /// Returns the number of rows cleared.
    pub fn clear_blocks(&mut self) -> (score: i32)
        requires
            old(self).wf(),
        ensures
            final(self).wf(),
            final(self)@ == cleared(old(self)@),
            score == filled_rows(old(self)@).len(),
            0 <= score <= HEIGHT,
    {
        let mut score: i32 = 0;
        let mut row_idx: i32 = HEIGHT as i32;
        proof {
            lemma_filter_empty(old(self)@.skip(HEIGHT as int));
            assert(self@ == old(self)@.take(HEIGHT as int));
        }
        while row_idx > 0
            invariant
                self.wf(),
                old(self).wf(),
                0 <= row_idx <= HEIGHT,
                0 <= score <= HEIGHT - row_idx,
                score == filled_rows(old(self)@.skip(row_idx as int)).len(),
                self@ == old(self)@.take(row_idx as int) + kept_rows(
                    old(self)@.skip(row_idx as int),
                ) + Seq::new(score as nat, |i: int| empty_row()),
            decreases row_idx,
        {
            row_idx -= 1;
            let ghost before = self@;
            let ghost above = old(self)@.skip(row_idx + 1);
            proof {
                lemma_filter_first(old(self)@.skip(row_idx as int));
                assert(old(self)@.skip(row_idx as int).drop_first() == above);
                assert(before[row_idx as int] == old(self)@[row_idx as int]);
            }
            if self.is_filled(row_idx) {
                self.clear(row_idx);
                score += 1;
            }
            assert(self@ == old(self)@.take(row_idx as int) + kept_rows(
                old(self)@.skip(row_idx as int),
            ) + Seq::new(score as nat, |i: int| empty_row()));
        }
        assert(old(self)@.skip(0) == old(self)@);
        score
    }

    /// Every occupied cell of the field as a block of its colour, the rows
    /// from the bottom up and each row from left to right.
    pub fn blocks(&self) -> (blocks: Vec<Block>)
        requires
            self.wf(),
        ensures
            cells_of(blocks@) == occupied(self@),
    {
        let mut blocks: Vec<Block> = Vec::new();
        let mut y: usize = 0;
        assert(self@.take(0) == Seq::<Row>::empty());
        while y < HEIGHT
            invariant
                self.wf(),
                0 <= y <= HEIGHT,
                cells_of(blocks@) == occupied(self@.take(y as int)),
            decreases HEIGHT - y,
        {
            let ghost below = cells_of(blocks@);
            let mut x: usize = 0;
            assert(self@[y as int] == self.0@[y as int]@);
            assert(self@[y as int].take(0) == Seq::<Option<Color>>::empty());
            while x < WIDTH
                invariant
                    self.wf(),
                    0 <= y < HEIGHT,
                    0 <= x <= WIDTH,
                    self@[y as int] == self.0@[y as int]@,
                    cells_of(blocks@) == below + occupied_in_row(
                        self@[y as int].take(x as int),
                        y as int,
                    ),
                decreases WIDTH - x,
            {
                proof {
                    let seen = self@[y as int].take(x + 1);
                    assert(seen.drop_last() == self@[y as int].take(x as int));
                    assert(seen.last() == self@[y as int][x as int]);
                }
                if let Some(color) = self.0[y][x] {
                    let ghost listed = cells_of(blocks@);
                    let block = Block::new(color, x as i32, y as i32);
                    blocks.push(block);
                    assert(cells_of(blocks@) == listed.push(block@));
                }
                x += 1;
            }
            proof {
                assert(self@[y as int].take(WIDTH as int) == self@[y as int]);
                let seen = self@.take(y + 1);
                assert(seen.drop_last() == self@.take(y as int));
                assert(seen.last() == self@[y as int]);
            }
            y += 1;
        }
        assert(self@.take(HEIGHT as int) == self@);
        blocks
    }

    /// What the field stores at the place of the block, if the block lies on
    /// the field.
    fn get(&self, block: &Block) -> (found: Option<&Option<Color>>)
        requires
            self.wf(),
        ensures
            match found {
                Some(stored) => in_bounds(block@) && *stored == self@[block@.y][block@.x],
                None => !in_bounds(block@),
            },
    {
        let x: i32 = *block.x();
        let y: i32 = *block.y();
        if y < 0 || x < 0 {
            return None;
        }
        let row: usize = y as usize;
        let col: usize = x as usize;
        if row >= self.0.len() {
            return None;
        }
        assert(self@[row as int] == self.0@[row as int]@);
        if col >= self.0[row].len() {
            return None;
        }
        Some(&self.0[row][col])
    }

    /// Stores the colour of the block at its place, if the block lies on the
    /// field.
    fn set(&mut self, block: &Block)
        requires
            old(self).wf(),
        ensures
            final(self).wf(),
            final(self)@ == put(old(self)@, block@),
    {
        let x: i32 = *block.x();
        let y: i32 = *block.y();
        if y < 0 || x < 0 {
            return;
        }
        let row: usize = y as usize;
        let col: usize = x as usize;
        if row >= self.0.len() {
            return;
        }
        assert(self@[row as int] == self.0@[row as int]@);
        if col >= self.0[row].len() {
            return;
        }
        self.0[row][col] = Some(*block.color());
        assert(self@ =~= put(old(self)@, block@));
    }

    /// Whether `row_idx` is a row of the field with a colour in every cell.
    fn is_filled(&self, row_idx: i32) -> (filled: bool)
        requires
            self.wf(),
        ensures
            filled == (0 <= row_idx < HEIGHT && row_filled(self@[row_idx as int])),
    {
        if row_idx < 0 || row_idx as usize >= self.0.len() {
            return false;
        }
        let row = &self.0[row_idx as usize];
        assert(self@[row_idx as int] == row@);
        let mut x: usize = 0;
        while x < row.len()
            invariant
                0 <= x <= row.len(),
                0 <= row_idx < HEIGHT,
                self@[row_idx as int] == row@,
                forall|k: int| 0 <= k < x ==> (#[trigger] row@[k]) is Some,
            decreases row.len() - x,
        {
            if row[x].is_none() {
                return false;
            }
            x += 1;
        }
        true
    }

    /// Takes row `row_idx` out of the field: the rows above it move down by
    /// one, and an empty row comes in at the top.
    fn clear(&mut self, row_idx: i32)
        requires
            old(self).wf(),
            0 <= row_idx < HEIGHT,
        ensures
            final(self).wf(),
            final(self)@ == old(self)@.remove(row_idx as int).push(empty_row()),
    {
        self.0.remove(row_idx as usize);
        let row: Vec<Option<Color>> = vec![None; WIDTH];
        assert(row@ =~= empty_row());
        self.0.push(row);
        assert(self@ =~= old(self)@.remove(row_idx as int).push(empty_row()));
    }
}

/// The occupied cells of a row that lies at height `y`, from left to right.
pub open spec fn occupied_in_row(row: Row, y: int) -> Seq<Cell>
    decreases row.len(),
{
    if row.len() == 0 {
        Seq::empty()
    } else {
        let before = occupied_in_row(row.drop_last(), y);
        match row.last() {
            Some(color) => before.push(Cell { color, x: row.len() - 1, y }),
            None => before,
        }
    }
}

/// The occupied cells of a grid: the rows from the bottom up, each row from
/// left to right.
pub open spec fn occupied(grid: Grid) -> Seq<Cell>
    decreases grid.len(),
{
    if grid.len() == 0 {
        Seq::empty()
    } else {
        occupied(grid.drop_last()) + occupied_in_row(grid.last(), grid.len() - 1)
    }
}

/// Nothing is filtered out of an empty sequence of rows.
proof fn lemma_filter_empty(rows: Grid)
    requires
        rows.len() == 0,
    ensures
        filled_rows(rows) == Seq::<Row>::empty(),
        kept_rows(rows) == Seq::<Row>::empty(),
{
    reveal(Seq::filter);
}

/// The first row goes to the filled rows or to the kept rows, in front of
/// what the rows above it give.
proof fn lemma_filter_first(rows: Grid)
    requires
        rows.len() > 0,
    ensures
        row_filled(rows.first()) ==> filled_rows(rows) == seq![rows.first()] + filled_rows(
            rows.drop_first(),
        ) && kept_rows(rows) == kept_rows(rows.drop_first()),
        !row_filled(rows.first()) ==> kept_rows(rows) == seq![rows.first()] + kept_rows(
            rows.drop_first(),
        ) && filled_rows(rows) == filled_rows(rows.drop_first()),
{
    let head = seq![rows.first()];
    assert(rows == head + rows.drop_first());
    Seq::filter_distributes_over_add(head, rows.drop_first(), |row: Row| row_filled(row));
    Seq::filter_distributes_over_add(head, rows.drop_first(), |row: Row| !row_filled(row));
    reveal_with_fuel(Seq::filter, 2);
    assert(head.drop_last() == Seq::<Row>::empty());
    assert(head.last() == rows.first());
}

/// A cell off the field keeps a set of cells from being vacant, whatever the
/// grid holds.
pub proof fn lemma_off_field_not_vacant(grid: Grid, cells: Seq<Cell>, i: int)
    requires
        0 <= i < cells.len(),
        !in_bounds(cells[i]),
    ensures
        !vacant(grid, cells),
{
}

/// Every row is either filled or kept; the kept rows are rows of the grid
/// and none of them is filled.
pub proof fn lemma_rows_split(grid: Grid)
    ensures
        kept_rows(grid).len() + filled_rows(grid).len() == grid.len(),
        forall|i: int|
            0 <= i < kept_rows(grid).len() ==> !row_filled(#[trigger] kept_rows(grid)[i])
                && grid.contains(kept_rows(grid)[i]),
    decreases grid.len(),
{
    if grid.len() == 0 {
        lemma_filter_empty(grid);
    } else {
        let above = grid.drop_first();
        lemma_filter_first(grid);
        lemma_rows_split(above);
        assert forall|i: int| 0 <= i < kept_rows(grid).len() implies !row_filled(
            #[trigger] kept_rows(grid)[i],
        ) && grid.contains(kept_rows(grid)[i]) by {
            let row = kept_rows(grid)[i];
            if row_filled(grid.first()) {
                assert(row == kept_rows(above)[i]);
            } else if i > 0 {
                assert(row == kept_rows(above)[i - 1]);
            } else {
                assert(row == grid[0]);
            }
            if above.contains(row) {
                let k = choose|k: int| 0 <= k < above.len() && above[k] == row;
                assert(grid[k + 1] == row);
            }
        }
    }
}

/// Clearing keeps the size of the field and leaves no filled row behind.
pub proof fn lemma_cleared_well_formed(grid: Grid)
    requires
        well_formed(grid),
    ensures
        well_formed(cleared(grid)),
        forall|y: int| 0 <= y < HEIGHT ==> !row_filled(#[trigger] cleared(grid)[y]),
        filled_rows(grid).len() == 0 ==> cleared(grid) == grid,
{
    lemma_rows_split(grid);
    let kept = kept_rows(grid);
    assert forall|y: int| 0 <= y < cleared(grid).len() implies (#[trigger] cleared(grid)[y]).len()
        == WIDTH && !row_filled(cleared(grid)[y]) by {
        if y < kept.len() {
            let k = choose|k: int| 0 <= k < grid.len() && grid[k] == kept[y];
            assert(grid[k].len() == WIDTH);
        } else {
            assert(cleared(grid)[y] == empty_row());
            assert(empty_row()[0] is None);
        }
    }
    if filled_rows(grid).len() == 0 {
        lemma_kept_all(grid);
        assert(cleared(grid) =~= grid);
    }
}

/// Where no row is filled, every row is kept.
proof fn lemma_kept_all(grid: Grid)
    requires
        filled_rows(grid).len() == 0,
    ensures
        kept_rows(grid) == grid,
    decreases grid.len(),
{
    if grid.len() == 0 {
        lemma_filter_empty(grid);
        assert(kept_rows(grid) =~= grid);
    } else {
        lemma_filter_first(grid);
        lemma_kept_all(grid.drop_first());
        assert(kept_rows(grid) =~= grid);
    }
}

/// What the listing of a row holds: exactly its occupied cells, each with
/// its colour, its column and the height of the row.
pub proof fn lemma_occupied_in_row(row: Row, y: int, cell: Cell)
    ensures
        occupied_in_row(row, y).contains(cell) <==> cell.y == y && 0 <= cell.x < row.len()
            && row[cell.x] == Some(cell.color),
    decreases row.len(),
{
    if row.len() > 0 {
        let before = occupied_in_row(row.drop_last(), y);
        lemma_occupied_in_row(row.drop_last(), y, cell);
        let listed = occupied_in_row(row, y);
        if listed.contains(cell) {
            let k = choose|k: int| 0 <= k < listed.len() && listed[k] == cell;
            if k < before.len() {
                assert(before[k] == cell);
                assert(before.contains(cell));
                assert(row.drop_last()[cell.x] == row[cell.x]);
            }
        }
        if cell.y == y && 0 <= cell.x < row.len() && row[cell.x] == Some(cell.color) {
            if cell.x < row.len() - 1 {
                assert(row.drop_last()[cell.x] == row[cell.x]);
                let k = choose|k: int| 0 <= k < before.len() && before[k] == cell;
                assert(listed[k] == cell);
            } else {
                assert(listed.last() == cell);
            }
        }
    }
}

/// What the listing of a grid holds: exactly its occupied cells, each with
/// its colour and its place.
pub proof fn lemma_occupied(grid: Grid, cell: Cell)
    ensures
        occupied(grid).contains(cell) <==> 0 <= cell.y < grid.len() && 0 <= cell.x
            < grid[cell.y].len() && grid[cell.y][cell.x] == Some(cell.color),
    decreases grid.len(),
{
    if grid.len() > 0 {
        let below = occupied(grid.drop_last());
        let top = occupied_in_row(grid.last(), grid.len() - 1);
        lemma_occupied(grid.drop_last(), cell);
        lemma_occupied_in_row(grid.last(), grid.len() - 1, cell);
        let listed = occupied(grid);
        if listed.contains(cell) {
            let k = choose|k: int| 0 <= k < listed.len() && listed[k] == cell;
            if k < below.len() {
                assert(below[k] == cell);
                assert(below.contains(cell));
                assert(grid.drop_last()[cell.y] == grid[cell.y]);
            } else {
                assert(top[k - below.len()] == cell);
                assert(top.contains(cell));
            }
        }
        if 0 <= cell.y < grid.len() && 0 <= cell.x < grid[cell.y].len() && grid[cell.y][cell.x]
            == Some(cell.color) {
            if cell.y < grid.len() - 1 {
                assert(grid.drop_last()[cell.y] == grid[cell.y]);
                let k = choose|k: int| 0 <= k < below.len() && below[k] == cell;
                assert(listed[k] == cell);
            } else {
                let k = choose|k: int| 0 <= k < top.len() && top[k] == cell;
                assert(listed[below.len() + k] == cell);
            }
        }
    }
}

/// Fixing keeps the size of the field, and changes nothing at a place where
/// none of the cells lies.
pub proof fn lemma_fixed(grid: Grid, cells: Seq<Cell>, x: int, y: int)
    requires
        well_formed(grid),
        0 <= x < WIDTH,
        0 <= y < HEIGHT,
    ensures
        well_formed(fixed(grid, cells)),
        (forall|i: int| 0 <= i < cells.len() ==> !((#[trigger] cells[i]).x == x && cells[i].y == y))
            ==> fixed(grid, cells)[y][x] == grid[y][x],
        cells.len() > 0 && cells.last().x == x && cells.last().y == y ==> fixed(grid, cells)[y][x]
            == Some(cells.last().color),
    decreases cells.len(),
{
    if cells.len() > 0 {
        lemma_fixed(grid, cells.drop_last(), x, y);
        let before = fixed(grid, cells.drop_last());
        if forall|i: int| 0 <= i < cells.len() ==> !((#[trigger] cells[i]).x == x && cells[i].y == y) {
            assert forall|i: int| 0 <= i < cells.drop_last().len() implies !((
            #[trigger] cells.drop_last()[i]).x == x && cells.drop_last()[i].y == y) by {
                assert(cells.drop_last()[i] == cells[i]);
            }
            assert(!(cells.last().x == x && cells.last().y == y));
        }
    }
}

} // verus!

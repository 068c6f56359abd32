//! A running game: the field, the falling piece, the supply of pieces, and
//! the update that one tick of the clock and the keys bring about.
//!
//! Time is counted in whole milliseconds. The game acts at most once in 100
//! milliseconds; after 300 milliseconds without an action, or when the down
//! key is pressed, the piece falls by one row or, if it cannot fall, is
//! fixed. A piece that cannot be fixed, or a new piece that has no room,
//! ends the game, and a game that has ended stays as it is.

use vstd::prelude::*;

use crate::models::block::{all_representable, cells_of, Block, Color};
use crate::models::field::{
    cleared, empty_grid, empty_row, fixed, in_bounds, lemma_cleared_well_formed, lemma_fixed,
    occupied, reaches_stack, rows_of, vacant, well_formed, Field, Grid, HEIGHT, WIDTH,
};
use crate::models::tetromino::{MoveDirection, Piece, Pose, RotateDirection, Tetromino};
use crate::models::tetromino_factory::{spawn_pose, Supply, TetrominoFactory};

verus! {

/// The time in milliseconds that must pass after an action before the game
/// acts again.
pub const DEBOUNCE_MS: u64 = 100;

/// The time in milliseconds without an action after which the piece falls.
pub const GRAVITY_MS: u64 = 300;

/// The keys that are freshly pressed at a tick.
#[derive(Clone, Copy, Debug, PartialEq, Eq, Structural)]
pub struct KeyState {
    /// The down arrow: the piece falls at once.
    pub down: bool,
    /// The left arrow.
    pub left: bool,
    /// The right arrow.
    pub right: bool,
    /// The key that turns the piece to the left.
    pub rotate_left: bool,
    /// The key that turns the piece to the right.
    pub rotate_right: bool,
}

impl KeyState {
    /// No key is pressed.
    pub fn none() -> (keys: Self)
        ensures
            keys == (KeyState {
                down: false,
                left: false,
                right: false,
                rotate_left: false,
                rotate_right: false,
            }),
    {
        KeyState { down: false, left: false, right: false, rotate_left: false, rotate_right: false }
    }
}

/// Whether the game goes on, and if not, what ended it.
#[derive(Clone, Copy, Debug, PartialEq, Eq, Structural)]
pub enum Status {
    /// A piece is falling.
    Falling,
    /// The game is over: the piece could not fall and lay wholly above the
    /// stack, so it could not be fixed.
    ToppedOut,
    /// The game is over: the new piece had no room.
    SpawnBlocked,
}

/// The mathematical value of a game.
pub ghost struct GameState {
    pub field: Grid,
    pub supply: Supply,
    pub piece: Pose,
    /// The time of the last action, in milliseconds.
    pub updated_at: int,
    pub status: Status,
}

impl GameState {
    /// What holds of every game: the field has its size, the supply is as a
    /// factory keeps it, and the piece lies on empty cells of the field,
    /// unless the game ended for a new piece that had no room.
    pub open spec fn wf(self) -> bool {
        &&& well_formed(self.field)
        &&& self.supply.wf()
        &&& self.updated_at >= 0
        &&& match self.status {
            Status::Falling => vacant(self.field, self.piece.cells()),
            Status::ToppedOut => vacant(self.field, self.piece.cells()) && !reaches_stack(
                self.piece.cells(),
            ),
            Status::SpawnBlocked => self.piece == spawn_pose(self.piece.shape) && !vacant(
                self.field,
                self.piece.cells(),
            ),
        }
    }

    /// The game as it starts: an empty field, the clock at 0, and the first
    /// piece of a new supply falling.
    pub open spec fn initial() -> GameState {
        let supply = Supply { bag: Seq::empty(), seed: 0 };
        GameState {
            field: empty_grid(),
            supply: supply.popped(),
            piece: supply.next(),
            updated_at: 0,
            status: Status::Falling,
        }
    }

    /// The game after an attempt, at time `now`, to bring the piece to
    /// `target`: if the cells of `target` are vacant the piece is there and
    /// the action is recorded; if not, nothing changes.
    pub open spec fn placed(self, target: Pose, now: int) -> GameState {
        if vacant(self.field, target.cells()) {
            GameState { piece: target, updated_at: now, ..self }
        } else {
            self
        }
    }

    /// The game after the keys that push and turn have been served. At most
    /// one of them is: left before right, those before the turn to the
    /// left, and that before the turn to the right.
    pub open spec fn steered(self, now: int, keys: KeyState) -> GameState {
        if keys.left {
            self.placed(self.piece.moved(MoveDirection::Left), now)
        } else if keys.right {
            self.placed(self.piece.moved(MoveDirection::Right), now)
        } else if keys.rotate_left {
            self.placed(self.piece.rotated(RotateDirection::Left), now)
        } else if keys.rotate_right {
            self.placed(self.piece.rotated(RotateDirection::Right), now)
        } else {
            self
        }
    }

    /// The game after the piece has been fixed: its cells are stored in the
    /// field, the filled rows are cleared, and the next piece of the supply
    /// is the piece. If that piece has no room, the game is over.
    pub open spec fn locked(self) -> GameState {
        let field = cleared(fixed(self.field, self.piece.cells()));
        let piece = self.supply.next();
        GameState {
            field,
            supply: self.supply.popped(),
            piece,
            updated_at: self.updated_at,
            status: if vacant(field, piece.cells()) {
                Status::Falling
            } else {
                Status::SpawnBlocked
            },
        }
    }

    /// The game after the piece has been told to fall. If the row below is
    /// free, it falls, the action is recorded, and no other key is served.
    /// If not, and one of its cells lies in the stack, it is fixed, and the
    /// keys that push and turn are served on the next piece. If it lies
    /// wholly above the stack, the game is over.
    pub open spec fn dropped(self, now: int, keys: KeyState) -> GameState {
        let below = self.piece.moved(MoveDirection::Down);
        if vacant(self.field, below.cells()) {
            GameState { piece: below, updated_at: now, ..self }
        } else if !reaches_stack(self.piece.cells()) {
            GameState { status: Status::ToppedOut, ..self }
        } else if self.locked().status is Falling {
            self.locked().steered(now, keys)
        } else {
            self.locked()
        }
    }

    /// The game after the tick at time `now` with the keys `keys`.
    pub open spec fn updated(self, now: int, keys: KeyState) -> GameState {
        if !(self.status is Falling) {
            self
        } else if now - self.updated_at < DEBOUNCE_MS {
            self
        } else if now - self.updated_at >= GRAVITY_MS || keys.down {
            self.dropped(now, keys)
        } else {
            self.steered(now, keys)
        }
    }
}

/// A game.
pub struct Tetris {
    field: Field,
    tetromino_factory: TetrominoFactory,
    tetromino: Piece,
    updated_at: u64,
    status: Status,
}

impl View for Tetris {
    type V = GameState;

    closed spec fn view(&self) -> GameState {
        GameState {
            field: self.field@,
            supply: self.tetromino_factory@,
            piece: self.tetromino@,
            updated_at: self.updated_at as int,
            status: self.status,
        }
    }
}

impl Tetris {
    /// The game is as every game is kept.
    pub open spec fn wf(&self) -> bool {
        self@.wf()
    }

    /// A new game.
    pub fn new() -> (game: Self)
        ensures
            game.wf(),
            game@ == GameState::initial(),
    {
        let mut grid: Vec<Vec<Option<Color>>> = Vec::new();
        let mut y: usize = 0;
        while y < HEIGHT
            invariant
                0 <= y <= HEIGHT,
                grid@.len() == y,
                forall|k: int| 0 <= k < y ==> (#[trigger] grid@[k])@ == empty_row(),
            decreases HEIGHT - y,
        {
            let row: Vec<Option<Color>> = vec![None; WIDTH];
            assert(row@ =~= empty_row());
            grid.push(row);
            y += 1;
        }
        assert(rows_of(grid) =~= empty_grid());
        let field = Field::new(grid);
        let mut tetromino_factory = TetrominoFactory::new();
        proof {
            tetromino_factory@.lemma_popped_wf();
            lemma_spawn_on_field(tetromino_factory@.next().shape);
        }
        let tetromino = tetromino_factory.pop();
        let updated_at: u64 = 0;
        Self { field, tetromino_factory, tetromino, updated_at, status: Status::Falling }
    }

    /// The tick of the clock at `elapsed_time` milliseconds, with the keys
    /// that are freshly pressed.
    pub fn update(&mut self, elapsed_time: u64, key_event: &KeyState)
        requires
            old(self).wf(),
        ensures
            final(self).wf(),
            final(self)@ == old(self)@.updated(elapsed_time as int, *key_event),
    {
        match self.status {
            Status::Falling => {},
            _ => {
                return;
            },
        }
        if elapsed_time < self.updated_at || elapsed_time - self.updated_at < DEBOUNCE_MS {
            return;
        }
        proof {
            lemma_room_to_act(self@.field, self@.piece);
        }
        if elapsed_time - self.updated_at >= GRAVITY_MS || key_event.down {
            let blocks = self.tetromino.dry_move(MoveDirection::Down);
            if self.field.is_vacant(&blocks) {
                self.tetromino.move_(MoveDirection::Down);
                self.updated_at = elapsed_time;
                return;
            }
            let blocks = self.tetromino.blocks();
            if Field::can_fix(&blocks) {
                self.field.fix_blocks(blocks);
                self.field.clear_blocks();
            } else {
                self.status = Status::ToppedOut;
                return;
            }
            proof {
                self.tetromino_factory@.lemma_popped_wf();
                lemma_spawn_on_field(self.tetromino_factory@.next().shape);
            }
            self.tetromino = self.tetromino_factory.pop();
            let blocks = self.tetromino.blocks();
            if !self.field.is_vacant(&blocks) {
                self.status = Status::SpawnBlocked;
                return;
            }
            assert(self@ == old(self)@.locked());
            proof {
                lemma_room_to_act(self@.field, self@.piece);
            }
        }
        if key_event.left {
            let blocks = self.tetromino.dry_move(MoveDirection::Left);
            if self.field.is_vacant(&blocks) {
                self.tetromino.move_(MoveDirection::Left);
                self.updated_at = elapsed_time;
            }
        } else if key_event.right {
            let blocks = self.tetromino.dry_move(MoveDirection::Right);
            if self.field.is_vacant(&blocks) {
                self.tetromino.move_(MoveDirection::Right);
                self.updated_at = elapsed_time;
            }
        } else if key_event.rotate_left {
            let blocks = self.tetromino.dry_rotate(RotateDirection::Left);
            if self.field.is_vacant(&blocks) {
                self.tetromino.rotate(RotateDirection::Left);
                self.updated_at = elapsed_time;
            }
        } else if key_event.rotate_right {
            let blocks = self.tetromino.dry_rotate(RotateDirection::Right);
            if self.field.is_vacant(&blocks) {
                self.tetromino.rotate(RotateDirection::Right);
                self.updated_at = elapsed_time;
            }
        }
    }

    /// The blocks to draw: those of the piece, and after them those of the
    /// field.
    pub fn blocks(&self) -> (blocks: Vec<Block>)
        requires
            self.wf(),
        ensures
            cells_of(blocks@) == self@.piece.cells() + occupied(self@.field),
    {
        proof {
            lemma_room_to_act(self@.field, self@.piece);
            lemma_spawn_on_field(self@.piece.shape);
        }
        let mut blocks = self.tetromino.blocks();
        let mut stored = self.field.blocks();
        assert(cells_of(blocks@ + stored@) =~= cells_of(blocks@) + cells_of(stored@));
        blocks.append(&mut stored);
        blocks
    }

    pub fn field(&self) -> (field: &Field)
        ensures
            field@ == self@.field,
    {
        &self.field
    }

    /// The piece that is falling, or that was when the game ended.
    pub fn tetromino(&self) -> (piece: &Piece)
        ensures
            piece@ == self@.piece,
    {
        &self.tetromino
    }

    /// The time of the last action, in milliseconds.
    pub fn updated_at(&self) -> (time: u64)
        ensures
            time == self@.updated_at,
    {
        self.updated_at
    }

    pub fn status(&self) -> (status: Status)
        ensures
            status == self@.status,
    {
        self.status
    }

    /// Whether the game has ended.
    pub fn is_game_over(&self) -> (over: bool)
        ensures
            over == !(self@.status is Falling),
    {
        match self.status {
            Status::Falling => false,
            _ => true,
        }
    }
}

impl GameState {
    /// A tick keeps the game as every game is kept, and a game that has
    /// ended stays as it is, whatever the clock and the keys say.
    pub proof fn lemma_updated(self, now: int, keys: KeyState)
        requires
            self.wf(),
            now >= 0,
        ensures
            self.updated(now, keys).wf(),
            !(self.status is Falling) ==> self.updated(now, keys) == self,
            now - self.updated_at < DEBOUNCE_MS ==> self.updated(now, keys) == self,
    {
        if self.status is Falling && now - self.updated_at >= DEBOUNCE_MS {
            lemma_fixed(self.field, self.piece.cells(), 0, 0);
            lemma_cleared_well_formed(fixed(self.field, self.piece.cells()));
            self.supply.lemma_popped_wf();
        }
    }
}

/// A piece as it is dealt lies on the field, whatever its shape.
pub proof fn lemma_spawn_on_field(shape: crate::models::tetromino::Shape)
    ensures
        forall|i: int|
            0 <= i < 4 ==> in_bounds(#[trigger] spawn_pose(shape).cells()[i]),
        spawn_pose(shape).cells().len() == 4,
        all_representable(spawn_pose(shape).cells()),
{
    let pose = spawn_pose(shape);
    pose.lemma_four_cells();
    let cells = pose.cells();
    assert(in_bounds(cells[0]) && in_bounds(cells[1]) && in_bounds(cells[2]) && in_bounds(
        cells[3],
    ));
}

/// A piece on vacant cells of the field is far from the limits of the
/// machine integers: it can be listed, pushed and turned.
proof fn lemma_room_to_act(field: Grid, piece: Pose)
    ensures
        vacant(field, piece.cells()) ==> {
            &&& in_bounds(piece.pivot)
            &&& all_representable(piece.cells())
            &&& forall|move_dir: MoveDirection|
                all_representable(#[trigger] piece.moved(move_dir).cells())
                    && piece.moved(move_dir).pivot.representable()
            &&& forall|rotate_dir: RotateDirection|
                all_representable(#[trigger] piece.rotated(rotate_dir).cells())
                    && piece.rotated(rotate_dir).pivot.representable()
        },
{
    if vacant(field, piece.cells()) {
        piece.lemma_four_cells();
        let k = choose|k: int| 0 <= k < piece.cells().len() && piece.cells()[k] == piece.pivot;
        assert(in_bounds(piece.cells()[k]));
        assert forall|move_dir: MoveDirection|
            all_representable(#[trigger] piece.moved(move_dir).cells()) && piece.moved(
                move_dir,
            ).pivot.representable() by {
            piece.moved(move_dir).lemma_four_cells();
        }
        assert forall|rotate_dir: RotateDirection|
            all_representable(#[trigger] piece.rotated(rotate_dir).cells()) && piece.rotated(
                rotate_dir,
            ).pivot.representable() by {
            piece.rotated(rotate_dir).lemma_four_cells();
        }
    }
}

} // verus!

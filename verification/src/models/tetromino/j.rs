//! The J: a line of three with a foot.

use vstd::prelude::*;

use crate::models::block::{cells_of, Block, Direction};
use crate::models::tetromino::{
    MoveDirection, Pose, RotateDirection, Shape, Tetromino, TetrominoDirection,
};

verus! {

#[derive(Clone, Copy, Debug, PartialEq, Eq, Structural)]
pub struct J {
    dir: TetrominoDirection,
    axis: Block,
}

impl View for J {
    type V = Pose;

    closed spec fn view(&self) -> Pose {
        Pose { shape: Shape::J, facing: self.dir, pivot: self.axis@ }
    }
}

impl Tetromino for J {
    fn move_(&mut self, move_dir: MoveDirection) {
        let dir = Direction::from(move_dir);
        let axis = self.axis().move_(dir);
        self.set_axis(axis);
    }

    fn rotate(&mut self, rotate_dir: RotateDirection) {
        let dir = self.dir().rotate(rotate_dir);
        self.set_dir(dir);
    }

    fn dry_move(&self, move_dir: MoveDirection) -> (blocks: Vec<Block>) {
        let dir = Direction::from(move_dir);
        proof {
            self@.moved(move_dir).lemma_cells_fit();
        }
        Self::new(*self.dir(), self.axis().move_(dir)).blocks()
    }

    fn dry_rotate(&self, rotate_dir: RotateDirection) -> (blocks: Vec<Block>) {
        let dir = self.dir().rotate(rotate_dir);
        Self::new(dir, *self.axis()).blocks()
    }

    fn blocks(&self) -> (blocks: Vec<Block>) {
        proof {
            self@.lemma_cells_fit();
        }
        let blocks = match self.dir() {
            TetrominoDirection::North => vec![
                self.axis().move_(Direction::Left),
                self.axis().move_(Direction::Left).move_(Direction::Up),
                *self.axis(),
                self.axis().move_(Direction::Right),
            ],
            TetrominoDirection::East => vec![
                self.axis().move_(Direction::Down),
                *self.axis(),
                self.axis().move_(Direction::Up),
                self.axis().move_(Direction::Right).move_(Direction::Up),
            ],
            TetrominoDirection::South => vec![
                self.axis().move_(Direction::Left),
                *self.axis(),
                self.axis().move_(Direction::Right).move_(Direction::Down),
                self.axis().move_(Direction::Right),
            ],
            TetrominoDirection::West => vec![
                self.axis().move_(Direction::Left).move_(Direction::Down),
                self.axis().move_(Direction::Down),
                *self.axis(),
                self.axis().move_(Direction::Up),
            ],
        };
        assert(cells_of(blocks@) =~= self@.cells());
        blocks
    }
}

impl J {
    pub fn new(dir: TetrominoDirection, axis: Block) -> (piece: Self)
        ensures
            piece@ == (Pose { shape: Shape::J, facing: dir, pivot: axis@ }),
    {
        Self { dir, axis }
    }

    /// Every value of this type has this shape.
    pub proof fn lemma_shape(self)
        ensures
            self@.shape == Shape::J,
    {
    }

    fn dir(&self) -> (dir: &TetrominoDirection)
        ensures
            *dir == self@.facing,
    {
        &self.dir
    }

    fn axis(&self) -> (axis: &Block)
        ensures
            axis@ == self@.pivot,
    {
        &self.axis
    }

    fn set_dir(&mut self, dir: TetrominoDirection)
        ensures
            final(self)@ == (Pose { facing: dir, ..old(self)@ }),
    {
        self.dir = dir;
    }

    fn set_axis(&mut self, axis: Block)
        ensures
            final(self)@ == (Pose { pivot: axis@, ..old(self)@ }),
    {
        self.axis = axis;
    }
}

} // verus!

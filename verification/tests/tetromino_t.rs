use tetris::models::block::{Block, Color};
use tetris::models::tetromino::t::T;
use tetris::models::tetromino::{MoveDirection, RotateDirection, Tetromino, TetrominoDirection};

#[test]
fn t_test_move() {
    let mut t = build_t_tetromino();
    t.move_(MoveDirection::Left);
    assert_eq!(
        T::new(TetrominoDirection::North, Block::new(Color::Purple, -1, 0)),
        t
    );
    t.move_(MoveDirection::Right);
    assert_eq!(
        T::new(TetrominoDirection::North, Block::new(Color::Purple, 0, 0)),
        t
    );
    t.move_(MoveDirection::Down);
    assert_eq!(
        T::new(TetrominoDirection::North, Block::new(Color::Purple, 0, -1)),
        t
    );
}

#[test]
fn t_test_rotate() {
    let mut t = build_t_tetromino();
    t.rotate(RotateDirection::Left);
    assert_eq!(
        T::new(TetrominoDirection::West, Block::new(Color::Purple, 0, 0)),
        t
    );
    t.rotate(RotateDirection::Left);
    assert_eq!(
        T::new(TetrominoDirection::South, Block::new(Color::Purple, 0, 0)),
        t
    );
    t.rotate(RotateDirection::Left);
    assert_eq!(
        T::new(TetrominoDirection::East, Block::new(Color::Purple, 0, 0)),
        t
    );
    t.rotate(RotateDirection::Left);
    assert_eq!(
        T::new(TetrominoDirection::North, Block::new(Color::Purple, 0, 0)),
        t
    );
    t.rotate(RotateDirection::Right);
    assert_eq!(
        T::new(TetrominoDirection::East, Block::new(Color::Purple, 0, 0)),
        t
    );
    t.rotate(RotateDirection::Right);
    assert_eq!(
        T::new(TetrominoDirection::South, Block::new(Color::Purple, 0, 0)),
        t
    );
    t.rotate(RotateDirection::Right);
    assert_eq!(
        T::new(TetrominoDirection::West, Block::new(Color::Purple, 0, 0)),
        t
    );
    t.rotate(RotateDirection::Right);
    assert_eq!(
        T::new(TetrominoDirection::North, Block::new(Color::Purple, 0, 0)),
        t
    );
}

#[test]
fn t_test_dry_move() {
    let mut t = build_t_tetromino();
    let got = t.dry_move(MoveDirection::Left);
    t.move_(MoveDirection::Left);
    assert_eq!(t.blocks(), got);
    let got = t.dry_move(MoveDirection::Right);
    t.move_(MoveDirection::Right);
    assert_eq!(t.blocks(), got);
    let got = t.dry_move(MoveDirection::Down);
    t.move_(MoveDirection::Down);
    assert_eq!(t.blocks(), got);
}

#[test]
fn t_test_dry_rotate() {
    let mut t = build_t_tetromino();
    for _ in 0..4 {
        let got = t.dry_rotate(RotateDirection::Left);
        t.rotate(RotateDirection::Left);
        assert_eq!(t.blocks(), got);
    }
    for _ in 0..4 {
        let got = t.dry_rotate(RotateDirection::Right);
        t.rotate(RotateDirection::Right);
        assert_eq!(t.blocks(), got);
    }
}

#[test]
fn t_test_blocks() {
    let mut t = build_t_tetromino();
    assert_eq!(build_t_blocks(TetrominoDirection::North), t.blocks());
    t.rotate(RotateDirection::Right);
    assert_eq!(build_t_blocks(TetrominoDirection::East), t.blocks());
    t.rotate(RotateDirection::Right);
    assert_eq!(build_t_blocks(TetrominoDirection::South), t.blocks());
    t.rotate(RotateDirection::Right);
    assert_eq!(build_t_blocks(TetrominoDirection::West), t.blocks());
}

fn build_t_tetromino() -> T {
    T::new(TetrominoDirection::North, Block::new(Color::Purple, 0, 0))
}

fn build_t_blocks(dir: TetrominoDirection) -> Vec<Block> {
    match dir {
        TetrominoDirection::South => vec![
            Block::new(Color::Purple, -1, 0),
            Block::new(Color::Purple, 0, -1),
            Block::new(Color::Purple, 0, 0),
            Block::new(Color::Purple, 1, 0),
        ],
        TetrominoDirection::West => vec![
            Block::new(Color::Purple, -1, 0),
            Block::new(Color::Purple, 0, -1),
            Block::new(Color::Purple, 0, 0),
            Block::new(Color::Purple, 0, 1),
        ],
        TetrominoDirection::North => vec![
            Block::new(Color::Purple, -1, 0),
            Block::new(Color::Purple, 0, 0),
            Block::new(Color::Purple, 0, 1),
            Block::new(Color::Purple, 1, 0),
        ],
        TetrominoDirection::East => vec![
            Block::new(Color::Purple, 0, -1),
            Block::new(Color::Purple, 0, 0),
            Block::new(Color::Purple, 0, 1),
            Block::new(Color::Purple, 1, 0),
        ],
    }
}

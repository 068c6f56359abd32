use tetris::models::block::{Block, Color};
use tetris::models::tetromino::z::Z;
use tetris::models::tetromino::{MoveDirection, RotateDirection, Tetromino, TetrominoDirection};

#[test]
fn z_test_move() {
    let mut z = build_z_tetromino();
    z.move_(MoveDirection::Left);
    assert_eq!(
        Z::new(TetrominoDirection::North, Block::new(Color::Red, -1, 0)),
        z
    );
    z.move_(MoveDirection::Right);
    assert_eq!(
        Z::new(TetrominoDirection::North, Block::new(Color::Red, 0, 0)),
        z
    );
    z.move_(MoveDirection::Down);
    assert_eq!(
        Z::new(TetrominoDirection::North, Block::new(Color::Red, 0, -1)),
        z
    );
}

#[test]
fn z_test_rotate() {
    let mut z = build_z_tetromino();
    z.rotate(RotateDirection::Left);
    assert_eq!(
        Z::new(TetrominoDirection::West, Block::new(Color::Red, 0, 0)),
        z
    );
    z.rotate(RotateDirection::Left);
    assert_eq!(
        Z::new(TetrominoDirection::South, Block::new(Color::Red, 0, 0)),
        z
    );
    z.rotate(RotateDirection::Left);
    assert_eq!(
        Z::new(TetrominoDirection::East, Block::new(Color::Red, 0, 0)),
        z
    );
    z.rotate(RotateDirection::Left);
    assert_eq!(
        Z::new(TetrominoDirection::North, Block::new(Color::Red, 0, 0)),
        z
    );
    z.rotate(RotateDirection::Right);
    assert_eq!(
        Z::new(TetrominoDirection::East, Block::new(Color::Red, 0, 0)),
        z
    );
    z.rotate(RotateDirection::Right);
    assert_eq!(
        Z::new(TetrominoDirection::South, Block::new(Color::Red, 0, 0)),
        z
    );
    z.rotate(RotateDirection::Right);
    assert_eq!(
        Z::new(TetrominoDirection::West, Block::new(Color::Red, 0, 0)),
        z
    );
    z.rotate(RotateDirection::Right);
    assert_eq!(
        Z::new(TetrominoDirection::North, Block::new(Color::Red, 0, 0)),
        z
    );
}

#[test]
fn z_test_dry_move() {
    let mut z = build_z_tetromino();
    let got = z.dry_move(MoveDirection::Left);
    z.move_(MoveDirection::Left);
    assert_eq!(z.blocks(), got);
    let got = z.dry_move(MoveDirection::Right);
    z.move_(MoveDirection::Right);
    assert_eq!(z.blocks(), got);
    let got = z.dry_move(MoveDirection::Down);
    z.move_(MoveDirection::Down);
    assert_eq!(z.blocks(), got);
}

#[test]
fn z_test_dry_rotate() {
    let mut z = build_z_tetromino();
    for _ in 0..4 {
        let got = z.dry_rotate(RotateDirection::Left);
        z.rotate(RotateDirection::Left);
        assert_eq!(z.blocks(), got);
    }
    for _ in 0..4 {
        let got = z.dry_rotate(RotateDirection::Right);
        z.rotate(RotateDirection::Right);
        assert_eq!(z.blocks(), got);
    }
}

#[test]
fn z_test_blocks() {
    let mut z = build_z_tetromino();
    assert_eq!(build_z_blocks(TetrominoDirection::North), z.blocks());
    z.rotate(RotateDirection::Right);
    assert_eq!(build_z_blocks(TetrominoDirection::East), z.blocks());
    z.rotate(RotateDirection::Right);
    assert_eq!(build_z_blocks(TetrominoDirection::South), z.blocks());
    z.rotate(RotateDirection::Right);
    assert_eq!(build_z_blocks(TetrominoDirection::West), z.blocks());
}

fn build_z_tetromino() -> Z {
    Z::new(TetrominoDirection::North, Block::new(Color::Red, 0, 0))
}

fn build_z_blocks(dir: TetrominoDirection) -> Vec<Block> {
    match dir {
        TetrominoDirection::South => vec![
            Block::new(Color::Red, -1, 0),
            Block::new(Color::Red, 0, -1),
            Block::new(Color::Red, 0, 0),
            Block::new(Color::Red, 1, -1),
        ],
        TetrominoDirection::West => vec![
            Block::new(Color::Red, -1, -1),
            Block::new(Color::Red, -1, 0),
            Block::new(Color::Red, 0, 0),
            Block::new(Color::Red, 0, 1),
        ],
        TetrominoDirection::North => vec![
            Block::new(Color::Red, -1, 1),
            Block::new(Color::Red, 0, 0),
            Block::new(Color::Red, 0, 1),
            Block::new(Color::Red, 1, 0),
        ],
        TetrominoDirection::East => vec![
            Block::new(Color::Red, 0, -1),
            Block::new(Color::Red, 0, 0),
            Block::new(Color::Red, 1, 0),
            Block::new(Color::Red, 1, 1),
        ],
    }
}

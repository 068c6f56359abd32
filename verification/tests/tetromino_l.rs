use tetris::models::block::{Block, Color};
use tetris::models::tetromino::l::L;
use tetris::models::tetromino::{MoveDirection, RotateDirection, Tetromino, TetrominoDirection};

#[test]
fn l_test_move() {
    let mut l = build_l_tetromino();
    l.move_(MoveDirection::Left);
    assert_eq!(
        L::new(TetrominoDirection::North, Block::new(Color::Orange, -1, 0)),
        l
    );
    l.move_(MoveDirection::Right);
    assert_eq!(
        L::new(TetrominoDirection::North, Block::new(Color::Orange, 0, 0)),
        l
    );
    l.move_(MoveDirection::Down);
    assert_eq!(
        L::new(TetrominoDirection::North, Block::new(Color::Orange, 0, -1)),
        l
    );
}

#[test]
fn l_test_rotate() {
    let mut l = build_l_tetromino();
    l.rotate(RotateDirection::Left);
    assert_eq!(
        L::new(TetrominoDirection::West, Block::new(Color::Orange, 0, 0)),
        l
    );
    l.rotate(RotateDirection::Left);
    assert_eq!(
        L::new(TetrominoDirection::South, Block::new(Color::Orange, 0, 0)),
        l
    );
    l.rotate(RotateDirection::Left);
    assert_eq!(
        L::new(TetrominoDirection::East, Block::new(Color::Orange, 0, 0)),
        l
    );
    l.rotate(RotateDirection::Left);
    assert_eq!(
        L::new(TetrominoDirection::North, Block::new(Color::Orange, 0, 0)),
        l
    );
    l.rotate(RotateDirection::Right);
    assert_eq!(
        L::new(TetrominoDirection::East, Block::new(Color::Orange, 0, 0)),
        l
    );
    l.rotate(RotateDirection::Right);
    assert_eq!(
        L::new(TetrominoDirection::South, Block::new(Color::Orange, 0, 0)),
        l
    );
    l.rotate(RotateDirection::Right);
    assert_eq!(
        L::new(TetrominoDirection::West, Block::new(Color::Orange, 0, 0)),
        l
    );
    l.rotate(RotateDirection::Right);
    assert_eq!(
        L::new(TetrominoDirection::North, Block::new(Color::Orange, 0, 0)),
        l
    );
}

#[test]
fn l_test_dry_move() {
    let mut l = build_l_tetromino();
    let got = l.dry_move(MoveDirection::Left);
    l.move_(MoveDirection::Left);
    assert_eq!(l.blocks(), got);
    let got = l.dry_move(MoveDirection::Right);
    l.move_(MoveDirection::Right);
    assert_eq!(l.blocks(), got);
    let got = l.dry_move(MoveDirection::Down);
    l.move_(MoveDirection::Down);
    assert_eq!(l.blocks(), got);
}

#[test]
fn l_test_dry_rotate() {
    let mut l = build_l_tetromino();
    for _ in 0..4 {
        let got = l.dry_rotate(RotateDirection::Left);
        l.rotate(RotateDirection::Left);
        assert_eq!(l.blocks(), got);
    }
    for _ in 0..4 {
        let got = l.dry_rotate(RotateDirection::Right);
        l.rotate(RotateDirection::Right);
        assert_eq!(l.blocks(), got);
    }
}

#[test]
fn l_test_blocks() {
    let mut l = build_l_tetromino();
    assert_eq!(build_l_blocks(TetrominoDirection::North), l.blocks());
    l.rotate(RotateDirection::Right);
    assert_eq!(build_l_blocks(TetrominoDirection::East), l.blocks());
    l.rotate(RotateDirection::Right);
    assert_eq!(build_l_blocks(TetrominoDirection::South), l.blocks());
    l.rotate(RotateDirection::Right);
    assert_eq!(build_l_blocks(TetrominoDirection::West), l.blocks());
}

fn build_l_tetromino() -> L {
    L::new(TetrominoDirection::North, Block::new(Color::Orange, 0, 0))
}

fn build_l_blocks(dir: TetrominoDirection) -> Vec<Block> {
    match dir {
        TetrominoDirection::South => vec![
            Block::new(Color::Orange, -1, -1),
            Block::new(Color::Orange, -1, 0),
            Block::new(Color::Orange, 0, 0),
            Block::new(Color::Orange, 1, 0),
        ],
        TetrominoDirection::West => vec![
            Block::new(Color::Orange, -1, 1),
            Block::new(Color::Orange, 0, -1),
            Block::new(Color::Orange, 0, 0),
            Block::new(Color::Orange, 0, 1),
        ],
        TetrominoDirection::North => vec![
            Block::new(Color::Orange, -1, 0),
            Block::new(Color::Orange, 0, 0),
            Block::new(Color::Orange, 1, 0),
            Block::new(Color::Orange, 1, 1),
        ],
        TetrominoDirection::East => vec![
            Block::new(Color::Orange, 0, -1),
            Block::new(Color::Orange, 0, 0),
            Block::new(Color::Orange, 0, 1),
            Block::new(Color::Orange, 1, -1),
        ],
    }
}

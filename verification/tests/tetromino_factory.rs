use tetris::models::block::{Block, Color};
use tetris::models::tetromino::i::I;
use tetris::models::tetromino::j::J;
use tetris::models::tetromino::l::L;
use tetris::models::tetromino::o::O;
use tetris::models::tetromino::s::S;
use tetris::models::tetromino::t::T;
use tetris::models::tetromino::z::Z;
use tetris::models::tetromino::{Piece, Shape, TetrominoDirection};
use tetris::models::tetromino_factory::TetrominoFactory;

fn dealt(shape: Shape) -> Piece {
    let north = TetrominoDirection::North;
    match shape {
        Shape::I => Piece::I(I::new(north, Block::new(Color::Cyan, 4, 20))),
        Shape::J => Piece::J(J::new(north, Block::new(Color::Blue, 4, 20))),
        Shape::L => Piece::L(L::new(north, Block::new(Color::Orange, 4, 20))),
        Shape::O => Piece::O(O::new(north, Block::new(Color::Yellow, 4, 20))),
        Shape::S => Piece::S(S::new(north, Block::new(Color::Green, 4, 20))),
        Shape::T => Piece::T(T::new(north, Block::new(Color::Purple, 4, 20))),
        Shape::Z => Piece::Z(Z::new(north, Block::new(Color::Red, 4, 20))),
    }
}

fn draw(factory: &mut TetrominoFactory, n: usize) -> Vec<Shape> {
    let mut shapes = Vec::new();
    for _ in 0..n {
        let piece = factory.pop();
        assert_eq!(dealt(piece.shape()), piece);
        shapes.push(piece.shape());
    }
    shapes
}

fn holds_each_shape_once(shapes: &[Shape]) -> bool {
    let all = [Shape::I, Shape::J, Shape::L, Shape::O, Shape::S, Shape::T, Shape::Z];
    shapes.len() == 7 && all.iter().all(|shape| shapes.iter().filter(|s| *s == shape).count() == 1)
}

#[test]
fn the_first_seven_pieces_are_one_of_each_shape() {
    let mut factory = TetrominoFactory::new();
    let shapes = draw(&mut factory, 7);
    assert!(holds_each_shape_once(&shapes));
}

#[test]
fn the_first_set_comes_in_the_order_that_the_seed_gives() {
    let mut factory = TetrominoFactory::new();
    assert_eq!(
        vec![Shape::T, Shape::Z, Shape::S, Shape::I, Shape::L, Shape::J, Shape::O],
        draw(&mut factory, 7)
    );
}

#[test]
fn the_second_set_goes_on_from_where_the_generator_stood() {
    let mut factory = TetrominoFactory::new();
    draw(&mut factory, 7);
    assert_eq!(
        vec![Shape::L, Shape::Z, Shape::O, Shape::T, Shape::I, Shape::S, Shape::J],
        draw(&mut factory, 7)
    );
}

#[test]
fn every_set_of_seven_is_one_of_each_shape() {
    let mut factory = TetrominoFactory::new();
    for _ in 0..50 {
        let shapes = draw(&mut factory, 7);
        assert!(holds_each_shape_once(&shapes));
    }
}

#[test]
fn two_factories_deal_the_same_pieces() {
    let mut one = TetrominoFactory::new();
    let mut other = TetrominoFactory::new();
    assert_eq!(draw(&mut one, 40), draw(&mut other, 40));
}

#[test]
fn the_first_piece_is_the_t_at_the_spawn_cell() {
    let mut factory = TetrominoFactory::new();
    assert_eq!(
        Piece::T(T::new(TetrominoDirection::North, Block::new(Color::Purple, 4, 20))),
        factory.pop()
    );
}

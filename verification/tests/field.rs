use tetris::models::block::{Block, Color};
use tetris::models::field::Field;

#[test]
fn test_is_vacant_1() {
    let field = build_field_with_missing_lines(4);
    let blocks = build_blocks();
    assert_eq!(true, field.is_vacant(&blocks));
}

#[test]
fn test_is_vacant_2() {
    let field = build_field_with_blocks(4);
    let blocks = build_blocks();
    assert_eq!(false, field.is_vacant(&blocks));
}

#[test]
fn test_is_vacant_3() {
    let mut grid = build_grid_with_missing_lines(4);
    grid[3][0] = Some(Color::Cyan);
    let field = Field::new(grid);
    let blocks = build_blocks();
    assert_eq!(false, field.is_vacant(&blocks));
}

#[test]
fn test_can_fix_1() {
    let blocks = vec![
        Block::new(Color::Cyan, 0, 19),
        Block::new(Color::Cyan, 0, 20),
        Block::new(Color::Cyan, 0, 21),
        Block::new(Color::Cyan, 0, 22),
    ];
    assert_eq!(true, Field::can_fix(&blocks));
}

#[test]
fn test_can_fix_2() {
    let blocks = vec![
        Block::new(Color::Cyan, 0, 20),
        Block::new(Color::Cyan, 0, 21),
        Block::new(Color::Cyan, 0, 22),
        Block::new(Color::Cyan, 0, 23),
    ];
    assert_eq!(false, Field::can_fix(&blocks));
}

#[test]
fn test_fix_blocks() {
    let mut field = build_field_with_missing_lines(4);
    let blocks = build_blocks();
    assert_eq!(field.rows()[0][0], None);
    assert_eq!(field.rows()[1][0], None);
    assert_eq!(field.rows()[2][0], None);
    assert_eq!(field.rows()[3][0], None);
    field.fix_blocks(blocks);
    assert_eq!(field.rows()[0][0], Some(Color::Cyan));
    assert_eq!(field.rows()[1][0], Some(Color::Cyan));
    assert_eq!(field.rows()[2][0], Some(Color::Cyan));
    assert_eq!(field.rows()[3][0], Some(Color::Cyan));
}

#[test]
fn test_clear_blocks_1() {
    let mut field = build_field_with_missing_lines(4);
    let field_clone = field.clone();
    assert_eq!(0, field.clear_blocks());
    assert_eq!(field_clone, field);
    assert_eq!(24, field.rows().len());
}

#[test]
fn test_clear_blocks_2() {
    let mut grid = build_grid_with_missing_lines(5);
    grid[3][0] = Some(Color::Cyan);
    let mut field = Field::new(grid);
    assert_eq!(1, field.clear_blocks());
    assert_eq!(missing_line(), field.rows()[3]);
    assert_eq!(missing_line(), field.rows()[2]);
    assert_eq!(missing_line(), field.rows()[1]);
    assert_eq!(missing_line(), field.rows()[0]);
    assert_eq!(24, field.rows().len());
}

#[test]
fn test_clear_blocks_3() {
    let mut grid = build_grid_with_missing_lines(5);
    grid[3][0] = Some(Color::Cyan);
    grid[2][0] = Some(Color::Cyan);
    let mut field = Field::new(grid);
    assert_eq!(2, field.clear_blocks());
    assert_eq!(vec![None; 10], field.rows()[3]);
    assert_eq!(missing_line(), field.rows()[2]);
    assert_eq!(missing_line(), field.rows()[1]);
    assert_eq!(missing_line(), field.rows()[0]);
    assert_eq!(24, field.rows().len());
}

#[test]
fn test_clear_blocks_4() {
    let mut grid = build_grid_with_missing_lines(5);
    grid[3][0] = Some(Color::Cyan);
    grid[2][0] = Some(Color::Cyan);
    grid[1][0] = Some(Color::Cyan);
    let mut field = Field::new(grid);
    assert_eq!(3, field.clear_blocks());
    assert_eq!(vec![None; 10], field.rows()[3]);
    assert_eq!(vec![None; 10], field.rows()[2]);
    assert_eq!(missing_line(), field.rows()[1]);
    assert_eq!(missing_line(), field.rows()[0]);
    assert_eq!(24, field.rows().len());
}

#[test]
fn test_clear_blocks_5() {
    let mut grid = build_grid_with_missing_lines(5);
    grid[3][0] = Some(Color::Cyan);
    grid[2][0] = Some(Color::Cyan);
    grid[1][0] = Some(Color::Cyan);
    grid[0][0] = Some(Color::Cyan);
    let mut field = Field::new(grid);
    assert_eq!(4, field.clear_blocks());
    assert_eq!(vec![None; 10], field.rows()[3]);
    assert_eq!(vec![None; 10], field.rows()[2]);
    assert_eq!(vec![None; 10], field.rows()[1]);
    assert_eq!(missing_line(), field.rows()[0]);
    assert_eq!(24, field.rows().len());
}

#[test]
fn test_blocks_1() {
    let field = build_field_with_blocks(4);
    assert_eq!(build_blocks(), field.blocks());
}

#[test]
fn test_blocks_2() {
    let field = Field::new(vec![vec![None; 10]; 24]);
    assert_eq!(Vec::<Block>::new(), field.blocks());
}

#[test]
fn a_block_off_the_field_is_never_vacant() {
    let field = empty_field();
    assert_eq!(true, field.is_vacant(&vec![Block::new(Color::Red, 0, 0)]));
    assert_eq!(true, field.is_vacant(&vec![Block::new(Color::Red, 9, 23)]));
    assert_eq!(false, field.is_vacant(&vec![Block::new(Color::Red, -1, 0)]));
    assert_eq!(false, field.is_vacant(&vec![Block::new(Color::Red, 10, 0)]));
    assert_eq!(false, field.is_vacant(&vec![Block::new(Color::Red, 0, -1)]));
    assert_eq!(false, field.is_vacant(&vec![Block::new(Color::Red, 0, 24)]));
    assert_eq!(false, field.is_vacant(&vec![Block::new(Color::Red, i32::MIN, i32::MAX)]));
    let mixed = vec![
        Block::new(Color::Red, 4, 4),
        Block::new(Color::Red, 5, 4),
        Block::new(Color::Red, 10, 4),
        Block::new(Color::Red, 6, 4),
    ];
    assert_eq!(false, field.is_vacant(&mixed));
}

#[test]
fn no_blocks_are_vacant_and_cannot_be_fixed() {
    let field = build_field_with_blocks(4);
    assert_eq!(true, field.is_vacant(&Vec::new()));
    assert_eq!(false, Field::can_fix(&Vec::new()));
}

#[test]
fn can_fix_looks_at_the_row_only() {
    assert_eq!(true, Field::can_fix(&vec![Block::new(Color::Blue, 50, 19)]));
    assert_eq!(true, Field::can_fix(&vec![Block::new(Color::Blue, 3, -7)]));
    assert_eq!(false, Field::can_fix(&vec![Block::new(Color::Blue, 3, 20)]));
    let last_one_low = vec![
        Block::new(Color::Blue, 3, 23),
        Block::new(Color::Blue, 3, 22),
        Block::new(Color::Blue, 3, 21),
        Block::new(Color::Blue, 3, 0),
    ];
    assert_eq!(true, Field::can_fix(&last_one_low));
}

#[test]
fn fix_blocks_passes_over_blocks_off_the_field() {
    let mut field = empty_field();
    field.fix_blocks(vec![
        Block::new(Color::Green, -1, 0),
        Block::new(Color::Green, 10, 5),
        Block::new(Color::Green, 3, 24),
        Block::new(Color::Green, 3, -1),
        Block::new(Color::Green, 9, 23),
    ]);
    assert_eq!(vec![Block::new(Color::Green, 9, 23)], field.blocks());
    assert_eq!(24, field.rows().len());
    for row in field.rows().iter() {
        assert_eq!(10, row.len());
    }
}

#[test]
fn fix_blocks_lets_the_later_block_win() {
    let mut field = empty_field();
    field.fix_blocks(vec![
        Block::new(Color::Green, 2, 2),
        Block::new(Color::Red, 2, 2),
    ]);
    assert_eq!(Some(Color::Red), field.rows()[2][2]);
    assert_eq!(vec![Block::new(Color::Red, 2, 2)], field.blocks());
}

#[test]
fn fixing_the_missing_column_clears_four_rows() {
    let mut field = build_field_with_missing_lines(4);
    field.fix_blocks(build_blocks());
    assert_eq!(4, field.clear_blocks());
    assert_eq!(24, field.rows().len());
    assert_eq!(&vec![vec![None; 10]; 24], field.rows());
    assert_eq!(Vec::<Block>::new(), field.blocks());
}

#[test]
fn clear_blocks_moves_the_rows_above_down_in_order() {
    let mut grid: Vec<Vec<Option<Color>>> = vec![vec![None; 10]; 24];
    grid[0] = vec![Some(Color::Red); 10];
    grid[1][4] = Some(Color::Blue);
    grid[2] = vec![Some(Color::Green); 10];
    grid[3] = vec![Some(Color::Green); 10];
    grid[4][7] = Some(Color::Yellow);
    grid[23] = vec![Some(Color::Purple); 10];
    let mut field = Field::new(grid);
    assert_eq!(4, field.clear_blocks());
    assert_eq!(
        vec![Block::new(Color::Blue, 4, 0), Block::new(Color::Yellow, 7, 1)],
        field.blocks()
    );
    assert_eq!(24, field.rows().len());
    assert_eq!(0, field.clear_blocks());
}

#[test]
fn clear_blocks_on_a_full_field_clears_every_row() {
    let mut field = Field::new(vec![vec![Some(Color::Orange); 10]; 24]);
    assert_eq!(24, field.clear_blocks());
    assert_eq!(&vec![vec![None; 10]; 24], field.rows());
}

#[test]
fn blocks_lists_rows_from_the_bottom_and_each_row_from_the_left() {
    let mut grid: Vec<Vec<Option<Color>>> = vec![vec![None; 10]; 24];
    grid[5][9] = Some(Color::Red);
    grid[5][0] = Some(Color::Blue);
    grid[0][3] = Some(Color::Green);
    grid[23][1] = Some(Color::Yellow);
    let field = Field::new(grid);
    assert_eq!(
        vec![
            Block::new(Color::Green, 3, 0),
            Block::new(Color::Blue, 0, 5),
            Block::new(Color::Red, 9, 5),
            Block::new(Color::Yellow, 1, 23),
        ],
        field.blocks()
    );
}

fn empty_field() -> Field {
    Field::new(vec![vec![None; 10]; 24])
}

fn build_field_with_blocks(num: i32) -> Field {
    let mut field = vec![vec![None; 10]; 24];
    for row_idx in 0..num {
        field[row_idx as usize][0] = Some(Color::Cyan);
    }
    Field::new(field)
}

fn build_grid_with_missing_lines(num: i32) -> Vec<Vec<Option<Color>>> {
    let mut field = vec![vec![None; 10]; 24];
    for row_idx in 0..num {
        field[row_idx as usize] = missing_line();
    }
    field
}

fn build_field_with_missing_lines(num: i32) -> Field {
    Field::new(build_grid_with_missing_lines(num))
}

fn missing_line() -> Vec<Option<Color>> {
    let mut line = vec![Some(Color::Cyan); 10];
    line[0] = None;
    line
}

fn build_blocks() -> Vec<Block> {
    vec![
        Block::new(Color::Cyan, 0, 0),
        Block::new(Color::Cyan, 0, 1),
        Block::new(Color::Cyan, 0, 2),
        Block::new(Color::Cyan, 0, 3),
    ]
}

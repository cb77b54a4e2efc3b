use rogue_grid::error::GameError;
use rogue_grid::grid::Grid;
use rogue_grid::tile::{Color, Tile};

fn wall() -> Tile {
    Tile::new('#', Color::white(), Color::new(10, 20, 30, 255), false)
}

#[test]
fn new_grid_is_filled_with_the_default_tile() {
    let g = Grid::new(4, 3, Tile::floor()).unwrap();
    assert_eq!(g.width(), 4);
    assert_eq!(g.height(), 3);
    assert_eq!(g.rows().len(), 3);
    for row in g.rows().iter() {
        assert_eq!(row.len(), 4);
        for t in row.iter() {
            assert_eq!(*t, Tile::floor());
        }
    }
}

#[test]
fn zero_dimension_is_rejected() {
    assert_eq!(Grid::new(0, 3, Tile::floor()), Err(GameError::InvalidDimension));
    assert_eq!(Grid::new(4, 0, Tile::floor()), Err(GameError::InvalidDimension));
    assert_eq!(Grid::new(0, 0, Tile::floor()), Err(GameError::InvalidDimension));
    assert!(Grid::new(1, 1, Tile::floor()).is_ok());
}

#[test]
fn set_writes_one_cell() {
    let mut g = Grid::new(4, 3, Tile::floor()).unwrap();
    g.set(3, 1, wall());
    for row in 0..3 {
        for col in 0..4 {
            let expected = if (col, row) == (3, 1) { wall() } else { Tile::floor() };
            assert_eq!(g.get(col, row), expected);
        }
    }
    assert_eq!(g.rows()[1][3], wall());
}

#[test]
fn rows_are_top_to_bottom_and_left_to_right() {
    let mut g = Grid::new(3, 2, Tile::floor()).unwrap();
    let a = Tile::new('a', Color::green(), Color::black(), true);
    let b = Tile::new('b', Color::green(), Color::black(), true);
    g.set(0, 1, a);
    g.set(2, 0, b);
    let symbols: Vec<Vec<char>> =
        g.rows().iter().map(|r| r.iter().map(|t| t.symbol).collect()).collect();
    assert_eq!(symbols, vec![vec!['.', '.', 'b'], vec!['a', '.', '.']]);
}

#[test]
fn reset_overwrites_every_cell() {
    let mut g = Grid::new(5, 4, Tile::floor()).unwrap();
    g.set(0, 0, wall());
    g.set(4, 3, Tile::player());
    g.set(2, 2, wall());
    g.reset(wall());
    assert_eq!(g, Grid::new(5, 4, wall()).unwrap());
    g.reset(Tile::floor());
    assert_eq!(g, Grid::new(5, 4, Tile::floor()).unwrap());
    assert_eq!((g.width(), g.height()), (5, 4));
}

#[test]
fn reset_twice_is_reset_once() {
    let mut once = Grid::new(3, 3, Tile::floor()).unwrap();
    once.set(1, 1, Tile::player());
    let mut twice = once.clone();
    once.reset(wall());
    twice.reset(wall());
    twice.reset(wall());
    assert_eq!(once, twice);
}

#[test]
fn try_get_outside_the_grid_is_none() {
    let mut g = Grid::new(2, 2, Tile::floor()).unwrap();
    g.set(1, 0, wall());
    assert_eq!(g.try_get(1, 0), Some(wall()));
    assert_eq!(g.try_get(0, 1), Some(Tile::floor()));
    assert_eq!(g.try_get(2, 0), None);
    assert_eq!(g.try_get(0, 2), None);
}

#[test]
fn stamped_cell_keeps_its_tile_when_the_source_changes() {
    let mut g = Grid::new(2, 2, Tile::floor()).unwrap();
    let mut t = wall();
    g.set(0, 0, t);
    t.symbol = 'x';
    assert_eq!(g.get(0, 0).symbol, '#');
}

#[test]
fn named_tiles_and_colors() {
    assert_eq!(Color::orange(), Color::new(255, 161, 0, 255));
    assert_eq!(Color::black(), Color::new(0, 0, 0, 255));
    assert_eq!(Color::green(), Color::new(0, 228, 48, 255));
    assert_eq!(Color::white(), Color::new(255, 255, 255, 255));
    assert_eq!(Tile::floor(), Tile::new('.', Color::orange(), Color::black(), true));
    assert_eq!(Tile::player(), Tile::new('@', Color::green(), Color::white(), false));
}

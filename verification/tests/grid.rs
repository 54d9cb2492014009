use warp_horizon::geometry::Vector2;
use warp_horizon::grid::{tile_of, Grid};

#[test]
fn new_creates_with_given_size() {
    let grid = Grid::new(Vector2::new(40, 32));
    assert_eq!(grid.size(), Vector2::new(40, 32));

    // Make sure we can actually access within that area
    assert!(grid.get(0, 0).is_some());
    assert!(grid.get(39, 31).is_some());
    assert!(grid.get(40, 32).is_none());
}

#[test]
fn get_returns_none_on_invalid_tiles() {
    let grid = Grid::new(Vector2::new(10, 10));

    assert_eq!(grid.get(-1, -1), None);
    assert_eq!(grid.get(1, -1), None);
    assert_eq!(grid.get(-1, 1), None);
}

#[test]
fn grid_creates_with_given_size() {
    let grid = Grid::new(Vector2::new(40, 32));
    assert_eq!(grid.width(), 40);
    assert_eq!(grid.height(), 32);

    // Make sure we can actually access within that area
    assert!(grid.get(0, 0).is_some());
    assert!(grid.get(39, 31).is_some());
    assert!(grid.get(40, 32).is_none());
}

#[test]
fn get_returns_none_just_outside_each_edge() {
    let grid = Grid::new(Vector2::new(3, 2));
    assert!(grid.get(2, 1).is_some());
    assert_eq!(grid.get(3, 0), None);
    assert_eq!(grid.get(0, 2), None);
    assert_eq!(grid.get(3, 1), None);
    assert_eq!(grid.get(i32::MAX, i32::MAX), None);
    assert_eq!(grid.get(i32::MIN, 0), None);
}

#[test]
fn tile_of_is_the_parity_of_the_word() {
    assert_eq!(tile_of(0), 0);
    assert_eq!(tile_of(1), 1);
    assert_eq!(tile_of(2061), 1);
    assert_eq!(tile_of(8224), 0);
    assert_eq!(tile_of(u32::MAX), 1);
}

#[test]
fn tiles_are_the_same_for_every_grid_and_either_zero_or_one() {
    let grid = Grid::new(Vector2::new(4, 3));
    let expected = [1, 1, 0, 0, 1, 0, 0, 0, 1, 1, 1, 0];
    for y in 0..3 {
        for x in 0..4 {
            assert_eq!(grid.get(x, y), Some(expected[(x + y * 4) as usize]));
        }
    }
    let again = Grid::new(Vector2::new(4, 3));
    for y in 0..3 {
        for x in 0..4 {
            assert_eq!(grid.get(x, y), again.get(x, y));
        }
    }
}

#[test]
fn occupied_tiles_are_the_ground_tiles_row_by_row() {
    let grid = Grid::new(Vector2::new(4, 3));
    assert_eq!(
        grid.occupied_tiles(),
        vec![
            Vector2::new(0, 0),
            Vector2::new(1, 0),
            Vector2::new(0, 1),
            Vector2::new(0, 2),
            Vector2::new(1, 2),
            Vector2::new(2, 2),
        ]
    );
}

#[test]
fn an_empty_grid_has_no_tiles() {
    let grid = Grid::new(Vector2::new(0, 5));
    assert_eq!(grid.size(), Vector2::new(0, 5));
    assert_eq!(grid.get(0, 0), None);
    assert!(grid.occupied_tiles().is_empty());
}

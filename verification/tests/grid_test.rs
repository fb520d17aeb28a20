//! Grids and the four-corner rule.

use aether_of_enclaves::grid::{
    cell_under, footprint_clear, has_shape, set_tile, tile_at_cell, tile_in, tile_under,
};
use aether_of_enclaves::tile::{Tile, TileType};

/// Two columns of two cells, all grass but the cell `(1, 1)`, which is stone.
fn two_by_two() -> Vec<Vec<Tile>> {
    vec![
        vec![Tile::new(TileType::GrassFloor), Tile::new(TileType::GrassFloor)],
        vec![Tile::new(TileType::GrassFloor), Tile::new(TileType::StoneWall)],
    ]
}

#[test]
fn footprint_over_the_blocked_cell_is_rejected() {
    let grid = two_by_two();
    // The box lies in one cell.
    assert!(footprint_clear(&grid, 0, 0, 0, 0));
    assert!(footprint_clear(&grid, 0, 0, 32, 0));
    assert!(footprint_clear(&grid, 0, 0, 0, 32));
    assert!(!footprint_clear(&grid, 0, 0, 32, 32));
    // The box straddles two free cells.
    assert!(footprint_clear(&grid, 0, 0, 1, 0));
    assert!(footprint_clear(&grid, 0, 0, 31, 0));
    assert!(footprint_clear(&grid, 0, 0, 0, 1));
    assert!(footprint_clear(&grid, 0, 0, 0, 31));
    // The box reaches into the stone with one corner.
    assert!(!footprint_clear(&grid, 0, 0, 1, 1));
    assert!(!footprint_clear(&grid, 0, 0, 31, 31));
    assert!(!footprint_clear(&grid, 0, 0, 32, 1));
    assert!(!footprint_clear(&grid, 0, 0, 1, 32));
    assert!(!footprint_clear(&grid, 0, 0, 16, 31));
}

#[test]
fn footprint_outside_the_grid_is_rejected() {
    let grid = two_by_two();
    assert!(!footprint_clear(&grid, 0, 0, -1, 0));
    assert!(!footprint_clear(&grid, 0, 0, 0, -1));
    assert!(!footprint_clear(&grid, 0, 0, 33, 0));
    assert!(!footprint_clear(&grid, 0, 0, 0, 33));
    assert!(!footprint_clear(&grid, 0, 0, 64, 0));
    assert!(!footprint_clear(&grid, 0, 0, i64::MAX, 0));
    assert!(!footprint_clear(&grid, 0, 0, i64::MIN, i64::MIN));
    assert!(!footprint_clear(&grid, i64::MAX, i64::MAX, i64::MIN, i64::MIN));
    assert!(!footprint_clear(&grid, i64::MIN, 0, i64::MAX, 0));
    let empty: Vec<Vec<Tile>> = vec![];
    assert!(!footprint_clear(&empty, 0, 0, 0, 0));
    let ragged = vec![vec![Tile::new(TileType::GrassFloor); 2], vec![Tile::new(TileType::GrassFloor)]];
    assert!(footprint_clear(&ragged, 0, 0, 16, 0));
    assert!(!footprint_clear(&ragged, 0, 0, 16, 16));
}

#[test]
fn footprint_is_taken_from_the_grids_origin() {
    let grid = two_by_two();
    assert!(footprint_clear(&grid, 1000, -500, 1000, -500));
    assert!(footprint_clear(&grid, 1000, -500, 1032, -500));
    assert!(!footprint_clear(&grid, 1000, -500, 1032, -468));
    assert!(!footprint_clear(&grid, 1000, -500, 999, -500));
    assert!(!footprint_clear(&grid, 1000, -500, 0, 0));
}

#[test]
fn tile_lookup_never_leaves_the_grid() {
    let grid = two_by_two();
    assert_eq!(tile_in(&grid, 1, 1), Some(Tile::new(TileType::StoneWall)));
    assert_eq!(tile_in(&grid, 0, 1), Some(Tile::new(TileType::GrassFloor)));
    assert_eq!(tile_in(&grid, 2, 0), None);
    assert_eq!(tile_in(&grid, 0, 2), None);
    assert_eq!(tile_in(&grid, usize::MAX, usize::MAX), None);
    assert_eq!(tile_at_cell(&grid, -1, 0), None);
    assert_eq!(tile_at_cell(&grid, 0, -1), None);
    assert_eq!(tile_at_cell(&grid, 1, 1), Some(Tile::new(TileType::StoneWall)));
    assert_eq!(tile_at_cell(&grid, i128::MAX, 0), None);
}

#[test]
fn tile_under_the_centre() {
    let grid = two_by_two();
    // The centre of a box at (0, 0) is the pixel (16, 16).
    assert_eq!(cell_under(&grid, 0, 0, 0, 0), Some((0, 0)));
    assert_eq!(cell_under(&grid, 0, 0, 15, 0), Some((0, 0)));
    assert_eq!(cell_under(&grid, 0, 0, 16, 0), Some((1, 0)));
    assert_eq!(cell_under(&grid, 0, 0, 16, 16), Some((1, 1)));
    assert_eq!(cell_under(&grid, 0, 0, 47, 47), Some((1, 1)));
    assert_eq!(cell_under(&grid, 0, 0, 48, 0), None);
    assert_eq!(cell_under(&grid, 0, 0, -16, 0), Some((0, 0)));
    assert_eq!(cell_under(&grid, 0, 0, -17, 0), None);
    assert_eq!(cell_under(&grid, 100, 100, 116, 100), Some((1, 0)));
    assert_eq!(cell_under(&grid, 0, 0, i64::MAX, i64::MAX), None);
    assert_eq!(cell_under(&grid, i64::MAX, 0, i64::MIN, 0), None);
    assert_eq!(tile_under(&grid, 0, 0, 16, 16), Some(Tile::new(TileType::StoneWall)));
    assert_eq!(tile_under(&grid, 0, 0, 0, 16), Some(Tile::new(TileType::GrassFloor)));
    assert_eq!(tile_under(&grid, 0, 0, 48, 48), None);
}

#[test]
fn shape_and_replacement() {
    let mut grid = two_by_two();
    assert!(has_shape(&grid, 2, 2));
    assert!(!has_shape(&grid, 2, 3));
    assert!(!has_shape(&grid, 3, 2));
    let ragged = vec![vec![1u32, 2], vec![3]];
    assert!(!has_shape(&ragged, 2, 2));
    let none: Vec<Vec<u32>> = vec![];
    assert!(has_shape(&none, 0, 7));
    set_tile(&mut grid, 1, 1, Tile::new(TileType::Portal));
    assert_eq!(grid[1][1], Tile::new(TileType::Portal));
    assert_eq!(grid[0][0], Tile::new(TileType::GrassFloor));
    assert_eq!(grid[0][1], Tile::new(TileType::GrassFloor));
    assert_eq!(grid[1][0], Tile::new(TileType::GrassFloor));
    assert!(footprint_clear(&grid, 0, 0, 16, 16));
}

#[test]
fn replacing_a_missing_cell_changes_nothing() {
    let mut grid = two_by_two();
    set_tile(&mut grid, 2, 0, Tile::new(TileType::Portal));
    set_tile(&mut grid, 0, 2, Tile::new(TileType::Portal));
    assert_eq!(grid, two_by_two());
}

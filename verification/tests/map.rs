use rogue_rs::grid::{filled, has_dimensions, is_rectangular};
use rogue_rs::map::{Tile, TileMap};

#[test]
fn empty_tile_is_open_and_unseen() {
    let t = Tile::empty();
    assert_eq!(t, Tile { blocked: false, block_sight: false, explored: false });
}

#[test]
fn wall_tile_blocks_movement_and_sight() {
    let t = Tile::wall();
    assert_eq!(t, Tile { blocked: true, block_sight: true, explored: false });
}

#[test]
fn filled_grid_has_the_requested_size_and_value() {
    let g = filled(3, 2, 7u8);
    assert_eq!(g, vec![vec![7u8, 7], vec![7, 7], vec![7, 7]]);
    assert!(has_dimensions(&g, 3, 2));
    assert!(!has_dimensions(&g, 2, 3));
    assert!(!has_dimensions(&g, -1, 2));
}

#[test]
fn filled_grid_may_be_empty() {
    let g = filled(0, 5, true);
    assert!(g.is_empty());
    assert!(has_dimensions(&g, 0, 5));
    assert!(!is_rectangular(&g));
}

#[test]
fn ragged_grid_is_not_rectangular() {
    let g = vec![vec![1, 2, 3], vec![4, 5]];
    assert!(!is_rectangular(&g));
    assert!(!has_dimensions(&g, 2, 3));
}

#[test]
fn grid_without_rows_is_not_rectangular() {
    let g: Vec<Vec<u8>> = vec![vec![], vec![]];
    assert!(!is_rectangular(&g));
}

#[test]
fn map_is_made_from_a_rectangular_grid() {
    let map = TileMap::from_tiles(filled(4, 3, Tile::empty())).unwrap();
    assert_eq!(map.width(), 4);
    assert_eq!(map.height(), 3);
    assert_eq!(map.tile(3, 2), Tile::empty());
}

#[test]
fn map_is_not_made_from_a_ragged_grid() {
    let tiles = vec![vec![Tile::empty(); 3], vec![Tile::empty(); 2]];
    assert_eq!(TileMap::from_tiles(tiles), None);
}

#[test]
fn map_is_not_made_from_nothing() {
    assert_eq!(TileMap::from_tiles(Vec::new()), None);
    assert_eq!(TileMap::from_tiles(vec![Vec::new()]), None);
}

#[test]
fn map_is_addressed_by_column_then_row() {
    let mut tiles = filled(3, 2, Tile::empty());
    tiles[2][1] = Tile::wall();
    let map = TileMap::from_tiles(tiles).unwrap();
    assert_eq!(map.tile(2, 1), Tile::wall());
    assert_eq!(map.tile(1, 1), Tile::empty());
    assert_eq!(map.tile(2, 0), Tile::empty());
}

#[test]
fn bounds_are_half_open() {
    let map = TileMap::from_tiles(filled(4, 3, Tile::empty())).unwrap();
    assert!(map.in_bounds(0, 0));
    assert!(map.in_bounds(3, 2));
    assert!(!map.in_bounds(4, 2));
    assert!(!map.in_bounds(3, 3));
    assert!(!map.in_bounds(-1, 0));
    assert!(!map.in_bounds(0, -1));
}

#[test]
fn marking_explored_touches_one_tile_only() {
    let mut tiles = filled(3, 3, Tile::empty());
    tiles[1][1] = Tile::wall();
    let mut map = TileMap::from_tiles(tiles).unwrap();
    map.mark_explored(1, 1);
    for x in 0..3 {
        for y in 0..3 {
            let expected = if (x, y) == (1, 1) {
                Tile { blocked: true, block_sight: true, explored: true }
            } else {
                Tile::empty()
            };
            assert_eq!(map.tile(x, y), expected);
        }
    }
}

#[test]
fn marking_explored_twice_is_the_same_as_once() {
    let mut map = TileMap::from_tiles(filled(2, 2, Tile::empty())).unwrap();
    map.mark_explored(0, 1);
    let once = map.clone();
    map.mark_explored(0, 1);
    assert_eq!(map, once);
}

use rogue_rs::fov::{
    fov_request, FovAlgorithm, FovMap, FovRequest, FOV_ALGO, FOV_LIGHT_WALLS, TORCH_RADIUS,
};
use rogue_rs::grid::filled;
use rogue_rs::map::{Tile, TileMap};
use rogue_rs::object::{Color, Object};

const WHITE: Color = Color { r: 255, g: 255, b: 255 };

#[test]
fn torch_reaches_ten_tiles_and_lights_walls() {
    assert_eq!(TORCH_RADIUS, 10);
    assert!(FOV_LIGHT_WALLS);
    assert_eq!(FOV_ALGO, FovAlgorithm::Basic);
}

#[test]
fn request_is_made_from_where_the_player_stands() {
    let objects = vec![
        Object::new(7, 3, '@', "player", WHITE, true),
        Object::new(1, 1, 'o', "orc", WHITE, true),
    ];
    assert_eq!(
        fov_request(&objects),
        FovRequest {
            origin_x: 7,
            origin_y: 3,
            radius: 10,
            light_walls: true,
            algorithm: FovAlgorithm::Basic,
        }
    );
}

#[test]
fn new_grid_is_dark_and_closed() {
    let fov = FovMap::new(3, 2);
    assert_eq!(fov.size(), (3, 2));
    for x in 0..3 {
        for y in 0..2 {
            assert!(!fov.is_transparent(x, y));
            assert!(!fov.is_walkable(x, y));
            assert!(!fov.is_in_fov(x, y));
        }
    }
}

#[test]
fn grid_bounds_are_half_open() {
    let fov = FovMap::new(3, 2);
    assert!(fov.in_bounds(0, 0));
    assert!(fov.in_bounds(2, 1));
    assert!(!fov.in_bounds(3, 1));
    assert!(!fov.in_bounds(2, 2));
    assert!(!fov.in_bounds(-1, 0));
    assert!(!fov.in_bounds(0, -1));
}

#[test]
fn set_changes_one_tile_only() {
    let mut fov = FovMap::new(3, 2);
    fov.set(1, 1, true, false);
    fov.set(2, 0, false, true);
    for x in 0..3 {
        for y in 0..2 {
            assert_eq!(fov.is_transparent(x, y), (x, y) == (1, 1));
            assert_eq!(fov.is_walkable(x, y), (x, y) == (2, 0));
            assert!(!fov.is_in_fov(x, y));
        }
    }
}

#[test]
fn grid_mirrors_the_walls_of_the_map() {
    let mut tiles = filled(3, 3, Tile::empty());
    tiles[0][0] = Tile::wall();
    tiles[1][2] = Tile { blocked: true, block_sight: false, explored: false };
    tiles[2][1] = Tile { blocked: false, block_sight: true, explored: true };
    let map = TileMap::from_tiles(tiles).unwrap();
    let fov = FovMap::from_map(&map);
    assert_eq!(fov.size(), (3, 3));
    for x in 0..3 {
        for y in 0..3 {
            let tile = map.tile(x, y);
            assert_eq!(fov.is_transparent(x, y), !tile.block_sight);
            assert_eq!(fov.is_walkable(x, y), !tile.blocked);
            assert!(!fov.is_in_fov(x, y));
        }
    }
    assert!(!fov.is_transparent(0, 0));
    assert!(!fov.is_walkable(0, 0));
    assert!(fov.is_transparent(1, 2));
    assert!(!fov.is_walkable(1, 2));
    assert!(!fov.is_transparent(2, 1));
    assert!(fov.is_walkable(2, 1));
}

#[test]
fn answer_must_have_the_size_of_the_grid() {
    let fov = FovMap::new(3, 2);
    assert!(fov.fits(&filled(3, 2, true)));
    assert!(!fov.fits(&filled(2, 3, true)));
    assert!(!fov.fits(&filled(3, 3, true)));
    assert!(!fov.fits(&Vec::new()));
    assert!(!fov.fits(&vec![vec![true, false], vec![true], vec![true, true]]));
}

#[test]
fn recorded_answer_is_what_is_in_view() {
    let mut fov = FovMap::new(3, 2);
    fov.set(1, 1, true, true);
    let answer = vec![vec![true, false], vec![false, true], vec![false, false]];
    fov.record(answer.clone());
    for x in 0..3 {
        for y in 0..2 {
            assert_eq!(fov.is_in_fov(x, y), answer[x as usize][y as usize]);
        }
    }
    assert!(fov.is_transparent(1, 1));
    assert!(fov.is_walkable(1, 1));
    assert!(!fov.is_transparent(0, 0));
}

#[test]
fn recorded_answer_replaces_the_one_before() {
    let mut fov = FovMap::new(2, 2);
    fov.record(filled(2, 2, true));
    assert!(fov.is_in_fov(1, 1));
    fov.record(filled(2, 2, false));
    assert!(!fov.is_in_fov(1, 1));
    assert!(!fov.is_in_fov(0, 0));
}

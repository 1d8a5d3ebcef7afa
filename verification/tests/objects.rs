use rogue_rs::grid::filled;
use rogue_rs::map::{Tile, TileMap};
use rogue_rs::object::{
    all_in_bounds, all_standing, is_blocking, move_by, occupant_at, position, Color, Fighter,
    Glyph, Object, PLAYER,
};

const WHITE: Color = Color { r: 255, g: 255, b: 255 };
const GREEN: Color = Color { r: 0, g: 255, b: 0 };

fn open_map(width: i32, height: i32) -> TileMap {
    TileMap::from_tiles(filled(width, height, Tile::empty())).unwrap()
}

fn map_with_wall_at(width: i32, height: i32, x: usize, y: usize) -> TileMap {
    let mut tiles = filled(width, height, Tile::empty());
    tiles[x][y] = Tile::wall();
    TileMap::from_tiles(tiles).unwrap()
}

#[test]
fn player_is_the_first_entity() {
    assert_eq!(PLAYER, 0);
}

#[test]
fn new_object_is_lifeless_and_plain() {
    let o = Object::new(3, 4, 'o', "orc", GREEN, true);
    assert_eq!(o.x, 3);
    assert_eq!(o.y, 4);
    assert_eq!(o.glyph, 'o');
    assert_eq!(o.name, "orc");
    assert_eq!(o.color, GREEN);
    assert!(o.blocks);
    assert!(!o.alive);
    assert_eq!(o.fighter, None);
    assert_eq!(o.ai, None);
}

#[test]
fn position_and_blocking_are_read_by_index() {
    let objects = vec![
        Object::new(1, 2, '@', "player", WHITE, true),
        Object::new(5, 6, '!', "potion", GREEN, false),
    ];
    assert_eq!(position(&objects, 0), (1, 2));
    assert_eq!(position(&objects, 1), (5, 6));
    assert!(is_blocking(&objects, 0));
    assert!(!is_blocking(&objects, 1));
    assert_eq!(objects[1].pos(), (5, 6));
}

#[test]
fn set_pos_changes_the_position_only() {
    let mut o = Object::new(1, 2, 'o', "orc", GREEN, true);
    let before = o.clone();
    o.set_pos(7, 8);
    assert_eq!(o, Object { x: 7, y: 8, ..before });
}

#[test]
fn draw_and_clear_name_the_tile_of_the_object() {
    let o = Object::new(3, 4, 'o', "orc", GREEN, true);
    assert_eq!(o.draw(), Glyph { x: 3, y: 4, glyph: 'o', color: GREEN });
    assert_eq!(o.clear(), Glyph { x: 3, y: 4, glyph: ' ', color: GREEN });
}

#[test]
fn fighter_figures_must_make_sense() {
    assert_eq!(
        Fighter::new(30, 30, 2, 5),
        Some(Fighter { max_hp: 30, hp: 30, defense: 2, power: 5 })
    );
    assert_eq!(
        Fighter::new(30, 0, 0, 0),
        Some(Fighter { max_hp: 30, hp: 0, defense: 0, power: 0 })
    );
    assert_eq!(Fighter::new(30, 31, 2, 5), None);
    assert_eq!(Fighter::new(30, -1, 2, 5), None);
    assert_eq!(Fighter::new(30, 30, -1, 5), None);
    assert_eq!(Fighter::new(30, 30, 2, -1), None);
    assert_eq!(Fighter::new(-1, -1, 0, 0), None);
}

#[test]
fn move_onto_free_tile_changes_the_position() {
    let map = open_map(10, 10);
    let mut objects = vec![Object::new(5, 5, '@', "player", WHITE, true)];
    let before = objects.clone();
    move_by(0, 1, -1, &map, &mut objects);
    assert_eq!(objects, vec![Object { x: 6, y: 4, ..before[0].clone() }]);
}

#[test]
fn move_onto_blocked_tile_changes_nothing() {
    let map = map_with_wall_at(10, 10, 6, 5);
    let mut objects = vec![
        Object::new(5, 5, '@', "player", WHITE, true),
        Object::new(2, 2, 'o', "orc", GREEN, true),
    ];
    let before = objects.clone();
    move_by(0, 1, 0, &map, &mut objects);
    assert_eq!(objects, before);
}

#[test]
fn move_changes_only_the_mover() {
    let map = open_map(10, 10);
    let mut objects = vec![
        Object::new(5, 5, '@', "player", WHITE, true),
        Object::new(2, 2, 'o', "orc", GREEN, true),
    ];
    let before = objects.clone();
    move_by(1, 0, 1, &map, &mut objects);
    assert_eq!(objects[0], before[0]);
    assert_eq!(objects[1], Object { x: 2, y: 3, ..before[1].clone() });
}

#[test]
fn move_ignores_other_entities_on_the_tile() {
    let map = open_map(10, 10);
    let mut objects = vec![
        Object::new(5, 5, '@', "player", WHITE, true),
        Object::new(6, 5, 'o', "orc", GREEN, true),
    ];
    move_by(1, -1, 0, &map, &mut objects);
    assert_eq!(objects[1].pos(), (5, 5));
}

#[test]
fn occupant_is_the_first_in_store_order() {
    let objects = vec![
        Object::new(5, 5, '@', "player", WHITE, true),
        Object::new(6, 5, 'g', "goblin", GREEN, true),
        Object::new(6, 5, 'o', "orc", GREEN, true),
        Object::new(6, 6, 't', "troll", GREEN, true),
    ];
    assert_eq!(occupant_at(&objects, 6, 5), Some(1));
    assert_eq!(occupant_at(&objects, 6, 6), Some(3));
    assert_eq!(occupant_at(&objects, 5, 5), Some(0));
    assert_eq!(occupant_at(&objects, 5, 6), None);
    assert_eq!(occupant_at(&[], 0, 0), None);
}

#[test]
fn occupant_is_found_again_on_every_run() {
    let objects = vec![
        Object::new(5, 5, '@', "player", WHITE, true),
        Object::new(6, 5, 'o', "orc", GREEN, true),
        Object::new(6, 5, 'g', "goblin", GREEN, true),
    ];
    for _ in 0..10 {
        assert_eq!(occupant_at(&objects, 6, 5), Some(1));
    }
}

#[test]
fn occupant_does_not_depend_on_being_alive() {
    let mut corpse = Object::new(6, 5, '%', "remains", GREEN, false);
    corpse.alive = false;
    let objects = vec![Object::new(5, 5, '@', "player", WHITE, true), corpse];
    assert_eq!(occupant_at(&objects, 6, 5), Some(1));
}

#[test]
fn entities_are_checked_against_the_map() {
    let map = map_with_wall_at(4, 4, 1, 1);
    let inside = vec![
        Object::new(0, 0, '@', "player", WHITE, true),
        Object::new(3, 3, 'o', "orc", GREEN, true),
    ];
    assert!(all_in_bounds(&inside, &map));
    assert!(all_standing(&inside, &map));

    let in_wall = vec![
        Object::new(0, 0, '@', "player", WHITE, true),
        Object::new(1, 1, 'o', "orc", GREEN, true),
    ];
    assert!(all_in_bounds(&in_wall, &map));
    assert!(!all_standing(&in_wall, &map));

    let outside = vec![
        Object::new(0, 0, '@', "player", WHITE, true),
        Object::new(4, 3, 'o', "orc", GREEN, true),
    ];
    assert!(!all_in_bounds(&outside, &map));
    assert!(!all_standing(&outside, &map));

    let negative = vec![Object::new(-1, 0, '@', "player", WHITE, true)];
    assert!(!all_in_bounds(&negative, &map));
    assert!(!all_standing(&negative, &map));

    assert!(all_in_bounds(&[], &map));
    assert!(all_standing(&[], &map));
}

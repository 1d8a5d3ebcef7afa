//! What happens when the player steps in a direction: a move onto a free
//! tile, or an attack on whoever stands there.

use vstd::prelude::*;
use crate::grid::inside;
use crate::map::{Tile, TileMap};
use crate::message::{taunt, taunt_of, text};
use crate::object::{after_move, first_occupant, move_by, occupant_at, Object, PLAYER};

verus! {

/// The player can try the step `(dx, dy)`: the tile stepped on has
/// coordinates that an `i32` can hold, and it is a tile of the map unless
/// somebody stands there.
pub open spec fn can_step(objects: Seq<Object>, dx: int, dy: int, tiles: Seq<Seq<Tile>>) -> bool {
    let x = objects[PLAYER as int].x + dx;
    let y = objects[PLAYER as int].y + dy;
    &&& i32::MIN <= x <= i32::MAX
    &&& i32::MIN <= y <= i32::MAX
    &&& first_occupant(objects, x, y) is None ==> inside(tiles, x, y)
}

/// The store after the player has tried the step `(dx, dy)`. Nobody moves
/// when an entity stands on the tile stepped on; otherwise the player
/// moves if the map allows it.
pub open spec fn after_player_step(
    objects: Seq<Object>,
    dx: int,
    dy: int,
    tiles: Seq<Seq<Tile>>,
) -> Seq<Object> {
    let x = objects[PLAYER as int].x + dx;
    let y = objects[PLAYER as int].y + dy;
    match first_occupant(objects, x, y) {
        Some(_) => objects,
        None => after_move(objects, PLAYER as int, dx, dy, tiles),
    }
}

/// What is said when the player tries the step `(dx, dy)`: the taunt of
/// the first entity on the tile stepped on, and nothing when the tile is
/// empty.
pub open spec fn player_step_message(objects: Seq<Object>, dx: int, dy: int) -> Option<Seq<char>> {
    let x = objects[PLAYER as int].x + dx;
    let y = objects[PLAYER as int].y + dy;
    match first_occupant(objects, x, y) {
        Some(target) => Some(taunt(objects[target].name@)),
        None => None,
    }
}

/// Walking into a wall changes nothing: when nobody stands on the tile
/// stepped on and the tile is blocked, the store stays as it is and
/// nothing is said.
pub proof fn lemma_blocked_step_changes_nothing(
    objects: Seq<Object>,
    dx: int,
    dy: int,
    tiles: Seq<Seq<Tile>>,
)
    requires
        first_occupant(objects, objects[PLAYER as int].x + dx, objects[PLAYER as int].y + dy)
            is None,
        tiles[objects[PLAYER as int].x + dx][objects[PLAYER as int].y + dy].blocked,
    ensures
        after_player_step(objects, dx, dy, tiles) == objects,
        player_step_message(objects, dx, dy) is None,
{
}

/// Whether the player can try the step `(dx, dy)`.
pub fn step_allowed(dx: i32, dy: i32, map: &TileMap, objects: &[Object]) -> (ok: bool)
    requires
        map.wf(),
        objects@.len() > 0,
    ensures
        ok == can_step(objects@, dx as int, dy as int, map@),
{
    let x: i64 = objects[PLAYER].x as i64 + dx as i64;
    let y: i64 = objects[PLAYER].y as i64 + dy as i64;
    if x < i32::MIN as i64 || x > i32::MAX as i64 || y < i32::MIN as i64 || y > i32::MAX as i64 {
        return false;
    }
    match occupant_at(objects, x as i32, y as i32) {
        Some(_) => true,
        None => map.in_bounds(x as i32, y as i32),
    }
}

/// The player steps by `(dx, dy)`. If an entity stands on the tile stepped
/// on, the first one in store order is attacked: nobody moves and the
/// attack is reported in words. Otherwise the player moves there, unless
/// the tile is blocked.
pub fn player_move_or_attack(dx: i32, dy: i32, map: &TileMap, objects: &mut [Object]) -> (message:
    Option<String>)
    requires
        map.wf(),
        old(objects)@.len() > 0,
        can_step(old(objects)@, dx as int, dy as int, map@),
    ensures
        final(objects)@ == after_player_step(old(objects)@, dx as int, dy as int, map@),
        text(message) == player_step_message(old(objects)@, dx as int, dy as int),
{
    let x: i32 = objects[PLAYER].x + dx;
    let y: i32 = objects[PLAYER].y + dy;
    let target_id = occupant_at(objects, x, y);
    match target_id {
        Some(target_id) => Some(taunt_of(objects[target_id].name.as_str())),
        None => {
            move_by(PLAYER, dx, dy, map, objects);
            None
        },
    }
}

} // verus!

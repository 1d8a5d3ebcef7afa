//! How a monster spends its turn.
//!
//! There is one behaviour, [`Ai::Basic`](crate::object::Ai). Such a monster
//! walks towards the player, one tile per turn and along both axes at once,
//! whether or not the player can see it, until it stands next to the
//! player. From there it attacks, provided that it stands in the player's
//! field of view and the player has hit points left.

use vstd::prelude::*;
use crate::fov::FovMap;
use crate::grid::{has_size, inside, rectangular};
use crate::map::{Tile, TileMap};
use crate::message::{attack_report, attack_report_of, text};
use crate::object::{
    after_move, all_inside, all_on_floor, lemma_move_keeps_inside, move_by, Object, PLAYER,
};

verus! {

/// What a monster does with its turn.
#[derive(Clone, Copy, Debug, PartialEq, Eq, Structural)]
pub enum AiAction {
    /// Nothing.
    Idle,
    /// Step by `(dx, dy)`.
    Advance { dx: i32, dy: i32 },
    /// Hit the player.
    Attack,
}

/// The unit step along one axis that leads from `from` towards `to`.
pub open spec fn toward(from: int, to: int) -> int {
    if from < to {
        1
    } else if to < from {
        -1
    } else {
        0
    }
}

/// The two entities stand on the same tile or on neighbouring tiles,
/// diagonal neighbours included.
pub open spec fn adjacent(a: Object, b: Object) -> bool {
    &&& -1 <= b.x - a.x <= 1
    &&& -1 <= b.y - a.y <= 1
}

/// The entity has combat figures with hit points left.
pub open spec fn can_be_hit(target: Object) -> bool {
    target.fighter matches Some(f) && f.hp > 0
}

/// What the basic monster `me` does, given where the player stands and
/// whether the monster's tile is in view: it closes in while it is apart
/// from the player, and it attacks when it is next to a player who can be
/// hit and who can see it.
pub open spec fn basic_action(me: Object, player: Object, visible: bool) -> AiAction {
    if !adjacent(me, player) {
        AiAction::Advance {
            dx: toward(me.x as int, player.x as int) as i32,
            dy: toward(me.y as int, player.y as int) as i32,
        }
    } else if visible && can_be_hit(player) {
        AiAction::Attack
    } else {
        AiAction::Idle
    }
}

/// Entity `id` can be given its turn: its tile can be looked up in the
/// visibility grid, and if it advances, it steps on a tile of the map.
pub open spec fn can_take_turn(
    objects: Seq<Object>,
    id: int,
    tiles: Seq<Seq<Tile>>,
    visible: Seq<Seq<bool>>,
) -> bool {
    let me = objects[id];
    &&& 0 <= id < objects.len()
    &&& inside(visible, me.x as int, me.y as int)
    &&& basic_action(me, objects[PLAYER as int], visible[me.x as int][me.y as int])
        matches AiAction::Advance { dx, dy } ==> inside(tiles, me.x + dx, me.y + dy)
}

/// The store after entity `id` has had its turn.
pub open spec fn after_ai_turn(
    objects: Seq<Object>,
    id: int,
    tiles: Seq<Seq<Tile>>,
    visible: Seq<Seq<bool>>,
) -> Seq<Object> {
    let me = objects[id];
    match basic_action(me, objects[PLAYER as int], visible[me.x as int][me.y as int]) {
        AiAction::Advance { dx, dy } => after_move(objects, id, dx as int, dy as int, tiles),
        _ => objects,
    }
}

/// What is said during the turn of entity `id`.
pub open spec fn ai_turn_message(objects: Seq<Object>, id: int, visible: Seq<Seq<bool>>) -> Option<
    Seq<char>,
> {
    let me = objects[id];
    match basic_action(me, objects[PLAYER as int], visible[me.x as int][me.y as int]) {
        AiAction::Attack => Some(attack_report(me.name@)),
        _ => None,
    }
}

/// A monster's turn changes nobody but the monster, and of the monster
/// nothing but where it stands.
pub proof fn lemma_turn_moves_only_the_monster(
    objects: Seq<Object>,
    id: int,
    tiles: Seq<Seq<Tile>>,
    visible: Seq<Seq<bool>>,
)
    requires
        0 <= id < objects.len(),
    ensures
        after_ai_turn(objects, id, tiles, visible).len() == objects.len(),
        forall|k: int|
            0 <= k < objects.len() && k != id ==> (#[trigger] after_ai_turn(
                objects,
                id,
                tiles,
                visible,
            )[k]) == objects[k],
        after_ai_turn(objects, id, tiles, visible)[id] == objects[id].placed_at(
            after_ai_turn(objects, id, tiles, visible)[id].x as int,
            after_ai_turn(objects, id, tiles, visible)[id].y as int,
        ),
{
}

/// While everybody stands on the map, every entity can be given its turn,
/// and after the turn everybody still stands on the map; and if nobody
/// stood in a wall before the turn, nobody does after it.
pub proof fn lemma_turn_keeps_inside(
    objects: Seq<Object>,
    id: int,
    tiles: Seq<Seq<Tile>>,
    visible: Seq<Seq<bool>>,
)
    requires
        0 <= id < objects.len(),
        all_inside(objects, tiles),
        rectangular(tiles),
        has_size(visible, tiles.len() as int, tiles[0].len() as int),
    ensures
        can_take_turn(objects, id, tiles, visible),
        after_ai_turn(objects, id, tiles, visible).len() == objects.len(),
        all_inside(after_ai_turn(objects, id, tiles, visible), tiles),
        all_on_floor(objects, tiles) ==> all_on_floor(
            after_ai_turn(objects, id, tiles, visible),
            tiles,
        ),
{
    let me = objects[id];
    let player = objects[PLAYER as int];
    assert(me.is_inside(tiles));
    assert(player.is_inside(tiles));
    match basic_action(me, player, visible[me.x as int][me.y as int]) {
        AiAction::Advance { dx, dy } => {
            lemma_move_keeps_inside(objects, id, dx as int, dy as int, tiles);
        },
        _ => {},
    }
}

/// What the basic monster `me` does.
pub fn decide(me: &Object, player: &Object, visible: bool) -> (action: AiAction)
    ensures
        action == basic_action(*me, *player, visible),
{
    let dx: i64 = player.x as i64 - me.x as i64;
    let dy: i64 = player.y as i64 - me.y as i64;
    if dx < -1 || dx > 1 || dy < -1 || dy > 1 {
        let step_x: i32 = if dx > 0 {
            1
        } else if dx < 0 {
            -1
        } else {
            0
        };
        let step_y: i32 = if dy > 0 {
            1
        } else if dy < 0 {
            -1
        } else {
            0
        };
        AiAction::Advance { dx: step_x, dy: step_y }
    } else if visible {
        match player.fighter {
            Some(f) => if f.hp > 0 {
                AiAction::Attack
            } else {
                AiAction::Idle
            },
            None => AiAction::Idle,
        }
    } else {
        AiAction::Idle
    }
}

/// Gives entity `id` its turn as a basic monster and hands back what is
/// said about it.
pub fn ai_take_turn(id: usize, map: &TileMap, objects: &mut [Object], fov_map: &FovMap) -> (message:
    Option<String>)
    requires
        map.wf(),
        fov_map.wf(),
        old(objects)@.len() > 0,
        can_take_turn(old(objects)@, id as int, map@, fov_map.visible()),
    ensures
        final(objects)@ == after_ai_turn(old(objects)@, id as int, map@, fov_map.visible()),
        text(message) == ai_turn_message(old(objects)@, id as int, fov_map.visible()),
{
    let (x, y) = objects[id].pos();
    let visible = fov_map.is_in_fov(x, y);
    match decide(&objects[id], &objects[PLAYER], visible) {
        AiAction::Advance { dx, dy } => {
            move_by(id, dx, dy, map, objects);
            None
        },
        AiAction::Attack => Some(attack_report_of(objects[id].name.as_str())),
        AiAction::Idle => None,
    }
}

} // verus!

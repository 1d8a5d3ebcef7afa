//! The things that live in the dungeon, and the ordered store that holds
//! them.
//!
//! Entities are kept in one slice and are named by their index in it. The
//! index never changes while the game runs, and index [`PLAYER`] is the
//! player.

use vstd::prelude::*;
use vstd::string::*;
use crate::grid::{inside, rectangular};
use crate::map::{Tile, TileMap};

verus! {

/// Index of the player in the entity store.
pub const PLAYER: usize = 0;

/// A colour as red, green and blue.
#[derive(Clone, Copy, Debug, PartialEq, Eq, Structural)]
pub struct Color {
    pub r: u8,
    pub g: u8,
    pub b: u8,
}

/// What an entity needs in order to fight.
#[derive(Clone, Copy, Debug, PartialEq, Eq, Structural)]
pub struct Fighter {
    pub max_hp: i32,
    pub hp: i32,
    pub defense: i32,
    pub power: i32,
}

impl Fighter {
    /// No figure is negative and the hit points do not exceed their maximum.
    pub open spec fn wf(self) -> bool {
        &&& 0 <= self.hp <= self.max_hp
        &&& 0 <= self.defense
        &&& 0 <= self.power
    }

    /// Combat figures, if they make sense together.
    pub fn new(max_hp: i32, hp: i32, defense: i32, power: i32) -> (made: Option<Fighter>)
        ensures
            made.is_some() == (Fighter { max_hp, hp, defense, power }).wf(),
            made matches Some(f) ==> f == (Fighter { max_hp, hp, defense, power }),
    {
        if 0 <= hp && hp <= max_hp && 0 <= defense && 0 <= power {
            Some(Fighter { max_hp, hp, defense, power })
        } else {
            None
        }
    }
}

/// How an entity behaves when it is given a turn.
#[derive(Clone, Copy, Debug, PartialEq, Eq, Structural)]
pub enum Ai {
    /// Walks up to the player and hits.
    Basic,
}

/// What became of the player's chance to act.
#[derive(Clone, Copy, Debug, PartialEq, Eq, Structural)]
pub enum PlayerAction {
    /// The player moved or attacked; the others now get their turn.
    TookTurn,
    /// Nothing happened that costs a turn.
    DidntTakeTurn,
    /// The player wants to leave the game.
    Exit,
}

/// One character to put on the screen.
#[derive(Clone, Copy, Debug, PartialEq, Eq, Structural)]
pub struct Glyph {
    pub x: i32,
    pub y: i32,
    pub glyph: char,
    pub color: Color,
}

/// An entity: the player, a monster, or anything else with a place on the map.
#[derive(Clone, Debug, PartialEq, Eq)]
pub struct Object {
    pub x: i32,
    pub y: i32,
    pub glyph: char,
    pub name: String,
    pub color: Color,
    pub blocks: bool,
    pub alive: bool,
    pub fighter: Option<Fighter>,
    pub ai: Option<Ai>,
}

impl Object {
    /// The entity stands on `(x, y)`.
    pub open spec fn is_at(self, x: int, y: int) -> bool {
        self.x == x && self.y == y
    }

    /// The entity stands on a tile of the grid.
    pub open spec fn is_inside(self, tiles: Seq<Seq<Tile>>) -> bool {
        inside(tiles, self.x as int, self.y as int)
    }

    /// The entity stands on a tile of the grid that is not blocked.
    pub open spec fn is_on_floor(self, tiles: Seq<Seq<Tile>>) -> bool {
        self.is_inside(tiles) && !tiles[self.x as int][self.y as int].blocked
    }

    /// The same entity, standing on `(x, y)`.
    pub open spec fn placed_at(self, x: int, y: int) -> Object {
        Object { x: x as i32, y: y as i32, ..self }
    }

    /// The entity's character, in its colour, where it stands.
    pub open spec fn drawn(self) -> Glyph {
        Glyph { x: self.x, y: self.y, glyph: self.glyph, color: self.color }
    }

    /// A blank where the entity stands.
    pub open spec fn erased(self) -> Glyph {
        Glyph { x: self.x, y: self.y, glyph: ' ', color: self.color }
    }

    /// A lifeless entity without combat figures or behaviour.
    pub fn new(x: i32, y: i32, glyph: char, name: &str, color: Color, blocks: bool) -> (o: Object)
        ensures
            o.x == x,
            o.y == y,
            o.glyph == glyph,
            o.name@ == name@,
            o.color == color,
            o.blocks == blocks,
            !o.alive,
            o.fighter is None,
            o.ai is None,
    {
        Object {
            x,
            y,
            glyph,
            name: String::from_str(name),
            color,
            blocks,
            alive: false,
            fighter: None,
            ai: None,
        }
    }

    /// Where the entity stands.
    pub fn pos(&self) -> (p: (i32, i32))
        ensures
            p == (self.x, self.y),
    {
        (self.x, self.y)
    }

    /// What to put on the screen to show the entity.
    pub fn draw(&self) -> (g: Glyph)
        ensures
            g == self.drawn(),
    {
        Glyph { x: self.x, y: self.y, glyph: self.glyph, color: self.color }
    }

    /// What to put on the screen to wipe the entity off it.
    pub fn clear(&self) -> (g: Glyph)
        ensures
            g == self.erased(),
    {
        Glyph { x: self.x, y: self.y, glyph: ' ', color: self.color }
    }

    /// Puts the entity on `(x, y)`.
    pub fn set_pos(&mut self, x: i32, y: i32)
        ensures
            *final(self) == old(self).placed_at(x as int, y as int),
    {
        self.x = x;
        self.y = y;
    }
}

/// Every entity of the store stands on a tile of the grid.
pub open spec fn all_inside(objects: Seq<Object>, tiles: Seq<Seq<Tile>>) -> bool {
    forall|i: int| 0 <= i < objects.len() ==> (#[trigger] objects[i]).is_inside(tiles)
}

/// Every entity of the store stands on a tile of the grid that is not
/// blocked.
pub open spec fn all_on_floor(objects: Seq<Object>, tiles: Seq<Seq<Tile>>) -> bool {
    forall|i: int| 0 <= i < objects.len() ==> (#[trigger] objects[i]).is_on_floor(tiles)
}

/// Entity `i` stands on `(x, y)` and no entity before it does.
pub open spec fn is_first_at(objects: Seq<Object>, i: int, x: int, y: int) -> bool {
    &&& 0 <= i < objects.len()
    &&& objects[i].is_at(x, y)
    &&& forall|j: int| 0 <= j < i ==> !(#[trigger] objects[j]).is_at(x, y)
}

/// The first entity in store order that stands on `(x, y)`, if any does.
pub open spec fn first_occupant(objects: Seq<Object>, x: int, y: int) -> Option<int> {
    if exists|i: int| is_first_at(objects, i, x, y) {
        Some(choose|i: int| is_first_at(objects, i, x, y))
    } else {
        None
    }
}

/// The store after entity `id` has tried to step by `(dx, dy)`: it has
/// moved when the tile it steps on is free, and nothing has changed when
/// that tile is blocked.
pub open spec fn after_move(
    objects: Seq<Object>,
    id: int,
    dx: int,
    dy: int,
    tiles: Seq<Seq<Tile>>,
) -> Seq<Object> {
    let x = objects[id].x + dx;
    let y = objects[id].y + dy;
    if tiles[x][y].blocked {
        objects
    } else {
        objects.update(id, objects[id].placed_at(x, y))
    }
}

/// A step onto the map never takes anybody off the map, nor anybody off
/// the floor: what holds of every entity before entity `id` tries the step
/// holds of every entity afterwards.
pub proof fn lemma_move_keeps_inside(
    objects: Seq<Object>,
    id: int,
    dx: int,
    dy: int,
    tiles: Seq<Seq<Tile>>,
)
    requires
        0 <= id < objects.len(),
        rectangular(tiles),
        inside(tiles, objects[id].x + dx, objects[id].y + dy),
    ensures
        after_move(objects, id, dx, dy, tiles).len() == objects.len(),
        all_inside(objects, tiles) ==> all_inside(after_move(objects, id, dx, dy, tiles), tiles),
        all_on_floor(objects, tiles) ==> all_on_floor(
            after_move(objects, id, dx, dy, tiles),
            tiles,
        ),
{
    let after = after_move(objects, id, dx, dy, tiles);
    if all_inside(objects, tiles) {
        assert forall|i: int| 0 <= i < after.len() implies (#[trigger] after[i]).is_inside(
            tiles,
        ) by {
            assert(objects[i].is_inside(tiles));
        }
    }
    if all_on_floor(objects, tiles) {
        assert forall|i: int| 0 <= i < after.len() implies (#[trigger] after[i]).is_on_floor(
            tiles,
        ) by {
            assert(objects[i].is_on_floor(tiles));
        }
    }
}

/// Whoever stands on the floor stands on the map.
pub proof fn lemma_on_floor_is_inside(objects: Seq<Object>, tiles: Seq<Seq<Tile>>)
    requires
        all_on_floor(objects, tiles),
    ensures
        all_inside(objects, tiles),
{
    assert forall|i: int| 0 <= i < objects.len() implies (#[trigger] objects[i]).is_inside(
        tiles,
    ) by {
        assert(objects[i].is_on_floor(tiles));
    }
}

/// A step onto a blocked tile is no step: the store is what it was.
pub proof fn lemma_blocked_move_changes_nothing(
    objects: Seq<Object>,
    id: int,
    dx: int,
    dy: int,
    tiles: Seq<Seq<Tile>>,
)
    requires
        tiles[objects[id].x + dx][objects[id].y + dy].blocked,
    ensures
        after_move(objects, id, dx, dy, tiles) == objects,
{
}

/// At most one entity is the first on a tile.
pub proof fn lemma_first_at_unique(objects: Seq<Object>, i: int, j: int, x: int, y: int)
    requires
        is_first_at(objects, i, x, y),
        is_first_at(objects, j, x, y),
    ensures
        i == j,
{
}

/// Whoever stands on a tile, the first occupant of that tile exists and
/// comes no later in the store: among several entities on one tile, the
/// one that is picked depends on the store alone.
pub proof fn lemma_first_occupant_is_least(objects: Seq<Object>, k: int, x: int, y: int)
    requires
        0 <= k < objects.len(),
        objects[k].is_at(x, y),
    ensures
        first_occupant(objects, x, y) matches Some(i) && i <= k && is_first_at(objects, i, x, y),
    decreases k,
{
    if forall|j: int| 0 <= j < k ==> !(#[trigger] objects[j]).is_at(x, y) {
        assert(is_first_at(objects, k, x, y));
        let i = choose|i: int| is_first_at(objects, i, x, y);
        lemma_first_at_unique(objects, i, k, x, y);
    } else {
        let j = choose|j: int| 0 <= j < k && (#[trigger] objects[j]).is_at(x, y);
        lemma_first_occupant_is_least(objects, j, x, y);
    }
}

/// Two stores of equal length whose entities stand on the same tiles,
/// index by index.
pub open spec fn same_positions(a: Seq<Object>, b: Seq<Object>) -> bool {
    &&& a.len() == b.len()
    &&& forall|i: int| 0 <= i < a.len() ==> (#[trigger] a[i]).x == b[i].x && a[i].y == b[i].y
}

/// The first entity on a tile in one store is the first on it in every
/// store with the same positions.
proof fn lemma_first_at_by_positions(a: Seq<Object>, b: Seq<Object>, i: int, x: int, y: int)
    requires
        same_positions(a, b),
        is_first_at(a, i, x, y),
    ensures
        is_first_at(b, i, x, y),
{
    assert(a[i].x == b[i].x && a[i].y == b[i].y);
    assert forall|j: int| 0 <= j < i implies !(#[trigger] b[j]).is_at(x, y) by {
        assert(a[j].x == b[j].x && a[j].y == b[j].y);
    }
}

/// Which entity is the first on a tile depends on nothing but where the
/// entities stand and in which order they are stored: two stores that
/// agree on that agree on the first occupant of every tile.
pub proof fn lemma_first_occupant_by_positions(a: Seq<Object>, b: Seq<Object>, x: int, y: int)
    requires
        same_positions(a, b),
    ensures
        first_occupant(a, x, y) == first_occupant(b, x, y),
{
    assert(same_positions(b, a)) by {
        assert forall|i: int| 0 <= i < b.len() implies (#[trigger] b[i]).x == a[i].x && b[i].y
            == a[i].y by {
            assert(a[i].x == b[i].x && a[i].y == b[i].y);
        }
    }
    if exists|i: int| is_first_at(a, i, x, y) {
        let i = choose|i: int| is_first_at(a, i, x, y);
        lemma_first_at_by_positions(a, b, i, x, y);
        let j = choose|j: int| is_first_at(b, j, x, y);
        lemma_first_at_unique(b, i, j, x, y);
    } else if exists|j: int| is_first_at(b, j, x, y) {
        let j = choose|j: int| is_first_at(b, j, x, y);
        lemma_first_at_by_positions(b, a, j, x, y);
    }
}

/// Where entity `id` stands.
pub fn position(objects: &[Object], id: usize) -> (p: (i32, i32))
    requires
        id < objects@.len(),
    ensures
        p == (objects@[id as int].x, objects@[id as int].y),
{
    objects[id].pos()
}

/// Whether entity `id` is one that others cannot walk through.
pub fn is_blocking(objects: &[Object], id: usize) -> (b: bool)
    requires
        id < objects@.len(),
    ensures
        b == objects@[id as int].blocks,
{
    objects[id].blocks
}

/// Whether every entity stands on a tile of the map.
pub fn all_in_bounds(objects: &[Object], map: &TileMap) -> (ok: bool)
    requires
        map.wf(),
    ensures
        ok == all_inside(objects@, map@),
{
    let mut i: usize = 0;
    while i < objects.len()
        invariant
            map.wf(),
            i <= objects@.len(),
            forall|k: int| 0 <= k < i ==> (#[trigger] objects@[k]).is_inside(map@),
        decreases objects@.len() - i,
    {
        if !map.in_bounds(objects[i].x, objects[i].y) {
            return false;
        }
        i += 1;
    }
    true
}

/// Whether every entity stands on a tile of the map that is not blocked.
pub fn all_standing(objects: &[Object], map: &TileMap) -> (ok: bool)
    requires
        map.wf(),
    ensures
        ok == all_on_floor(objects@, map@),
{
    let mut i: usize = 0;
    while i < objects.len()
        invariant
            map.wf(),
            i <= objects@.len(),
            forall|k: int| 0 <= k < i ==> (#[trigger] objects@[k]).is_on_floor(map@),
        decreases objects@.len() - i,
    {
        let (x, y) = objects[i].pos();
        if !map.in_bounds(x, y) || map.tile(x, y).blocked {
            return false;
        }
        i += 1;
    }
    true
}

/// Finds the first entity in store order that stands on `(x, y)`.
pub fn occupant_at(objects: &[Object], x: i32, y: i32) -> (found: Option<usize>)
    ensures
        match found {
            Some(i) => first_occupant(objects@, x as int, y as int) == Some(i as int),
            None => first_occupant(objects@, x as int, y as int) is None,
        },
        found matches Some(i) ==> is_first_at(objects@, i as int, x as int, y as int),
        found is None ==> forall|i: int|
            0 <= i < objects@.len() ==> !(#[trigger] objects@[i]).is_at(x as int, y as int),
{
    let mut i: usize = 0;
    while i < objects.len()
        invariant
            i <= objects@.len(),
            forall|j: int| 0 <= j < i ==> !(#[trigger] objects@[j]).is_at(x as int, y as int),
        decreases objects@.len() - i,
    {
        if objects[i].x == x && objects[i].y == y {
            proof {
                assert(is_first_at(objects@, i as int, x as int, y as int));
                let c = choose|c: int| is_first_at(objects@, c, x as int, y as int);
                lemma_first_at_unique(objects@, c, i as int, x as int, y as int);
            }
            return Some(i);
        }
        i += 1;
    }
    None
}

/// Moves entity `id` by `(dx, dy)` unless the tile it would step on is
/// blocked; then nothing happens.
pub fn move_by(id: usize, dx: i32, dy: i32, map: &TileMap, objects: &mut [Object])
    requires
        map.wf(),
        id < old(objects)@.len(),
        map.contains(old(objects)@[id as int].x + dx, old(objects)@[id as int].y + dy),
    ensures
        final(objects)@ == after_move(old(objects)@, id as int, dx as int, dy as int, map@),
        map@[old(objects)@[id as int].x + dx][old(objects)@[id as int].y + dy].blocked
            ==> final(objects)@ == old(objects)@,
{
    let (x, y) = objects[id].pos();
    if !map.tile(x + dx, y + dy).blocked {
        objects[id].set_pos(x + dx, y + dy);
    }
}

} // verus!

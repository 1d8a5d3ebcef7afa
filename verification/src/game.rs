//! The turn scheduler: one frame, one key, and then, if the player has
//! used up the turn, one turn for every monster.
//!
//! The game performs no input or output itself. The program around it
//! runs the loop: while the game is [`Phase::Rendering`] it asks the oracle
//! what [`Game::fov_request`] wants to know and hands the answer to
//! [`Game::render`]; while the game is [`Phase::AwaitingKey`] it waits for a
//! key and hands it to [`Game::take_turn`]; and it stops when the game is
//! [`Phase::Finished`].

use vstd::prelude::*;
use crate::ai::{after_ai_turn, ai_take_turn, ai_turn_message, lemma_turn_keeps_inside};
use crate::fov::{fov_request, request_from, FovMap, FovRequest};
use crate::grid::{cells, has_size, rectangular};
use crate::input::{
    action_of, after_key, can_handle, command_for, handle_keys, key_allowed, key_message, Command,
    Key,
};
use crate::map::{Tile, TileMap};
use crate::message::{text, texts};
use crate::object::{
    all_inside, all_on_floor, all_standing, first_occupant, lemma_move_keeps_inside,
    lemma_on_floor_is_inside, Object, PlayerAction, PLAYER,
};
use crate::render::{backgrounds_of, glyphs_of, render_all, revealed, Frame};

verus! {

/// Where the game stands in its loop.
#[derive(Clone, Copy, Debug, PartialEq, Eq, Structural)]
pub enum Phase {
    /// The next thing to do is to draw a frame.
    Rendering,
    /// A frame has been drawn; the next thing to do is to handle a key.
    AwaitingKey,
    /// The player has left. Nothing more is drawn or handled.
    Finished,
}

/// The store after the first `n` entities have been looked at in store
/// order and each of them that has a behaviour has had its turn.
pub open spec fn after_ai_pass(
    objects: Seq<Object>,
    n: nat,
    tiles: Seq<Seq<Tile>>,
    visible: Seq<Seq<bool>>,
) -> Seq<Object>
    decreases n,
{
    if n == 0 {
        objects
    } else {
        let before = after_ai_pass(objects, (n - 1) as nat, tiles, visible);
        if before[n - 1].ai is Some {
            after_ai_turn(before, n - 1, tiles, visible)
        } else {
            before
        }
    }
}

/// What is said while the first `n` entities are given their turns, in
/// the order in which it is said.
pub open spec fn ai_pass_messages(
    objects: Seq<Object>,
    n: nat,
    tiles: Seq<Seq<Tile>>,
    visible: Seq<Seq<bool>>,
) -> Seq<Seq<char>>
    decreases n,
{
    if n == 0 {
        Seq::empty()
    } else {
        let before = after_ai_pass(objects, (n - 1) as nat, tiles, visible);
        let said = ai_pass_messages(objects, (n - 1) as nat, tiles, visible);
        if before[n - 1].ai is Some {
            match ai_turn_message(before, n - 1, visible) {
                Some(m) => said.push(m),
                None => said,
            }
        } else {
            said
        }
    }
}

/// The store after a key has been handled and, if that used up the
/// player's turn, every monster has had its turn.
pub open spec fn after_turn(
    objects: Seq<Object>,
    key: Key,
    tiles: Seq<Seq<Tile>>,
    visible: Seq<Seq<bool>>,
) -> Seq<Object> {
    let moved = after_key(objects, key, tiles);
    if action_of(command_for(key, objects[PLAYER as int].alive)) == PlayerAction::TookTurn {
        after_ai_pass(moved, moved.len(), tiles, visible)
    } else {
        moved
    }
}

/// What the monsters say in the turn that a key leads to.
pub open spec fn ai_messages_after(
    objects: Seq<Object>,
    key: Key,
    tiles: Seq<Seq<Tile>>,
    visible: Seq<Seq<bool>>,
) -> Seq<Seq<char>> {
    let moved = after_key(objects, key, tiles);
    if action_of(command_for(key, objects[PLAYER as int].alive)) == PlayerAction::TookTurn {
        ai_pass_messages(moved, moved.len(), tiles, visible)
    } else {
        Seq::empty()
    }
}

/// A key that does not use up the player's turn moves nobody and gives
/// no monster a turn.
pub proof fn lemma_no_turn_without_player_turn(
    objects: Seq<Object>,
    key: Key,
    tiles: Seq<Seq<Tile>>,
    visible: Seq<Seq<bool>>,
)
    requires
        action_of(command_for(key, objects[PLAYER as int].alive)) != PlayerAction::TookTurn,
    ensures
        after_turn(objects, key, tiles, visible) == objects,
        key_message(objects, key) is None,
        ai_messages_after(objects, key, tiles, visible) == Seq::<Seq<char>>::empty(),
{
}

/// A round of monsters' turns leaves alone whoever has no behaviour: such
/// an entity is after the round what it was before.
pub proof fn lemma_ai_pass_keeps_bystanders(
    objects: Seq<Object>,
    n: nat,
    tiles: Seq<Seq<Tile>>,
    visible: Seq<Seq<bool>>,
    k: int,
)
    requires
        n <= objects.len(),
        0 <= k < objects.len(),
        objects[k].ai is None,
    ensures
        after_ai_pass(objects, n, tiles, visible).len() == objects.len(),
        after_ai_pass(objects, n, tiles, visible)[k] == objects[k],
    decreases n,
{
    if n > 0 {
        lemma_ai_pass_keeps_bystanders(objects, (n - 1) as nat, tiles, visible, k);
    }
}

/// A round of monsters' turns never moves the player, whether or not the
/// player has a behaviour: the player stands next to itself, and a monster
/// that stands next to the player does not walk.
pub proof fn lemma_ai_pass_keeps_player_in_place(
    objects: Seq<Object>,
    n: nat,
    tiles: Seq<Seq<Tile>>,
    visible: Seq<Seq<bool>>,
)
    requires
        0 < objects.len(),
        n <= objects.len(),
    ensures
        after_ai_pass(objects, n, tiles, visible).len() == objects.len(),
        after_ai_pass(objects, n, tiles, visible)[PLAYER as int] == objects[PLAYER as int],
    decreases n,
{
    if n > 0 {
        lemma_ai_pass_keeps_player_in_place(objects, (n - 1) as nat, tiles, visible);
    }
}

/// Handling a key leaves everybody on the floor.
pub proof fn lemma_key_keeps_on_floor(objects: Seq<Object>, key: Key, tiles: Seq<Seq<Tile>>)
    requires
        objects.len() > 0,
        rectangular(tiles),
        all_on_floor(objects, tiles),
        can_handle(objects, key, tiles),
    ensures
        after_key(objects, key, tiles).len() == objects.len(),
        all_on_floor(after_key(objects, key, tiles), tiles),
        after_key(objects, key, tiles)[PLAYER as int].alive == objects[PLAYER as int].alive,
{
    match command_for(key, objects[PLAYER as int].alive) {
        Command::Step { dx, dy } => {
            let x = objects[PLAYER as int].x + dx;
            let y = objects[PLAYER as int].y + dy;
            if first_occupant(objects, x, y) is None {
                lemma_move_keeps_inside(objects, PLAYER as int, dx as int, dy as int, tiles);
            }
        },
        _ => {},
    }
}

/// Gives every entity that has a behaviour its turn, in store order, and
/// hands back what was said, in the order in which it was said. Whether
/// the player can see an entity makes no difference to its getting a turn.
pub fn run_ai(map: &TileMap, objects: &mut [Object], fov_map: &FovMap) -> (messages: Vec<String>)
    requires
        map.wf(),
        fov_map.wf(),
        has_size(map@, fov_map.spec_width(), fov_map.spec_height()),
        old(objects)@.len() > 0,
        all_inside(old(objects)@, map@),
    ensures
        final(objects)@ == after_ai_pass(
            old(objects)@,
            old(objects)@.len(),
            map@,
            fov_map.visible(),
        ),
        texts(messages@) == ai_pass_messages(
            old(objects)@,
            old(objects)@.len(),
            map@,
            fov_map.visible(),
        ),
        final(objects)@.len() == old(objects)@.len(),
        all_inside(final(objects)@, map@),
        all_on_floor(old(objects)@, map@) ==> all_on_floor(final(objects)@, map@),
{
    let ghost before = objects@;
    let ghost visible = fov_map.visible();
    let mut messages: Vec<String> = Vec::new();
    let mut id: usize = 0;
    while id < objects.len()
        invariant
            map.wf(),
            fov_map.wf(),
            visible == fov_map.visible(),
            has_size(map@, fov_map.spec_width(), fov_map.spec_height()),
            id <= before.len(),
            objects@.len() == before.len(),
            objects@.len() > 0,
            all_inside(objects@, map@),
            all_on_floor(before, map@) ==> all_on_floor(objects@, map@),
            objects@ == after_ai_pass(before, id as nat, map@, visible),
            texts(messages@) == ai_pass_messages(before, id as nat, map@, visible),
        decreases before.len() - id,
    {
        if objects[id].ai.is_some() {
            proof {
                lemma_turn_keeps_inside(objects@, id as int, map@, visible);
            }
            if let Some(said) = ai_take_turn(id, map, objects, fov_map) {
                messages.push(said);
            }
        }
        id += 1;
    }
    messages
}

/// One game in progress: the dungeon, everybody in it, what the player
/// can see, and where the game stands in its loop.
#[derive(Debug, PartialEq, Eq)]
pub struct Game {
    map: TileMap,
    objects: Vec<Object>,
    fov_map: FovMap,
    previous_player_position: (i32, i32),
    phase: Phase,
}

/// What one turn has led to.
#[derive(Clone, Debug, PartialEq, Eq)]
pub struct TurnReport {
    /// Whether the player used up the turn, or wants to leave.
    pub action: PlayerAction,
    /// The display is to be switched between windowed and full screen.
    pub toggle_fullscreen: bool,
    /// What is said about the player's own step, if anything.
    pub message: Option<String>,
    /// What is said about the monsters' turns, in order.
    pub ai_messages: Vec<String>,
}

impl Game {
    /// The dungeon.
    pub closed spec fn spec_map(&self) -> &TileMap {
        &self.map
    }

    /// Everybody in the dungeon; the player comes first.
    pub closed spec fn spec_objects(&self) -> &Vec<Object> {
        &self.objects
    }

    /// What the player can see.
    pub closed spec fn spec_fov_map(&self) -> &FovMap {
        &self.fov_map
    }

    /// Where the player stood when the last key was about to be handled.
    pub closed spec fn spec_previous_player_position(&self) -> (i32, i32) {
        self.previous_player_position
    }

    /// What is to be done next.
    pub closed spec fn spec_phase(&self) -> Phase {
        self.phase
    }

    /// The game is in a state that its rules can lead to: the map and the
    /// visibility grid agree, there is a player, and nobody stands in a wall
    /// or off the map.
    pub open spec fn wf(&self) -> bool {
        &&& self.map().wf()
        &&& self.fov_map().wf()
        &&& self.fov_map().mirrors(self.map()@)
        &&& self.objects()@.len() > 0
        &&& all_on_floor(self.objects()@, self.map()@)
    }

    /// Where the player stands.
    pub open spec fn player_position(&self) -> (i32, i32) {
        (self.objects()@[PLAYER as int].x, self.objects()@[PLAYER as int].y)
    }

    /// The player no longer stands on the tile written down when the last
    /// key was about to be handled, so the field of view has to be worked
    /// out anew.
    pub open spec fn needs_fov(&self) -> bool {
        self.previous_player_position() != self.player_position()
    }

    /// The dungeon.
    #[verifier::when_used_as_spec(spec_map)]
    pub fn map(&self) -> (map: &TileMap)
        ensures
            map == self.spec_map(),
    {
        &self.map
    }

    /// Everybody in the dungeon; the player comes first.
    #[verifier::when_used_as_spec(spec_objects)]
    pub fn objects(&self) -> (objects: &Vec<Object>)
        ensures
            objects == self.spec_objects(),
    {
        &self.objects
    }

    /// What the player can see.
    #[verifier::when_used_as_spec(spec_fov_map)]
    pub fn fov_map(&self) -> (fov_map: &FovMap)
        ensures
            fov_map == self.spec_fov_map(),
    {
        &self.fov_map
    }

    /// Where the player stood when the last key was about to be handled.
    #[verifier::when_used_as_spec(spec_previous_player_position)]
    pub fn previous_player_position(&self) -> (position: (i32, i32))
        ensures
            position == self.spec_previous_player_position(),
    {
        self.previous_player_position
    }

    /// What is to be done next.
    #[verifier::when_used_as_spec(spec_phase)]
    pub fn phase(&self) -> (phase: Phase)
        ensures
            phase == self.spec_phase(),
    {
        self.phase
    }

    /// Whether a game can be started with these entities on this map.
    pub fn can_start(map: &TileMap, objects: &Vec<Object>) -> (ok: bool)
        requires
            map.wf(),
        ensures
            ok == (objects@.len() > 0 && all_on_floor(objects@, map@)),
    {
        objects.len() > 0 && all_standing(objects.as_slice(), map)
    }

    /// Starts a game on `map` with `objects`, the first of which is the
    /// player. Nothing is in view yet and the first thing to do is to draw.
    pub fn new(map: TileMap, objects: Vec<Object>) -> (game: Game)
        requires
            map.wf(),
            objects@.len() > 0,
            all_on_floor(objects@, map@),
        ensures
            game.wf(),
            *game.map() == map,
            *game.objects() == objects,
            game.previous_player_position() == (-1i32, -1i32),
            game.phase() == Phase::Rendering,
            game.needs_fov(),
            forall|x: int, y: int|
                game.fov_map().contains(x, y) ==> !(#[trigger] game.fov_map().visible()[x][y]),
    {
        let fov_map = FovMap::from_map(&map);
        Game { map, objects, fov_map, previous_player_position: (-1, -1), phase: Phase::Rendering }
    }

    /// Whether the field of view has to be worked out anew: it has exactly
    /// when the player no longer stands on the tile written down when the
    /// last key was about to be handled.
    pub fn fov_recompute(&self) -> (needed: bool)
        requires
            self.wf(),
        ensures
            needed == self.needs_fov(),
    {
        self.previous_player_position.0 != self.objects[PLAYER].x
            || self.previous_player_position.1 != self.objects[PLAYER].y
    }

    /// The question to put to the oracle before the next frame, if one
    /// has to be put.
    pub fn fov_request(&self) -> (request: Option<FovRequest>)
        requires
            self.wf(),
        ensures
            request == if self.needs_fov() {
                Some(request_from(self.player_position().0, self.player_position().1))
            } else {
                None
            },
    {
        if self.fov_recompute() {
            Some(fov_request(self.objects.as_slice()))
        } else {
            None
        }
    }

    /// Whether `fresh` is what [`Game::render`] expects: an answer of the
    /// size of the map if a question had to be put, and nothing if not.
    pub fn accepts_answer(&self, fresh: &Option<Vec<Vec<bool>>>) -> (ok: bool)
        requires
            self.wf(),
        ensures
            ok == (fresh.is_some() == self.needs_fov() && (fresh matches Some(answer) ==> has_size(
                cells(answer@),
                self.map().spec_width(),
                self.map().spec_height(),
            ))),
    {
        match fresh {
            Some(answer) => self.fov_recompute() && self.fov_map.fits(answer),
            None => !self.fov_recompute(),
        }
    }

    /// Draws a frame. `fresh` is the oracle's answer to the question of
    /// [`Game::fov_request`], and absent if there was no question.
    pub fn render(&mut self, fresh: Option<Vec<Vec<bool>>>) -> (frame: Frame)
        requires
            old(self).wf(),
            old(self).phase() == Phase::Rendering,
            fresh.is_some() == old(self).needs_fov(),
            fresh matches Some(answer) ==> has_size(
                cells(answer@),
                old(self).map().spec_width(),
                old(self).map().spec_height(),
            ),
        ensures
            final(self).wf(),
            final(self).phase() == Phase::AwaitingKey,
            final(self).objects() == old(self).objects(),
            final(self).previous_player_position() == old(self).previous_player_position(),
            final(self).fov_map().transparent() == old(self).fov_map().transparent(),
            final(self).fov_map().walkable() == old(self).fov_map().walkable(),
            final(self).fov_map().visible() == match fresh {
                Some(answer) => cells(answer@),
                None => old(self).fov_map().visible(),
            },
            final(self).map().extends(old(self).map()),
            final(self).map()@ == match fresh {
                Some(_) => revealed(old(self).map()@, final(self).fov_map().visible()),
                None => old(self).map()@,
            },
            match frame.backgrounds {
                Some(painted) => fresh is Some && cells(painted@) == backgrounds_of(
                    old(self).map()@,
                    final(self).fov_map().visible(),
                ),
                None => fresh is None,
            },
            frame.glyphs@ == glyphs_of(old(self).objects()@, final(self).fov_map().visible()),
    {
        let frame = render_all(self.objects.as_slice(), &mut self.map, &mut self.fov_map, fresh);
        self.phase = Phase::AwaitingKey;
        frame
    }

    /// Whether `key` can be handled now.
    pub fn accepts_key(&self, key: Key) -> (ok: bool)
        requires
            self.wf(),
        ensures
            ok == can_handle(self.objects()@, key, self.map()@),
    {
        key_allowed(key, &self.map, self.objects.as_slice())
    }

    /// Handles one key. Where the player stands is written down first. If
    /// the key ends the game, nothing else happens; if it uses up the
    /// player's turn, every monster gets its turn; and otherwise nobody
    /// moves.
    pub fn take_turn(&mut self, key: Key) -> (report: TurnReport)
        requires
            old(self).wf(),
            old(self).phase() == Phase::AwaitingKey,
            can_handle(old(self).objects()@, key, old(self).map()@),
        ensures
            final(self).wf(),
            final(self).map() == old(self).map(),
            final(self).fov_map() == old(self).fov_map(),
            final(self).previous_player_position() == old(self).player_position(),
            final(self).objects()@[PLAYER as int] == after_key(
                old(self).objects()@,
                key,
                old(self).map()@,
            )[PLAYER as int],
            final(self).needs_fov()
                == (final(self).player_position() != old(self).player_position()),
            report.action == action_of(command_for(key, old(self).objects()@[PLAYER as int].alive)),
            report.toggle_fullscreen == (command_for(key, old(self).objects()@[PLAYER as int].alive)
                is ToggleFullscreen),
            final(self).phase() == if report.action == PlayerAction::Exit {
                Phase::Finished
            } else {
                Phase::Rendering
            },
            final(self).objects()@ == after_turn(
                old(self).objects()@,
                key,
                old(self).map()@,
                old(self).fov_map().visible(),
            ),
            text(report.message) == key_message(old(self).objects()@, key),
            texts(report.ai_messages@) == ai_messages_after(
                old(self).objects()@,
                key,
                old(self).map()@,
                old(self).fov_map().visible(),
            ),
            report.action != PlayerAction::TookTurn ==> {
                &&& final(self).objects()@ == old(self).objects()@
                &&& report.message is None
                &&& report.ai_messages@.len() == 0
            },
    {
        proof {
            lemma_key_keeps_on_floor(self.objects@, key, self.map@);
            lemma_on_floor_is_inside(after_key(self.objects@, key, self.map@), self.map@);
            lemma_ai_pass_keeps_player_in_place(
                after_key(self.objects@, key, self.map@),
                self.objects@.len(),
                self.map@,
                self.fov_map.visible(),
            );
        }
        self.previous_player_position = (self.objects[PLAYER].x, self.objects[PLAYER].y);
        let outcome = handle_keys(key, &self.map, self.objects.as_mut_slice());
        let mut ai_messages: Vec<String> = Vec::new();
        match outcome.action {
            PlayerAction::Exit => {
                self.phase = Phase::Finished;
            },
            PlayerAction::TookTurn => {
                if self.objects[PLAYER].alive {
                    ai_messages = run_ai(&self.map, self.objects.as_mut_slice(), &self.fov_map);
                }
                self.phase = Phase::Rendering;
            },
            PlayerAction::DidntTakeTurn => {
                self.phase = Phase::Rendering;
            },
        }
        TurnReport {
            action: outcome.action,
            toggle_fullscreen: outcome.toggle_fullscreen,
            message: outcome.message,
            ai_messages,
        }
    }
}

} // verus!

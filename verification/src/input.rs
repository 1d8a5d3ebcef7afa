//! From a key to what the player does.

use vstd::prelude::*;
use crate::combat::{
    after_player_step, can_step, player_move_or_attack, player_step_message, step_allowed,
};
use crate::map::{Tile, TileMap};
use crate::message::text;
use crate::object::{Object, PlayerAction, PLAYER};

verus! {

/// The keys that mean something to the game.
#[derive(Clone, Copy, Debug, PartialEq, Eq, Structural)]
pub enum KeyCode {
    Up,
    Down,
    Left,
    Right,
    Enter,
    Escape,
    /// Any other key.
    Other,
}

/// One key press.
#[derive(Clone, Copy, Debug, PartialEq, Eq, Structural)]
pub struct Key {
    pub code: KeyCode,
    /// Alt was held down.
    pub alt: bool,
}

/// What a key press asks for.
#[derive(Clone, Copy, Debug, PartialEq, Eq, Structural)]
pub enum Command {
    /// Step by `(dx, dy)`.
    Step { dx: i32, dy: i32 },
    /// Switch between windowed and full-screen display.
    ToggleFullscreen,
    /// Leave the game.
    Quit,
    /// Nothing at all.
    Nothing,
}

/// The meaning of a key press. The arrow keys move a living player and
/// mean nothing to a dead one; Alt+Enter and Escape work either way.
pub open spec fn command_for(key: Key, player_alive: bool) -> Command {
    match key.code {
        KeyCode::Up if player_alive => Command::Step { dx: 0, dy: -1i32 },
        KeyCode::Down if player_alive => Command::Step { dx: 0, dy: 1 },
        KeyCode::Left if player_alive => Command::Step { dx: -1i32, dy: 0 },
        KeyCode::Right if player_alive => Command::Step { dx: 1, dy: 0 },
        KeyCode::Enter if key.alt => Command::ToggleFullscreen,
        KeyCode::Escape => Command::Quit,
        _ => Command::Nothing,
    }
}

/// Whether a command uses up the player's turn.
pub open spec fn action_of(command: Command) -> PlayerAction {
    match command {
        Command::Step { .. } => PlayerAction::TookTurn,
        Command::Quit => PlayerAction::Exit,
        Command::ToggleFullscreen | Command::Nothing => PlayerAction::DidntTakeTurn,
    }
}

/// The key can be handled in this state: if it makes the player step, the
/// step can be tried.
pub open spec fn can_handle(objects: Seq<Object>, key: Key, tiles: Seq<Seq<Tile>>) -> bool {
    command_for(key, objects[PLAYER as int].alive) matches Command::Step { dx, dy } ==> can_step(
        objects,
        dx as int,
        dy as int,
        tiles,
    )
}

/// The store after the key has been handled.
pub open spec fn after_key(objects: Seq<Object>, key: Key, tiles: Seq<Seq<Tile>>) -> Seq<Object> {
    match command_for(key, objects[PLAYER as int].alive) {
        Command::Step { dx, dy } => after_player_step(objects, dx as int, dy as int, tiles),
        _ => objects,
    }
}

/// What is said while the key is handled.
pub open spec fn key_message(objects: Seq<Object>, key: Key) -> Option<Seq<char>> {
    match command_for(key, objects[PLAYER as int].alive) {
        Command::Step { dx, dy } => player_step_message(objects, dx as int, dy as int),
        _ => None,
    }
}

/// What handling a key has led to.
#[derive(Clone, Debug, PartialEq, Eq)]
pub struct KeyOutcome {
    /// Whether the player used up the turn, or wants to leave.
    pub action: PlayerAction,
    /// The display is to be switched between windowed and full screen.
    pub toggle_fullscreen: bool,
    /// Words for the player, if the key led to any.
    pub message: Option<String>,
}

/// The meaning of a key press.
pub fn command(key: Key, player_alive: bool) -> (c: Command)
    ensures
        c == command_for(key, player_alive),
{
    match key.code {
        KeyCode::Up if player_alive => Command::Step { dx: 0, dy: -1 },
        KeyCode::Down if player_alive => Command::Step { dx: 0, dy: 1 },
        KeyCode::Left if player_alive => Command::Step { dx: -1, dy: 0 },
        KeyCode::Right if player_alive => Command::Step { dx: 1, dy: 0 },
        KeyCode::Enter if key.alt => Command::ToggleFullscreen,
        KeyCode::Escape => Command::Quit,
        _ => Command::Nothing,
    }
}

/// Whether the key can be handled in this state.
pub fn key_allowed(key: Key, map: &TileMap, objects: &[Object]) -> (ok: bool)
    requires
        map.wf(),
        objects@.len() > 0,
    ensures
        ok == can_handle(objects@, key, map@),
{
    match command(key, objects[PLAYER].alive) {
        Command::Step { dx, dy } => step_allowed(dx, dy, map, objects),
        _ => true,
    }
}

/// Handles one key press. An arrow key makes a living player step, which
/// uses up the turn whether the step ends in a move, an attack or a wall.
/// Alt+Enter asks for the display to be switched and Escape ends the
/// game; neither these nor any other key moves anything.
pub fn handle_keys(key: Key, map: &TileMap, objects: &mut [Object]) -> (outcome: KeyOutcome)
    requires
        map.wf(),
        old(objects)@.len() > 0,
        can_handle(old(objects)@, key, map@),
    ensures
        outcome.action == action_of(command_for(key, old(objects)@[PLAYER as int].alive)),
        outcome.toggle_fullscreen == (command_for(key, old(objects)@[PLAYER as int].alive)
            is ToggleFullscreen),
        text(outcome.message) == key_message(old(objects)@, key),
        final(objects)@ == after_key(old(objects)@, key, map@),
        outcome.action != PlayerAction::TookTurn ==> final(objects)@ == old(objects)@,
{
    let player_alive = objects[PLAYER].alive;
    match command(key, player_alive) {
        Command::Step { dx, dy } => {
            let message = player_move_or_attack(dx, dy, map, objects);
            KeyOutcome { action: PlayerAction::TookTurn, toggle_fullscreen: false, message }
        },
        Command::ToggleFullscreen => KeyOutcome {
            action: PlayerAction::DidntTakeTurn,
            toggle_fullscreen: true,
            message: None,
        },
        Command::Quit => KeyOutcome {
            action: PlayerAction::Exit,
            toggle_fullscreen: false,
            message: None,
        },
        Command::Nothing => KeyOutcome {
            action: PlayerAction::DidntTakeTurn,
            toggle_fullscreen: false,
            message: None,
        },
    }
}

} // verus!

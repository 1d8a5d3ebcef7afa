//! A turn-based dungeon crawl: the tile map, the entities that walk on it, the
//! rules for moving and bumping into things, and the bookkeeping that turns a
//! field-of-view answer into what is drawn and what is remembered.
//!
//! The crate performs no input or output. The program around it reads keys,
//! asks the field-of-view oracle and paints the screen; every decision in
//! between is taken here.
//!
//! - [`grid`]: shapes of the nested vectors that hold two-dimensional data
//! - [`map`]: tiles and the map made of them
//! - [`message`]: the words that tell the player what has happened
//! - [`object`]: entities, the store that holds them, and how they move
//! - [`fov`]: the visibility grid and the question put to the oracle
//! - [`combat`]: the player's step, which is a move or an attack
//! - [`input`]: from a key to what the player does
//! - [`ai`]: how a monster spends its turn
//! - [`render`]: what a frame shows, and which tiles become explored
//! - [`game`]: the loop of frames, keys and turns

pub mod grid;
pub mod map;
pub mod message;
pub mod object;
pub mod fov;
pub mod combat;
pub mod input;
pub mod ai;
pub mod render;
pub mod game;

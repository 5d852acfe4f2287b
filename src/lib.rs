//! A small text-adventure engine: a fixed map of rooms joined by directional
//! exits, a player with a location and an inventory, and an interpreter that
//! turns one typed line into a change of the player's state.

pub mod cave;
pub mod direction;
pub mod game;
pub mod player;
pub mod room;
pub mod text;
pub mod world;

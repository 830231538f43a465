//! Turn-based strategy game rules: tiles, buildings, units, players and the
//! per-frame systems that decide what happens on the map.
pub mod components;
pub mod game;
mod rng;
pub mod systems;
pub mod state;
pub mod text;

use vstd::prelude::*;
use crate::components::tiles::{TilePos, TileType};

verus! {

/// Where a unit-producing building puts the units it makes.
#[derive(PartialEq, Eq, Structural, Copy, Clone, Debug)]
pub struct OutPos {
    pub pos: TilePos,
}

/// The building mode chosen in the build menu, if any.
#[derive(PartialEq, Eq, Structural, Copy, Clone, Debug)]
pub struct Build {
    pub mode: Option<TileType>,
}

/// A building and the player who owns it.
#[derive(PartialEq, Eq, Structural, Copy, Clone, Debug)]
pub struct Building {
    pub tile_type: TileType,
    pub playernum: i32,
}

} // verus!

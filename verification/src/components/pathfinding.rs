use vstd::prelude::*;
use crate::components::tiles::TilePos;

verus! {

/// What a cell of the path grid holds.
#[derive(PartialEq, Eq, Structural, Copy, Clone, Debug)]
pub enum PathObjType {
    Empty,
    Start,
    Target,
    Obstacle,
}

impl Default for PathObjType {
    fn default() -> (t: Self)
        ensures
            t == PathObjType::Empty,
    {
        PathObjType::Empty
    }
}

/// One cell of the path grid.
#[derive(PartialEq, Eq, Structural, Copy, Clone, Debug)]
pub struct PathTileInfo {
    pub tile_type: PathObjType,
    pub fcost: i32,
    pub closed: bool,
    pub path: bool,
}

impl Default for PathTileInfo {
    fn default() -> (t: Self)
        ensures
            t == (PathTileInfo { tile_type: PathObjType::Empty, fcost: 0, closed: false, path: false }),
    {
        PathTileInfo { tile_type: PathObjType::default(), fcost: 0, closed: false, path: false }
    }
}

/// The current path: a forty by forty grid of cells and its two ends.
#[derive(Copy, Clone, Debug)]
pub struct Path {
    pub path_arr: [[PathTileInfo; 40]; 40],
    pub start_pos: TilePos,
    pub end_pos: TilePos,
    pub start: bool,
    pub complete: bool,
}

} // verus!

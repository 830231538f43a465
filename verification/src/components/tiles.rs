use vstd::prelude::*;

verus! {

/// A position on the isometric tile grid.
#[derive(PartialEq, Eq, Structural, Copy, Clone, Debug)]
pub struct TilePos {
    pub x: i32,
    pub y: i32,
}

/// Everything a tile, a building, a unit or the mouse follower can be.
#[derive(PartialEq, Eq, Structural, Copy, Clone, Debug)]
pub enum TileType {
    Grass,
    Sea,
    Forest,
    Mountains,
    Empty,
    Center,
    Barrack,
    Ruins,
    WoodBuilding,
    MetalBuilding,
    ScienceBuilding,
    Location,
    Warrior,
    Heavy,
    Monk,
    Demolish,
}

/// The sprite index in the sprite sheet that draws a tile type.
pub open spec fn sprite_of(t: TileType) -> usize {
    match t {
        TileType::Grass => 0,
        TileType::Sea => 1,
        TileType::Forest => 2,
        TileType::Mountains => 3,
        TileType::Empty => 4,
        TileType::Center => 5,
        TileType::Barrack => 6,
        TileType::Ruins => 7,
        TileType::WoodBuilding => 8,
        TileType::MetalBuilding => 9,
        TileType::ScienceBuilding => 10,
        TileType::Location => 11,
        TileType::Warrior => 12,
        TileType::Heavy => 13,
        TileType::Monk => 14,
        TileType::Demolish => 99,
    }
}

impl TileType {
    /// The sprite index of this tile type.
    pub fn sprite_number(&self) -> (n: usize)
        ensures
            n == sprite_of(*self),
    {
        match self {
            TileType::Grass => 0,
            TileType::Sea => 1,
            TileType::Forest => 2,
            TileType::Mountains => 3,
            TileType::Empty => 4,
            TileType::Center => 5,
            TileType::Barrack => 6,
            TileType::Ruins => 7,
            TileType::WoodBuilding => 8,
            TileType::MetalBuilding => 9,
            TileType::ScienceBuilding => 10,
            TileType::Location => 11,
            TileType::Warrior => 12,
            TileType::Heavy => 13,
            TileType::Monk => 14,
            TileType::Demolish => 99,
        }
    }
}

/// What a tile of a sheet layer holds.
#[derive(PartialEq, Eq, Structural, Copy, Clone, Debug)]
pub struct Tiles {
    pub player: i32,
    pub tile_type: Option<TileType>,
}

/// The offsets between two positions and their squares fit in `i32`, so the
/// squared distance can be taken without overflow.
pub open spec fn diff_fits(a: TilePos, b: TilePos) -> bool {
    let dx = a.x - b.x;
    let dy = a.y - b.y;
    &&& i32::MIN <= dx <= i32::MAX
    &&& dx * dx <= i32::MAX
    &&& i32::MIN <= dy <= i32::MAX
    &&& dy * dy <= i32::MAX
}

/// The squared Euclidean distance between two positions.
pub open spec fn dist2(a: TilePos, b: TilePos) -> int {
    (a.x - b.x) * (a.x - b.x) + (a.y - b.y) * (a.y - b.y)
}

/// Whether the squared distance between two positions can be taken without
/// overflow (see `diff_fits`).
pub fn offsets_fit(a: TilePos, b: TilePos) -> (r: bool)
    ensures
        r == diff_fits(a, b),
{
    let dx: i64 = a.x as i64 - b.x as i64;
    let dy: i64 = a.y as i64 - b.y as i64;
    if dx < -0x8000_0000 || dx > 0x7fff_ffff || dy < -0x8000_0000 || dy > 0x7fff_ffff {
        return false;
    }
    assert(0 <= dx * dx <= 0x4000_0000_0000_0000 && 0 <= dy * dy <= 0x4000_0000_0000_0000) by (nonlinear_arith)
        requires -0x8000_0000 <= dx <= 0x7fff_ffff, -0x8000_0000 <= dy <= 0x7fff_ffff;
    dx * dx <= 0x7fff_ffff && dy * dy <= 0x7fff_ffff
}

/// The squared Euclidean distance between two positions.
pub fn distance_squared(a: TilePos, b: TilePos) -> (d: i64)
    requires
        diff_fits(a, b),
    ensures
        d == dist2(a, b),
        d >= 0,
{
    let dx: i32 = a.x - b.x;
    let dy: i32 = a.y - b.y;
    assert(dx * dx >= 0 && dy * dy >= 0) by (nonlinear_arith);
    let dx2: i32 = dx * dx;
    let dy2: i32 = dy * dy;
    dx2 as i64 + dy2 as i64
}

/// Tag of the terrain layer.
#[derive(Copy, Clone, Debug, Default)]
pub struct Layer1;

/// Tag of the building layer.
#[derive(Copy, Clone, Debug, Default)]
pub struct Layer2;

/// Tag of the unit layer.
#[derive(Copy, Clone, Debug, Default)]
pub struct Layer3;

} // verus!

use vstd::prelude::*;
use crate::components::tiles::{TilePos, TileType, Tiles, sprite_of};
use crate::components::player::Player;
use crate::components::builds::{Building, OutPos};
use crate::components::unit::{UnitStack, Unit, Stat};
use crate::rng;

verus! {

/// The turn counter.
#[derive(PartialEq, Eq, Structural, Copy, Clone, Debug)]
pub struct Turn {
    pub num: i32,
}

/// The tile the mouse points at.
#[derive(PartialEq, Eq, Structural, Copy, Clone, Debug)]
pub struct MouseTilePos {
    pub pos: TilePos,
}

/// Whether the mouse is over a user interface element.
#[derive(PartialEq, Eq, Structural, Copy, Clone, Debug)]
pub struct OnUi {
    pub case: bool,
}

/// What the tile that follows the mouse shows.
#[derive(PartialEq, Eq, Structural, Copy, Clone, Debug)]
pub struct Follower {
    pub kind: TileType,
}

/// Whether the game is won, and by which player (numbered from one).
#[derive(PartialEq, Eq, Structural, Copy, Clone, Debug)]
pub struct WinState {
    pub case: bool,
    pub num_winner: i32,
}

/// Which menus are hidden: `None` for a menu that is not loaded yet,
/// `Some(hidden)` once it is.
#[derive(PartialEq, Eq, Structural, Copy, Clone, Debug)]
pub struct MenuState {
    pub build_menu: Option<bool>,
    pub barracks_menu: Option<bool>,
    pub lower_panel: Option<bool>,
}

/// A user interface element that can be clicked.
#[derive(PartialEq, Eq, Structural, Copy, Clone, Debug)]
pub enum UiButton {
    Build,
    Demolish,
    Center,
    Barrack,
    WoodBuilding,
    MetalBuilding,
    ScienceBuilding,
    Turn,
    Warrior,
    Heavy,
    Monk,
    Location,
    Cancel,
    Other,
}

/// One tile of a map layer (terrain, buildings or units): what it holds,
/// where it is and which sprite draws it.
#[derive(PartialEq, Eq, Structural, Copy, Clone, Debug)]
pub struct SheetTile {
    pub tile: Tiles,
    pub pos: TilePos,
    pub sprite_number: usize,
}

/// A building on the map. Barracks also carry the stack of units they will
/// produce and where those units appear.
#[derive(Copy, Clone, Debug)]
pub struct BuildingEntity {
    pub ent: u64,
    pub building: Building,
    pub pos: TilePos,
    pub stack: Option<UnitStack>,
    pub outpos: Option<OutPos>,
}

/// A unit on the map with its position and statistics.
#[derive(PartialEq, Eq, Structural, Copy, Clone, Debug)]
pub struct UnitEntity {
    pub ent: u64,
    pub unit: Unit,
    pub pos: TilePos,
    pub stat: Stat,
}

/// Hands out entity identifiers, each once.
#[derive(PartialEq, Eq, Structural, Copy, Clone, Debug)]
pub struct EntityAlloc {
    pub next: u64,
}

impl EntityAlloc {
    /// A fresh identifier.
    pub fn create(&mut self) -> (id: u64)
        requires
            old(self).next < u64::MAX,
        ensures
            id == old(self).next,
            final(self).next == old(self).next + 1,
    {
        let id = self.next;
        self.next = self.next + 1;
        id
    }
}

/// The grid position of the `i`-th tile of a layer, laid out column by column.
pub open spec fn grid_pos(i: int) -> TilePos {
    TilePos { x: (i / 50) as i32, y: (i % 50) as i32 }
}

/// The layer index of the tile at column `x`, row `y`.
pub open spec fn grid_index(x: int, y: int) -> int {
    x * 50 + y
}

/// A terrain tile: grass, or ruins where a city centre may be founded.
pub open spec fn terrain_tile(x: i32, y: i32, ruins: bool) -> SheetTile {
    let t = if ruins { TileType::Ruins } else { TileType::Grass };
    SheetTile { tile: Tiles { player: 0, tile_type: Some(t) }, pos: TilePos { x, y }, sprite_number: sprite_of(t) }
}

/// An empty tile of the building or unit layer, drawn with the blank sprite.
pub open spec fn blank_tile(x: i32, y: i32) -> SheetTile {
    SheetTile { tile: Tiles { player: 0, tile_type: None }, pos: TilePos { x, y }, sprite_number: 4 }
}

/// The terrain tile at `(x, y)`, ruins or grass as `ruins` says.
pub fn world_tile(x: i32, y: i32, ruins: bool) -> (t: SheetTile)
    ensures
        t == terrain_tile(x, y, ruins),
{
    let kind = if ruins { TileType::Ruins } else { TileType::Grass };
    SheetTile {
        tile: Tiles { player: 0, tile_type: Some(kind) },
        pos: TilePos { x, y },
        sprite_number: kind.sprite_number(),
    }
}

/// The terrain layer: every tile of the fifty by fifty map, in column order,
/// each one ruins with a chance of one in a hundred and grass otherwise.
pub fn initialise_world_sheet() -> (sheet: Vec<SheetTile>)
    ensures
        sheet.len() == 2500,
        forall|i: int|
            0 <= i < 2500 ==> (#[trigger] sheet@[i] == terrain_tile(grid_pos(i).x, grid_pos(i).y, false)
                || sheet@[i] == terrain_tile(grid_pos(i).x, grid_pos(i).y, true)),
{
    let mut sheet: Vec<SheetTile> = Vec::new();
    let mut x: i32 = 0;
    while x < 50
        invariant
            0 <= x <= 50,
            sheet.len() == x * 50,
            forall|i: int|
                0 <= i < sheet.len() ==> (#[trigger] sheet@[i] == terrain_tile(grid_pos(i).x, grid_pos(i).y, false)
                    || sheet@[i] == terrain_tile(grid_pos(i).x, grid_pos(i).y, true)),
        decreases 50 - x,
    {
        let mut y: i32 = 0;
        while y < 50
            invariant
                0 <= x < 50,
                0 <= y <= 50,
                sheet.len() == x * 50 + y,
                forall|i: int|
                    0 <= i < sheet.len() ==> (#[trigger] sheet@[i] == terrain_tile(grid_pos(i).x, grid_pos(i).y, false)
                        || sheet@[i] == terrain_tile(grid_pos(i).x, grid_pos(i).y, true)),
            decreases 50 - y,
        {
            let mut r = rng::thread_rng();
            let ruins = rng::gen_ratio(&mut r, 1, 100);
            let t = world_tile(x, y, ruins);
            proof {
                lemma_grid_pos(x as int, y as int);
            }
            sheet.push(t);
            y = y + 1;
        }
        x = x + 1;
    }
    sheet
}

/// A layer of fifty by fifty empty tiles in column order.
fn blank_sheet() -> (sheet: Vec<SheetTile>)
    ensures
        sheet.len() == 2500,
        forall|i: int| 0 <= i < 2500 ==> #[trigger] sheet@[i] == blank_tile(grid_pos(i).x, grid_pos(i).y),
{
    let mut sheet: Vec<SheetTile> = Vec::new();
    let mut x: i32 = 0;
    while x < 50
        invariant
            0 <= x <= 50,
            sheet.len() == x * 50,
            forall|i: int| 0 <= i < sheet.len() ==> #[trigger] sheet@[i] == blank_tile(grid_pos(i).x, grid_pos(i).y),
        decreases 50 - x,
    {
        let mut y: i32 = 0;
        while y < 50
            invariant
                0 <= x < 50,
                0 <= y <= 50,
                sheet.len() == x * 50 + y,
                forall|i: int| 0 <= i < sheet.len() ==> #[trigger] sheet@[i] == blank_tile(grid_pos(i).x, grid_pos(i).y),
            decreases 50 - y,
        {
            proof {
                lemma_grid_pos(x as int, y as int);
            }
            sheet.push(SheetTile { tile: Tiles { player: 0, tile_type: None }, pos: TilePos { x, y }, sprite_number: 4 });
            y = y + 1;
        }
        x = x + 1;
    }
    sheet
}

/// The building layer: every tile of the map, empty.
pub fn initialise_building_sheet() -> (sheet: Vec<SheetTile>)
    ensures
        sheet.len() == 2500,
        forall|i: int| 0 <= i < 2500 ==> #[trigger] sheet@[i] == blank_tile(grid_pos(i).x, grid_pos(i).y),
{
    blank_sheet()
}

/// The unit layer: every tile of the map, empty.
pub fn initialise_unit_sheet() -> (sheet: Vec<SheetTile>)
    ensures
        sheet.len() == 2500,
        forall|i: int| 0 <= i < 2500 ==> #[trigger] sheet@[i] == blank_tile(grid_pos(i).x, grid_pos(i).y),
{
    blank_sheet()
}

/// The players of a new game, numbered from zero, with no resources.
pub fn initialise_players(count: i8) -> (players: Vec<Player>)
    ensures
        players.len() == (if count > 0 { count as int } else { 0 }),
        forall|i: int| 0 <= i < players.len() ==> #[trigger] players@[i] == Player::new_spec(i as i8),
{
    let mut players: Vec<Player> = Vec::new();
    let mut x: i8 = 0;
    while x < count
        invariant
            0 <= x,
            x <= count || count < 0,
            count < 0 ==> x == 0,
            players.len() == x,
            forall|i: int| 0 <= i < players.len() ==> #[trigger] players@[i] == Player::new_spec(i as i8),
        decreases count - x,
    {
        players.push(Player::new(x));
        x = x + 1;
    }
    players
}

/// Index `i` of a layer sits at column `i / 50`, row `i % 50`.
proof fn lemma_grid_pos(x: int, y: int)
    requires
        0 <= x < 50,
        0 <= y < 50,
    ensures
        grid_pos(x * 50 + y) == (TilePos { x: x as i32, y: y as i32 }),
{
    assert((x * 50 + y) / 50 == x && (x * 50 + y) % 50 == y) by (nonlinear_arith)
        requires 0 <= x < 50, 0 <= y < 50;
}

/// The layers cover the map exactly: the tiles of a layer sit on distinct
/// positions, and every position of the fifty by fifty map has a tile.
pub proof fn law_sheet_covers_map()
    ensures
        forall|i: int, j: int|
            0 <= i < 2500 && 0 <= j < 2500 && #[trigger] grid_pos(i) == #[trigger] grid_pos(j) ==> i == j,
        forall|x: int, y: int|
            0 <= x < 50 && 0 <= y < 50 ==> grid_pos(#[trigger] grid_index(x, y)) == (TilePos { x: x as i32, y: y as i32 })
                && 0 <= grid_index(x, y) < 2500,
{
    assert forall|i: int, j: int|
        0 <= i < 2500 && 0 <= j < 2500 && #[trigger] grid_pos(i) == #[trigger] grid_pos(j) implies i == j by {
        assert(i == (i / 50) * 50 + i % 50) by (nonlinear_arith) requires 0 <= i;
        assert(j == (j / 50) * 50 + j % 50) by (nonlinear_arith) requires 0 <= j;
        assert(0 <= i / 50 < 50) by (nonlinear_arith) requires 0 <= i < 2500;
        assert(0 <= j / 50 < 50) by (nonlinear_arith) requires 0 <= j < 2500;
    }
    assert forall|x: int, y: int| 0 <= x < 50 && 0 <= y < 50 implies
        grid_pos(#[trigger] grid_index(x, y)) == (TilePos { x: x as i32, y: y as i32 }) && 0 <= grid_index(x, y) < 2500 by {
        lemma_grid_pos(x, y);
        assert(0 <= x * 50 + y < 2500) by (nonlinear_arith) requires 0 <= x < 50, 0 <= y < 50;
    }
}

} // verus!

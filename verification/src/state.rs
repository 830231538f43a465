use vstd::prelude::*;
use crate::components::builds::Build;
use crate::components::player::{Player, PlayersInfo};
use crate::components::tiles::{TilePos, TileType};
use crate::game::{
    initialise_building_sheet, initialise_players, initialise_unit_sheet, initialise_world_sheet, grid_pos,
    terrain_tile, blank_tile, BuildingEntity, EntityAlloc, Follower, MouseTilePos, OnUi, SheetTile, Turn, UiButton,
    UnitEntity, WinState,
};
use crate::systems::building::BuildSystem;
use crate::systems::building_interact::BuildingInteractSystem;
use crate::systems::mouse::{M2TileSystem, TileMouseFollow, UIDetect};
use crate::systems::rescalc::ResourceCalcSystem;
use crate::systems::resdisplay::ResourceDispSystem;
use crate::systems::sheet::SheetSystem;
use crate::systems::turn::TurnSystem;
use crate::systems::unit_interact::UnitInteractSystem;
use crate::systems::unit_turn::UnitTurnSystem;
use crate::systems::win_check::WinCheckSystem;

verus! {

/// How many players a game has.
pub const PLAYER_COUNT: i8 = 2;

/// Everything the game's rules work on, and the systems that apply them.
pub struct GameState {
    pub layer1: Vec<SheetTile>,
    pub layer2: Vec<SheetTile>,
    pub layer3: Vec<SheetTile>,
    pub buildings: Vec<BuildingEntity>,
    pub units: Vec<UnitEntity>,
    pub players: Vec<Player>,
    pub playersinfo: PlayersInfo,
    pub build: Build,
    pub mouse_tile_pos: MouseTilePos,
    pub onui: OnUi,
    pub turn: Turn,
    pub winstate: WinState,
    pub follower: Follower,
    pub alloc: EntityAlloc,
    /// Clicks the build system has not handled yet.
    pub build_clicks: Vec<UiButton>,
    /// Clicks the turn system has not handled yet.
    pub turn_clicks: Vec<UiButton>,
    /// Clicks the building interaction system has not handled yet.
    pub interact_clicks: Vec<UiButton>,
    pub m2tile: M2TileSystem,
    pub uidetect: UIDetect,
    pub sheet: SheetSystem,
    pub build_system: BuildSystem,
    pub turn_system: TurnSystem,
    pub rescalc: ResourceCalcSystem,
    pub resdisp: ResourceDispSystem,
    pub building_interact: BuildingInteractSystem,
    pub tile_follow: TileMouseFollow,
    pub unit_turn: UnitTurnSystem,
    pub unit_interact: UnitInteractSystem,
    pub win_check: WinCheckSystem,
}

impl GameState {
    /// A new game: a terrain layer of grass and ruins, empty building and
    /// unit layers, two players with nothing, the first player's turn zero,
    /// no building mode, the mouse at the origin and off the interface, no
    /// winner, an empty follower, identifiers from zero, no pending clicks,
    /// and every system in its starting state.
    pub fn new() -> (g: Self)
        ensures
            g.layer1.len() == 2500,
            forall|i: int|
                0 <= i < 2500 ==> (#[trigger] g.layer1@[i] == terrain_tile(grid_pos(i).x, grid_pos(i).y, false)
                    || g.layer1@[i] == terrain_tile(grid_pos(i).x, grid_pos(i).y, true)),
            g.layer2.len() == 2500,
            forall|i: int| 0 <= i < 2500 ==> #[trigger] g.layer2@[i] == blank_tile(grid_pos(i).x, grid_pos(i).y),
            g.layer3.len() == 2500,
            forall|i: int| 0 <= i < 2500 ==> #[trigger] g.layer3@[i] == blank_tile(grid_pos(i).x, grid_pos(i).y),
            g.buildings@.len() == 0,
            g.units@.len() == 0,
            g.players@ == seq![Player::new_spec(0), Player::new_spec(1)],
            g.playersinfo == (PlayersInfo { count: 2, current_player_num: 0 }),
            g.build == (Build { mode: None }),
            g.mouse_tile_pos == (MouseTilePos { pos: TilePos { x: 0, y: 0 } }),
            g.onui == (OnUi { case: false }),
            g.turn == (Turn { num: 0 }),
            g.winstate == (WinState { case: false, num_winner: 0 }),
            g.follower == (Follower { kind: TileType::Empty }),
            g.alloc == (EntityAlloc { next: 0 }),
            g.build_clicks@.len() == 0,
            g.turn_clicks@.len() == 0,
            g.interact_clicks@.len() == 0,
            g.build_system == (BuildSystem { run: false, centered_turn: 0 }),
            g.rescalc == (ResourceCalcSystem { last_turn: -1i32 }),
            g.building_interact == (BuildingInteractSystem {
                first_run: true,
                focused: false,
                location_mode: false,
                focused_ent: None,
            }),
            g.unit_turn == (UnitTurnSystem { last_turn: -1i32 }),
            g.unit_interact == (UnitInteractSystem {
                focused_ent: None,
                focused: false,
                valid_move: true,
                last_turn: 0,
                turns_til_claim: None,
            }),
    {
        let players = initialise_players(PLAYER_COUNT);
        assert(players@ =~= seq![Player::new_spec(0), Player::new_spec(1)]);
        GameState {
            layer1: initialise_world_sheet(),
            layer2: initialise_building_sheet(),
            layer3: initialise_unit_sheet(),
            buildings: Vec::new(),
            units: Vec::new(),
            players,
            playersinfo: PlayersInfo { count: 2, current_player_num: 0 },
            build: Build { mode: None },
            mouse_tile_pos: MouseTilePos { pos: TilePos { x: 0, y: 0 } },
            onui: OnUi { case: false },
            turn: Turn { num: 0 },
            winstate: WinState { case: false, num_winner: 0 },
            follower: Follower { kind: TileType::Empty },
            alloc: EntityAlloc { next: 0 },
            build_clicks: Vec::new(),
            turn_clicks: Vec::new(),
            interact_clicks: Vec::new(),
            m2tile: M2TileSystem,
            uidetect: UIDetect,
            sheet: SheetSystem,
            build_system: BuildSystem::default(),
            turn_system: TurnSystem,
            rescalc: ResourceCalcSystem { last_turn: -1 },
            resdisp: ResourceDispSystem,
            building_interact: BuildingInteractSystem::new(),
            tile_follow: TileMouseFollow,
            unit_turn: UnitTurnSystem { last_turn: -1 },
            unit_interact: UnitInteractSystem::new(),
            win_check: WinCheckSystem,
        }
    }
}

} // verus!

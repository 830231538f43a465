use civlike::components::builds::{Build, Building, OutPos};
use civlike::components::pathfinding::{PathObjType, PathTileInfo};
use civlike::components::player::Player;
use civlike::components::tiles::{TilePos, TileType};
use civlike::components::unit::{Stat, UnitStack};
use civlike::game::{initialise_building_sheet, initialise_players, initialise_unit_sheet, initialise_world_sheet, world_tile, EntityAlloc};
use civlike::state::GameState;
use civlike::text::{int_to_string, nat_to_string};

#[test]
fn player_new_has_no_resources() {
    let p = Player::new(3);
    assert_eq!(p, Player { num: 3, wood: 0, metal: 0, faith: 0, science: 0 });
}

#[test]
fn sub_wood_pays_only_when_affordable() {
    let mut p = Player::new(0);
    p.wood = 15;
    assert!(p.sub_wood(10));
    assert_eq!(p.wood, 5);
    assert!(!p.sub_wood(10));
    assert_eq!(p.wood, 5);
}

#[test]
fn sub_metal_pays_only_when_affordable() {
    let mut p = Player::new(0);
    p.metal = 30;
    assert!(p.sub_metal(30));
    assert_eq!(p.metal, 0);
    assert!(!p.sub_metal(1));
    assert_eq!(p.metal, 0);
}

#[test]
fn sub_both_is_all_or_nothing() {
    let mut p = Player::new(0);
    p.wood = 40;
    p.metal = 5;
    assert!(!p.sub_both(30, 10));
    assert_eq!((p.wood, p.metal), (40, 5));
    p.metal = 10;
    assert!(p.sub_both(30, 10));
    assert_eq!((p.wood, p.metal), (10, 0));
}

#[test]
fn unit_stack_starts_empty() {
    let mut s = UnitStack::new();
    assert_eq!(s.top, 0);
    assert!(!s.repeat);
    assert_eq!(s.peek(), None);
    assert_eq!(s.pop(), None);
    assert_eq!(s.top, 0);
}

#[test]
fn unit_stack_push_then_pop_is_lifo() {
    let mut s = UnitStack::new();
    s.push(TileType::Warrior);
    s.push(TileType::Monk);
    assert_eq!(s.top, 2);
    assert_eq!(s.pop(), Some(TileType::Monk));
    assert_eq!(s.pop(), Some(TileType::Warrior));
    assert_eq!(s.pop(), None);
}

#[test]
fn unit_stack_peek_reads_slot_at_top_index() {
    let mut s = UnitStack::new();
    assert!(s.is_peekable() && s.is_poppable() && s.is_well_formed() && s.pop_in_bounds());
    s.push(TileType::Heavy);
    // the slot at the top index is the free one above the pushed unit
    assert_eq!(s.peek(), None);
    assert_eq!(s.pop(), Some(TileType::Heavy));
    // after popping, the top index points at the popped slot again
    assert_eq!(s.peek(), Some(TileType::Heavy));
}

#[test]
fn unit_stack_full_ignores_push() {
    let mut s = UnitStack::new();
    for _ in 0..8 {
        s.push(TileType::Warrior);
    }
    assert_eq!(s.top, 8);
    s.push(TileType::Monk);
    assert_eq!(s.top, 8);
    // peeking a full stack would read past the slots
    assert!(!s.is_peekable());
    assert_eq!(s.pop(), Some(TileType::Warrior));
}

#[test]
fn unit_stack_repeat_pop_keeps_top() {
    let mut s = UnitStack::new();
    s.push(TileType::Warrior);
    s.repeat = true;
    // a repeating stack returns the slot at the top index without moving
    assert_eq!(s.pop(), None);
    assert_eq!(s.top, 1);
}

#[test]
fn sprite_numbers_match_sheet_layout() {
    assert_eq!(TileType::Grass.sprite_number(), 0);
    assert_eq!(TileType::Empty.sprite_number(), 4);
    assert_eq!(TileType::Barrack.sprite_number(), 6);
    assert_eq!(TileType::Warrior.sprite_number(), 12);
    assert_eq!(TileType::Demolish.sprite_number(), 99);
}

#[test]
fn path_defaults_are_empty() {
    assert_eq!(PathObjType::default(), PathObjType::Empty);
    let t = PathTileInfo::default();
    assert_eq!(t, PathTileInfo { tile_type: PathObjType::Empty, fcost: 0, closed: false, path: false });
}

#[test]
fn stat_default_is_zero() {
    let s = Stat::default();
    assert_eq!(s.health, 0);
    assert_eq!(s.attack, 0);
    assert!(!s.exhausted);
}

#[test]
fn plain_components_hold_their_fields() {
    let b = Building { tile_type: TileType::Center, playernum: 1 };
    assert_eq!(b.playernum, 1);
    let o = OutPos { pos: TilePos { x: 2, y: 3 } };
    assert_eq!(o.pos, TilePos { x: 2, y: 3 });
    let m = Build { mode: None };
    assert_eq!(m.mode, None);
}

#[test]
fn world_tile_is_grass_or_ruins() {
    let g = world_tile(3, 4, false);
    assert_eq!(g.tile.tile_type, Some(TileType::Grass));
    assert_eq!(g.sprite_number, 0);
    assert_eq!(g.pos, TilePos { x: 3, y: 4 });
    let r = world_tile(3, 4, true);
    assert_eq!(r.tile.tile_type, Some(TileType::Ruins));
    assert_eq!(r.sprite_number, 7);
}

#[test]
fn world_sheet_covers_map_with_some_ruins() {
    let sheet = initialise_world_sheet();
    assert_eq!(sheet.len(), 2500);
    let mut ruins = 0;
    for (i, t) in sheet.iter().enumerate() {
        assert_eq!(t.pos, TilePos { x: (i / 50) as i32, y: (i % 50) as i32 });
        if t.tile.tile_type == Some(TileType::Ruins) {
            ruins += 1;
        } else {
            assert_eq!(t.tile.tile_type, Some(TileType::Grass));
        }
    }
    // one in a hundred on average: at least one, far fewer than half
    assert!(ruins >= 1);
    assert!(ruins < 1250);
}

#[test]
fn blank_sheets_are_empty() {
    for sheet in [initialise_building_sheet(), initialise_unit_sheet()] {
        assert_eq!(sheet.len(), 2500);
        assert_eq!(sheet[51].pos, TilePos { x: 1, y: 1 });
        assert!(sheet.iter().all(|t| t.tile.tile_type.is_none() && t.sprite_number == 4));
    }
}

#[test]
fn players_are_numbered_from_zero() {
    let ps = initialise_players(2);
    assert_eq!(ps, vec![Player::new(0), Player::new(1)]);
    assert!(initialise_players(-1).is_empty());
}

#[test]
fn entity_ids_are_fresh() {
    let mut a = EntityAlloc { next: 7 };
    assert_eq!(a.create(), 7);
    assert_eq!(a.create(), 8);
    assert_eq!(a.next, 9);
}

#[test]
fn numbers_print_in_decimal() {
    assert_eq!(nat_to_string(0), "0");
    assert_eq!(nat_to_string(1234), "1234");
    assert_eq!(int_to_string(-45), "-45");
    assert_eq!(int_to_string(i32::MIN), "-2147483648");
    assert_eq!(int_to_string(i32::MAX), "2147483647");
}

#[test]
fn new_game_starts_with_player_zero_on_turn_zero() {
    let g = GameState::new();
    assert_eq!(g.layer1.len(), 2500);
    assert_eq!(g.layer2.len(), 2500);
    assert_eq!(g.layer3.len(), 2500);
    assert!(g.buildings.is_empty() && g.units.is_empty());
    assert_eq!(g.players, vec![Player::new(0), Player::new(1)]);
    assert_eq!(g.playersinfo.count, 2);
    assert_eq!(g.playersinfo.current_player_num, 0);
    assert_eq!(g.turn.num, 0);
    assert_eq!(g.build.mode, None);
    assert_eq!(g.rescalc.last_turn, -1);
    assert_eq!(g.unit_turn.last_turn, -1);
    assert!(!g.build_system.run);
    assert!(g.building_interact.first_run);
    assert!(!g.winstate.case);
}

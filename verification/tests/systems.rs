use civlike::components::builds::{Build, Building, OutPos};
use civlike::components::player::{Player, PlayersInfo};
use civlike::components::tiles::{TilePos, TileType, Tiles};
use civlike::components::unit::{Stat, Unit, UnitStack};
use civlike::game::{
    initialise_building_sheet, initialise_unit_sheet, BuildingEntity, EntityAlloc, Follower, MenuState,
    MouseTilePos, OnUi, SheetTile, Turn, UiButton, UnitEntity, WinState,
};
use civlike::systems::building::BuildSystem;
use civlike::systems::building_interact::BuildingInteractSystem;
use civlike::systems::combat::{resolve_attack, roll_attack, AttackRolls};
use civlike::systems::mouse::{M2TileSystem, TileMouseFollow, UIDetect};
use civlike::systems::rescalc::ResourceCalcSystem;
use civlike::systems::resdisplay::{resource_string, win_string, ResourceDispSystem};
use civlike::systems::sheet::{compute_placeable, SheetSystem};
use civlike::systems::turn::TurnSystem;
use civlike::systems::unit_interact::UnitInteractSystem;
use civlike::systems::unit_turn::UnitTurnSystem;
use civlike::systems::win_check::WinCheckSystem;

fn pos(x: i32, y: i32) -> TilePos {
    TilePos { x, y }
}

fn terrain(cells: &[(i32, i32, TileType)]) -> Vec<SheetTile> {
    cells
        .iter()
        .map(|&(x, y, t)| SheetTile {
            tile: Tiles { player: 0, tile_type: Some(t) },
            pos: pos(x, y),
            sprite_number: t.sprite_number(),
        })
        .collect()
}

fn building(ent: u64, t: TileType, owner: i32, at: TilePos) -> BuildingEntity {
    BuildingEntity { ent, building: Building { tile_type: t, playernum: owner }, pos: at, stack: None, outpos: None }
}

fn barrack(ent: u64, owner: i32, at: TilePos, out: TilePos) -> BuildingEntity {
    BuildingEntity {
        ent,
        building: Building { tile_type: TileType::Barrack, playernum: owner },
        pos: at,
        stack: Some(UnitStack::new()),
        outpos: Some(OutPos { pos: out }),
    }
}

fn rich(num: i8) -> Player {
    Player { num, wood: 100, metal: 100, faith: 0, science: 0 }
}

fn info(cur: i32) -> PlayersInfo {
    PlayersInfo { count: 2, current_player_num: cur }
}

fn mouse(x: i32, y: i32) -> MouseTilePos {
    MouseTilePos { pos: pos(x, y) }
}

fn soldier(ent: u64, owner: i32, at: TilePos, stat: Stat) -> UnitEntity {
    UnitEntity { ent, unit: Unit { unit_type: TileType::Warrior, playernum: owner }, pos: at, stat }
}

fn warrior_stat() -> Stat {
    Stat { speed: 2, health: 200, attack: 50, resistance: 20, multi_hit_chance: 0, multi_hit_amount: 0, crit_chance: 10, exhausted: false }
}

#[test]
fn centre_goes_on_ruins_for_free() {
    let layer1 = terrain(&[(3, 3, TileType::Ruins)]);
    let mut layer2 = initialise_building_sheet();
    let mut buildings = Vec::new();
    let mut players = vec![Player::new(0), Player::new(1)];
    let mut build = Build { mode: Some(TileType::Center) };
    let mut follower = Follower { kind: TileType::Empty };
    let mut alloc = EntityAlloc { next: 1 };
    let built = SheetSystem.run(&layer1, &mut layer2, &mut buildings, &mut players, &mut build, &info(0),
        &mouse(3, 3), &mut follower, true, &mut alloc);
    assert_eq!(built, Some(pos(3, 3)));
    assert_eq!(buildings.len(), 1);
    assert_eq!(buildings[0].building, Building { tile_type: TileType::Center, playernum: 0 });
    assert_eq!(buildings[0].ent, 1);
    assert!(buildings[0].stack.is_none());
    let idx = 3 * 50 + 3;
    assert_eq!(layer2[idx].tile.tile_type, Some(TileType::Center));
    assert_eq!(layer2[idx].sprite_number, 5);
    assert_eq!(players, vec![Player::new(0), Player::new(1)]);
    assert_eq!(build.mode, None);
    assert_eq!(follower.kind, TileType::Empty);
    assert_eq!(alloc.next, 2);
}

#[test]
fn follower_shows_placeable_building_before_click() {
    let layer1 = terrain(&[(3, 3, TileType::Forest)]);
    let mut layer2 = initialise_building_sheet();
    let mut buildings = Vec::new();
    let mut players = vec![rich(0)];
    let mut build = Build { mode: Some(TileType::WoodBuilding) };
    let mut follower = Follower { kind: TileType::Empty };
    let mut alloc = EntityAlloc { next: 0 };
    let built = SheetSystem.run(&layer1, &mut layer2, &mut buildings, &mut players, &mut build, &info(0),
        &mouse(3, 3), &mut follower, false, &mut alloc);
    assert_eq!(built, None);
    assert_eq!(follower.kind, TileType::WoodBuilding);
    assert_eq!(build.mode, Some(TileType::WoodBuilding));
    // elsewhere nothing can be placed
    let _ = SheetSystem.run(&layer1, &mut layer2, &mut buildings, &mut players, &mut build, &info(0),
        &mouse(4, 4), &mut follower, false, &mut alloc);
    assert_eq!(follower.kind, TileType::Empty);
}

#[test]
fn barrack_needs_centre_within_four_tiles() {
    let layer1 = terrain(&[(10, 10, TileType::Grass)]);
    let near = vec![building(1, TileType::Center, 0, pos(10, 14))];
    let far = vec![building(1, TileType::Center, 0, pos(13, 14))];
    assert!(compute_placeable(&layer1, TileType::Barrack, pos(10, 10), &near));
    assert!(!compute_placeable(&layer1, TileType::Barrack, pos(10, 10), &far));
    assert!(!compute_placeable(&layer1, TileType::Center, pos(10, 10), &near));
}

#[test]
fn barrack_is_charged_and_gets_a_stack() {
    let layer1 = terrain(&[(10, 10, TileType::Grass)]);
    let mut layer2 = initialise_building_sheet();
    let mut buildings = vec![building(1, TileType::Center, 0, pos(10, 12))];
    let mut players = vec![rich(0), rich(1)];
    let mut build = Build { mode: Some(TileType::Barrack) };
    let mut follower = Follower { kind: TileType::Empty };
    let mut alloc = EntityAlloc { next: 2 };
    let built = SheetSystem.run(&layer1, &mut layer2, &mut buildings, &mut players, &mut build, &info(0),
        &mouse(10, 10), &mut follower, true, &mut alloc);
    assert_eq!(built, Some(pos(10, 10)));
    assert_eq!(players[0].wood, 70);
    assert_eq!(players[0].metal, 90);
    assert_eq!(players[1], rich(1));
    let b = &buildings[1];
    assert_eq!(b.building.tile_type, TileType::Barrack);
    assert_eq!(b.outpos, Some(OutPos { pos: pos(9, 10) }));
    assert_eq!(b.stack.unwrap().top, 0);
}

#[test]
fn barrack_on_left_edge_sends_units_right() {
    let layer1 = terrain(&[(0, 5, TileType::Grass)]);
    let mut layer2 = initialise_building_sheet();
    let mut buildings = vec![building(1, TileType::Center, 0, pos(1, 5))];
    let mut players = vec![rich(0)];
    let mut build = Build { mode: Some(TileType::Barrack) };
    let mut follower = Follower { kind: TileType::Empty };
    let mut alloc = EntityAlloc { next: 2 };
    let _ = SheetSystem.run(&layer1, &mut layer2, &mut buildings, &mut players, &mut build, &info(0),
        &mouse(0, 5), &mut follower, true, &mut alloc);
    assert_eq!(buildings[1].outpos, Some(OutPos { pos: pos(1, 5) }));
}

#[test]
fn unaffordable_building_is_not_built_but_mode_ends() {
    let layer1 = terrain(&[(2, 2, TileType::Mountains)]);
    let mut layer2 = initialise_building_sheet();
    let mut buildings = Vec::new();
    let mut players = vec![Player { num: 0, wood: 10, metal: 44, faith: 0, science: 0 }];
    let mut build = Build { mode: Some(TileType::MetalBuilding) };
    let mut follower = Follower { kind: TileType::Empty };
    let mut alloc = EntityAlloc { next: 0 };
    let built = SheetSystem.run(&layer1, &mut layer2, &mut buildings, &mut players, &mut build, &info(0),
        &mouse(2, 2), &mut follower, true, &mut alloc);
    assert_eq!(built, None);
    assert!(buildings.is_empty());
    assert_eq!(players[0].metal, 44);
    assert_eq!(build.mode, None);
    assert!(layer2.iter().all(|t| t.tile.tile_type.is_none()));
}

#[test]
fn demolish_removes_an_own_building_and_spares_others() {
    let layer1 = terrain(&[]);
    let mut layer2 = initialise_building_sheet();
    let idx = 4 * 50 + 4;
    layer2[idx].tile.tile_type = Some(TileType::WoodBuilding);
    layer2[idx].sprite_number = 8;
    // an own centre elsewhere is listed first; only the clicked building goes
    let mut buildings = vec![
        building(1, TileType::Center, 1, pos(7, 7)),
        building(3, TileType::Center, 0, pos(9, 9)),
        building(2, TileType::WoodBuilding, 0, pos(4, 4)),
    ];
    let mut players = vec![rich(0)];
    let mut build = Build { mode: Some(TileType::Demolish) };
    let mut follower = Follower { kind: TileType::Empty };
    let mut alloc = EntityAlloc { next: 3 };
    let _ = SheetSystem.run(&layer1, &mut layer2, &mut buildings, &mut players, &mut build, &info(0),
        &mouse(4, 4), &mut follower, true, &mut alloc);
    assert_eq!(buildings.len(), 2);
    assert_eq!(buildings[0].ent, 1);
    assert_eq!(buildings[1].ent, 3);
    assert_eq!(layer2[idx].tile.tile_type, None);
    assert_eq!(layer2[idx].sprite_number, 4);
    assert_eq!(build.mode, None);
}

#[test]
fn build_system_hides_menu_first_then_handles_clicks() {
    let mut s = BuildSystem::default();
    let mut build = Build { mode: None };
    let mut menus = MenuState { build_menu: Some(false), barracks_menu: None, lower_panel: None };
    let mut events = vec![UiButton::Barrack];
    let turn = Turn { num: 0 };
    s.run(&mut build, &mut menus, &mut events, &turn);
    assert_eq!(menus.build_menu, Some(true));
    assert_eq!(s.centered_turn, -1);
    assert_eq!(events, vec![UiButton::Barrack]);
    assert_eq!(build.mode, None);
    events.insert(0, UiButton::Build);
    s.run(&mut build, &mut menus, &mut events, &turn);
    assert!(events.is_empty());
    assert_eq!(build.mode, Some(TileType::Barrack));
    assert_eq!(menus.build_menu, Some(true));
    let mut events = vec![UiButton::Build];
    s.run(&mut build, &mut menus, &mut events, &turn);
    assert_eq!(menus.build_menu, Some(false));
}

#[test]
fn build_system_allows_one_centre_per_turn() {
    let mut s = BuildSystem { run: true, centered_turn: -1 };
    let mut build = Build { mode: None };
    let mut menus = MenuState { build_menu: Some(true), barracks_menu: None, lower_panel: None };
    let mut events = vec![UiButton::Center];
    s.run(&mut build, &mut menus, &mut events, &Turn { num: 3 });
    assert_eq!(build.mode, Some(TileType::Center));
    assert_eq!(s.centered_turn, 3);
    build.mode = None;
    let mut events = vec![UiButton::Center];
    s.run(&mut build, &mut menus, &mut events, &Turn { num: 3 });
    assert_eq!(build.mode, None);
    let mut events = vec![UiButton::Center];
    s.run(&mut build, &mut menus, &mut events, &Turn { num: 4 });
    assert_eq!(build.mode, Some(TileType::Center));
}

#[test]
fn turn_button_advances_turn_and_player() {
    let mut pi = info(0);
    let mut turn = Turn { num: 0 };
    let mut events = vec![UiButton::Turn, UiButton::Other, UiButton::Turn, UiButton::Turn];
    TurnSystem.run(&mut pi, &mut turn, &mut events);
    assert_eq!(turn.num, 3);
    assert_eq!(pi.current_player_num, 1);
    assert!(events.is_empty());
    let mut events = vec![UiButton::Build];
    TurnSystem.run(&mut pi, &mut turn, &mut events);
    assert_eq!(turn.num, 3);
    assert_eq!(pi.current_player_num, 1);
}

#[test]
fn income_is_paid_once_per_turn() {
    let mut s = ResourceCalcSystem { last_turn: -1 };
    let buildings = vec![
        building(1, TileType::Center, 0, pos(1, 1)),
        building(2, TileType::WoodBuilding, 0, pos(2, 2)),
        building(3, TileType::MetalBuilding, 1, pos(3, 3)),
        building(4, TileType::ScienceBuilding, 0, pos(4, 4)),
    ];
    let mut players = vec![Player::new(0), Player::new(1)];
    s.run(&info(0), &buildings, &mut players, &Turn { num: 0 });
    assert_eq!(players[0], Player { num: 0, wood: 15, metal: 5, faith: 0, science: 25 });
    assert_eq!(players[1], Player::new(1));
    assert_eq!(s.last_turn, 0);
    s.run(&info(0), &buildings, &mut players, &Turn { num: 0 });
    assert_eq!(players[0].wood, 15);
}

#[test]
fn win_goes_to_player_with_centres() {
    let mut w = WinState { case: false, num_winner: 0 };
    let buildings = vec![building(1, TileType::Center, 1, pos(0, 0))];
    WinCheckSystem.run(&buildings, &Turn { num: 1 }, &mut w);
    assert!(!w.case);
    WinCheckSystem.run(&buildings, &Turn { num: 2 }, &mut w);
    assert_eq!(w, WinState { case: true, num_winner: 2 });
    let mut w = WinState { case: false, num_winner: 0 };
    let buildings = vec![building(1, TileType::Center, 0, pos(0, 0))];
    WinCheckSystem.run(&buildings, &Turn { num: 5 }, &mut w);
    assert_eq!(w, WinState { case: true, num_winner: 1 });
    let mut w = WinState { case: false, num_winner: 0 };
    let buildings = vec![building(1, TileType::Center, 0, pos(0, 0)), building(2, TileType::Center, 1, pos(1, 1))];
    WinCheckSystem.run(&buildings, &Turn { num: 5 }, &mut w);
    assert!(!w.case);
}

#[test]
fn resource_bar_shows_current_player() {
    let players = vec![Player { num: 0, wood: 5, metal: -3, faith: 12, science: 0 }, Player::new(1)];
    assert_eq!(ResourceDispSystem.run(&info(0), &players), Some("Wood: 5, Metal: -3, Faith: 12".to_string()));
    assert_eq!(ResourceDispSystem.run(&info(3), &players), None);
    assert_eq!(resource_string(&Player::new(1)), "Wood: 0, Metal: 0, Faith: 0");
    assert_eq!(win_string(2), "Player 2 WON!");
}

#[test]
fn barrack_produces_stacked_unit_each_turn() {
    let mut s = UnitTurnSystem { last_turn: -1 };
    let mut b = barrack(1, 0, pos(5, 5), pos(4, 5));
    let mut stack = b.stack.unwrap();
    stack.push(TileType::Warrior);
    b.stack = Some(stack);
    let mut buildings = vec![b];
    let mut players = vec![Player { num: 0, wood: 10, metal: 0, faith: 0, science: 0 }];
    let mut units = Vec::new();
    let mut layer3 = initialise_unit_sheet();
    let mut alloc = EntityAlloc { next: 10 };
    s.run(&mut buildings, &mut players, &mut units, &mut layer3, &mut alloc, &Turn { num: 0 }, &info(0));
    assert_eq!(units.len(), 1);
    assert_eq!(units[0].ent, 10);
    assert_eq!(units[0].pos, pos(4, 5));
    assert_eq!(units[0].unit, Unit { unit_type: TileType::Warrior, playernum: 0 });
    assert_eq!(units[0].stat.health, 200);
    assert_eq!(units[0].stat.resistance, 20);
    assert_eq!(units[0].stat.speed, 0);
    assert_eq!(players[0].wood, 0);
    assert_eq!(buildings[0].stack.unwrap().top, 0);
    let idx = 4 * 50 + 5;
    assert_eq!(layer3[idx].tile.tile_type, Some(TileType::Warrior));
    assert_eq!(layer3[idx].sprite_number, 12);
    assert_eq!(s.last_turn, 0);
    // same turn: nothing more
    s.run(&mut buildings, &mut players, &mut units, &mut layer3, &mut alloc, &Turn { num: 0 }, &info(0));
    assert_eq!(units.len(), 1);
}

#[test]
fn unaffordable_unit_goes_back_on_the_stack() {
    let mut s = UnitTurnSystem { last_turn: 0 };
    let mut b = barrack(1, 0, pos(5, 5), pos(4, 5));
    let mut stack = b.stack.unwrap();
    stack.push(TileType::Heavy);
    b.stack = Some(stack);
    let mut buildings = vec![b];
    let mut players = vec![Player { num: 0, wood: 20, metal: 10, faith: 0, science: 0 }];
    let mut units = Vec::new();
    let mut layer3 = initialise_unit_sheet();
    let mut alloc = EntityAlloc { next: 0 };
    s.run(&mut buildings, &mut players, &mut units, &mut layer3, &mut alloc, &Turn { num: 1 }, &info(0));
    assert!(units.is_empty());
    // the whole price is short, so nothing is paid
    assert_eq!(players[0].wood, 20);
    assert_eq!(players[0].metal, 10);
    // the heavy is put back once: the stack is as it was
    let mut st = buildings[0].stack.unwrap();
    assert_eq!(st.top, 1);
    assert_eq!(st.pop(), Some(TileType::Heavy));
    assert_eq!(st.pop(), None);
}

#[test]
fn unaffordable_unit_is_put_back_once_with_two_players() {
    let mut s = UnitTurnSystem { last_turn: 0 };
    let mut b = barrack(1, 0, pos(5, 5), pos(4, 5));
    let mut stack = b.stack.unwrap();
    stack.push(TileType::Warrior);
    b.stack = Some(stack);
    let mut buildings = vec![b];
    let mut players = vec![Player { num: 0, wood: 0, metal: 0, faith: 0, science: 0 }, rich(1)];
    let mut units = Vec::new();
    let mut layer3 = initialise_unit_sheet();
    let mut alloc = EntityAlloc { next: 0 };
    s.run(&mut buildings, &mut players, &mut units, &mut layer3, &mut alloc, &Turn { num: 1 }, &info(0));
    assert!(units.is_empty());
    assert_eq!(buildings[0].stack.unwrap().top, 1);
    assert_eq!(alloc.next, 0);
}

#[test]
fn one_unit_per_popped_type_with_two_players() {
    let mut s = UnitTurnSystem { last_turn: 0 };
    let mut b = barrack(1, 0, pos(5, 5), pos(4, 5));
    let mut stack = b.stack.unwrap();
    stack.push(TileType::Monk);
    b.stack = Some(stack);
    let mut buildings = vec![b];
    let mut players = vec![rich(0), rich(1)];
    let mut units = Vec::new();
    let mut layer3 = initialise_unit_sheet();
    let mut alloc = EntityAlloc { next: 0 };
    s.run(&mut buildings, &mut players, &mut units, &mut layer3, &mut alloc, &Turn { num: 1 }, &info(0));
    assert_eq!(units.len(), 1);
    assert_eq!(units[0].stat.multi_hit_amount, 3);
    assert_eq!(alloc.next, 1);
    assert_eq!(buildings[0].stack.unwrap().top, 0);
    assert_eq!((players[0].wood, players[0].metal), (95, 70));
    assert_eq!(players[1], rich(1));
}

#[test]
fn attack_damage_follows_the_dice() {
    // extra hits land on the attacker's own chance; the target's is ignored
    let att = Stat { speed: 0, health: 100, attack: 30, resistance: 0, multi_hit_chance: 50, multi_hit_amount: 3, crit_chance: 30, exhausted: false };
    let tgt = Stat { speed: 0, health: 200, attack: 50, resistance: 20, multi_hit_chance: 100, multi_hit_amount: 0, crit_chance: 0, exhausted: false };
    let resisted = AttackRolls { resist_roll: 19, crit_roll: 0, multi_rolls: vec![] };
    assert_eq!(resolve_attack(&att, &tgt, &resisted), 200);
    let crit = AttackRolls { resist_roll: 20, crit_roll: 29, multi_rolls: vec![10, 50, 49] };
    // critical 45, two of three extra hits land: 200 - 45 - 60
    assert_eq!(resolve_attack(&att, &tgt, &crit), 95);
    let plain = AttackRolls { resist_roll: 99, crit_roll: 30, multi_rolls: vec![99, 99, 99] };
    assert_eq!(resolve_attack(&att, &tgt, &plain), 170);
}

#[test]
fn rolled_dice_are_percentages() {
    let att = Stat { speed: 0, health: 100, attack: 30, resistance: 0, multi_hit_chance: 0, multi_hit_amount: 3, crit_chance: 30, exhausted: false };
    let tgt = Stat { resistance: 0, ..att };
    let mut seen = std::collections::HashSet::new();
    for _ in 0..200 {
        let r = roll_attack(&att, &tgt);
        assert!(r.resist_roll < 100 && r.crit_roll < 100);
        assert_eq!(r.multi_rolls.len(), 3);
        assert!(r.multi_rolls.iter().all(|&x| x < 100));
        seen.insert(r.resist_roll);
    }
    assert!(seen.len() > 10);
}

fn interact_frame(
    s: &mut UnitInteractSystem,
    units: &mut Vec<UnitEntity>,
    layer2: &mut Vec<SheetTile>,
    layer3: &mut Vec<SheetTile>,
    buildings: &mut Vec<BuildingEntity>,
    follower: &mut Follower,
    at: MouseTilePos,
    down: bool,
    turn: i32,
) -> Option<AttackRolls> {
    s.run(units, layer2, layer3, buildings, follower, &Build { mode: None }, &info(0), &at, down, &OnUi { case: false },
        &Turn { num: turn })
}

#[test]
fn unit_is_selected_and_moved() {
    let mut s = UnitInteractSystem::new();
    let mut units = vec![soldier(7, 0, pos(10, 10), warrior_stat())];
    let mut layer2 = initialise_building_sheet();
    let mut layer3 = initialise_unit_sheet();
    layer3[10 * 50 + 10].sprite_number = 12;
    let mut buildings = Vec::new();
    let mut follower = Follower { kind: TileType::Empty };
    let r = interact_frame(&mut s, &mut units, &mut layer2, &mut layer3, &mut buildings, &mut follower, mouse(10, 10), true, 0);
    assert!(r.is_none());
    assert!(s.focused);
    assert_eq!(s.focused_ent, Some(7));
    // hovering a reachable tile shows the move target
    let _ = interact_frame(&mut s, &mut units, &mut layer2, &mut layer3, &mut buildings, &mut follower, mouse(11, 11), false, 0);
    assert_eq!(follower.kind, TileType::Location);
    assert!(s.valid_move);
    // too far away
    let _ = interact_frame(&mut s, &mut units, &mut layer2, &mut layer3, &mut buildings, &mut follower, mouse(13, 10), false, 0);
    assert_eq!(follower.kind, TileType::Empty);
    assert!(!s.valid_move);
    // hover then click a reachable tile: the unit moves and is exhausted
    let _ = interact_frame(&mut s, &mut units, &mut layer2, &mut layer3, &mut buildings, &mut follower, mouse(11, 10), false, 0);
    assert!(s.valid_move);
    let _ = interact_frame(&mut s, &mut units, &mut layer2, &mut layer3, &mut buildings, &mut follower, mouse(11, 10), true, 0);
    assert_eq!(units[0].pos, pos(11, 10));
    assert!(units[0].stat.exhausted);
    assert!(!s.focused);
    assert_eq!(layer3[11 * 50 + 10].sprite_number, 12);
    assert_eq!(layer3[10 * 50 + 10].sprite_number, 4);
}

#[test]
fn click_on_invalid_target_drops_focus() {
    let mut s = UnitInteractSystem { focused_ent: Some(7), focused: true, valid_move: false, last_turn: 0, turns_til_claim: None };
    let mut units = vec![soldier(7, 0, pos(10, 10), warrior_stat())];
    let mut layer2 = initialise_building_sheet();
    let mut layer3 = initialise_unit_sheet();
    let mut buildings = Vec::new();
    let mut follower = Follower { kind: TileType::Empty };
    let _ = interact_frame(&mut s, &mut units, &mut layer2, &mut layer3, &mut buildings, &mut follower, mouse(11, 10), true, 0);
    assert!(!s.focused);
    assert_eq!(units[0].pos, pos(10, 10));
}

#[test]
fn new_turn_drops_focus_and_counts_down_claim() {
    let mut s = UnitInteractSystem { focused_ent: Some(7), focused: true, valid_move: true, last_turn: 0, turns_til_claim: Some(2) };
    let mut units = vec![soldier(7, 0, pos(10, 10), warrior_stat())];
    let mut layer2 = initialise_building_sheet();
    let mut layer3 = initialise_unit_sheet();
    let mut buildings = Vec::new();
    let mut follower = Follower { kind: TileType::Empty };
    let _ = interact_frame(&mut s, &mut units, &mut layer2, &mut layer3, &mut buildings, &mut follower, mouse(0, 0), false, 1);
    assert_eq!(s, UnitInteractSystem { focused_ent: None, focused: false, valid_move: true, last_turn: 1, turns_til_claim: Some(1) });
}

#[test]
fn adjacent_enemy_forces_combat() {
    let mut s = UnitInteractSystem { focused_ent: Some(1), focused: true, valid_move: true, last_turn: 0, turns_til_claim: None };
    let weak = Stat { health: 1, resistance: 0, ..warrior_stat() };
    let mut units = vec![soldier(1, 0, pos(10, 10), warrior_stat()), soldier(2, 1, pos(10, 11), weak)];
    let mut layer2 = initialise_building_sheet();
    let mut layer3 = initialise_unit_sheet();
    layer3[10 * 50 + 11].sprite_number = 12;
    let mut buildings = Vec::new();
    let mut follower = Follower { kind: TileType::Empty };
    // hovering does nothing in combat
    let r = interact_frame(&mut s, &mut units, &mut layer2, &mut layer3, &mut buildings, &mut follower, mouse(12, 12), false, 0);
    assert!(r.is_none());
    assert_eq!(units.len(), 2);
    // clicking the enemy attacks; with no resistance the weak enemy dies
    let r = interact_frame(&mut s, &mut units, &mut layer2, &mut layer3, &mut buildings, &mut follower, mouse(10, 11), true, 0);
    assert!(r.is_some());
    assert_eq!(units.len(), 1);
    assert!(units[0].stat.exhausted);
    assert_eq!(layer3[10 * 50 + 11].sprite_number, 4);
}

#[test]
fn unit_claims_enemy_building_after_countdown() {
    let mut s = UnitInteractSystem { focused_ent: Some(1), focused: true, valid_move: false, last_turn: 0, turns_til_claim: None };
    let tired = Stat { exhausted: true, ..warrior_stat() };
    let mut units = vec![soldier(1, 0, pos(20, 20), tired)];
    let mut layer2 = initialise_building_sheet();
    let idx = 20 * 50 + 20;
    layer2[idx].tile.tile_type = Some(TileType::Center);
    layer2[idx].sprite_number = 5;
    let mut layer3 = initialise_unit_sheet();
    // an enemy barrack elsewhere is listed first; only the centre under the unit is claimed
    let mut buildings = vec![building(6, TileType::Barrack, 1, pos(9, 9)), building(5, TileType::Center, 1, pos(20, 20))];
    let mut follower = Follower { kind: TileType::Empty };
    let _ = interact_frame(&mut s, &mut units, &mut layer2, &mut layer3, &mut buildings, &mut follower, mouse(0, 0), false, 0);
    assert_eq!(s.turns_til_claim, Some(2));
    assert_eq!(buildings.len(), 2);
    s.turns_til_claim = Some(0);
    let _ = interact_frame(&mut s, &mut units, &mut layer2, &mut layer3, &mut buildings, &mut follower, mouse(0, 0), false, 0);
    assert_eq!(buildings.len(), 1);
    assert_eq!(buildings[0].ent, 6);
    assert_eq!(s.turns_til_claim, None);
    assert_eq!(layer2[idx].tile.tile_type, None);
    assert_eq!(layer2[idx].sprite_number, 4);
}

#[test]
fn interface_hover_blocks_unit_interaction() {
    let mut s = UnitInteractSystem::new();
    let mut units = vec![soldier(7, 0, pos(10, 10), warrior_stat())];
    let mut layer2 = initialise_building_sheet();
    let mut layer3 = initialise_unit_sheet();
    let mut buildings = Vec::new();
    let mut follower = Follower { kind: TileType::Empty };
    let _ = s.run(&mut units, &mut layer2, &mut layer3, &mut buildings, &mut follower, &Build { mode: None }, &info(0),
        &mouse(10, 10), true, &OnUi { case: true }, &Turn { num: 5 });
    assert_eq!(s, UnitInteractSystem::new());
}

#[test]
fn barrack_menu_queues_units_and_sets_output() {
    let mut s = BuildingInteractSystem::new();
    let mut buildings = vec![barrack(3, 0, pos(8, 8), pos(7, 8))];
    let mut menus = MenuState { build_menu: Some(true), barracks_menu: Some(false), lower_panel: Some(false) };
    let mut follower = Follower { kind: TileType::Empty };
    let build = Build { mode: None };
    let onui = OnUi { case: false };
    let mut events = Vec::new();
    // first run hides the barracks menu; the click on the barrack opens it
    s.run(&mut buildings, &mut menus, &mut follower, &build, &info(0), &mouse(8, 8), true, &onui, &mut events);
    assert!(!s.first_run);
    assert!(s.focused);
    assert_eq!(s.focused_ent, Some(3));
    assert_eq!(menus.barracks_menu, Some(false));
    assert_eq!(menus.lower_panel, Some(true));
    // queue two units and cancel one
    let mut events = vec![UiButton::Warrior, UiButton::Heavy, UiButton::Cancel, UiButton::Monk];
    s.run(&mut buildings, &mut menus, &mut follower, &build, &info(0), &mouse(8, 8), false, &onui, &mut events);
    assert!(events.is_empty());
    let mut st = buildings[0].stack.unwrap();
    assert_eq!(st.top, 2);
    assert_eq!(st.pop(), Some(TileType::Monk));
    assert_eq!(st.pop(), Some(TileType::Warrior));
    // location mode: a click within two tiles sets the output
    let mut events = vec![UiButton::Location];
    s.run(&mut buildings, &mut menus, &mut follower, &build, &info(0), &mouse(8, 8), false, &onui, &mut events);
    assert!(s.location_mode);
    let mut events = Vec::new();
    s.run(&mut buildings, &mut menus, &mut follower, &build, &info(0), &mouse(11, 8), true, &onui, &mut events);
    assert_eq!(follower.kind, TileType::Empty);
    assert!(s.location_mode);
    s.run(&mut buildings, &mut menus, &mut follower, &build, &info(0), &mouse(10, 9), true, &onui, &mut events);
    assert_eq!(buildings[0].outpos, Some(OutPos { pos: pos(10, 9) }));
    assert!(!s.location_mode);
    assert_eq!(follower.kind, TileType::Location);
    // clicking away from buildings closes the menu
    s.run(&mut buildings, &mut menus, &mut follower, &build, &info(0), &mouse(30, 30), true, &onui, &mut events);
    assert!(!s.focused);
    assert_eq!(menus.barracks_menu, Some(true));
    assert_eq!(menus.lower_panel, Some(false));
}

#[test]
fn mouse_systems_track_the_pointer() {
    let mut m = mouse(1, 1);
    M2TileSystem.run(Some(pos(4, 2)), &mut m);
    assert_eq!(m, mouse(4, 2));
    M2TileSystem.run(None, &mut m);
    assert_eq!(m, mouse(4, 2));
    let positions = vec![pos(4, 2), pos(0, 0), pos(4, 2)];
    let (idx, sprite) = TileMouseFollow.run(&positions, &m, &Follower { kind: TileType::Barrack });
    assert_eq!(idx, Some(2));
    assert_eq!(sprite, 6);
    let (idx, _) = TileMouseFollow.run(&positions, &mouse(9, 9), &Follower { kind: TileType::Empty });
    assert_eq!(idx, None);
}

#[test]
fn ui_panel_starts_below_row_1070() {
    let mut onui = OnUi { case: true };
    UIDetect.run(Some(1070), &mut onui);
    assert!(!onui.case);
    UIDetect.run(Some(1071), &mut onui);
    assert!(onui.case);
    UIDetect.run(None, &mut onui);
    assert!(onui.case);
    UIDetect.run(Some(3), &mut onui);
    assert!(!onui.case);
}

#[test]
fn tiles_never_move() {
    let positions = |layer: &Vec<SheetTile>| layer.iter().map(|t| t.pos).collect::<Vec<TilePos>>();
    // building
    let layer1 = terrain(&[(3, 3, TileType::Forest)]);
    let mut layer2 = initialise_building_sheet();
    let before2 = positions(&layer2);
    let mut buildings = Vec::new();
    let mut players = vec![rich(0)];
    let mut build = Build { mode: Some(TileType::WoodBuilding) };
    let mut follower = Follower { kind: TileType::Empty };
    let mut alloc = EntityAlloc { next: 0 };
    let built = SheetSystem.run(&layer1, &mut layer2, &mut buildings, &mut players, &mut build, &info(0),
        &mouse(3, 3), &mut follower, true, &mut alloc);
    assert_eq!(built, Some(pos(3, 3)));
    assert_eq!(positions(&layer2), before2);
    // producing a unit
    let mut s = UnitTurnSystem { last_turn: -1 };
    let mut b = barrack(7, 0, pos(5, 5), pos(4, 5));
    let mut stack = b.stack.unwrap();
    stack.push(TileType::Warrior);
    b.stack = Some(stack);
    let mut barracks = vec![b];
    let mut units = Vec::new();
    let mut layer3 = initialise_unit_sheet();
    let before3 = positions(&layer3);
    s.run(&mut barracks, &mut players, &mut units, &mut layer3, &mut alloc, &Turn { num: 0 }, &info(0));
    assert_eq!(units.len(), 1);
    assert_eq!(positions(&layer3), before3);
}

#[test]
fn enemy_barrack_is_not_focused() {
    let mut s = BuildingInteractSystem::new();
    let mut buildings = vec![barrack(4, 1, pos(8, 8), pos(7, 8)), building(5, TileType::Center, 0, pos(8, 8))];
    let mut menus = MenuState { build_menu: Some(true), barracks_menu: Some(true), lower_panel: Some(false) };
    let mut follower = Follower { kind: TileType::Empty };
    let mut events = Vec::new();
    s.run(&mut buildings, &mut menus, &mut follower, &Build { mode: None }, &info(0), &mouse(8, 8), true,
        &OnUi { case: false }, &mut events);
    assert!(!s.focused);
    assert_eq!(s.focused_ent, None);
    assert_eq!(menus.barracks_menu, Some(true));
    assert_eq!(menus.lower_panel, Some(false));
}

#[test]
fn new_building_never_replaces_another() {
    let layer1 = terrain(&[(6, 6, TileType::Forest)]);
    let mut layer2 = initialise_building_sheet();
    let idx = 6 * 50 + 6;
    layer2[idx].tile.tile_type = Some(TileType::MetalBuilding);
    layer2[idx].sprite_number = 9;
    let mut buildings = Vec::new();
    let mut players = vec![rich(0)];
    let mut build = Build { mode: Some(TileType::WoodBuilding) };
    let mut follower = Follower { kind: TileType::Empty };
    let mut alloc = EntityAlloc { next: 0 };
    // the library refuses the frame: there is no empty tile to build on
    assert!(!SheetSystem.can_run(&layer1, &layer2, &buildings, &players, &build, &info(0), &mouse(6, 6), true,
        &alloc));
    // without a click nothing is built and the occupied tile stays
    let built = SheetSystem.run(&layer1, &mut layer2, &mut buildings, &mut players, &mut build, &info(0),
        &mouse(6, 6), &mut follower, false, &mut alloc);
    assert_eq!(built, None);
    assert_eq!(layer2[idx].tile.tile_type, Some(TileType::MetalBuilding));
    assert_eq!(follower.kind, TileType::WoodBuilding);
}

#[test]
fn centre_is_chosen_once_over_many_runs_in_a_turn() {
    let mut s = BuildSystem { run: true, centered_turn: 1 };
    let mut menus = MenuState { build_menu: Some(true), barracks_menu: None, lower_panel: None };
    let mut chosen = 0;
    for _ in 0..3 {
        let mut build = Build { mode: None };
        let mut events = vec![UiButton::Center, UiButton::Build, UiButton::Center];
        s.run(&mut build, &mut menus, &mut events, &Turn { num: 2 });
        if build.mode == Some(TileType::Center) {
            chosen += 1;
        }
    }
    assert_eq!(chosen, 1);
    assert_eq!(s.centered_turn, 2);
}

use vstd::prelude::*;
use crate::components::tiles::{TilePos, TileType, Tiles, sprite_of, diff_fits, dist2, distance_squared, offsets_fit};
use crate::components::player::PlayersInfo;
use crate::components::builds::Build;
use crate::components::unit::Stat;
use crate::game::{SheetTile, BuildingEntity, UnitEntity, MouseTilePos, Follower, OnUi, Turn};
use crate::systems::combat::{AttackRolls, attack_damage, damage_fits, rolls_valid, roll_attack, resolve_attack, check_damage_fits};

verus! {

/// Selecting, moving and fighting with units, and claiming enemy city centres.
#[derive(PartialEq, Eq, Structural, Copy, Clone, Debug)]
pub struct UnitInteractSystem {
    pub focused_ent: Option<u64>,
    pub focused: bool,
    pub valid_move: bool,
    pub last_turn: i32,
    pub turns_til_claim: Option<i32>,
}

/// A unit of player `cur` under the mouse.
pub open spec fn own_unit_at(u: UnitEntity, mouse: TilePos, cur: i32) -> bool {
    u.pos == mouse && u.unit.playernum == cur
}

/// The last unit of player `cur` under the mouse among the first `n` units.
pub open spec fn last_own_unit_upto(units: Seq<UnitEntity>, n: int, mouse: TilePos, cur: i32) -> Option<u64>
    decreases n,
{
    if n <= 0 {
        None
    } else if own_unit_at(units[n - 1], mouse, cur) {
        Some(units[n - 1].ent)
    } else {
        last_own_unit_upto(units, n - 1, mouse, cur)
    }
}

/// The last unit of player `cur` under the mouse.
pub open spec fn last_own_unit(units: Seq<UnitEntity>, mouse: TilePos, cur: i32) -> Option<u64> {
    last_own_unit_upto(units, units.len() as int, mouse, cur)
}

/// Some unit, of any player, is under the mouse.
pub open spec fn unit_at(units: Seq<UnitEntity>, mouse: TilePos) -> bool {
    exists|i: int| 0 <= i < units.len() && (#[trigger] units[i]).pos == mouse
}

/// Selection, before turn and action handling. A follower left showing a
/// move target while nothing is focused is cleared. A left click (outside
/// demolish mode) while nothing is focused selects the last own unit under the
/// mouse; a left click while focused on no unit, when the last move target
/// was not valid, drops the focus.
pub open spec fn select_phase(
    s: UnitInteractSystem,
    fol: Follower,
    units: Seq<UnitEntity>,
    mouse: TilePos,
    down: bool,
    mode: Option<TileType>,
    cur: i32,
) -> (UnitInteractSystem, Follower) {
    let (s0, fol0) = if fol.kind == TileType::Location && s.focused_ent is Some && !s.focused {
        (UnitInteractSystem { focused_ent: None, ..s }, Follower { kind: TileType::Empty })
    } else {
        (s, fol)
    };
    if down && mode != Some(TileType::Demolish) && !s0.focused {
        match last_own_unit(units, mouse, cur) {
            Some(e) => (UnitInteractSystem { focused: true, focused_ent: Some(e), ..s0 }, fol0),
            None => (s0, fol0),
        }
    } else if down && s0.focused {
        if !unit_at(units, mouse) && !s0.valid_move {
            (UnitInteractSystem { focused: false, ..s0 }, fol0)
        } else {
            (s0, fol0)
        }
    } else {
        (s0, fol0)
    }
}

/// Index `j` holds the first unit with identifier `e`.
pub open spec fn first_with_ent(units: Seq<UnitEntity>, e: u64, j: int) -> bool {
    &&& 0 <= j < units.len()
    &&& units[j].ent == e
    &&& forall|k: int| 0 <= k < j ==> (#[trigger] units[k]).ent != e
}

/// Some unit has identifier `e`.
pub open spec fn has_ent(units: Seq<UnitEntity>, e: u64) -> bool {
    exists|j: int| 0 <= j < units.len() && (#[trigger] units[j]).ent == e
}

/// The index of the first unit with identifier `e`.
pub open spec fn ent_index(units: Seq<UnitEntity>, e: u64) -> int {
    choose|j: int| first_with_ent(units, e, j)
}

/// An enemy of player `cur` next to (at most one tile from) `fp`.
pub open spec fn enemy_near(u: UnitEntity, fp: TilePos, cur: i32) -> bool {
    u.unit.playernum != cur && dist2(u.pos, fp) <= 1
}

/// Some enemy unit stands next to `fp`: the focused unit must fight.
pub open spec fn combat_mode(units: Seq<UnitEntity>, fp: TilePos, cur: i32) -> bool {
    exists|i: int| 0 <= i < units.len() && #[trigger] enemy_near(units[i], fp, cur)
}

/// Every enemy unit lies within `i32` offsets of `fp`.
pub open spec fn enemies_fit(units: Seq<UnitEntity>, fp: TilePos, cur: i32) -> bool {
    forall|i: int| 0 <= i < units.len() && (#[trigger] units[i]).unit.playernum != cur ==> diff_fits(units[i].pos, fp)
}

/// The last enemy unit under the mouse among the first `n` units.
pub open spec fn target_upto(units: Seq<UnitEntity>, n: int, mouse: TilePos, cur: i32) -> Option<int>
    decreases n,
{
    if n <= 0 {
        None
    } else if units[n - 1].pos == mouse && units[n - 1].unit.playernum != cur {
        Some(n - 1)
    } else {
        target_upto(units, n - 1, mouse, cur)
    }
}

/// The last enemy unit under the mouse: the one attacked.
pub open spec fn attack_target(units: Seq<UnitEntity>, mouse: TilePos, cur: i32) -> Option<int> {
    target_upto(units, units.len() as int, mouse, cur)
}

/// Index `j` holds the first tile of a layer at `p`.
pub open spec fn first_tile_at(layer: Seq<SheetTile>, p: TilePos, j: int) -> bool {
    &&& 0 <= j < layer.len()
    &&& layer[j].pos == p
    &&& forall|k: int| 0 <= k < j ==> (#[trigger] layer[k]).pos != p
}

/// The first tile of a layer at `p` is drawn blank.
pub open spec fn blank_first_at(layer: Seq<SheetTile>, p: TilePos) -> Seq<SheetTile> {
    if exists|j: int| 0 <= j < layer.len() && (#[trigger] layer[j]).pos == p {
        let j = choose|j: int| first_tile_at(layer, p, j);
        layer.update(j, SheetTile { sprite_number: 4, ..layer[j] })
    } else {
        layer
    }
}

/// The units and unit layer after the unit at `fi` attacks the unit at `t`
/// with the given dice: the target loses health, the attacker is exhausted,
/// and a target whose health drops to zero or below is removed and the first
/// unit-layer tile at its position drawn blank.
pub open spec fn combat_result(
    units: Seq<UnitEntity>,
    layer3: Seq<SheetTile>,
    fi: int,
    t: int,
    rolls: AttackRolls,
) -> (Seq<UnitEntity>, Seq<SheetTile>) {
    let att = units[fi].stat;
    let tgt = units[t].stat;
    let h = tgt.health - attack_damage(att, tgt, rolls);
    let u1 = units.update(t, UnitEntity { stat: Stat { health: h as i32, ..tgt }, ..units[t] });
    let u2 = u1.update(fi, UnitEntity { stat: Stat { exhausted: true, ..u1[fi].stat }, ..u1[fi] });
    if h <= 0 {
        (u2.remove(t), blank_first_at(layer3, units[t].pos))
    } else {
        (u2, layer3)
    }
}

/// A move to `mouse` is allowed: within the unit's speed, the unit not
/// exhausted, and not onto its own tile.
pub open spec fn move_valid(stat: Stat, fp: TilePos, mouse: TilePos) -> bool {
    &&& stat.speed >= 0
    &&& dist2(mouse, fp) <= stat.speed * stat.speed
    &&& !stat.exhausted
    &&& mouse != fp
}

/// The unit layer after a unit drawn with `sprite` moves from `fp` to
/// `mouse`: tiles at the mouse show the unit, tiles at the old position
/// are drawn blank.
pub open spec fn moved_layer(layer3: Seq<SheetTile>, mouse: TilePos, fp: TilePos, sprite: usize) -> Seq<SheetTile> {
    Seq::new(
        layer3.len(),
        |i: int| if layer3[i].pos == mouse {
            SheetTile { sprite_number: sprite, ..layer3[i] }
        } else if layer3[i].pos == fp {
            SheetTile { sprite_number: 4, ..layer3[i] }
        } else {
            layer3[i]
        },
    )
}

/// Some tile of the layer is at `p`.
pub open spec fn tile_at(layer: Seq<SheetTile>, p: TilePos) -> bool {
    exists|i: int| 0 <= i < layer.len() && (#[trigger] layer[i]).pos == p
}

/// `b` is a city centre of another player than `cur`, standing at `fp`.
pub open spec fn enemy_centre_at(b: BuildingEntity, fp: TilePos, cur: i32) -> bool {
    &&& b.pos == fp
    &&& b.building.playernum != cur
    &&& b.building.tile_type == TileType::Center
}

/// Some city centre of another player stands at `fp`.
pub open spec fn has_enemy_centre(buildings: Seq<BuildingEntity>, fp: TilePos, cur: i32) -> bool {
    exists|j: int| 0 <= j < buildings.len() && #[trigger] enemy_centre_at(buildings[j], fp, cur)
}

/// Index `j` holds the first city centre of another player at `fp`.
pub open spec fn first_enemy_centre(buildings: Seq<BuildingEntity>, fp: TilePos, cur: i32, j: int) -> bool {
    &&& 0 <= j < buildings.len()
    &&& enemy_centre_at(buildings[j], fp, cur)
    &&& forall|k: int| 0 <= k < j ==> !enemy_centre_at(#[trigger] buildings[k], fp, cur)
}

/// One step of claiming at building-layer tile `i`. When the tile is at `fp`
/// and holds a building and a city centre of another player stands at `fp`:
/// with no countdown one starts at two turns; at zero that centre is
/// removed, the tile cleared and the countdown ended; otherwise nothing
/// happens.
pub open spec fn claim_step(
    st: (Seq<SheetTile>, Seq<BuildingEntity>, Option<i32>),
    i: int,
    fp: TilePos,
    cur: i32,
) -> (Seq<SheetTile>, Seq<BuildingEntity>, Option<i32>) {
    let t = st.0[i];
    if t.pos == fp && t.tile.tile_type is Some && has_enemy_centre(st.1, fp, cur) {
        match st.2 {
            None => (st.0, st.1, Some(2i32)),
            Some(v) => if v == 0 {
                let j = choose|j: int| first_enemy_centre(st.1, fp, cur, j);
                (
                    st.0.update(i, SheetTile { tile: Tiles { tile_type: None, ..t.tile }, sprite_number: 4, ..t }),
                    st.1.remove(j),
                    None,
                )
            } else {
                st
            },
        }
    } else {
        st
    }
}

/// Claiming over the first `n` building-layer tiles.
pub open spec fn claim_upto(
    layer2: Seq<SheetTile>,
    buildings: Seq<BuildingEntity>,
    ttc: Option<i32>,
    fp: TilePos,
    cur: i32,
    n: int,
) -> (Seq<SheetTile>, Seq<BuildingEntity>, Option<i32>)
    decreases n,
{
    if n <= 0 {
        (layer2, buildings, ttc)
    } else {
        claim_step(claim_upto(layer2, buildings, ttc, fp, cur, n - 1), n - 1, fp, cur)
    }
}

/// The building layer, buildings and countdown after claiming at `fp`.
pub open spec fn claimed(
    layer2: Seq<SheetTile>,
    buildings: Seq<BuildingEntity>,
    ttc: Option<i32>,
    fp: TilePos,
    cur: i32,
) -> (Seq<SheetTile>, Seq<BuildingEntity>, Option<i32>) {
    claim_upto(layer2, buildings, ttc, fp, cur, layer2.len() as int)
}

/// The last unit of player `cur` under the mouse.
fn find_last_own_unit(units: &Vec<UnitEntity>, mouse: TilePos, cur: i32) -> (r: Option<u64>)
    ensures
        r == last_own_unit(units@, mouse, cur),
{
    let mut r: Option<u64> = None;
    let mut i: usize = 0;
    while i < units.len()
        invariant
            0 <= i <= units.len(),
            r == last_own_unit_upto(units@, i as int, mouse, cur),
        decreases units.len() - i,
    {
        if units[i].pos == mouse && units[i].unit.playernum == cur {
            r = Some(units[i].ent);
        }
        i = i + 1;
    }
    r
}

/// Whether some unit is under the mouse.
fn any_unit_at(units: &Vec<UnitEntity>, mouse: TilePos) -> (r: bool)
    ensures
        r == unit_at(units@, mouse),
{
    let mut i: usize = 0;
    while i < units.len()
        invariant
            0 <= i <= units.len(),
            forall|k: int| 0 <= k < i ==> (#[trigger] units@[k]).pos != mouse,
        decreases units.len() - i,
    {
        if units[i].pos == mouse {
            return true;
        }
        i = i + 1;
    }
    false
}

/// The index of the first unit with identifier `e`.
fn find_unit(units: &Vec<UnitEntity>, e: u64) -> (r: Option<usize>)
    ensures
        r matches Some(j) ==> first_with_ent(units@, e, j as int) && j == ent_index(units@, e),
        r is None ==> !has_ent(units@, e),
{
    let mut i: usize = 0;
    while i < units.len()
        invariant
            0 <= i <= units.len(),
            forall|k: int| 0 <= k < i ==> (#[trigger] units@[k]).ent != e,
        decreases units.len() - i,
    {
        if units[i].ent == e {
            proof {
                lemma_ent_index_unique(units@, e, i as int);
            }
            return Some(i);
        }
        i = i + 1;
    }
    None
}

/// The first unit with a given identifier is unique.
proof fn lemma_ent_index_unique(units: Seq<UnitEntity>, e: u64, j: int)
    requires
        first_with_ent(units, e, j),
    ensures
        ent_index(units, e) == j,
{
    let jj = ent_index(units, e);
    assert(first_with_ent(units, e, jj));
    if jj < j {
        assert(units[jj].ent != e);
    } else if j < jj {
        assert(units[j].ent != e);
    }
}

/// Whether an enemy unit stands next to `fp`; every unit is looked at.
fn find_combat(units: &Vec<UnitEntity>, fp: TilePos, cur: i32) -> (r: bool)
    requires
        enemies_fit(units@, fp, cur),
    ensures
        r == combat_mode(units@, fp, cur),
{
    let mut combat = false;
    let mut i: usize = 0;
    while i < units.len()
        invariant
            0 <= i <= units.len(),
            enemies_fit(units@, fp, cur),
            combat == exists|k: int| 0 <= k < i && #[trigger] enemy_near(units@[k], fp, cur),
        decreases units.len() - i,
    {
        let u = &units[i];
        if u.unit.playernum != cur {
            let d = distance_squared(u.pos, fp);
            if d <= 1 {
                assert(enemy_near(units@[i as int], fp, cur));
                combat = true;
            }
        }
        i = i + 1;
    }
    combat
}

/// Whether every enemy unit lies within `i32` offsets of `fp`.
fn check_enemies_fit(units: &Vec<UnitEntity>, fp: TilePos, cur: i32) -> (r: bool)
    ensures
        r == enemies_fit(units@, fp, cur),
{
    let mut i: usize = 0;
    while i < units.len()
        invariant
            0 <= i <= units.len(),
            forall|j: int| 0 <= j < i && (#[trigger] units@[j]).unit.playernum != cur ==> diff_fits(units@[j].pos, fp),
        decreases units.len() - i,
    {
        if units[i].unit.playernum != cur && !offsets_fit(units[i].pos, fp) {
            return false;
        }
        i = i + 1;
    }
    true
}

/// The last enemy unit under the mouse.
fn find_target(units: &Vec<UnitEntity>, mouse: TilePos, cur: i32) -> (r: Option<usize>)
    ensures
        r matches Some(t) ==> attack_target(units@, mouse, cur) == Some(t as int) && t < units.len(),
        r is None ==> attack_target(units@, mouse, cur) is None,
{
    let mut r: Option<usize> = None;
    let mut i: usize = 0;
    while i < units.len()
        invariant
            0 <= i <= units.len(),
            r matches Some(t) ==> target_upto(units@, i as int, mouse, cur) == Some(t as int) && t < i,
            r is None ==> target_upto(units@, i as int, mouse, cur) is None,
        decreases units.len() - i,
    {
        if units[i].pos == mouse && units[i].unit.playernum != cur {
            r = Some(i);
        }
        i = i + 1;
    }
    r
}

/// Draws the first tile of a layer at `p` blank.
fn blank_first(layer: &mut Vec<SheetTile>, p: TilePos)
    ensures
        final(layer)@ == blank_first_at(old(layer)@, p),
{
    let mut i: usize = 0;
    while i < layer.len()
        invariant
            0 <= i <= layer.len(),
            layer@ == old(layer)@,
            forall|k: int| 0 <= k < i ==> (#[trigger] layer@[k]).pos != p,
        decreases layer.len() - i,
    {
        if layer[i].pos == p {
            proof {
                let jj = choose|j: int| first_tile_at(layer@, p, j);
                assert(first_tile_at(layer@, p, i as int));
                if jj < i {
                    assert(layer@[jj].pos != p);
                } else if (i as int) < jj {
                    assert(layer@[i as int].pos != p);
                }
            }
            let t = layer[i];
            layer.set(i, SheetTile { sprite_number: 4, ..t });
            return;
        }
        i = i + 1;
    }
}

/// Redraws the unit layer for a move from `fp` to `mouse`; returns whether
/// some tile is at the mouse.
fn move_on_layer(layer3: &mut Vec<SheetTile>, mouse: TilePos, fp: TilePos, sprite: usize) -> (found: bool)
    ensures
        final(layer3)@ == moved_layer(old(layer3)@, mouse, fp, sprite),
        found == tile_at(old(layer3)@, mouse),
{
    let ghost orig = layer3@;
    let mut found = false;
    let mut i: usize = 0;
    while i < layer3.len()
        invariant
            0 <= i <= layer3.len(),
            layer3.len() == orig.len(),
            found == exists|k: int| 0 <= k < i && (#[trigger] orig[k]).pos == mouse,
            forall|k: int| 0 <= k < i ==> #[trigger] layer3@[k] == moved_layer(orig, mouse, fp, sprite)[k],
            forall|k: int| i <= k < layer3.len() ==> #[trigger] layer3@[k] == orig[k],
        decreases layer3.len() - i,
    {
        let t = layer3[i];
        if t.pos == mouse {
            layer3.set(i, SheetTile { sprite_number: sprite, ..t });
            found = true;
        } else if t.pos == fp {
            layer3.set(i, SheetTile { sprite_number: 4, ..t });
        }
        i = i + 1;
    }
    assert(layer3@ =~= moved_layer(orig, mouse, fp, sprite));
    found
}

proof fn lemma_claim_len(
    layer2: Seq<SheetTile>,
    buildings: Seq<BuildingEntity>,
    ttc: Option<i32>,
    fp: TilePos,
    cur: i32,
    n: int,
)
    requires
        0 <= n <= layer2.len(),
    ensures
        claim_upto(layer2, buildings, ttc, fp, cur, n).0.len() == layer2.len(),
        forall|k: int| n <= k < layer2.len() ==> #[trigger] claim_upto(layer2, buildings, ttc, fp, cur, n).0[k] == layer2[k],
    decreases n,
{
    if n > 0 {
        lemma_claim_len(layer2, buildings, ttc, fp, cur, n - 1);
    }
}

/// The first city centre of another player at `fp`.
fn find_enemy_centre(buildings: &Vec<BuildingEntity>, fp: TilePos, cur: i32) -> (r: Option<usize>)
    ensures
        r matches Some(j) ==> first_enemy_centre(buildings@, fp, cur, j as int),
        r is None ==> !has_enemy_centre(buildings@, fp, cur),
{
    let mut i: usize = 0;
    while i < buildings.len()
        invariant
            0 <= i <= buildings.len(),
            forall|k: int| 0 <= k < i ==> !enemy_centre_at(#[trigger] buildings@[k], fp, cur),
        decreases buildings.len() - i,
    {
        let b = buildings[i];
        if b.pos == fp && b.building.playernum != cur && b.building.tile_type == TileType::Center {
            return Some(i);
        }
        i = i + 1;
    }
    None
}

/// Claims the enemy city centre from a unit standing at `fp` (see `claim_step`).
fn claim(
    layer2: &mut Vec<SheetTile>,
    buildings: &mut Vec<BuildingEntity>,
    ttc: &mut Option<i32>,
    fp: TilePos,
    cur: i32,
)
    ensures
        (final(layer2)@, final(buildings)@, *final(ttc)) == claimed(old(layer2)@, old(buildings)@, *old(ttc), fp, cur),
{
    let ghost orig2 = layer2@;
    let ghost origb = buildings@;
    let ghost origt = *ttc;
    let mut i: usize = 0;
    while i < layer2.len()
        invariant
            0 <= i <= layer2.len(),
            layer2.len() == orig2.len(),
            (layer2@, buildings@, *ttc) == claim_upto(orig2, origb, origt, fp, cur, i as int),
        decreases layer2.len() - i,
    {
        proof {
            lemma_claim_len(orig2, origb, origt, fp, cur, i as int);
        }
        let t = layer2[i];
        if t.pos == fp && t.tile.tile_type.is_some() {
            match find_enemy_centre(buildings, fp, cur) {
                Some(j) => {
                    match *ttc {
                        None => {
                            *ttc = Some(2);
                        },
                        Some(v) => {
                            if v == 0 {
                                proof {
                                    let jj = choose|jj: int| first_enemy_centre(buildings@, fp, cur, jj);
                                    if jj < j {
                                        assert(!enemy_centre_at(buildings@[jj], fp, cur));
                                    } else if j < jj {
                                        assert(!enemy_centre_at(buildings@[j as int], fp, cur));
                                    }
                                }
                                buildings.remove(j);
                                layer2.set(i, SheetTile {
                                    tile: Tiles { player: t.tile.player, tile_type: None },
                                    pos: t.pos,
                                    sprite_number: 4,
                                });
                                *ttc = None;
                            }
                        },
                    }
                },
                None => {},
            }
        }
        i = i + 1;
    }
}

/// The focused unit exists, and the distances the action phase computes for
/// it do not overflow.
pub open spec fn action_ok(s1: UnitInteractSystem, units: Seq<UnitEntity>, mouse: TilePos, down: bool, cur: i32) -> bool {
    &&& s1.focused_ent matches Some(e) && has_ent(units, e)
    &&& {
        let fi = ent_index(units, s1.focused_ent->0);
        let fp = units[fi].pos;
        &&& enemies_fit(units, fp, cur)
        &&& !combat_mode(units, fp, cur) ==> diff_fits(mouse, fp)
        &&& (combat_mode(units, fp, cur) && down && !units[fi].stat.exhausted
            && attack_target(units, mouse, cur) is Some)
            ==> damage_fits(units[fi].stat, units[attack_target(units, mouse, cur)->0].stat)
    }
}

/// The focused unit attacks this frame: it is next to an enemy, the mouse is
/// clicked on an enemy unit, and it is not exhausted.
pub open spec fn attacks(s1: UnitInteractSystem, units: Seq<UnitEntity>, mouse: TilePos, down: bool, cur: i32) -> bool {
    let fi = ent_index(units, s1.focused_ent->0);
    let fp = units[fi].pos;
    &&& combat_mode(units, fp, cur)
    &&& down
    &&& !units[fi].stat.exhausted
    &&& attack_target(units, mouse, cur) is Some
}

/// The world after the focused unit acts. Next to an enemy it can only
/// attack (see `combat_result`). Otherwise the mouse tile is a move target
/// when `move_valid`; the follower shows it; a click on a valid target
/// exhausts the unit and redraws the unit layer, and the unit moves there
/// (ending the focus) when the unit layer has a tile at the mouse. Then the
/// unit claims an enemy city centre from the tile where it stood (see `claim_step`).
pub open spec fn action_phase(
    s1: UnitInteractSystem,
    fol1: Follower,
    units: Seq<UnitEntity>,
    layer2: Seq<SheetTile>,
    layer3: Seq<SheetTile>,
    buildings: Seq<BuildingEntity>,
    mouse: TilePos,
    down: bool,
    cur: i32,
    rolls: Option<AttackRolls>,
) -> (UnitInteractSystem, Follower, Seq<UnitEntity>, Seq<SheetTile>, Seq<SheetTile>, Seq<BuildingEntity>) {
    let fi = ent_index(units, s1.focused_ent->0);
    let fp = units[fi].pos;
    let st = units[fi].stat;
    if combat_mode(units, fp, cur) {
        if attacks(s1, units, mouse, down, cur) && rolls is Some {
            let t = attack_target(units, mouse, cur)->0;
            let (u, l3) = combat_result(units, layer3, fi, t, rolls->0);
            (s1, fol1, u, layer2, l3, buildings)
        } else {
            (s1, fol1, units, layer2, layer3, buildings)
        }
    } else {
        let valid = move_valid(st, fp, mouse);
        let s2 = UnitInteractSystem { valid_move: valid, ..s1 };
        let fol2 = Follower { kind: if valid { TileType::Location } else { TileType::Empty } };
        let moved = valid && down;
        let u1 = units.update(fi, UnitEntity { stat: Stat { exhausted: true, ..st }, ..units[fi] });
        let arrives = moved && tile_at(layer3, mouse);
        let s3 = if arrives { UnitInteractSystem { focused: false, ..s2 } } else { s2 };
        let units3 = if arrives {
            u1.update(fi, UnitEntity { pos: mouse, ..u1[fi] })
        } else if moved {
            u1
        } else {
            units
        };
        let l3 = if moved { moved_layer(layer3, mouse, fp, sprite_of(units[fi].unit.unit_type)) } else { layer3 };
        let c = claimed(layer2, buildings, s3.turns_til_claim, fp, cur);
        (UnitInteractSystem { turns_til_claim: c.2, ..s3 }, fol2, units3, c.0, l3, c.1)
    }
}

/// The system when a new turn has begun: focus dropped, turn remembered and
/// the claim countdown advanced.
pub open spec fn turn_reset(s1: UnitInteractSystem, turn: i32) -> UnitInteractSystem {
    UnitInteractSystem {
        focused: false,
        focused_ent: None,
        last_turn: turn,
        turns_til_claim: match s1.turns_til_claim {
            Some(v) => Some((v - 1) as i32),
            None => None,
        },
        ..s1
    }
}

/// The whole frame: nothing while the mouse is over the interface; else
/// selection, then either the new-turn reset or the focused unit's action.
pub open spec fn interact_result(
    s: UnitInteractSystem,
    fol: Follower,
    units: Seq<UnitEntity>,
    layer2: Seq<SheetTile>,
    layer3: Seq<SheetTile>,
    buildings: Seq<BuildingEntity>,
    mode: Option<TileType>,
    mouse: TilePos,
    down: bool,
    onui: bool,
    turn: i32,
    cur: i32,
    rolls: Option<AttackRolls>,
) -> (UnitInteractSystem, Follower, Seq<UnitEntity>, Seq<SheetTile>, Seq<SheetTile>, Seq<BuildingEntity>) {
    if onui {
        (s, fol, units, layer2, layer3, buildings)
    } else {
        let (s1, f1) = select_phase(s, fol, units, mouse, down, mode, cur);
        if turn > s1.last_turn {
            (turn_reset(s1, turn), f1, units, layer2, layer3, buildings)
        } else if s1.focused {
            action_phase(s1, f1, units, layer2, layer3, buildings, mouse, down, cur, rolls)
        } else {
            (s1, f1, units, layer2, layer3, buildings)
        }
    }
}

/// The dice `r` are well formed for the attack of this frame: by the focused
/// unit on the enemy unit under the mouse (see `rolls_valid`).
pub open spec fn dice_ok(
    s: UnitInteractSystem,
    fol: Follower,
    units: Seq<UnitEntity>,
    mode: Option<TileType>,
    mouse: TilePos,
    down: bool,
    cur: i32,
    r: AttackRolls,
) -> bool {
    let (s1, f1) = select_phase(s, fol, units, mouse, down, mode, cur);
    let fi = ent_index(units, s1.focused_ent->0);
    let t = attack_target(units, mouse, cur)->0;
    rolls_valid(units[fi].stat, units[t].stat, r)
}

/// An attack happens this frame.
pub open spec fn attack_happens(
    s: UnitInteractSystem,
    fol: Follower,
    units: Seq<UnitEntity>,
    mode: Option<TileType>,
    mouse: TilePos,
    down: bool,
    onui: bool,
    turn: i32,
    cur: i32,
) -> bool {
    let (s1, f1) = select_phase(s, fol, units, mouse, down, mode, cur);
    !onui && turn <= s1.last_turn && s1.focused && attacks(s1, units, mouse, down, cur)
}

proof fn lemma_last_own_unit(units: Seq<UnitEntity>, mouse: TilePos, cur: i32, n: int)
    requires
        0 <= n <= units.len(),
    ensures
        last_own_unit_upto(units, n, mouse, cur) matches Some(e) ==> exists|i: int|
            0 <= i < n && (#[trigger] units[i]).ent == e && own_unit_at(units[i], mouse, cur),
    decreases n,
{
    if n > 0 {
        lemma_last_own_unit(units, mouse, cur, n - 1);
    }
}

/// Only own units are selected: whenever selection focuses a unit it did not
/// focus before, that unit belongs to the current player and is under the
/// mouse.
pub proof fn law_selects_only_own_units(
    s: UnitInteractSystem,
    fol: Follower,
    units: Seq<UnitEntity>,
    mouse: TilePos,
    down: bool,
    mode: Option<TileType>,
    cur: i32,
)
    ensures
        ({
            let (s1, f1) = select_phase(s, fol, units, mouse, down, mode, cur);
            s1.focused && !s.focused ==> exists|i: int|
                0 <= i < units.len() && (#[trigger] units[i]).ent == s1.focused_ent->0 && own_unit_at(units[i], mouse, cur)
        }),
{
    lemma_last_own_unit(units, mouse, cur, units.len() as int);
}

/// A unit moves at most once per turn: a move leaves the unit exhausted,
/// and an exhausted unit neither moves nor attacks, so the units and the
/// unit layer stay as they are.
pub proof fn law_one_move_per_turn(
    s1: UnitInteractSystem,
    fol1: Follower,
    units: Seq<UnitEntity>,
    layer2: Seq<SheetTile>,
    layer3: Seq<SheetTile>,
    buildings: Seq<BuildingEntity>,
    mouse: TilePos,
    down: bool,
    cur: i32,
    rolls: Option<AttackRolls>,
)
    requires
        s1.focused_ent matches Some(e) && has_ent(units, e),
    ensures
        ({
            let fi = ent_index(units, s1.focused_ent->0);
            let fp = units[fi].pos;
            let r = action_phase(s1, fol1, units, layer2, layer3, buildings, mouse, down, cur, rolls);
            &&& units[fi].stat.exhausted ==> r.2 == units && r.4 == layer3
            &&& (!combat_mode(units, fp, cur) && move_valid(units[fi].stat, fp, mouse) && down)
                ==> r.2[fi].stat.exhausted
        }),
{
    lemma_first_ent_exists(units, s1.focused_ent->0, 0);
}

proof fn lemma_first_ent_exists(units: Seq<UnitEntity>, e: u64, k: int)
    requires
        0 <= k <= units.len(),
        forall|i: int| 0 <= i < k ==> (#[trigger] units[i]).ent != e,
        exists|j: int| k <= j < units.len() && (#[trigger] units[j]).ent == e,
    ensures
        exists|j: int| first_with_ent(units, e, j),
    decreases units.len() - k,
{
    if units[k].ent == e {
        assert(first_with_ent(units, e, k));
    } else {
        lemma_first_ent_exists(units, e, k + 1);
    }
}

impl UnitInteractSystem {
    /// A system with nothing focused.
    pub fn new() -> (s: Self)
        ensures
            s == (UnitInteractSystem {
                focused_ent: None,
                focused: false,
                valid_move: true,
                last_turn: 0,
                turns_til_claim: None,
            }),
    {
        UnitInteractSystem { focused_ent: None, focused: false, valid_move: true, last_turn: 0, turns_til_claim: None }
    }

    /// Selection (see `select_phase`).
    fn select(
        &mut self,
        follower: &mut Follower,
        units: &Vec<UnitEntity>,
        mouse: TilePos,
        mouse_down: bool,
        mode: Option<TileType>,
        cur: i32,
    )
        ensures
            (*final(self), *final(follower)) == select_phase(*old(self), *old(follower), units@, mouse, mouse_down, mode, cur),
    {
        if follower.kind == TileType::Location && self.focused_ent.is_some() && !self.focused {
            self.focused_ent = None;
            follower.kind = TileType::Empty;
        }
        let not_demolish = match mode {
            Some(m) => m != TileType::Demolish,
            None => true,
        };
        if mouse_down && not_demolish && !self.focused {
            match find_last_own_unit(units, mouse, cur) {
                Some(e) => {
                    self.focused = true;
                    self.focused_ent = Some(e);
                },
                None => {},
            }
        } else if mouse_down && self.focused {
            let cfocus = any_unit_at(units, mouse);
            if !cfocus && !self.valid_move {
                self.focused = false;
            }
        }
    }

    /// Whether `run` may be called (its `requires`): a claim countdown that
    /// is advanced is above `i32::MIN`, and the focused unit that acts exists
    /// and lies within `i32` offsets of the enemies, of the mouse when it may
    /// move, and its attack keeps the target's health within `i32`.
    pub fn can_run(
        &self,
        units: &Vec<UnitEntity>,
        follower: &Follower,
        build: &Build,
        playersinfo: &PlayersInfo,
        mouse_tile_pos: &MouseTilePos,
        mouse_down: bool,
        onui: &OnUi,
        turn: &Turn,
    ) -> (r: bool)
        ensures
            r == (!onui.case ==> {
                let (s1, f1) = select_phase(*self, *follower, units@, mouse_tile_pos.pos, mouse_down,
                    build.mode, playersinfo.current_player_num);
                &&& turn.num > s1.last_turn ==> (s1.turns_til_claim matches Some(v) ==> v > i32::MIN)
                &&& turn.num <= s1.last_turn && s1.focused
                    ==> action_ok(s1, units@, mouse_tile_pos.pos, mouse_down, playersinfo.current_player_num)
            }),
    {
        if onui.case {
            return true;
        }
        let mouse = mouse_tile_pos.pos;
        let cur = playersinfo.current_player_num;
        let mut s = *self;
        let mut f = *follower;
        s.select(&mut f, units, mouse, mouse_down, build.mode, cur);
        if turn.num > s.last_turn {
            return match s.turns_til_claim {
                Some(v) => v > i32::MIN,
                None => true,
            };
        }
        if !s.focused {
            return true;
        }
        let e = match s.focused_ent {
            Some(e) => e,
            None => { return false; },
        };
        let fi = match find_unit(units, e) {
            Some(fi) => fi,
            None => { return false; },
        };
        let fp = units[fi].pos;
        if !check_enemies_fit(units, fp, cur) {
            return false;
        }
        let combat = find_combat(units, fp, cur);
        if !combat {
            return offsets_fit(mouse, fp);
        }
        if !(mouse_down && !units[fi].stat.exhausted) {
            return true;
        }
        match find_target(units, mouse, cur) {
            Some(t) => check_damage_fits(&units[fi].stat, &units[t].stat),
            None => true,
        }
    }

    /// Handles one frame of unit interaction (see `interact_result`). Returns
    /// the dice rolled when the focused unit attacked.
    pub fn run(
        &mut self,
        units: &mut Vec<UnitEntity>,
        layer2: &mut Vec<SheetTile>,
        layer3: &mut Vec<SheetTile>,
        buildings: &mut Vec<BuildingEntity>,
        follower: &mut Follower,
        build: &Build,
        playersinfo: &PlayersInfo,
        mouse_tile_pos: &MouseTilePos,
        mouse_down: bool,
        onui: &OnUi,
        turn: &Turn,
    ) -> (rolls: Option<AttackRolls>)
        requires
            !onui.case ==> {
                let (s1, f1) = select_phase(*old(self), *old(follower), old(units)@, mouse_tile_pos.pos, mouse_down,
                    build.mode, playersinfo.current_player_num);
                &&& turn.num > s1.last_turn ==> (s1.turns_til_claim matches Some(v) ==> v > i32::MIN)
                &&& turn.num <= s1.last_turn && s1.focused
                    ==> action_ok(s1, old(units)@, mouse_tile_pos.pos, mouse_down, playersinfo.current_player_num)
            },
        ensures
            rolls is Some <==> attack_happens(*old(self), *old(follower), old(units)@, build.mode, mouse_tile_pos.pos,
                mouse_down, onui.case, turn.num, playersinfo.current_player_num),
            rolls matches Some(r) ==> dice_ok(*old(self), *old(follower), old(units)@, build.mode, mouse_tile_pos.pos,
                mouse_down, playersinfo.current_player_num, r),
            (*final(self), *final(follower), final(units)@, final(layer2)@, final(layer3)@, final(buildings)@)
                == interact_result(*old(self), *old(follower), old(units)@, old(layer2)@, old(layer3)@,
                    old(buildings)@, build.mode, mouse_tile_pos.pos, mouse_down, onui.case, turn.num,
                    playersinfo.current_player_num, rolls),
    {
        let mouse = mouse_tile_pos.pos;
        let cur = playersinfo.current_player_num;
        if onui.case {
            return None;
        }
        self.select(follower, units, mouse, mouse_down, build.mode, cur);
        if turn.num > self.last_turn {
            self.focused = false;
            self.focused_ent = None;
            self.last_turn = turn.num;
            match self.turns_til_claim {
                Some(ttc) => { self.turns_til_claim = Some(ttc - 1); },
                None => {},
            }
            return None;
        }
        if !self.focused {
            return None;
        }
        let e = self.focused_ent.unwrap();
        let fi = find_unit(units, e).unwrap();
        let focused_pos = units[fi].pos;
        let focused_unit = units[fi].unit;
        let combat = find_combat(units, focused_pos, cur);
        if combat {
            if mouse_down && !units[fi].stat.exhausted {
                match find_target(units, mouse, cur) {
                    Some(t) => {
                        let t_stat = units[t].stat;
                        let focused_stats = units[fi].stat;
                        let rolls = roll_attack(&focused_stats, &t_stat);
                        let health = resolve_attack(&focused_stats, &t_stat, &rolls);
                        let mut tu = units[t];
                        tu.stat.health = health;
                        units.set(t, tu);
                        let mut fu = units[fi];
                        fu.stat.exhausted = true;
                        units.set(fi, fu);
                        if health <= 0 {
                            let t_pos = tu.pos;
                            units.remove(t);
                            blank_first(layer3, t_pos);
                        }
                        return Some(rolls);
                    },
                    None => {},
                }
            }
            return None;
        }
        let fs = units[fi].stat;
        let d = distance_squared(mouse, focused_pos);
        let sp = fs.speed as i64;
        assert(-0x8000_0000_0000_0000 < sp * sp < 0x7fff_ffff_ffff_ffff) by (nonlinear_arith)
            requires -0x8000_0000 <= sp < 0x8000_0000;
        let valid = fs.speed >= 0 && d <= sp * sp && !fs.exhausted && mouse != focused_pos;
        self.valid_move = valid;
        if valid {
            follower.kind = TileType::Location;
        } else {
            follower.kind = TileType::Empty;
        }
        if valid && mouse_down {
            let mut fu = units[fi];
            fu.stat.exhausted = true;
            units.set(fi, fu);
            let found = move_on_layer(layer3, mouse, focused_pos, focused_unit.unit_type.sprite_number());
            if found {
                let mut mu = units[fi];
                mu.pos = mouse;
                units.set(fi, mu);
                self.focused = false;
            }
        }
        claim(layer2, buildings, &mut self.turns_til_claim, focused_pos, cur);
        None
    }
}

/// Two positions are at most one tile apart exactly when they are the same
/// or orthogonal neighbours.
proof fn lemma_within_one(a: TilePos, b: TilePos)
    ensures
        dist2(a, b) <= 1 <==> ((a.x == b.x && -1 <= a.y - b.y <= 1) || (a.y == b.y && -1 <= a.x - b.x <= 1)),
{
    let dx = a.x - b.x;
    let dy = a.y - b.y;
    assert(dx * dx + dy * dy <= 1 <==> ((dx == 0 && -1 <= dy <= 1) || (dy == 0 && -1 <= dx <= 1))) by (nonlinear_arith);
}

/// A unit must fight exactly when an enemy unit stands on its tile or on one
/// of the four tiles next to it across an edge; an enemy on a diagonal
/// neighbour, or farther away, does not force combat.
pub proof fn law_combat_only_with_edge_neighbours(units: Seq<UnitEntity>, fp: TilePos, cur: i32)
    ensures
        combat_mode(units, fp, cur) <==> exists|i: int|
            0 <= i < units.len() && (#[trigger] units[i]).unit.playernum != cur && (
                (units[i].pos.x == fp.x && -1 <= units[i].pos.y - fp.y <= 1)
                || (units[i].pos.y == fp.y && -1 <= units[i].pos.x - fp.x <= 1)),
{
    assert forall|i: int| 0 <= i < units.len() implies
        (#[trigger] enemy_near(units[i], fp, cur) <==> units[i].unit.playernum != cur && (
            (units[i].pos.x == fp.x && -1 <= units[i].pos.y - fp.y <= 1)
            || (units[i].pos.y == fp.y && -1 <= units[i].pos.x - fp.x <= 1))) by {
        lemma_within_one(units[i].pos, fp);
    }
    if combat_mode(units, fp, cur) {
        let i = choose|i: int| 0 <= i < units.len() && #[trigger] enemy_near(units[i], fp, cur);
        assert(enemy_near(units[i], fp, cur));
    }
    if exists|i: int|
        0 <= i < units.len() && (#[trigger] units[i]).unit.playernum != cur && (
            (units[i].pos.x == fp.x && -1 <= units[i].pos.y - fp.y <= 1)
            || (units[i].pos.y == fp.y && -1 <= units[i].pos.x - fp.x <= 1)) {
        let i = choose|i: int|
            0 <= i < units.len() && (#[trigger] units[i]).unit.playernum != cur && (
                (units[i].pos.x == fp.x && -1 <= units[i].pos.y - fp.y <= 1)
                || (units[i].pos.y == fp.y && -1 <= units[i].pos.x - fp.x <= 1));
        assert(enemy_near(units[i], fp, cur));
    }
}

} // verus!



use vstd::prelude::*;
use crate::components::tiles::{TilePos, TileType, Tiles, sprite_of, diff_fits, dist2, distance_squared, offsets_fit};
use crate::components::player::{Player, PlayersInfo, paid_wood, paid_both};
use crate::components::builds::{Build, Building, OutPos};
use crate::components::unit::UnitStack;
use crate::game::{SheetTile, BuildingEntity, EntityAlloc, MouseTilePos, Follower};

verus! {

/// Places buildings chosen in the build menu on the map, and demolishes them.
pub struct SheetSystem;

/// A city centre close enough to `mouse` (within four tiles) for a barrack.
pub open spec fn is_center_near(b: BuildingEntity, mouse: TilePos) -> bool {
    b.building.tile_type == TileType::Center && dist2(mouse, b.pos) <= 16
}

/// Some city centre is within four tiles of `mouse`.
pub open spec fn near_center(buildings: Seq<BuildingEntity>, mouse: TilePos) -> bool {
    exists|i: int| 0 <= i < buildings.len() && #[trigger] is_center_near(buildings[i], mouse)
}

/// Scanning the buildings in order for a nearby city centre computes no
/// distance that overflows: every centre met before the first near one lies
/// within `i32` offsets of `mouse`.
pub open spec fn center_scan_safe(buildings: Seq<BuildingEntity>, mouse: TilePos) -> bool {
    forall|i: int|
        0 <= i < buildings.len() && (#[trigger] buildings[i]).building.tile_type == TileType::Center
            && (forall|j: int| 0 <= j < i ==> !is_center_near(buildings[j], mouse))
            ==> diff_fits(mouse, buildings[i].pos)
}

/// Whether building `mode` may go on the terrain tile `t`, given the answer
/// `p` for the tiles before it. Only a tile under the mouse decides: a centre
/// needs ruins, a barrack needs grass and a centre within four tiles, a wood
/// building needs forest and a metal building mountains; anything else cannot
/// be placed. A barrack on grass with no centre near keeps the earlier answer.
pub open spec fn placeable_step(
    p: bool,
    t: SheetTile,
    mode: TileType,
    mouse: TilePos,
    buildings: Seq<BuildingEntity>,
) -> bool {
    match t.tile.tile_type {
        Some(cur) => if t.pos == mouse {
            match mode {
                TileType::Center => cur == TileType::Ruins,
                TileType::Barrack => if cur == TileType::Grass {
                    p || near_center(buildings, mouse)
                } else {
                    p
                },
                TileType::WoodBuilding => cur == TileType::Forest,
                TileType::MetalBuilding => cur == TileType::Mountains,
                _ => false,
            }
        } else {
            p
        },
        None => p,
    }
}

/// Whether `mode` may be placed, judged over the first `n` terrain tiles.
pub open spec fn placeable_upto(
    layer1: Seq<SheetTile>,
    n: int,
    mode: TileType,
    mouse: TilePos,
    buildings: Seq<BuildingEntity>,
) -> bool
    decreases n,
{
    if n <= 0 {
        false
    } else {
        placeable_step(placeable_upto(layer1, n - 1, mode, mouse, buildings), layer1[n - 1], mode, mouse, buildings)
    }
}

/// Whether building `mode` may be placed at `mouse`.
pub open spec fn placeable(
    layer1: Seq<SheetTile>,
    mode: TileType,
    mouse: TilePos,
    buildings: Seq<BuildingEntity>,
) -> bool {
    placeable_upto(layer1, layer1.len() as int, mode, mouse, buildings)
}

/// A barrack is being judged on a grass tile under the mouse, so the
/// buildings are scanned for a city centre.
pub open spec fn scans_centers(layer1: Seq<SheetTile>, mode: TileType, mouse: TilePos) -> bool {
    mode == TileType::Barrack && exists|i: int|
        0 <= i < layer1.len() && (#[trigger] layer1[i]).pos == mouse && layer1[i].tile.tile_type == Some(TileType::Grass)
}

/// Looks for a city centre within four tiles of `mouse`.
fn find_near_center(buildings: &Vec<BuildingEntity>, mouse: TilePos) -> (found: bool)
    requires
        center_scan_safe(buildings@, mouse),
    ensures
        found == near_center(buildings@, mouse),
{
    let mut i: usize = 0;
    while i < buildings.len()
        invariant
            0 <= i <= buildings.len(),
            center_scan_safe(buildings@, mouse),
            forall|j: int| 0 <= j < i ==> !is_center_near(buildings@[j], mouse),
        decreases buildings.len() - i,
    {
        let b = &buildings[i];
        if b.building.tile_type == TileType::Center {
            let d = distance_squared(mouse, b.pos);
            if d <= 16 {
                assert(is_center_near(buildings@[i as int], mouse));
                return true;
            }
        }
        i = i + 1;
    }
    false
}

/// Whether building `mode` may be placed at `mouse` (see `placeable_step`).
pub fn compute_placeable(
    layer1: &Vec<SheetTile>,
    mode: TileType,
    mouse: TilePos,
    buildings: &Vec<BuildingEntity>,
) -> (p: bool)
    requires
        scans_centers(layer1@, mode, mouse) ==> center_scan_safe(buildings@, mouse),
    ensures
        p == placeable(layer1@, mode, mouse, buildings@),
{
    let mut placeable = false;
    let mut i: usize = 0;
    while i < layer1.len()
        invariant
            0 <= i <= layer1.len(),
            scans_centers(layer1@, mode, mouse) ==> center_scan_safe(buildings@, mouse),
            placeable == placeable_upto(layer1@, i as int, mode, mouse, buildings@),
        decreases layer1.len() - i,
    {
        let t = &layer1[i];
        if let Some(current) = t.tile.tile_type {
            if t.pos == mouse {
                match mode {
                    TileType::Center => placeable = current == TileType::Ruins,
                    TileType::Barrack => {
                        if current == TileType::Grass {
                            assert(scans_centers(layer1@, mode, mouse));
                            if find_near_center(buildings, mouse) {
                                placeable = true;
                            }
                        }
                    },
                    TileType::WoodBuilding => placeable = current == TileType::Forest,
                    TileType::MetalBuilding => placeable = current == TileType::Mountains,
                    _ => placeable = false,
                }
            }
        }
        i = i + 1;
    }
    placeable
}

/// What building `mode` costs player `p`: the player after paying and
/// whether they could pay, or `None` for a building that costs nothing.
pub open spec fn charge(p: Player, mode: TileType) -> (Player, Option<bool>) {
    match mode {
        TileType::Barrack => (paid_both(p, 30, 10).0, Some(paid_both(p, 30, 10).1)),
        TileType::WoodBuilding => (paid_wood(p, 20).0, Some(paid_wood(p, 20).1)),
        TileType::MetalBuilding => (paid_both(p, 10, 45).0, Some(paid_both(p, 10, 45).1)),
        _ => (p, None),
    }
}

/// The players after every player numbered `cur` is charged for `mode`.
pub open spec fn charged_players(players: Seq<Player>, cur: i32, mode: TileType) -> Seq<Player> {
    Seq::new(
        players.len(),
        |i: int| if players[i].num as i32 == cur { charge(players[i], mode).0 } else { players[i] },
    )
}

/// Whether the charge succeeded, judged over the first `n` players: the last
/// player numbered `cur` who was charged decides; with none, it succeeds.
pub open spec fn had_res_upto(players: Seq<Player>, n: int, cur: i32, mode: TileType) -> bool
    decreases n,
{
    if n <= 0 {
        true
    } else {
        let h = had_res_upto(players, n - 1, cur, mode);
        if players[n - 1].num as i32 == cur {
            match charge(players[n - 1], mode).1 {
                Some(b) => b,
                None => h,
            }
        } else {
            h
        }
    }
}

/// Whether the current player could pay for `mode`.
pub open spec fn had_res(players: Seq<Player>, cur: i32, mode: TileType) -> bool {
    had_res_upto(players, players.len() as int, cur, mode)
}

/// Charges every player numbered `cur` for building `mode`; returns whether
/// the charge succeeded (see `had_res`).
fn charge_players(players: &mut Vec<Player>, cur: i32, mode: TileType) -> (had: bool)
    ensures
        final(players)@ == charged_players(old(players)@, cur, mode),
        had == had_res(old(players)@, cur, mode),
{
    let ghost orig = players@;
    let mut had = true;
    let mut i: usize = 0;
    while i < players.len()
        invariant
            0 <= i <= players.len(),
            players.len() == orig.len(),
            had == had_res_upto(orig, i as int, cur, mode),
            forall|j: int| 0 <= j < i ==> #[trigger] players@[j] == charged_players(orig, cur, mode)[j],
            forall|j: int| i <= j < players.len() ==> #[trigger] players@[j] == orig[j],
        decreases players.len() - i,
    {
        let mut p = players[i];
        if p.num as i32 == cur {
            match mode {
                TileType::Barrack => { had = p.sub_both(30, 10); },
                TileType::WoodBuilding => { had = p.sub_wood(20); },
                TileType::MetalBuilding => { had = p.sub_both(10, 45); },
                _ => {},
            }
        }
        players.set(i, p);
        i = i + 1;
    }
    assert(players@ =~= charged_players(orig, cur, mode));
    had
}

/// An empty building-layer tile under the mouse: a new building goes there.
pub open spec fn builds_here(t: SheetTile, mouse: TilePos) -> bool {
    t.pos == mouse && t.tile.tile_type is None
}

/// The building-layer tile `t` once building `mode` stands on it.
pub open spec fn built_tile(t: SheetTile, mode: TileType) -> SheetTile {
    SheetTile {
        tile: Tiles { tile_type: Some(mode), ..t.tile },
        sprite_number: sprite_of(mode),
        ..t
    }
}

/// The building layer after building `mode` on every empty tile under the mouse.
pub open spec fn built_layer(layer2: Seq<SheetTile>, mouse: TilePos, mode: TileType) -> Seq<SheetTile> {
    Seq::new(
        layer2.len(),
        |i: int| if builds_here(layer2[i], mouse) { built_tile(layer2[i], mode) } else { layer2[i] },
    )
}

/// Some building-layer tile under the mouse is empty.
pub open spec fn has_build_spot(layer2: Seq<SheetTile>, mouse: TilePos) -> bool {
    exists|i: int| 0 <= i < layer2.len() && #[trigger] builds_here(layer2[i], mouse)
}

/// Where units made by a barrack at `pos` appear: the tile to its left, or to
/// its right on the map's left edge.
pub open spec fn out_pos_for(pos: TilePos) -> TilePos {
    if pos.x == 0 {
        TilePos { x: 1, y: pos.y }
    } else {
        TilePos { x: (pos.x - 1) as i32, y: pos.y }
    }
}

/// A new building never replaces another: every building-layer tile that
/// already holds a building is left as it was, and only tiles under the
/// mouse change.
pub proof fn law_no_building_over_another(layer2: Seq<SheetTile>, mouse: TilePos, mode: TileType)
    ensures
        forall|i: int| 0 <= i < layer2.len() && (layer2[i].tile.tile_type is Some || layer2[i].pos != mouse)
            ==> #[trigger] built_layer(layer2, mouse, mode)[i] == layer2[i],
{
}

/// A barrack on the map sends its units to a tile that is on the map too.
pub proof fn law_output_on_map(pos: TilePos)
    requires
        0 <= pos.x < 50,
        0 <= pos.y < 50,
    ensures
        0 <= out_pos_for(pos).x < 50,
        out_pos_for(pos).y == pos.y,
        out_pos_for(pos) != pos,
{
}

/// Puts building `mode` on every empty building-layer tile under the mouse.
/// Returns where the building stands and where its units will appear, both
/// `None` when no such tile was found.
fn build_on_layer(layer2: &mut Vec<SheetTile>, mouse: TilePos, mode: TileType) -> (r: (Option<TilePos>, Option<OutPos>))
    requires
        has_build_spot(old(layer2)@, mouse) ==> mouse.x > i32::MIN,
    ensures
        final(layer2)@ == built_layer(old(layer2)@, mouse, mode),
        r.0 == (if has_build_spot(old(layer2)@, mouse) { Some(mouse) } else { None::<TilePos> }),
        r.1 == (if has_build_spot(old(layer2)@, mouse) {
            Some(OutPos { pos: out_pos_for(mouse) })
        } else {
            None::<OutPos>
        }),
{
    let ghost orig = layer2@;
    let mut future_pos: Option<TilePos> = None;
    let mut future_outpos: Option<OutPos> = None;
    let mut i: usize = 0;
    while i < layer2.len()
        invariant
            0 <= i <= layer2.len(),
            layer2.len() == orig.len(),
            has_build_spot(orig, mouse) ==> mouse.x > i32::MIN,
            future_pos == (if exists|j: int| 0 <= j < i && #[trigger] builds_here(orig[j], mouse) {
                Some(mouse)
            } else {
                None::<TilePos>
            }),
            future_outpos == (if exists|j: int| 0 <= j < i && #[trigger] builds_here(orig[j], mouse) {
                Some(OutPos { pos: out_pos_for(mouse) })
            } else {
                None::<OutPos>
            }),
            forall|j: int| 0 <= j < i ==> #[trigger] layer2@[j] == built_layer(orig, mouse, mode)[j],
            forall|j: int| i <= j < layer2.len() ==> #[trigger] layer2@[j] == orig[j],
        decreases layer2.len() - i,
    {
        let t = layer2[i];
        if t.pos == mouse && t.tile.tile_type.is_none() {
            assert(builds_here(orig[i as int], mouse));
            let new_tile = SheetTile {
                tile: Tiles { player: t.tile.player, tile_type: Some(mode) },
                pos: t.pos,
                sprite_number: mode.sprite_number(),
            };
            layer2.set(i, new_tile);
            if t.pos.x == 0 {
                future_outpos = Some(OutPos { pos: TilePos { x: t.pos.x + 1, y: t.pos.y } });
            } else {
                future_outpos = Some(OutPos { pos: TilePos { x: t.pos.x - 1, y: t.pos.y } });
            }
            future_pos = Some(t.pos);
        }
        i = i + 1;
    }
    assert(layer2@ =~= built_layer(orig, mouse, mode));
    (future_pos, future_outpos)
}

/// `b` is a building of player `cur` standing at `mouse`.
pub open spec fn owned_at(b: BuildingEntity, mouse: TilePos, cur: i32) -> bool {
    b.pos == mouse && b.building.playernum == cur
}

/// Index `j` holds the first building of player `cur` at `mouse`.
pub open spec fn first_owned(buildings: Seq<BuildingEntity>, mouse: TilePos, cur: i32, j: int) -> bool {
    &&& 0 <= j < buildings.len()
    &&& owned_at(buildings[j], mouse, cur)
    &&& forall|k: int| 0 <= k < j ==> !owned_at(#[trigger] buildings[k], mouse, cur)
}

/// Player `cur` owns some building at `mouse`.
pub open spec fn owns_building(buildings: Seq<BuildingEntity>, mouse: TilePos, cur: i32) -> bool {
    exists|j: int| 0 <= j < buildings.len() && #[trigger] owned_at(buildings[j], mouse, cur)
}

/// A building-layer tile once its building is gone: empty, blank sprite.
pub open spec fn cleared_tile(t: SheetTile) -> SheetTile {
    SheetTile { tile: Tiles { tile_type: None, ..t.tile }, sprite_number: 4, ..t }
}

/// One step of demolition at building-layer tile `i`: when the tile is under
/// the mouse, holds a building, and the current player owns a building
/// there, the tile is cleared and that building removed. Nothing happens
/// on a tile where the player owns no building.
pub open spec fn demolish_step(
    st: (Seq<SheetTile>, Seq<BuildingEntity>),
    i: int,
    mouse: TilePos,
    cur: i32,
) -> (Seq<SheetTile>, Seq<BuildingEntity>) {
    let t = st.0[i];
    if t.pos == mouse && t.tile.tile_type is Some && owns_building(st.1, mouse, cur) {
        let j = choose|j: int| first_owned(st.1, mouse, cur, j);
        (st.0.update(i, cleared_tile(t)), st.1.remove(j))
    } else {
        st
    }
}

/// Demolition over the first `n` building-layer tiles.
pub open spec fn demolish_upto(
    layer2: Seq<SheetTile>,
    buildings: Seq<BuildingEntity>,
    mouse: TilePos,
    cur: i32,
    n: int,
) -> (Seq<SheetTile>, Seq<BuildingEntity>)
    decreases n,
{
    if n <= 0 {
        (layer2, buildings)
    } else {
        demolish_step(demolish_upto(layer2, buildings, mouse, cur, n - 1), n - 1, mouse, cur)
    }
}

/// The building layer and the buildings after demolishing at `mouse`.
pub open spec fn demolished(
    layer2: Seq<SheetTile>,
    buildings: Seq<BuildingEntity>,
    mouse: TilePos,
    cur: i32,
) -> (Seq<SheetTile>, Seq<BuildingEntity>) {
    demolish_upto(layer2, buildings, mouse, cur, layer2.len() as int)
}

proof fn lemma_demolish_len(layer2: Seq<SheetTile>, buildings: Seq<BuildingEntity>, mouse: TilePos, cur: i32, n: int)
    requires
        0 <= n <= layer2.len(),
    ensures
        demolish_upto(layer2, buildings, mouse, cur, n).0.len() == layer2.len(),
        forall|k: int| n <= k < layer2.len() ==> #[trigger] demolish_upto(layer2, buildings, mouse, cur, n).0[k] == layer2[k],
    decreases n,
{
    if n > 0 {
        lemma_demolish_len(layer2, buildings, mouse, cur, n - 1);
    }
}

/// Finds the first building of `cur` at `mouse`.
fn find_owned(buildings: &Vec<BuildingEntity>, mouse: TilePos, cur: i32) -> (r: Option<usize>)
    ensures
        r matches Some(j) ==> first_owned(buildings@, mouse, cur, j as int),
        r is None ==> !owns_building(buildings@, mouse, cur),
{
    let mut i: usize = 0;
    while i < buildings.len()
        invariant
            0 <= i <= buildings.len(),
            forall|k: int| 0 <= k < i ==> !owned_at(#[trigger] buildings@[k], mouse, cur),
        decreases buildings.len() - i,
    {
        if buildings[i].pos == mouse && buildings[i].building.playernum == cur {
            return Some(i);
        }
        i = i + 1;
    }
    None
}

/// Demolishes at `mouse` for player `cur` (see `demolish_step`).
fn demolish(layer2: &mut Vec<SheetTile>, buildings: &mut Vec<BuildingEntity>, mouse: TilePos, cur: i32)
    ensures
        (final(layer2)@, final(buildings)@) == demolished(old(layer2)@, old(buildings)@, mouse, cur),
{
    let ghost orig2 = layer2@;
    let ghost origb = buildings@;
    let mut i: usize = 0;
    while i < layer2.len()
        invariant
            0 <= i <= layer2.len(),
            layer2.len() == orig2.len(),
            (layer2@, buildings@) == demolish_upto(orig2, origb, mouse, cur, i as int),
        decreases layer2.len() - i,
    {
        proof {
            lemma_demolish_len(orig2, origb, mouse, cur, i as int);
            lemma_demolish_len(orig2, origb, mouse, cur, (i + 1) as int);
        }
        let t = layer2[i];
        if t.pos == mouse && t.tile.tile_type.is_some() {
            match find_owned(buildings, mouse, cur) {
                Some(j) => {
                    proof {
                        let jj = choose|jj: int| first_owned(buildings@, mouse, cur, jj);
                        assert(first_owned(buildings@, mouse, cur, j as int));
                        if jj < j {
                            assert(!owned_at(buildings@[jj], mouse, cur));
                        } else if j < jj {
                            assert(!owned_at(buildings@[j as int], mouse, cur));
                        }
                    }
                    buildings.remove(j);
                    layer2.set(i, SheetTile {
                        tile: Tiles { player: t.tile.player, tile_type: None },
                        pos: t.pos,
                        sprite_number: 4,
                    });
                },
                None => {},
            }
        }
        i = i + 1;
    }
}

/// A left click with a building mode other than demolish, where the
/// building may be placed and the player can pay: a building is created.
pub open spec fn will_build(
    mode: Option<TileType>,
    mouse_down: bool,
    layer1: Seq<SheetTile>,
    buildings: Seq<BuildingEntity>,
    players: Seq<Player>,
    cur: i32,
    mouse: TilePos,
) -> bool {
    match mode {
        Some(m) => mouse_down && m != TileType::Demolish && placeable(layer1, m, mouse, buildings)
            && had_res(players, cur, m),
        None => false,
    }
}

/// `b` is the building entity created for `mode`, owned by `cur`, at `mouse`:
/// a barrack comes with a fresh unit stack and puts its units at
/// `out_pos_for(mouse)`; other buildings have neither.
pub open spec fn is_new_building(b: BuildingEntity, ent: u64, mode: TileType, cur: i32, mouse: TilePos) -> bool {
    &&& b.ent == ent
    &&& b.building == (Building { tile_type: mode, playernum: cur })
    &&& b.pos == mouse
    &&& if mode == TileType::Barrack {
        &&& b.stack matches Some(s) && s@.is_fresh() && s@.wf()
        &&& b.outpos == Some(OutPos { pos: out_pos_for(mouse) })
    } else {
        &&& b.stack is None
        &&& b.outpos is None
    }
}

/// Removing from a sequence keeps every element at another index.
proof fn lemma_remove_keeps(s: Seq<BuildingEntity>, j: int, m: int)
    requires
        0 <= j < s.len(),
        0 <= m < s.len(),
        m != j,
    ensures
        s.remove(j).contains(s[m]),
{
    let k = if m < j { m } else { m - 1 };
    assert(s.remove(j)[k] == s[m]);
}

proof fn lemma_first_owned_from(s: Seq<BuildingEntity>, mouse: TilePos, cur: i32, k: int)
    requires
        0 <= k <= s.len(),
        forall|i: int| 0 <= i < k ==> !owned_at(#[trigger] s[i], mouse, cur),
        exists|j: int| k <= j < s.len() && #[trigger] owned_at(s[j], mouse, cur),
    ensures
        exists|j: int| first_owned(s, mouse, cur, j),
    decreases s.len() - k,
{
    if owned_at(s[k], mouse, cur) {
        assert(first_owned(s, mouse, cur, k));
    } else {
        lemma_first_owned_from(s, mouse, cur, k + 1);
    }
}

/// Demolishing removes only the current player's buildings at the clicked
/// tile: every building of another player, and every building elsewhere,
/// is still there afterwards.
pub proof fn law_demolish_spares_others(
    layer2: Seq<SheetTile>,
    buildings: Seq<BuildingEntity>,
    mouse: TilePos,
    cur: i32,
    n: int,
)
    requires
        0 <= n <= layer2.len(),
    ensures
        forall|b: BuildingEntity|
            buildings.contains(b) && !owned_at(b, mouse, cur)
                ==> #[trigger] demolish_upto(layer2, buildings, mouse, cur, n).1.contains(b),
    decreases n,
{
    if n > 0 {
        law_demolish_spares_others(layer2, buildings, mouse, cur, n - 1);
        lemma_demolish_len(layer2, buildings, mouse, cur, n - 1);
        let st = demolish_upto(layer2, buildings, mouse, cur, n - 1);
        let t = st.0[n - 1];
        if t.pos == mouse && t.tile.tile_type is Some && owns_building(st.1, mouse, cur) {
            lemma_first_owned_from(st.1, mouse, cur, 0);
            let j = choose|j: int| first_owned(st.1, mouse, cur, j);
            assert forall|b: BuildingEntity|
                buildings.contains(b) && !owned_at(b, mouse, cur) implies
                #[trigger] demolish_upto(layer2, buildings, mouse, cur, n).1.contains(b) by {
                assert(st.1.contains(b));
                let m = choose|m: int| 0 <= m < st.1.len() && st.1[m] == b;
                lemma_remove_keeps(st.1, j, m);
            }
        }
    }
}

/// Whether scanning for a city centre near `mouse` computes only distances
/// that fit (see `center_scan_safe`).
fn check_center_scan(buildings: &Vec<BuildingEntity>, mouse: TilePos) -> (r: bool)
    ensures
        r == center_scan_safe(buildings@, mouse),
{
    let mut i: usize = 0;
    while i < buildings.len()
        invariant
            0 <= i <= buildings.len(),
            forall|j: int| 0 <= j < i ==> !is_center_near(buildings@[j], mouse),
            forall|j: int| 0 <= j < i && (#[trigger] buildings@[j]).building.tile_type == TileType::Center
                ==> diff_fits(mouse, buildings@[j].pos),
        decreases buildings.len() - i,
    {
        let b = &buildings[i];
        if b.building.tile_type == TileType::Center {
            if !offsets_fit(mouse, b.pos) {
                return false;
            }
            let d = distance_squared(mouse, b.pos);
            if d <= 16 {
                assert(is_center_near(buildings@[i as int], mouse));
                return true;
            }
        }
        i = i + 1;
    }
    true
}

/// Whether a terrain tile under the mouse is grass.
fn grass_at(layer1: &Vec<SheetTile>, mouse: TilePos) -> (r: bool)
    ensures
        r == exists|i: int| 0 <= i < layer1@.len() && (#[trigger] layer1@[i]).pos == mouse
            && layer1@[i].tile.tile_type == Some(TileType::Grass),
{
    let mut i: usize = 0;
    while i < layer1.len()
        invariant
            0 <= i <= layer1.len(),
            forall|j: int| 0 <= j < i ==> !((#[trigger] layer1@[j]).pos == mouse
                && layer1@[j].tile.tile_type == Some(TileType::Grass)),
        decreases layer1.len() - i,
    {
        if layer1[i].pos == mouse && layer1[i].tile.tile_type == Some(TileType::Grass) {
            return true;
        }
        i = i + 1;
    }
    false
}

/// Whether some building-layer tile under the mouse is empty.
fn find_build_spot(layer2: &Vec<SheetTile>, mouse: TilePos) -> (r: bool)
    ensures
        r == has_build_spot(layer2@, mouse),
{
    let mut i: usize = 0;
    while i < layer2.len()
        invariant
            0 <= i <= layer2.len(),
            forall|j: int| 0 <= j < i ==> !builds_here(#[trigger] layer2@[j], mouse),
        decreases layer2.len() - i,
    {
        if layer2[i].pos == mouse && layer2[i].tile.tile_type.is_none() {
            assert(builds_here(layer2@[i as int], mouse));
            return true;
        }
        i = i + 1;
    }
    false
}

/// A copy of the players.
fn copy_players(players: &Vec<Player>) -> (c: Vec<Player>)
    ensures
        c@ == players@,
{
    let mut c: Vec<Player> = Vec::new();
    let mut i: usize = 0;
    while i < players.len()
        invariant
            0 <= i <= players.len(),
            c@ == players@.take(i as int),
        decreases players.len() - i,
    {
        c.push(players[i]);
        proof {
            assert(c@ =~= players@.take(i + 1));
        }
        i = i + 1;
    }
    assert(c@ =~= players@);
    c
}

impl SheetSystem {
    /// Whether `run` may be called: scanning for a centre computes only
    /// distances that fit, and a building that will be created has an empty
    /// building-layer tile to stand on, a left neighbour column that exists
    /// in `i32`, and a fresh identifier.
    pub fn can_run(
        &self,
        layer1: &Vec<SheetTile>,
        layer2: &Vec<SheetTile>,
        buildings: &Vec<BuildingEntity>,
        players: &Vec<Player>,
        build: &Build,
        playersinfo: &PlayersInfo,
        mouse_tile_pos: &MouseTilePos,
        mouse_down: bool,
        alloc: &EntityAlloc,
    ) -> (r: bool)
        ensures
            r == ({
                &&& (build.mode matches Some(m) && scans_centers(layer1@, m, mouse_tile_pos.pos)
                    ==> center_scan_safe(buildings@, mouse_tile_pos.pos))
                &&& will_build(build.mode, mouse_down, layer1@, buildings@, players@,
                    playersinfo.current_player_num, mouse_tile_pos.pos) ==> {
                    &&& has_build_spot(layer2@, mouse_tile_pos.pos)
                    &&& mouse_tile_pos.pos.x > i32::MIN
                    &&& alloc.next < u64::MAX
                }
            }),
    {
        let mouse = mouse_tile_pos.pos;
        let m = match build.mode {
            Some(m) => m,
            None => { return true; },
        };
        if m == TileType::Barrack && grass_at(layer1, mouse) {
            if !check_center_scan(buildings, mouse) {
                return false;
            }
        }
        if !(mouse_down && m != TileType::Demolish) {
            return true;
        }
        if !compute_placeable(layer1, m, mouse, buildings) {
            return true;
        }
        let mut copy = copy_players(players);
        if !charge_players(&mut copy, playersinfo.current_player_num, m) {
            return true;
        }
        find_build_spot(layer2, mouse) && mouse.x > i32::MIN && alloc.next < u64::MAX
    }

    /// Handles building on the map while a building mode is chosen.
    ///
    /// The follower shows the chosen building where it may be placed and
    /// nothing elsewhere. On a left click a building is created when it may
    /// be placed and the current player pays for it (barrack 30 wood and 10
    /// metal, wood building 20 wood, metal building 10 wood and 45 metal,
    /// centre free): it is drawn on every empty building-layer tile under the
    /// mouse and added to the buildings. In demolish mode a click on a tile
    /// where the current player has a building removes that building and
    /// clears the tile (see `demolish_step`). Any click ends the mode.
    /// Returns where a building was created.
    pub fn run(
        &self,
        layer1: &Vec<SheetTile>,
        layer2: &mut Vec<SheetTile>,
        buildings: &mut Vec<BuildingEntity>,
        players: &mut Vec<Player>,
        build: &mut Build,
        playersinfo: &PlayersInfo,
        mouse_tile_pos: &MouseTilePos,
        follower: &mut Follower,
        mouse_down: bool,
        alloc: &mut EntityAlloc,
    ) -> (built: Option<TilePos>)
        requires
            old(build).mode matches Some(m) && scans_centers(layer1@, m, mouse_tile_pos.pos)
                ==> center_scan_safe(old(buildings)@, mouse_tile_pos.pos),
            will_build(old(build).mode, mouse_down, layer1@, old(buildings)@, old(players)@,
                playersinfo.current_player_num, mouse_tile_pos.pos) ==> {
                &&& has_build_spot(old(layer2)@, mouse_tile_pos.pos)
                &&& mouse_tile_pos.pos.x > i32::MIN
                &&& old(alloc).next < u64::MAX
            },
        ensures
            ({
                let mouse = mouse_tile_pos.pos;
                let cur = playersinfo.current_player_num;
                match old(build).mode {
                    None => {
                        &&& *final(build) == *old(build)
                        &&& *final(follower) == *old(follower)
                        &&& final(layer2)@ == old(layer2)@
                        &&& final(buildings)@ == old(buildings)@
                        &&& final(players)@ == old(players)@
                        &&& *final(alloc) == *old(alloc)
                        &&& built is None
                    },
                    Some(m) => {
                        let p = placeable(layer1@, m, mouse, old(buildings)@);
                        let builds = will_build(old(build).mode, mouse_down, layer1@, old(buildings)@,
                            old(players)@, cur, mouse);
                        &&& !mouse_down ==> {
                            &&& *final(build) == *old(build)
                            &&& final(follower).kind == (if m == TileType::Demolish {
                                old(follower).kind
                            } else if p {
                                m
                            } else {
                                TileType::Empty
                            })
                        }
                        &&& mouse_down ==> final(build).mode is None && final(follower).kind == TileType::Empty
                        &&& final(players)@ == (if mouse_down && m != TileType::Demolish && p {
                            charged_players(old(players)@, cur, m)
                        } else {
                            old(players)@
                        })
                        &&& builds ==> {
                            &&& final(layer2)@ == built_layer(old(layer2)@, mouse, m)
                            &&& final(buildings)@.len() == old(buildings)@.len() + 1
                            &&& final(buildings)@.drop_last() == old(buildings)@
                            &&& is_new_building(final(buildings)@.last(), old(alloc).next, m, cur, mouse)
                            &&& final(alloc).next == old(alloc).next + 1
                            &&& built == Some(mouse)
                        }
                        &&& mouse_down && m == TileType::Demolish ==> {
                            &&& (final(layer2)@, final(buildings)@) == demolished(old(layer2)@, old(buildings)@, mouse, cur)
                            &&& *final(alloc) == *old(alloc)
                            &&& built is None
                        }
                        &&& !builds && !(mouse_down && m == TileType::Demolish) ==> {
                            &&& final(layer2)@ == old(layer2)@
                            &&& final(buildings)@ == old(buildings)@
                            &&& *final(alloc) == *old(alloc)
                            &&& built is None
                        }
                    },
                }
            }),
    {
        let mouse = mouse_tile_pos.pos;
        let cur = playersinfo.current_player_num;
        let m = match build.mode {
            Some(m) => m,
            None => { return None; },
        };
        let placeable = compute_placeable(layer1, m, mouse, buildings);
        if placeable {
            if m != TileType::Demolish {
                follower.kind = m;
            }
        } else {
            if m != TileType::Demolish {
                follower.kind = TileType::Empty;
            }
        }
        let mut built: Option<TilePos> = None;
        if mouse_down {
            if m != TileType::Demolish {
                if placeable {
                    let had = charge_players(players, cur, m);
                    if had {
                        let (future_pos, future_outpos) = build_on_layer(layer2, mouse, m);
                        let pos = future_pos.unwrap();
                        let ent = alloc.create();
                        let future_building = Building { tile_type: m, playernum: cur };
                        if m == TileType::Barrack {
                            buildings.push(BuildingEntity {
                                ent,
                                building: future_building,
                                pos,
                                stack: Some(UnitStack::new()),
                                outpos: Some(future_outpos.unwrap()),
                            });
                        } else {
                            buildings.push(BuildingEntity {
                                ent,
                                building: future_building,
                                pos,
                                stack: None,
                                outpos: None,
                            });
                        }
                        proof {
                            assert(buildings@.drop_last() =~= old(buildings)@);
                        }
                        built = Some(pos);
                    }
                }
            }
            if m == TileType::Demolish {
                demolish(layer2, buildings, mouse, cur);
            }
            build.mode = None;
            follower.kind = TileType::Empty;
        }
        built
    }
}

/// What each building costs, for every player: a barrack 30 wood and 10
/// metal, a wood building 20 wood, a metal building 10 wood and 45 metal;
/// anything else (a city centre) is free. A player who can pay the whole
/// price pays exactly that and keeps everything else; one who cannot pays
/// nothing.
pub proof fn law_building_prices(p: Player, mode: TileType)
    ensures
        charge(p, TileType::Barrack).1 == Some(p.wood >= 30 && p.metal >= 10),
        p.wood >= 30 && p.metal >= 10 ==> charge(p, TileType::Barrack).0
            == (Player { wood: (p.wood - 30) as i32, metal: (p.metal - 10) as i32, ..p }),
        charge(p, TileType::WoodBuilding).1 == Some(p.wood >= 20),
        p.wood >= 20 ==> charge(p, TileType::WoodBuilding).0 == (Player { wood: (p.wood - 20) as i32, ..p }),
        charge(p, TileType::MetalBuilding).1 == Some(p.wood >= 10 && p.metal >= 45),
        p.wood >= 10 && p.metal >= 45 ==> charge(p, TileType::MetalBuilding).0
            == (Player { wood: (p.wood - 10) as i32, metal: (p.metal - 45) as i32, ..p }),
        charge(p, mode).1 == Some(false) ==> charge(p, mode).0 == p,
        mode != TileType::Barrack && mode != TileType::WoodBuilding && mode != TileType::MetalBuilding
            ==> charge(p, mode) == (p, None::<bool>),
{
}

proof fn lemma_single_payer(players: Seq<Player>, cur: i32, mode: TileType, k: int, n: int)
    requires
        0 <= k < n <= players.len(),
        players[k].num as i32 == cur,
        forall|j: int| 0 <= j < players.len() && j != k ==> (#[trigger] players[j]).num as i32 != cur,
    ensures
        had_res_upto(players, n, cur, mode) == match charge(players[k], mode).1 { Some(b) => b, None => true },
    decreases n,
{
    if n - 1 > k {
        lemma_single_payer(players, cur, mode, k, n - 1);
    } else {
        lemma_no_payer(players, cur, mode, k);
    }
}

proof fn lemma_no_payer(players: Seq<Player>, cur: i32, mode: TileType, n: int)
    requires
        0 <= n <= players.len(),
        forall|j: int| 0 <= j < n ==> (#[trigger] players[j]).num as i32 != cur,
    ensures
        had_res_upto(players, n, cur, mode),
    decreases n,
{
    if n > 0 {
        lemma_no_payer(players, cur, mode, n - 1);
    }
}

/// Charging the current player for a building: when exactly one player has
/// the current number, the charge succeeds exactly when that player can pay
/// the whole price (see `law_building_prices`), that player alone is charged,
/// and every other player is unchanged.
pub proof fn law_only_current_player_pays(players: Seq<Player>, cur: i32, mode: TileType, k: int)
    requires
        0 <= k < players.len(),
        players[k].num as i32 == cur,
        forall|j: int| 0 <= j < players.len() && j != k ==> (#[trigger] players[j]).num as i32 != cur,
    ensures
        had_res(players, cur, mode) == match charge(players[k], mode).1 { Some(b) => b, None => true },
        charged_players(players, cur, mode).len() == players.len(),
        charged_players(players, cur, mode)[k] == charge(players[k], mode).0,
        forall|j: int| 0 <= j < players.len() && j != k ==> #[trigger] charged_players(players, cur, mode)[j] == players[j],
{
    lemma_single_payer(players, cur, mode, k, players.len() as int);
}

proof fn lemma_placeable_single(
    layer1: Seq<SheetTile>,
    mode: TileType,
    mouse: TilePos,
    buildings: Seq<BuildingEntity>,
    k: int,
    t: TileType,
    n: int,
)
    requires
        0 <= k < layer1.len(),
        0 <= n <= layer1.len(),
        layer1[k].pos == mouse,
        layer1[k].tile.tile_type == Some(t),
        forall|j: int| 0 <= j < layer1.len() && j != k ==> (#[trigger] layer1[j]).pos != mouse,
    ensures
        placeable_upto(layer1, n, mode, mouse, buildings) == (n > k && match mode {
            TileType::Center => t == TileType::Ruins,
            TileType::Barrack => t == TileType::Grass && near_center(buildings, mouse),
            TileType::WoodBuilding => t == TileType::Forest,
            TileType::MetalBuilding => t == TileType::Mountains,
            _ => false,
        }),
    decreases n,
{
    if n > 0 {
        lemma_placeable_single(layer1, mode, mouse, buildings, k, t, n - 1);
    }
}

/// Where each building may go, for every map with one terrain tile under
/// the mouse: a city centre on ruins, a barrack on grass with a city centre
/// within four tiles, a wood building on forest, a metal building on
/// mountains; nothing else anywhere.
pub proof fn law_placement_by_terrain(
    layer1: Seq<SheetTile>,
    mode: TileType,
    mouse: TilePos,
    buildings: Seq<BuildingEntity>,
    k: int,
    t: TileType,
)
    requires
        0 <= k < layer1.len(),
        layer1[k].pos == mouse,
        layer1[k].tile.tile_type == Some(t),
        forall|j: int| 0 <= j < layer1.len() && j != k ==> (#[trigger] layer1[j]).pos != mouse,
    ensures
        placeable(layer1, mode, mouse, buildings) == match mode {
            TileType::Center => t == TileType::Ruins,
            TileType::Barrack => t == TileType::Grass && exists|i: int| 0 <= i < buildings.len()
                && (#[trigger] buildings[i]).building.tile_type == TileType::Center
                && (mouse.x - buildings[i].pos.x) * (mouse.x - buildings[i].pos.x)
                    + (mouse.y - buildings[i].pos.y) * (mouse.y - buildings[i].pos.y) <= 16,
            TileType::WoodBuilding => t == TileType::Forest,
            TileType::MetalBuilding => t == TileType::Mountains,
            _ => false,
        },
{
    lemma_placeable_single(layer1, mode, mouse, buildings, k, t, layer1.len() as int);
    if near_center(buildings, mouse) {
        let i = choose|i: int| 0 <= i < buildings.len() && #[trigger] is_center_near(buildings[i], mouse);
        assert(buildings[i].building.tile_type == TileType::Center);
    }
    if exists|i: int| 0 <= i < buildings.len()
        && (#[trigger] buildings[i]).building.tile_type == TileType::Center
        && (mouse.x - buildings[i].pos.x) * (mouse.x - buildings[i].pos.x)
            + (mouse.y - buildings[i].pos.y) * (mouse.y - buildings[i].pos.y) <= 16 {
        let i = choose|i: int| 0 <= i < buildings.len()
            && (#[trigger] buildings[i]).building.tile_type == TileType::Center
            && (mouse.x - buildings[i].pos.x) * (mouse.x - buildings[i].pos.x)
                + (mouse.y - buildings[i].pos.y) * (mouse.y - buildings[i].pos.y) <= 16;
        assert(is_center_near(buildings[i], mouse));
    }
}

} // verus!


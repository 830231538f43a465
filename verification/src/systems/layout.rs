use vstd::prelude::*;
use crate::components::tiles::{TilePos, TileType};
use crate::game::{SheetTile, BuildingEntity, UnitEntity, Follower};
use crate::systems::combat::AttackRolls;
use crate::systems::sheet::{built_layer, demolished, demolish_upto};
use crate::systems::unit_turn::{produced, turn_upto, spawned, lemma_charge_upto, SpawnState, TurnState, produces};
use crate::components::unit::zero_stat;
use crate::systems::unit_interact::{
    UnitInteractSystem, interact_result, claim_upto, claimed, first_tile_at, blank_first_at, select_phase,
    ent_index, combat_mode, attacks, attack_target,
};

verus! {

/// Two layers hold their tiles in the same places: they have the same
/// length, and the tiles at each index sit at the same position.
pub open spec fn same_layout(a: Seq<SheetTile>, b: Seq<SheetTile>) -> bool {
    &&& a.len() == b.len()
    &&& forall|i: int| #![trigger a[i]] #![trigger b[i]] 0 <= i < a.len() ==> a[i].pos == b[i].pos
}

proof fn lemma_demolish_layout(layer2: Seq<SheetTile>, buildings: Seq<BuildingEntity>, mouse: TilePos, cur: i32, n: int)
    requires
        0 <= n <= layer2.len(),
    ensures
        same_layout(layer2, demolish_upto(layer2, buildings, mouse, cur, n).0),
    decreases n,
{
    if n > 0 {
        lemma_demolish_layout(layer2, buildings, mouse, cur, n - 1);
    }
}

proof fn lemma_claim_layout(
    layer2: Seq<SheetTile>,
    buildings: Seq<BuildingEntity>,
    ttc: Option<i32>,
    fp: TilePos,
    cur: i32,
    n: int,
)
    requires
        0 <= n <= layer2.len(),
    ensures
        same_layout(layer2, claim_upto(layer2, buildings, ttc, fp, cur, n).0),
    decreases n,
{
    if n > 0 {
        lemma_claim_layout(layer2, buildings, ttc, fp, cur, n - 1);
    }
}

proof fn lemma_first_tile_exists(layer: Seq<SheetTile>, p: TilePos, k: int)
    requires
        0 <= k <= layer.len(),
        forall|i: int| 0 <= i < k ==> (#[trigger] layer[i]).pos != p,
        exists|j: int| k <= j < layer.len() && (#[trigger] layer[j]).pos == p,
    ensures
        exists|j: int| first_tile_at(layer, p, j),
    decreases layer.len() - k,
{
    if layer[k].pos == p {
        assert(first_tile_at(layer, p, k));
    } else {
        lemma_first_tile_exists(layer, p, k + 1);
    }
}

proof fn lemma_blank_layout(layer: Seq<SheetTile>, p: TilePos)
    ensures
        same_layout(layer, blank_first_at(layer, p)),
{
    if exists|j: int| 0 <= j < layer.len() && (#[trigger] layer[j]).pos == p {
        lemma_first_tile_exists(layer, p, 0);
    }
}

proof fn lemma_spawn_layout(st: SpawnState, t: TileType, owner: i32, pos: TilePos, cur: i32)
    ensures
        same_layout(st.layer3, spawned(st, t, owner, pos, cur).layer3),
{
    lemma_charge_upto(st, t, cur, st.players.len() as int);
}

proof fn lemma_turn_layout(st: TurnState, cur: i32, n: int)
    ensures
        same_layout(st.layer3, turn_upto(st, cur, n).layer3),
    decreases n,
{
    if n > 0 {
        lemma_turn_layout(st, cur, n - 1);
        let prev = turn_upto(st, cur, n - 1);
        let b = prev.buildings[n - 1];
        if produces(b, cur) {
            let (stack1, top) = b.stack->0.popped();
            if let Some(t) = top {
                let sp0 = SpawnState {
                    players: prev.players,
                    units: prev.units,
                    layer3: prev.layer3,
                    next: prev.next,
                    stack: stack1,
                    stats: zero_stat(),
                    had: true,
                };
                lemma_spawn_layout(sp0, t, b.building.playernum, b.outpos->0.pos, cur);
            }
        }
    }
}

/// Building and demolishing never move a tile of the building layer.
pub proof fn law_building_keeps_layout(
    layer2: Seq<SheetTile>,
    buildings: Seq<BuildingEntity>,
    mouse: TilePos,
    mode: TileType,
    cur: i32,
)
    ensures
        same_layout(layer2, built_layer(layer2, mouse, mode)),
        same_layout(layer2, demolished(layer2, buildings, mouse, cur).0),
{
    lemma_demolish_layout(layer2, buildings, mouse, cur, layer2.len() as int);
}

/// Producing units at the start of a turn never moves a tile of the unit
/// layer.
pub proof fn law_production_keeps_layout(st: TurnState, cur: i32)
    ensures
        same_layout(st.layer3, produced(st, cur).layer3),
{
    lemma_turn_layout(st, cur, st.buildings.len() as int);
}

/// Selecting, moving, fighting and claiming never move a tile of the
/// building or the unit layer.
pub proof fn law_unit_actions_keep_layout(
    s: UnitInteractSystem,
    fol: Follower,
    units: Seq<UnitEntity>,
    layer2: Seq<SheetTile>,
    layer3: Seq<SheetTile>,
    buildings: Seq<BuildingEntity>,
    mode: Option<TileType>,
    mouse: TilePos,
    down: bool,
    onui: bool,
    turn: i32,
    cur: i32,
    rolls: Option<AttackRolls>,
)
    ensures
        ({
            let r = interact_result(s, fol, units, layer2, layer3, buildings, mode, mouse, down, onui, turn, cur, rolls);
            same_layout(layer2, r.3) && same_layout(layer3, r.4)
        }),
{
    if !onui {
        let (s1, f1) = select_phase(s, fol, units, mouse, down, mode, cur);
        if turn <= s1.last_turn && s1.focused {
            let fi = ent_index(units, s1.focused_ent->0);
            let fp = units[fi].pos;
            if combat_mode(units, fp, cur) {
                if attacks(s1, units, mouse, down, cur) && rolls is Some {
                    let t = attack_target(units, mouse, cur)->0;
                    lemma_blank_layout(layer3, units[t].pos);
                }
            } else {
                assert forall|ttc: Option<i32>| #[trigger] same_layout(layer2, claimed(layer2, buildings, ttc, fp, cur).0) by {
                    lemma_claim_layout(layer2, buildings, ttc, fp, cur, layer2.len() as int);
                }
            }
        }
    }
}

} // verus!

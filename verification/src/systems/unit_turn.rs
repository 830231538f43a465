use vstd::prelude::*;
use crate::components::tiles::{TilePos, TileType, Tiles, sprite_of};
use crate::components::player::{Player, PlayersInfo, paid_wood, paid_both};
use crate::components::unit::{UnitStack, Unit, Stat, zero_stat};
use crate::game::{SheetTile, BuildingEntity, UnitEntity, EntityAlloc, Turn};

verus! {

/// At the start of each turn, every barrack of the current player produces
/// the unit at the top of its stack.
#[derive(PartialEq, Eq, Structural, Copy, Clone, Debug)]
pub struct UnitTurnSystem {
    pub last_turn: i32,
}

/// A warrior's statistics. The statistics of a new unit name only health,
/// attack and the chances; every other field keeps the value of
/// `Stat::default()` that production starts from. In particular the speed
/// stays zero and the unit starts rested, so a produced unit has no move
/// target of its own (see `move_valid`); it acts by attacking and by claiming
/// from the tile it appears on.
pub open spec fn warrior_stat() -> Stat {
    Stat { health: 200, attack: 50, resistance: 20, crit_chance: 10, ..zero_stat() }
}

/// A heavy's statistics (speed zero, as for a warrior).
pub open spec fn heavy_stat() -> Stat {
    Stat { health: 500, attack: 50, ..zero_stat() }
}

/// A monk's statistics (speed zero, as for a warrior).
pub open spec fn monk_stat() -> Stat {
    Stat { health: 100, attack: 30, multi_hit_chance: 80, multi_hit_amount: 3, crit_chance: 30, ..zero_stat() }
}

/// Recruiting a unit of type `t` from player `p`: the player after paying,
/// the unit's statistics, and whether the player could pay (`None` for a
/// type that is not recruited, which costs nothing and gets zero
/// statistics). A warrior costs 10 wood, a heavy 20 wood and 25 metal, a
/// monk 5 wood and 30 metal; a player who cannot pay the whole price pays
/// nothing.
pub open spec fn recruit(p: Player, t: TileType) -> (Player, Stat, Option<bool>) {
    match t {
        TileType::Warrior => (paid_wood(p, 10).0, warrior_stat(), Some(paid_wood(p, 10).1)),
        TileType::Heavy => (paid_both(p, 20, 25).0, heavy_stat(), Some(paid_both(p, 20, 25).1)),
        TileType::Monk => (paid_both(p, 5, 30).0, monk_stat(), Some(paid_both(p, 5, 30).1)),
        _ => (p, zero_stat(), None),
    }
}

/// What producing one unit changes: players, units, the unit layer, the
/// next entity identifier, the barrack's stack, the statistics chosen so far
/// and whether the player could pay.
pub struct SpawnState {
    pub players: Seq<Player>,
    pub units: Seq<UnitEntity>,
    pub layer3: Seq<SheetTile>,
    pub next: int,
    pub stack: UnitStack,
    pub stats: Stat,
    pub had: bool,
}

/// The unit layer once a unit of type `t` appears at `pos`: empty tiles there
/// show and hold it.
pub open spec fn spawned_layer(layer3: Seq<SheetTile>, pos: TilePos, t: TileType) -> Seq<SheetTile> {
    Seq::new(
        layer3.len(),
        |i: int| if layer3[i].pos == pos && layer3[i].tile.tile_type is None {
            SheetTile { tile: Tiles { tile_type: Some(t), ..layer3[i].tile }, sprite_number: sprite_of(t), ..layer3[i] }
        } else {
            layer3[i]
        },
    )
}

/// One step over player `k` while charging for a unit of type `t`: the
/// current player pays, and sets the statistics and whether the payment
/// stood (a type that is not recruited leaves that as it was).
pub open spec fn charge_step(st: SpawnState, k: int, t: TileType, cur: i32) -> SpawnState {
    let p = st.players[k];
    if p.num as i32 == cur {
        let (p1, stats, had) = recruit(p, t);
        SpawnState {
            players: st.players.update(k, p1),
            stats,
            had: match had {
                Some(h) => h,
                None => st.had,
            },
            ..st
        }
    } else {
        st
    }
}

/// Charging over the first `n` players.
pub open spec fn charge_upto(st: SpawnState, t: TileType, cur: i32, n: int) -> SpawnState
    decreases n,
{
    if n <= 0 {
        st
    } else {
        charge_step(charge_upto(st, t, cur, n - 1), n - 1, t, cur)
    }
}

/// Producing one popped unit of type `t` for `owner` at `pos`: the current
/// player is charged (see `charge_step`). When the payment stood, one unit
/// with the chosen statistics is created under the next identifier and drawn
/// on the unit layer; otherwise the unit type goes back on the stack, once.
pub open spec fn spawned(st: SpawnState, t: TileType, owner: i32, pos: TilePos, cur: i32) -> SpawnState {
    let c = charge_upto(st, t, cur, st.players.len() as int);
    if c.had {
        SpawnState {
            units: c.units.push(UnitEntity {
                ent: c.next as u64,
                unit: Unit { unit_type: t, playernum: owner },
                pos,
                stat: c.stats,
            }),
            layer3: spawned_layer(c.layer3, pos, t),
            next: c.next + 1,
            ..c
        }
    } else {
        SpawnState { stack: c.stack.pushed(t), ..c }
    }
}

/// What a turn of unit production changes.
pub struct TurnState {
    pub buildings: Seq<BuildingEntity>,
    pub players: Seq<Player>,
    pub units: Seq<UnitEntity>,
    pub layer3: Seq<SheetTile>,
    pub next: int,
}

/// A barrack that produces this turn: owned by `cur`, with a stack and an
/// output position.
pub open spec fn produces(b: BuildingEntity, cur: i32) -> bool {
    b.building.playernum == cur && b.stack is Some && b.outpos is Some
}

/// One step over building `i`: a producing barrack pops its stack and, when
/// it held a unit type, produces it (see `spawned`).
pub open spec fn turn_step(st: TurnState, i: int, cur: i32) -> TurnState {
    let b = st.buildings[i];
    if produces(b, cur) {
        let (stack1, top) = b.stack->0.popped();
        match top {
            Some(t) => {
                let pos = b.outpos->0.pos;
                let sp = spawned(
                    SpawnState {
                        players: st.players,
                        units: st.units,
                        layer3: st.layer3,
                        next: st.next,
                        stack: stack1,
                        stats: zero_stat(),
                        had: true,
                    },
                    t,
                    b.building.playernum,
                    pos,
                    cur,
                );
                TurnState {
                    buildings: st.buildings.update(i, BuildingEntity { stack: Some(sp.stack), ..b }),
                    players: sp.players,
                    units: sp.units,
                    layer3: sp.layer3,
                    next: sp.next,
                }
            },
            None => TurnState { buildings: st.buildings.update(i, BuildingEntity { stack: Some(stack1), ..b }), ..st },
        }
    } else {
        st
    }
}

/// Production over the first `n` buildings.
pub open spec fn turn_upto(st: TurnState, cur: i32, n: int) -> TurnState
    decreases n,
{
    if n <= 0 {
        st
    } else {
        turn_step(turn_upto(st, cur, n - 1), n - 1, cur)
    }
}

/// Production over all buildings.
pub open spec fn produced(st: TurnState, cur: i32) -> TurnState {
    turn_upto(st, cur, st.buildings.len() as int)
}

/// Every producing barrack's stack can be popped and pushed back.
pub open spec fn stacks_ok(buildings: Seq<BuildingEntity>, cur: i32) -> bool {
    forall|i: int|
        0 <= i < buildings.len() && produces(#[trigger] buildings[i], cur) ==> buildings[i].stack->0@.wf()
            && buildings[i].stack->0@.can_pop()
}

/// Charging touches only the players, the statistics and the payment flag,
/// and only the players charged so far.
pub(crate) proof fn lemma_charge_upto(st: SpawnState, t: TileType, cur: i32, n: int)
    requires
        0 <= n <= st.players.len(),
    ensures
        charge_upto(st, t, cur, n).players.len() == st.players.len(),
        charge_upto(st, t, cur, n).units == st.units,
        charge_upto(st, t, cur, n).layer3 == st.layer3,
        charge_upto(st, t, cur, n).next == st.next,
        charge_upto(st, t, cur, n).stack == st.stack,
        forall|j: int| n <= j < st.players.len() ==> #[trigger] charge_upto(st, t, cur, n).players[j] == st.players[j],
    decreases n,
{
    if n > 0 {
        lemma_charge_upto(st, t, cur, n - 1);
    }
}

/// Producing one unit takes at most one identifier and keeps the lengths of
/// the players and the unit layer, and the stack well formed.
proof fn lemma_spawned(st: SpawnState, t: TileType, owner: i32, pos: TilePos, cur: i32)
    requires
        st.stack@.wf(),
    ensures
        st.next <= spawned(st, t, owner, pos, cur).next <= st.next + 1,
        spawned(st, t, owner, pos, cur).players.len() == st.players.len(),
        spawned(st, t, owner, pos, cur).layer3.len() == st.layer3.len(),
        spawned(st, t, owner, pos, cur).stack@.wf(),
{
    lemma_charge_upto(st, t, cur, st.players.len() as int);
    st.stack.lemma_stack_ops(t);
}

proof fn lemma_turn_upto(st: TurnState, cur: i32, k: int, n: int)
    requires
        0 <= k <= n <= st.buildings.len(),
        stacks_ok(st.buildings, cur),
    ensures
        turn_upto(st, cur, k).next <= turn_upto(st, cur, n).next,
        turn_upto(st, cur, n).next >= st.next,
        turn_upto(st, cur, n).buildings.len() == st.buildings.len(),
        turn_upto(st, cur, n).layer3.len() == st.layer3.len(),
        turn_upto(st, cur, n).players.len() == st.players.len(),
        forall|j: int| n <= j < st.buildings.len() ==> #[trigger] turn_upto(st, cur, n).buildings[j] == st.buildings[j],
    decreases n,
{
    if n > 0 {
        if k < n {
            lemma_turn_upto(st, cur, k, n - 1);
        }
        lemma_turn_upto(st, cur, n - 1, n - 1);
        let prev = turn_upto(st, cur, n - 1);
        let b = prev.buildings[n - 1];
        if produces(b, cur) {
            let s0 = b.stack->0;
            s0.lemma_stack_ops(TileType::Empty);
            let (stack1, top) = s0.popped();
            if let Some(t) = top {
                let sp0 = SpawnState {
                    players: prev.players,
                    units: prev.units,
                    layer3: prev.layer3,
                    next: prev.next,
                    stack: stack1,
                    stats: zero_stat(),
                    had: true,
                };
                lemma_spawned(sp0, t, b.building.playernum, b.outpos->0.pos, cur);
            }
        }
    }
}

proof fn lemma_turn_growth(st: TurnState, cur: i32, n: int)
    requires
        0 <= n <= st.buildings.len(),
    ensures
        turn_upto(st, cur, n).next <= st.next + n,
        turn_upto(st, cur, n).players.len() == st.players.len(),
        turn_upto(st, cur, n).buildings.len() == st.buildings.len(),
    decreases n,
{
    if n > 0 {
        lemma_turn_growth(st, cur, n - 1);
        let prev = turn_upto(st, cur, n - 1);
        let b = prev.buildings[n - 1];
        if produces(b, cur) {
            let (stack1, top) = b.stack->0.popped();
            if let Some(t) = top {
                let sp0 = SpawnState {
                    players: prev.players,
                    units: prev.units,
                    layer3: prev.layer3,
                    next: prev.next,
                    stack: stack1,
                    stats: zero_stat(),
                    had: true,
                };
                lemma_charge_upto(sp0, t, cur, prev.players.len() as int);
            }
        }
    }
}

/// Recruits a unit of type `t` from player `p` (see `recruit`).
fn recruit_exec(p: &mut Player, t: TileType) -> (r: (Stat, Option<bool>))
    ensures
        (*final(p), r.0, r.1) == recruit(*old(p), t),
{
    match t {
        TileType::Warrior => {
            let stats = Stat { speed: 0, health: 200, attack: 50, resistance: 20, multi_hit_chance: 0,
                multi_hit_amount: 0, crit_chance: 10, exhausted: false };
            let had = p.sub_wood(10);
            (stats, Some(had))
        },
        TileType::Heavy => {
            let stats = Stat { speed: 0, health: 500, attack: 50, resistance: 0, multi_hit_chance: 0,
                multi_hit_amount: 0, crit_chance: 0, exhausted: false };
            let had = p.sub_both(20, 25);
            (stats, Some(had))
        },
        TileType::Monk => {
            let stats = Stat { speed: 0, health: 100, attack: 30, resistance: 0, multi_hit_chance: 80,
                multi_hit_amount: 3, crit_chance: 30, exhausted: false };
            let had = p.sub_both(5, 30);
            (stats, Some(had))
        },
        _ => (Stat::default(), None),
    }
}

/// Draws a unit of type `t` on the empty unit-layer tiles at `pos`.
fn spawn_on_layer(layer3: &mut Vec<SheetTile>, pos: TilePos, t: TileType)
    ensures
        final(layer3)@ == spawned_layer(old(layer3)@, pos, t),
{
    let ghost orig = layer3@;
    let mut i: usize = 0;
    while i < layer3.len()
        invariant
            0 <= i <= layer3.len(),
            layer3.len() == orig.len(),
            forall|k: int| 0 <= k < i ==> #[trigger] layer3@[k] == spawned_layer(orig, pos, t)[k],
            forall|k: int| i <= k < layer3.len() ==> #[trigger] layer3@[k] == orig[k],
        decreases layer3.len() - i,
    {
        let tile = layer3[i];
        if tile.pos == pos && tile.tile.tile_type.is_none() {
            layer3.set(i, SheetTile {
                tile: Tiles { player: tile.tile.player, tile_type: Some(t) },
                pos: tile.pos,
                sprite_number: t.sprite_number(),
            });
        }
        i = i + 1;
    }
    assert(layer3@ =~= spawned_layer(orig, pos, t));
}

/// Produces one popped unit of type `t` (see `spawned`).
fn spawn(
    players: &mut Vec<Player>,
    units: &mut Vec<UnitEntity>,
    layer3: &mut Vec<SheetTile>,
    alloc: &mut EntityAlloc,
    stack: &mut UnitStack,
    t: TileType,
    owner: i32,
    pos: TilePos,
    cur: i32,
)
    requires
        old(stack)@.wf(),
        spawned(
            SpawnState { players: old(players)@, units: old(units)@, layer3: old(layer3)@, next: old(alloc).next as int,
                stack: *old(stack), stats: zero_stat(), had: true },
            t, owner, pos, cur,
        ).next <= u64::MAX,
    ensures
        ({
            let sp = spawned(
                SpawnState { players: old(players)@, units: old(units)@, layer3: old(layer3)@, next: old(alloc).next as int,
                    stack: *old(stack), stats: zero_stat(), had: true },
                t, owner, pos, cur,
            );
            &&& final(players)@ == sp.players
            &&& final(units)@ == sp.units
            &&& final(layer3)@ == sp.layer3
            &&& final(alloc).next == sp.next
            &&& *final(stack) == sp.stack
        }),
{
    let ghost start = SpawnState { players: players@, units: units@, layer3: layer3@, next: alloc.next as int,
        stack: *stack, stats: zero_stat(), had: true };
    let ghost n = players@.len() as int;
    proof {
        lemma_charge_upto(start, t, cur, n);
    }
    let mut stats = Stat::default();
    let mut had = true;
    let mut k: usize = 0;
    while k < players.len()
        invariant
            0 <= k <= players.len(),
            players.len() == n,
            n == start.players.len(),
            (SpawnState { players: players@, units: start.units, layer3: start.layer3, next: start.next,
                stack: start.stack, stats, had }) == charge_upto(start, t, cur, k as int),
        decreases players.len() - k,
    {
        proof {
            lemma_charge_upto(start, t, cur, k as int);
        }
        let ghost before = players@;
        let mut p = players[k];
        if p.num as i32 == cur {
            let (st, h) = recruit_exec(&mut p, t);
            stats = st;
            match h {
                Some(b) => { had = b; },
                None => {},
            }
        }
        players.set(k, p);
        proof {
            if !(p.num as i32 == cur) {
                assert(players@ =~= before);
            }
        }
        k = k + 1;
    }
    if had {
        let ent = alloc.create();
        units.push(UnitEntity { ent, unit: Unit { unit_type: t, playernum: owner }, pos, stat: stats });
        spawn_on_layer(layer3, pos, t);
    } else {
        stack.push(t);
    }
}

/// What a run does on turn `turn`: when the turn is past the system's, the
/// barracks of player `cur` produce (see `produced`) and the system moves on
/// one turn; otherwise nothing changes.
pub open spec fn unit_turn_result(s: UnitTurnSystem, st: TurnState, cur: i32, turn: i32) -> (UnitTurnSystem, TurnState) {
    if turn > s.last_turn {
        (UnitTurnSystem { last_turn: (s.last_turn + 1) as i32 }, produced(st, cur))
    } else {
        (s, st)
    }
}

/// Units are produced once per turn: when the turn has moved on by at most
/// one since the system's, running the system a second time in the same
/// turn changes nothing.
pub proof fn law_produces_once_per_turn(s: UnitTurnSystem, st: TurnState, cur: i32, turn: i32)
    requires
        turn <= s.last_turn + 1,
    ensures
        ({
            let r = unit_turn_result(s, st, cur, turn);
            unit_turn_result(r.0, r.1, cur, turn) == r
        }),
{
}

impl UnitTurnSystem {
    /// Whether `run` may be called: on a new turn every producing barrack's
    /// stack must allow a pop and a push back, and the entity identifiers
    /// must not run out even if every barrack produced a unit.
    pub fn can_run(&self, buildings: &Vec<BuildingEntity>, players: &Vec<Player>, units: &Vec<UnitEntity>,
        layer3: &Vec<SheetTile>, alloc: &EntityAlloc, turn: &Turn, playersinfo: &PlayersInfo) -> (r: bool)
        ensures
            r ==> (turn.num > self.last_turn ==> {
                &&& stacks_ok(buildings@, playersinfo.current_player_num)
                &&& produced(
                    TurnState { buildings: buildings@, players: players@, units: units@,
                        layer3: layer3@, next: alloc.next as int },
                    playersinfo.current_player_num,
                ).next <= u64::MAX
            }),
            r == (turn.num <= self.last_turn || (stacks_ok(buildings@, playersinfo.current_player_num)
                && alloc.next + buildings.len() <= u64::MAX)),
    {
        if turn.num <= self.last_turn {
            return true;
        }
        let cur = playersinfo.current_player_num;
        let mut i: usize = 0;
        while i < buildings.len()
            invariant
                0 <= i <= buildings.len(),
                turn.num > self.last_turn,
                cur == playersinfo.current_player_num,
                forall|j: int| 0 <= j < i && produces(#[trigger] buildings@[j], cur) ==> buildings@[j].stack->0@.wf()
                    && buildings@[j].stack->0@.can_pop(),
            decreases buildings.len() - i,
        {
            let b = buildings[i];
            if b.building.playernum == cur && b.stack.is_some() && b.outpos.is_some() {
                let st = b.stack.unwrap();
                if !st.is_poppable() {
                    assert(produces(buildings@[i as int], cur));
                    return false;
                }
            }
            i = i + 1;
        }
        let ok = (alloc.next as u128) + (buildings.len() as u128) <= 0xffff_ffff_ffff_ffff;
        proof {
            if ok {
                let start = TurnState { buildings: buildings@, players: players@, units: units@,
                    layer3: layer3@, next: alloc.next as int };
                lemma_turn_growth(start, cur, buildings@.len() as int);
            }
        }
        ok
    }

    /// Produces units once per new turn: for every barrack of the current
    /// player that has a stack and an output position, the top of its stack
    /// is popped and, if there was one, produced (see `turn_step`). The turn
    /// counter of the system then advances by one.
    pub fn run(
        &mut self,
        buildings: &mut Vec<BuildingEntity>,
        players: &mut Vec<Player>,
        units: &mut Vec<UnitEntity>,
        layer3: &mut Vec<SheetTile>,
        alloc: &mut EntityAlloc,
        turn: &Turn,
        playersinfo: &PlayersInfo,
    )
        requires
            turn.num > old(self).last_turn ==> {
                &&& stacks_ok(old(buildings)@, playersinfo.current_player_num)
                &&& produced(
                    TurnState { buildings: old(buildings)@, players: old(players)@, units: old(units)@,
                        layer3: old(layer3)@, next: old(alloc).next as int },
                    playersinfo.current_player_num,
                ).next <= u64::MAX
            },
        ensures
            (*final(self), TurnState { buildings: final(buildings)@, players: final(players)@, units: final(units)@,
                layer3: final(layer3)@, next: final(alloc).next as int })
                == unit_turn_result(*old(self), TurnState { buildings: old(buildings)@, players: old(players)@,
                    units: old(units)@, layer3: old(layer3)@, next: old(alloc).next as int },
                    playersinfo.current_player_num, turn.num),
    {
        if turn.num > self.last_turn {
            let cur = playersinfo.current_player_num;
            let ghost start = TurnState { buildings: buildings@, players: players@, units: units@, layer3: layer3@,
                next: alloc.next as int };
            let ghost nb = buildings@.len() as int;
            let mut i: usize = 0;
            while i < buildings.len()
                invariant
                    0 <= i <= buildings.len(),
                    buildings.len() == nb,
                    nb == start.buildings.len(),
                    stacks_ok(start.buildings, cur),
                    produced(start, cur).next <= u64::MAX,
                    (TurnState { buildings: buildings@, players: players@, units: units@, layer3: layer3@,
                        next: alloc.next as int }) == turn_upto(start, cur, i as int),
                decreases buildings.len() - i,
            {
                proof {
                    lemma_turn_upto(start, cur, i as int, nb);
                    lemma_turn_upto(start, cur, (i + 1) as int, nb);
                    lemma_turn_upto(start, cur, i as int, i as int);
                }
                let b = buildings[i];
                if b.building.playernum == cur && b.stack.is_some() && b.outpos.is_some() {
                    let mut stack = b.stack.unwrap();
                    let pos = b.outpos.unwrap().pos;
                    proof {
                        stack.lemma_stack_ops(TileType::Empty);
                        assert(buildings@[i as int] == start.buildings[i as int]);
                    }
                    match stack.pop() {
                        Some(t) => {
                            spawn(players, units, layer3, alloc, &mut stack, t, b.building.playernum, pos, cur);
                        },
                        None => {},
                    }
                    buildings.set(i, BuildingEntity { stack: Some(stack), ..b });
                }
                i = i + 1;
            }
            self.last_turn = self.last_turn + 1;
        }
    }
}

/// What each unit costs and which statistics it gets, for every player: a
/// warrior costs 10 wood and has health 200, attack 50, resistance 20 and
/// crit chance 10; a heavy costs 20 wood and 25 metal and has health 500 and
/// attack 50; a monk costs 5 wood and 30 metal and has health 100, attack 30,
/// multi-hit chance 80 with three extra hits and crit chance 30 (health and
/// attack in tenths, chances in percent). A player who can pay the whole
/// price pays exactly that and keeps everything else; one who cannot pays
/// nothing.
pub proof fn law_unit_prices_and_stats(p: Player)
    ensures
        recruit(p, TileType::Warrior).1 == (Stat { speed: 0, health: 200, attack: 50, resistance: 20,
            multi_hit_chance: 0, multi_hit_amount: 0, crit_chance: 10, exhausted: false }),
        recruit(p, TileType::Heavy).1 == (Stat { speed: 0, health: 500, attack: 50, resistance: 0,
            multi_hit_chance: 0, multi_hit_amount: 0, crit_chance: 0, exhausted: false }),
        recruit(p, TileType::Monk).1 == (Stat { speed: 0, health: 100, attack: 30, resistance: 0,
            multi_hit_chance: 80, multi_hit_amount: 3, crit_chance: 30, exhausted: false }),
        recruit(p, TileType::Warrior).2 == Some(p.wood >= 10),
        recruit(p, TileType::Heavy).2 == Some(p.wood >= 20 && p.metal >= 25),
        recruit(p, TileType::Monk).2 == Some(p.wood >= 5 && p.metal >= 30),
        p.wood >= 10 ==> recruit(p, TileType::Warrior).0 == (Player { wood: (p.wood - 10) as i32, ..p }),
        p.wood < 10 ==> recruit(p, TileType::Warrior).0 == p,
        p.wood >= 20 && p.metal >= 25 ==> recruit(p, TileType::Heavy).0
            == (Player { wood: (p.wood - 20) as i32, metal: (p.metal - 25) as i32, ..p }),
        !(p.wood >= 20 && p.metal >= 25) ==> recruit(p, TileType::Heavy).0 == p,
        p.wood >= 5 && p.metal >= 30 ==> recruit(p, TileType::Monk).0
            == (Player { wood: (p.wood - 5) as i32, metal: (p.metal - 30) as i32, ..p }),
        !(p.wood >= 5 && p.metal >= 30) ==> recruit(p, TileType::Monk).0 == p,
{
}

proof fn lemma_charge_single(st: SpawnState, t: TileType, cur: i32, k: int, n: int)
    requires
        0 <= k < st.players.len(),
        0 <= n <= st.players.len(),
        st.players[k].num as i32 == cur,
        forall|j: int| 0 <= j < st.players.len() && j != k ==> (#[trigger] st.players[j]).num as i32 != cur,
        t == TileType::Warrior || t == TileType::Heavy || t == TileType::Monk,
    ensures
        n > k ==> {
            &&& charge_upto(st, t, cur, n).players == st.players.update(k, recruit(st.players[k], t).0)
            &&& charge_upto(st, t, cur, n).stats == recruit(st.players[k], t).1
            &&& Some(charge_upto(st, t, cur, n).had) == recruit(st.players[k], t).2
        },
        n <= k ==> charge_upto(st, t, cur, n).players == st.players && charge_upto(st, t, cur, n).had == st.had,
    decreases n,
{
    if n > 0 {
        lemma_charge_single(st, t, cur, k, n - 1);
        lemma_charge_upto(st, t, cur, n - 1);
        if n - 1 > k {
            let prev = charge_upto(st, t, cur, n - 1);
            assert(prev.players[n - 1] == st.players[n - 1]);
        }
    }
}

/// Producing one popped unit, when exactly one player has the current
/// number: if that player can pay for it, they alone are charged, exactly
/// one unit of that type is added, owned by the barrack's owner, standing at
/// the output position, with the type's statistics and the next identifier,
/// and the stack is left as popped; if they cannot, nobody pays, no unit is
/// added, no identifier is used and the unit type goes back on the stack
/// once.
pub proof fn law_produce_one_unit(st: SpawnState, t: TileType, owner: i32, pos: TilePos, cur: i32, k: int)
    requires
        0 <= k < st.players.len(),
        st.players[k].num as i32 == cur,
        forall|j: int| 0 <= j < st.players.len() && j != k ==> (#[trigger] st.players[j]).num as i32 != cur,
        t == TileType::Warrior || t == TileType::Heavy || t == TileType::Monk,
    ensures
        ({
            let r = spawned(st, t, owner, pos, cur);
            let (paid_player, stats, could) = recruit(st.players[k], t);
            &&& could == Some(true) ==> {
                &&& r.players == st.players.update(k, paid_player)
                &&& r.units == st.units.push(UnitEntity {
                    ent: st.next as u64,
                    unit: Unit { unit_type: t, playernum: owner },
                    pos,
                    stat: stats,
                })
                &&& r.next == st.next + 1
                &&& r.stack == st.stack
            }
            &&& could == Some(false) ==> {
                &&& r.players == st.players
                &&& r.units == st.units
                &&& r.layer3 == st.layer3
                &&& r.next == st.next
                &&& r.stack == st.stack.pushed(t)
            }
        }),
{
    lemma_charge_single(st, t, cur, k, st.players.len() as int);
    lemma_charge_upto(st, t, cur, st.players.len() as int);
    let (paid_player, stats, could) = recruit(st.players[k], t);
    if could == Some(false) {
        assert(paid_player == st.players[k]);
        assert(st.players.update(k, paid_player) =~= st.players);
    }
}

} // verus!


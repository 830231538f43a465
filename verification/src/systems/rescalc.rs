use vstd::prelude::*;
use crate::components::tiles::TileType;
use crate::components::player::{Player, PlayersInfo};
use crate::game::{BuildingEntity, Turn};

verus! {

/// Pays out the resources of the current player's buildings once per turn.
#[derive(PartialEq, Eq, Structural, Copy, Clone, Debug)]
pub struct ResourceCalcSystem {
    pub last_turn: i32,
}

/// What one building yields per turn: wood, metal and science. A centre
/// yields five of each, a wood building ten wood, a metal building ten
/// metal, a science building twenty science; anything else nothing.
pub open spec fn yield_of(t: TileType) -> (int, int, int) {
    match t {
        TileType::Center => (5, 5, 5),
        TileType::WoodBuilding => (10, 0, 0),
        TileType::MetalBuilding => (0, 10, 0),
        TileType::ScienceBuilding => (0, 0, 20),
        _ => (0, 0, 0),
    }
}

/// The total yield of the first `n` buildings that player `cur` owns.
pub open spec fn income_upto(buildings: Seq<BuildingEntity>, cur: i32, n: int) -> (int, int, int)
    decreases n,
{
    if n <= 0 {
        (0, 0, 0)
    } else {
        let prev = income_upto(buildings, cur, n - 1);
        let b = buildings[n - 1].building;
        if b.playernum == cur {
            let y = yield_of(b.tile_type);
            (prev.0 + y.0, prev.1 + y.1, prev.2 + y.2)
        } else {
            prev
        }
    }
}

/// The total yield of the buildings player `cur` owns.
pub open spec fn income(buildings: Seq<BuildingEntity>, cur: i32) -> (int, int, int) {
    income_upto(buildings, cur, buildings.len() as int)
}

/// A player after receiving an income.
pub open spec fn paid_out(p: Player, inc: (int, int, int)) -> Player {
    Player { wood: (p.wood + inc.0) as i32, metal: (p.metal + inc.1) as i32, science: (p.science + inc.2) as i32, ..p }
}

/// Every player numbered `cur` receives the income; the others are unchanged.
pub open spec fn players_paid(players: Seq<Player>, cur: i32, inc: (int, int, int)) -> Seq<Player> {
    Seq::new(players.len(), |i: int| if players[i].num as i32 == cur { paid_out(players[i], inc) } else { players[i] })
}

/// The income fits in the current player's resources.
pub open spec fn income_fits(players: Seq<Player>, cur: i32, inc: (int, int, int)) -> bool {
    forall|i: int|
        0 <= i < players.len() && (#[trigger] players[i]).num as i32 == cur ==> {
            &&& players[i].wood + inc.0 <= i32::MAX
            &&& players[i].metal + inc.1 <= i32::MAX
            &&& players[i].science + inc.2 <= i32::MAX
        }
}

proof fn lemma_income_monotone(buildings: Seq<BuildingEntity>, cur: i32, k: int, n: int)
    requires
        0 <= k <= n <= buildings.len(),
    ensures
        0 <= income_upto(buildings, cur, k).0 <= income_upto(buildings, cur, n).0,
        0 <= income_upto(buildings, cur, k).1 <= income_upto(buildings, cur, n).1,
        0 <= income_upto(buildings, cur, k).2 <= income_upto(buildings, cur, n).2,
    decreases n,
{
    if n > 0 {
        if k < n {
            lemma_income_monotone(buildings, cur, k, n - 1);
        }
        lemma_income_monotone(buildings, cur, n - 1, n - 1);
        if k == n {
            lemma_income_monotone(buildings, cur, 0, n - 1);
        }
    }
}

/// What a run does on turn `turn`: when the turn is past the system's, every
/// player numbered `cur` receives the income of `cur`'s buildings and the
/// system moves on one turn; otherwise nothing changes.
pub open spec fn calc_result(
    s: ResourceCalcSystem,
    players: Seq<Player>,
    buildings: Seq<BuildingEntity>,
    cur: i32,
    turn: i32,
) -> (ResourceCalcSystem, Seq<Player>) {
    if turn > s.last_turn {
        (ResourceCalcSystem { last_turn: (s.last_turn + 1) as i32 }, players_paid(players, cur, income(buildings, cur)))
    } else {
        (s, players)
    }
}

impl ResourceCalcSystem {
    /// Whether `run` may be called: on a new turn the income must fit in the
    /// current player's resources.
    pub fn can_run(&self, playersinfo: &PlayersInfo, buildings: &Vec<BuildingEntity>, players: &Vec<Player>, turn: &Turn)
        -> (r: bool)
        ensures
            r == (turn.num > self.last_turn ==> income_fits(players@, playersinfo.current_player_num,
                income(buildings@, playersinfo.current_player_num))),
    {
        if turn.num <= self.last_turn {
            return true;
        }
        let cur = playersinfo.current_player_num;
        let mut w: u128 = 0;
        let mut m: u128 = 0;
        let mut sc: u128 = 0;
        let mut i: usize = 0;
        while i < buildings.len()
            invariant
                0 <= i <= buildings.len(),
                (w as int, m as int, sc as int) == income_upto(buildings@, cur, i as int),
                w <= 20 * i && m <= 20 * i && sc <= 20 * i,
            decreases buildings.len() - i,
        {
            let b = buildings[i].building;
            if b.playernum == cur {
                match b.tile_type {
                    TileType::Center => { w = w + 5; m = m + 5; sc = sc + 5; },
                    TileType::WoodBuilding => { w = w + 10; },
                    TileType::MetalBuilding => { m = m + 10; },
                    TileType::ScienceBuilding => { sc = sc + 20; },
                    _ => {},
                }
            }
            i = i + 1;
        }
        let mut k: usize = 0;
        while k < players.len()
            invariant
                0 <= k <= players.len(),
                turn.num > self.last_turn,
                cur == playersinfo.current_player_num,
                (w as int, m as int, sc as int) == income(buildings@, cur),
                forall|j: int| 0 <= j < k && (#[trigger] players@[j]).num as i32 == cur ==> {
                    &&& players@[j].wood + w <= i32::MAX
                    &&& players@[j].metal + m <= i32::MAX
                    &&& players@[j].science + sc <= i32::MAX
                },
            decreases players.len() - k,
        {
            let p = players[k];
            if p.num as i32 == cur {
                if w > 0x1_0000_0000 || m > 0x1_0000_0000 || sc > 0x1_0000_0000
                    || p.wood as i64 + w as i64 > 0x7fff_ffff || p.metal as i64 + m as i64 > 0x7fff_ffff
                    || p.science as i64 + sc as i64 > 0x7fff_ffff {
                    assert(players@[k as int].num as i32 == cur);
                    assert(p == players@[k as int]);
                    assert(!(players@[k as int].wood + w <= i32::MAX && players@[k as int].metal + m <= i32::MAX
                        && players@[k as int].science + sc <= i32::MAX));
                    let ghost inc = income(buildings@, cur);
                    assert(inc.0 == w && inc.1 == m && inc.2 == sc);
                    assert(!income_fits(players@, cur, inc));
                    return false;
                }
            }
            k = k + 1;
        }
        true
    }

    /// When a new turn has begun (the turn is past the system's), every
    /// player numbered as the current player receives the total yield of the
    /// current player's buildings, and the system's turn advances by one.
    pub fn run(&mut self, playersinfo: &PlayersInfo, buildings: &Vec<BuildingEntity>, players: &mut Vec<Player>, turn: &Turn)
        requires
            turn.num > old(self).last_turn ==> income_fits(old(players)@, playersinfo.current_player_num,
                income(buildings@, playersinfo.current_player_num)),
        ensures
            (*final(self), final(players)@) == calc_result(*old(self), old(players)@, buildings@,
                playersinfo.current_player_num, turn.num),
    {
        if turn.num > self.last_turn {
            let cur = playersinfo.current_player_num;
            let ghost orig = players@;
            let ghost total = income(buildings@, cur);
            let mut i: usize = 0;
            while i < buildings.len()
                invariant
                    0 <= i <= buildings.len(),
                    players.len() == orig.len(),
                    total == income(buildings@, cur),
                    income_fits(orig, cur, total),
                    players@ == players_paid(orig, cur, income_upto(buildings@, cur, i as int)),
                decreases buildings.len() - i,
            {
                proof {
                    lemma_income_monotone(buildings@, cur, (i + 1) as int, buildings@.len() as int);
                    lemma_income_monotone(buildings@, cur, i as int, (i + 1) as int);
                }
                let b = buildings[i].building;
                if b.playernum == cur {
                    let ghost before = players@;
                    let mut k: usize = 0;
                    while k < players.len()
                        invariant
                            0 <= k <= players.len(),
                            players.len() == orig.len(),
                            b == buildings@[i as int].building,
                            b.playernum == cur,
                            income_fits(orig, cur, total),
                            0 <= income_upto(buildings@, cur, (i + 1) as int).0 <= total.0,
                            0 <= income_upto(buildings@, cur, (i + 1) as int).1 <= total.1,
                            0 <= income_upto(buildings@, cur, (i + 1) as int).2 <= total.2,
                            0 <= income_upto(buildings@, cur, i as int).0 <= income_upto(buildings@, cur, (i + 1) as int).0,
                            0 <= income_upto(buildings@, cur, i as int).1 <= income_upto(buildings@, cur, (i + 1) as int).1,
                            0 <= income_upto(buildings@, cur, i as int).2 <= income_upto(buildings@, cur, (i + 1) as int).2,
                            before == players_paid(orig, cur, income_upto(buildings@, cur, i as int)),
                            forall|j: int| 0 <= j < k ==> #[trigger] players@[j]
                                == players_paid(orig, cur, income_upto(buildings@, cur, (i + 1) as int))[j],
                            forall|j: int| k <= j < players.len() ==> #[trigger] players@[j] == before[j],
                        decreases players.len() - k,
                    {
                        let mut p = players[k];
                        assert(p == before[k as int]);
                        if p.num as i32 == cur {
                            assert(orig[k as int].num as i32 == cur);
                            assert(p == paid_out(orig[k as int], income_upto(buildings@, cur, i as int)));
                            assert(income_upto(buildings@, cur, (i + 1) as int) == (
                                income_upto(buildings@, cur, i as int).0 + yield_of(b.tile_type).0,
                                income_upto(buildings@, cur, i as int).1 + yield_of(b.tile_type).1,
                                income_upto(buildings@, cur, i as int).2 + yield_of(b.tile_type).2,
                            ));
                            assert(orig[k as int].wood + total.0 <= i32::MAX);
                            assert(orig[k as int].metal + total.1 <= i32::MAX);
                            assert(orig[k as int].science + total.2 <= i32::MAX);
                            match b.tile_type {
                                TileType::Center => {
                                    p.wood = p.wood + 5;
                                    p.metal = p.metal + 5;
                                    p.science = p.science + 5;
                                },
                                TileType::Barrack => {},
                                TileType::WoodBuilding => { p.wood = p.wood + 10; },
                                TileType::MetalBuilding => { p.metal = p.metal + 10; },
                                TileType::ScienceBuilding => { p.science = p.science + 20; },
                                _ => {},
                            }
                        }
                        players.set(k, p);
                        k = k + 1;
                    }
                    assert(players@ =~= players_paid(orig, cur, income_upto(buildings@, cur, (i + 1) as int)));
                } else {
                    assert(players_paid(orig, cur, income_upto(buildings@, cur, (i + 1) as int))
                        =~= players_paid(orig, cur, income_upto(buildings@, cur, i as int)));
                }
                i = i + 1;
            }
            self.last_turn = self.last_turn + 1;
        }
    }
}

/// Income is paid once per turn: when the turn has moved on by at most one
/// since the system's, running the system a second time in the same turn
/// changes nothing.
pub proof fn law_paid_once_per_turn(
    s: ResourceCalcSystem,
    players: Seq<Player>,
    buildings: Seq<BuildingEntity>,
    cur: i32,
    turn: i32,
)
    requires
        turn <= s.last_turn + 1,
    ensures
        ({
            let r = calc_result(s, players, buildings, cur, turn);
            calc_result(r.0, r.1, buildings, cur, turn) == r
        }),
{
}

/// Income never takes anything away: every resource of every player is at
/// least what it was.
pub proof fn law_income_never_decreases(players: Seq<Player>, buildings: Seq<BuildingEntity>, cur: i32)
    requires
        income_fits(players, cur, income(buildings, cur)),
    ensures
        forall|i: int| 0 <= i < players.len() ==> {
            let q = #[trigger] players_paid(players, cur, income(buildings, cur))[i];
            &&& q.wood >= players[i].wood
            &&& q.metal >= players[i].metal
            &&& q.science >= players[i].science
            &&& q.faith == players[i].faith
            &&& q.num == players[i].num
        },
{
    lemma_income_monotone(buildings, cur, 0, buildings.len() as int);
}

/// What each building yields its owner per turn (wood, metal, science): a
/// city centre 5 of each, a wood building 10 wood, a metal building 10
/// metal, a science building 20 science, a barrack or anything else nothing;
/// another player's building yields the current player nothing, and the
/// income of several buildings is the sum of theirs.
pub proof fn law_building_yields(b: BuildingEntity, rest: Seq<BuildingEntity>, cur: i32)
    ensures
        income(seq![b], cur) == (if b.building.playernum != cur {
            (0int, 0int, 0int)
        } else if b.building.tile_type == TileType::Center {
            (5int, 5int, 5int)
        } else if b.building.tile_type == TileType::WoodBuilding {
            (10int, 0int, 0int)
        } else if b.building.tile_type == TileType::MetalBuilding {
            (0int, 10int, 0int)
        } else if b.building.tile_type == TileType::ScienceBuilding {
            (0int, 0int, 20int)
        } else {
            (0int, 0int, 0int)
        }),
        income(rest.push(b), cur) == (
            income(rest, cur).0 + income(seq![b], cur).0,
            income(rest, cur).1 + income(seq![b], cur).1,
            income(rest, cur).2 + income(seq![b], cur).2,
        ),
{
    assert(rest.push(b).drop_last() =~= rest);
    lemma_income_prefix(rest.push(b), rest, cur, rest.len() as int);
    assert(income_upto(seq![b], cur, 0) == (0int, 0int, 0int));
}

proof fn lemma_income_prefix(s: Seq<BuildingEntity>, t: Seq<BuildingEntity>, cur: i32, n: int)
    requires
        0 <= n <= t.len(),
        t.len() <= s.len(),
        forall|i: int| 0 <= i < t.len() ==> #[trigger] s[i] == t[i],
    ensures
        income_upto(s, cur, n) == income_upto(t, cur, n),
    decreases n,
{
    if n > 0 {
        lemma_income_prefix(s, t, cur, n - 1);
    }
}

} // verus!

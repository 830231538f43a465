use vstd::prelude::*;
use crate::components::tiles::TileType;
use crate::game::{BuildingEntity, Turn, WinState};

verus! {

/// Ends the game when a player has lost every city centre.
#[derive(PartialEq, Eq, Structural, Copy, Clone, Debug)]
pub struct WinCheckSystem;

/// How many city centres player `p` owns among the first `n` buildings.
pub open spec fn centers_upto(buildings: Seq<BuildingEntity>, p: i32, n: int) -> int
    decreases n,
{
    if n <= 0 {
        0
    } else {
        centers_upto(buildings, p, n - 1) + (if buildings[n - 1].building.playernum == p
            && buildings[n - 1].building.tile_type == TileType::Center { 1int } else { 0int })
    }
}

/// How many city centres player `p` owns.
pub open spec fn centers(buildings: Seq<BuildingEntity>, p: i32) -> int {
    centers_upto(buildings, p, buildings.len() as int)
}

/// The game state after checking for a winner: from turn two on, when
/// player 0 has no centre player 2 (the second, counted from one) wins;
/// else when player 1 has none player 1 wins; else nothing changes.
pub open spec fn checked_win(w: WinState, buildings: Seq<BuildingEntity>, turn: i32) -> WinState {
    if turn >= 2 && centers(buildings, 0) == 0 {
        WinState { case: true, num_winner: 2 }
    } else if turn >= 2 && centers(buildings, 1) == 0 {
        WinState { case: true, num_winner: 1 }
    } else {
        w
    }
}

proof fn lemma_centers_bounds(buildings: Seq<BuildingEntity>, p: i32, n: int)
    requires
        0 <= n <= buildings.len(),
    ensures
        0 <= centers_upto(buildings, p, n) <= n,
    decreases n,
{
    if n > 0 {
        lemma_centers_bounds(buildings, p, n - 1);
    }
}

impl WinCheckSystem {
    /// Checks for a winner (see `checked_win`).
    pub fn run(&self, buildings: &Vec<BuildingEntity>, turn: &Turn, winstate: &mut WinState)
        ensures
            *final(winstate) == checked_win(*old(winstate), buildings@, turn.num),
    {
        if turn.num >= 2 {
            let mut p1count: usize = 0;
            let mut p2count: usize = 0;
            let mut i: usize = 0;
            while i < buildings.len()
                invariant
                    0 <= i <= buildings.len(),
                    p1count == centers_upto(buildings@, 0, i as int),
                    p2count == centers_upto(buildings@, 1, i as int),
                decreases buildings.len() - i,
            {
                proof {
                    lemma_centers_bounds(buildings@, 0, i as int);
                    lemma_centers_bounds(buildings@, 1, i as int);
                }
                let b = buildings[i].building;
                if b.playernum == 0 && b.tile_type == TileType::Center {
                    p1count = p1count + 1;
                } else if b.playernum == 1 && b.tile_type == TileType::Center {
                    p2count = p2count + 1;
                }
                i = i + 1;
            }
            if p1count == 0 {
                winstate.case = true;
                winstate.num_winner = 2;
            } else if p2count == 0 {
                winstate.case = true;
                winstate.num_winner = 1;
            }
        }
    }
}

/// A win is declared only for a player whose opponent has no city centre,
/// and a declared win stays declared.
pub proof fn law_win_only_without_centres(w: WinState, buildings: Seq<BuildingEntity>, turn: i32)
    ensures
        ({
            let r = checked_win(w, buildings, turn);
            &&& (r.case && !w.case) ==> turn >= 2 && (centers(buildings, 0) == 0 || centers(buildings, 1) == 0)
            &&& w.case ==> r.case
            &&& r != w ==> (r.num_winner == 2 <==> centers(buildings, 0) == 0)
        }),
{
}

proof fn lemma_no_centres(buildings: Seq<BuildingEntity>, p: i32, n: int)
    requires
        0 <= n <= buildings.len(),
    ensures
        centers_upto(buildings, p, n) == 0 <==> forall|i: int| 0 <= i < n ==>
            !((#[trigger] buildings[i]).building.playernum == p && buildings[i].building.tile_type == TileType::Center),
    decreases n,
{
    if n > 0 {
        lemma_no_centres(buildings, p, n - 1);
        lemma_centers_bounds(buildings, p, n - 1);
    }
}

/// Only city centres count: from turn two on, a player none of whose
/// buildings is a city centre loses (player 0 first, making player 2 the
/// winner; then player 1, making player 1 the winner), whatever other
/// buildings they own; while both own a centre, or before turn two, nothing
/// changes.
pub proof fn law_loser_has_no_centre(w: WinState, buildings: Seq<BuildingEntity>, turn: i32)
    ensures
        ({
            let none0 = forall|i: int| 0 <= i < buildings.len() ==>
                !((#[trigger] buildings[i]).building.playernum == 0 && buildings[i].building.tile_type == TileType::Center);
            let none1 = forall|i: int| 0 <= i < buildings.len() ==>
                !((#[trigger] buildings[i]).building.playernum == 1 && buildings[i].building.tile_type == TileType::Center);
            let r = checked_win(w, buildings, turn);
            &&& turn < 2 ==> r == w
            &&& turn >= 2 && none0 ==> r == (WinState { case: true, num_winner: 2 })
            &&& turn >= 2 && !none0 && none1 ==> r == (WinState { case: true, num_winner: 1 })
            &&& !none0 && !none1 ==> r == w
        }),
{
    lemma_no_centres(buildings, 0, buildings.len() as int);
    lemma_no_centres(buildings, 1, buildings.len() as int);
}

} // verus!

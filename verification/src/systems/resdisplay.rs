use vstd::prelude::*;
use vstd::string::*;
use crate::components::player::{Player, PlayersInfo};
use crate::text::{int_text, int_to_string};

verus! {

/// Shows the current player's resources.
#[derive(PartialEq, Eq, Structural, Copy, Clone, Debug)]
pub struct ResourceDispSystem;

/// The resource bar text for player `p`: "Wood: w, Metal: m, Faith: f".
pub open spec fn resource_text(p: Player) -> Seq<char> {
    "Wood: "@ + int_text(p.wood as int) + ", Metal: "@ + int_text(p.metal as int) + ", Faith: "@
        + int_text(p.faith as int)
}

/// The last player numbered `cur` among the first `n` players.
pub open spec fn last_player_upto(players: Seq<Player>, cur: i32, n: int) -> Option<Player>
    decreases n,
{
    if n <= 0 {
        None
    } else if players[n - 1].num as i32 == cur {
        Some(players[n - 1])
    } else {
        last_player_upto(players, cur, n - 1)
    }
}

/// The resource bar text for a player.
pub fn resource_string(p: &Player) -> (s: String)
    ensures
        s@ == resource_text(*p),
{
    let mut s = String::from_str("Wood: ");
    s.append(int_to_string(p.wood).as_str());
    s.append(", Metal: ");
    s.append(int_to_string(p.metal).as_str());
    s.append(", Faith: ");
    s.append(int_to_string(p.faith).as_str());
    s
}

/// The text for winner `winner`: "Player n WON!".
pub open spec fn win_text(winner: int) -> Seq<char> {
    "Player "@ + int_text(winner) + " WON!"@
}

/// The announcement of the winner.
pub fn win_string(winner: i32) -> (s: String)
    ensures
        s@ == win_text(winner as int),
{
    let mut s = String::from_str("Player ");
    s.append(int_to_string(winner).as_str());
    s.append(" WON!");
    s
}

impl ResourceDispSystem {
    /// The text the resource bar shows: that of the last player numbered as
    /// the current player, or `None` (the bar keeps its text) when there is none.
    pub fn run(&self, playersinfo: &PlayersInfo, players: &Vec<Player>) -> (text: Option<String>)
        ensures
            match last_player_upto(players@, playersinfo.current_player_num, players@.len() as int) {
                Some(p) => text matches Some(t) && t@ == resource_text(p),
                None => text is None,
            },
    {
        let mut text: Option<String> = None;
        let mut i: usize = 0;
        while i < players.len()
            invariant
                0 <= i <= players.len(),
                match last_player_upto(players@, playersinfo.current_player_num, i as int) {
                    Some(p) => text matches Some(t) && t@ == resource_text(p),
                    None => text is None,
                },
            decreases players.len() - i,
        {
            if players[i].num as i32 == playersinfo.current_player_num {
                text = Some(resource_string(&players[i]));
            }
            i = i + 1;
        }
        text
    }
}

} // verus!

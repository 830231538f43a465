use vstd::prelude::*;
use crate::components::player::PlayersInfo;
use crate::game::{UiButton, Turn};

verus! {

/// Ends turns when the turn button is clicked.
#[derive(PartialEq, Eq, Structural, Copy, Clone, Debug)]
pub struct TurnSystem;

/// The remainder of `a` divided by `b`, with the sign of `a` (as Rust's `%`).
pub open spec fn rem(a: int, b: int) -> int {
    if a >= 0 {
        a % b
    } else {
        -((-a) % b)
    }
}

/// How many of the clicks are on the turn button.
pub open spec fn turn_clicks(events: Seq<UiButton>) -> int
    decreases events.len(),
{
    if events.len() == 0 {
        0
    } else {
        turn_clicks(events.drop_last()) + (if events.last() == UiButton::Turn { 1int } else { 0int })
    }
}

proof fn lemma_turn_clicks_bounds(events: Seq<UiButton>)
    ensures
        0 <= turn_clicks(events) <= events.len(),
    decreases events.len(),
{
    if events.len() > 0 {
        lemma_turn_clicks_bounds(events.drop_last());
    }
}

impl TurnSystem {
    /// Whether `run` may be called: the turn button clicks need a non-zero
    /// number of players and must not carry the turn past `i32::MAX`.
    pub fn can_run(&self, playersinfo: &PlayersInfo, turn: &Turn, events: &Vec<UiButton>) -> (r: bool)
        ensures
            r == ((turn_clicks(events@) > 0 ==> playersinfo.count != 0)
                && turn.num + turn_clicks(events@) <= i32::MAX),
    {
        let mut clicks: u64 = 0;
        let mut k: usize = 0;
        while k < events.len()
            invariant
                0 <= k <= events.len(),
                clicks == turn_clicks(events@.take(k as int)),
                clicks <= k,
            decreases events.len() - k,
        {
            proof {
                assert(events@.take(k + 1).drop_last() =~= events@.take(k as int));
                assert(events@.take(k + 1).last() == events@[k as int]);
            }
            if events[k] == UiButton::Turn {
                clicks = clicks + 1;
            }
            k = k + 1;
        }
        proof {
            assert(events@.take(events@.len() as int) =~= events@);
        }
        (clicks == 0 || playersinfo.count != 0) && (turn.num as i128) + (clicks as i128) <= 0x7fff_ffff
    }

    /// Uses up the pending clicks; each click on the turn button advances the
    /// turn by one and makes the current player the turn number modulo the
    /// number of players.
    pub fn run(&self, playersinfo: &mut PlayersInfo, turn: &mut Turn, events: &mut Vec<UiButton>)
        requires
            turn_clicks(old(events)@) > 0 ==> old(playersinfo).count != 0,
            old(turn).num + turn_clicks(old(events)@) <= i32::MAX,
        ensures
            final(turn).num == old(turn).num + turn_clicks(old(events)@),
            final(playersinfo).count == old(playersinfo).count,
            final(playersinfo).current_player_num == (if turn_clicks(old(events)@) > 0 {
                rem(final(turn).num as int, old(playersinfo).count as int)
            } else {
                old(playersinfo).current_player_num as int
            }),
            final(events)@.len() == 0,
    {
        let ghost evs = events@;
        let mut k: usize = 0;
        while k < events.len()
            invariant
                0 <= k <= events.len(),
                events@ == evs,
                turn_clicks(evs) > 0 ==> playersinfo.count == old(playersinfo).count && old(playersinfo).count != 0,
                playersinfo.count == old(playersinfo).count,
                old(turn).num + turn_clicks(evs) <= i32::MAX,
                turn.num == old(turn).num + turn_clicks(evs.take(k as int)),
                playersinfo.current_player_num == (if turn_clicks(evs.take(k as int)) > 0 {
                    rem(turn.num as int, old(playersinfo).count as int)
                } else {
                    old(playersinfo).current_player_num as int
                }),
            decreases events.len() - k,
        {
            proof {
                assert(evs.take(k + 1).drop_last() =~= evs.take(k as int));
                assert(evs.take(k + 1).last() == evs[k as int]);
                lemma_turn_clicks_bounds(evs.take(k + 1));
                lemma_turn_clicks_bounds(evs.take(k as int));
                lemma_turn_clicks_prefix(evs, k + 1);
            }
            if events[k] == UiButton::Turn {
                turn.num = turn.num + 1;
                playersinfo.current_player_num = turn.num % playersinfo.count;
            }
            k = k + 1;
        }
        proof {
            assert(evs.take(evs.len() as int) =~= evs);
        }
        events.clear();
    }
}

proof fn lemma_turn_clicks_prefix(events: Seq<UiButton>, n: int)
    requires
        0 <= n <= events.len(),
    ensures
        turn_clicks(events.take(n)) <= turn_clicks(events),
    decreases events.len() - n,
{
    if n < events.len() {
        lemma_turn_clicks_prefix(events, n + 1);
        assert(events.take(n + 1).drop_last() =~= events.take(n));
    } else {
        assert(events.take(n) =~= events);
    }
}

/// The current player is always the turn number modulo the number of
/// players: a run of the turn system keeps that true, and establishes it
/// whenever the turn button was clicked.
pub proof fn law_current_player_follows_turn(
    before: PlayersInfo,
    turn_before: i32,
    after: PlayersInfo,
    turn_after: i32,
    events: Seq<UiButton>,
)
    requires
        turn_after == turn_before + turn_clicks(events),
        after.count == before.count,
        after.current_player_num == (if turn_clicks(events) > 0 {
            rem(turn_after as int, before.count as int)
        } else {
            before.current_player_num as int
        }),
        turn_clicks(events) > 0 || before.current_player_num == rem(turn_before as int, before.count as int),
    ensures
        after.current_player_num == rem(turn_after as int, after.count as int),
{
    lemma_turn_clicks_bounds(events);
}

} // verus!

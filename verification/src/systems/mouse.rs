use vstd::prelude::*;
use crate::components::tiles::{TilePos, sprite_of};
use crate::game::{MouseTilePos, Follower, OnUi};

verus! {

/// Tracks which tile the mouse points at.
#[derive(PartialEq, Eq, Structural, Copy, Clone, Debug)]
pub struct M2TileSystem;

impl M2TileSystem {
    /// Records the tile the mouse points at, when the mouse is over the window.
    pub fn run(&self, pointed: Option<TilePos>, mouse_tile_pos: &mut MouseTilePos)
        ensures
            *final(mouse_tile_pos) == (match pointed {
                Some(p) => MouseTilePos { pos: p },
                None => *old(mouse_tile_pos),
            }),
    {
        if let Some(p) = pointed {
            mouse_tile_pos.pos.x = p.x;
            mouse_tile_pos.pos.y = p.y;
        }
    }
}

/// Makes the follower tile track the mouse.
#[derive(PartialEq, Eq, Structural, Copy, Clone, Debug)]
pub struct TileMouseFollow;

/// The last of the first `n` tiles at `mouse`.
pub open spec fn last_at_upto(positions: Seq<TilePos>, mouse: TilePos, n: int) -> Option<int>
    decreases n,
{
    if n <= 0 {
        None
    } else if positions[n - 1] == mouse {
        Some(n - 1)
    } else {
        last_at_upto(positions, mouse, n - 1)
    }
}

impl TileMouseFollow {
    /// Where the follower goes and how it is drawn: the index of the last
    /// map tile under the mouse, whose place it takes (`None` leaves it at
    /// the origin), and the sprite of what it shows.
    pub fn run(&self, tile_positions: &Vec<TilePos>, mouse_tile_pos: &MouseTilePos, follower: &Follower)
        -> (r: (Option<usize>, usize))
        ensures
            r.1 == sprite_of(follower.kind),
            match last_at_upto(tile_positions@, mouse_tile_pos.pos, tile_positions@.len() as int) {
                Some(i) => r.0 == Some(i as usize),
                None => r.0 is None,
            },
    {
        let mut found: Option<usize> = None;
        let mut i: usize = 0;
        while i < tile_positions.len()
            invariant
                0 <= i <= tile_positions.len(),
                match last_at_upto(tile_positions@, mouse_tile_pos.pos, i as int) {
                    Some(j) => found == Some(j as usize),
                    None => found is None,
                },
            decreases tile_positions.len() - i,
        {
            if tile_positions[i] == mouse_tile_pos.pos {
                found = Some(i);
            }
            i = i + 1;
        }
        (found, follower.kind.sprite_number())
    }
}

/// The first pixel row, counted from the top of the window, that belongs to
/// the user interface panel at the bottom of the screen.
pub const UI_TOP_ROW: i64 = 1070;

/// Tells whether the mouse is over the user interface panel.
#[derive(PartialEq, Eq, Structural, Copy, Clone, Debug)]
pub struct UIDetect;

impl UIDetect {
    /// Given the mouse's row in whole pixels (its position rounded up), or
    /// `None` when the mouse is outside the window: the mouse is on the
    /// panel exactly when it lies below `UI_TOP_ROW`; outside the window
    /// the flag keeps its value.
    pub fn run(&self, mouse_row: Option<i64>, onui: &mut OnUi)
        ensures
            *final(onui) == (match mouse_row {
                Some(y) => OnUi { case: y > UI_TOP_ROW },
                None => *old(onui),
            }),
    {
        if let Some(y) = mouse_row {
            onui.case = y > UI_TOP_ROW;
        }
    }
}

} // verus!

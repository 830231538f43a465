use vstd::prelude::*;
use crate::components::tiles::TileType;
use crate::components::builds::Build;
use crate::game::{MenuState, UiButton, Turn};

verus! {

/// The build menu: choosing what to build, at most one city centre per turn.
#[derive(PartialEq, Eq, Structural, Copy, Clone, Debug)]
pub struct BuildSystem {
    pub run: bool,
    pub centered_turn: i32,
}

impl Default for BuildSystem {
    fn default() -> (s: Self)
        ensures
            s == (BuildSystem { run: false, centered_turn: 0 }),
    {
        BuildSystem { run: false, centered_turn: 0 }
    }
}

/// The building mode a build-menu button chooses.
pub open spec fn button_mode(ev: UiButton) -> Option<TileType> {
    match ev {
        UiButton::Demolish => Some(TileType::Demolish),
        UiButton::Center => Some(TileType::Center),
        UiButton::Barrack => Some(TileType::Barrack),
        UiButton::WoodBuilding => Some(TileType::WoodBuilding),
        UiButton::MetalBuilding => Some(TileType::MetalBuilding),
        UiButton::ScienceBuilding => Some(TileType::ScienceBuilding),
        _ => None,
    }
}

/// One click: the build button shows or hides the build menu. Any other
/// click chooses the mode of its button (a centre only when none was chosen
/// this turn, which then records the turn) and hides the build menu.
pub open spec fn build_click(st: (BuildSystem, Build, bool), ev: UiButton, turn: i32) -> (BuildSystem, Build, bool) {
    let (s, b, hidden) = st;
    if ev == UiButton::Build {
        (s, b, !hidden)
    } else if ev == UiButton::Center {
        if s.centered_turn < turn {
            (BuildSystem { centered_turn: turn, ..s }, Build { mode: Some(TileType::Center) }, true)
        } else {
            (s, b, true)
        }
    } else if button_mode(ev) is Some {
        (s, Build { mode: button_mode(ev) }, true)
    } else {
        (s, b, true)
    }
}

/// The first `n` clicks.
pub open spec fn build_clicks_upto(st: (BuildSystem, Build, bool), events: Seq<UiButton>, turn: i32, n: int) -> (BuildSystem, Build, bool)
    decreases n,
{
    if n <= 0 {
        st
    } else {
        build_click(build_clicks_upto(st, events, turn, n - 1), events[n - 1], turn)
    }
}

/// A click in state `st` chooses a city centre: the centre button while no
/// centre was chosen in this turn.
pub open spec fn chooses_centre(st: (BuildSystem, Build, bool), ev: UiButton, turn: i32) -> bool {
    ev == UiButton::Center && st.0.centered_turn < turn
}

/// How many of the first `n` clicks choose a city centre.
pub open spec fn centre_count(st: (BuildSystem, Build, bool), events: Seq<UiButton>, turn: i32, n: int) -> int
    decreases n,
{
    if n <= 0 {
        0
    } else {
        centre_count(st, events, turn, n - 1)
            + (if chooses_centre(build_clicks_upto(st, events, turn, n - 1), events[n - 1], turn) { 1int } else { 0int })
    }
}

/// The system after a run with the given build mode, menus and clicks (see `run`).
pub open spec fn build_system_after(s: BuildSystem, b: Build, menus: MenuState, events: Seq<UiButton>, turn: i32) -> BuildSystem {
    if !s.run {
        if menus.build_menu is Some { BuildSystem { run: true, centered_turn: -1i32 } } else { s }
    } else {
        match menus.build_menu {
            Some(h) => build_clicks_upto((s, b, h), events, turn, events.len() as int).0,
            None => s,
        }
    }
}

/// How many clicks choose a city centre in a run with the given build mode,
/// menus and clicks: none unless the system has started and the build menu
/// is loaded.
pub open spec fn run_centres(s: BuildSystem, b: Build, menus: MenuState, events: Seq<UiButton>, turn: i32) -> int {
    if s.run {
        match menus.build_menu {
            Some(h) => centre_count((s, b, h), events, turn, events.len() as int),
            None => 0,
        }
    } else {
        0
    }
}

/// The first `k` of a sequence of runs, each given its build mode, menus and
/// clicks: the system afterwards and how many centres were chosen in all.
pub open spec fn runs_upto(
    s: BuildSystem,
    calls: Seq<(Build, MenuState, Seq<UiButton>)>,
    turn: i32,
    k: int,
) -> (BuildSystem, int)
    decreases k,
{
    if k <= 0 {
        (s, 0)
    } else {
        let prev = runs_upto(s, calls, turn, k - 1);
        let c = calls[k - 1];
        (build_system_after(prev.0, c.0, c.1, c.2, turn), prev.1 + run_centres(prev.0, c.0, c.1, c.2, turn))
    }
}

impl BuildSystem {
    /// On the first run with the build menu loaded, hides it and starts
    /// allowing a centre in any turn; pending clicks wait. Afterwards, with
    /// the build menu loaded, handles every pending click in order (see
    /// `build_click`) and uses them up; while it is not loaded they wait.
    pub fn run(&mut self, build: &mut Build, menus: &mut MenuState, events: &mut Vec<UiButton>, turn: &Turn)
        ensures
            *final(self) == build_system_after(*old(self), *old(build), *old(menus), old(events)@, turn.num),
            !old(self).run ==> {
                &&& final(events)@ == old(events)@
                &&& *final(build) == *old(build)
                &&& old(menus).build_menu is Some ==> {
                    &&& *final(self) == (BuildSystem { run: true, centered_turn: -1i32 })
                    &&& *final(menus) == (MenuState { build_menu: Some(true), ..*old(menus) })
                }
                &&& old(menus).build_menu is None ==> *final(self) == *old(self) && *final(menus) == *old(menus)
            },
            old(self).run ==> match old(menus).build_menu {
                Some(hidden) => {
                    let r = build_clicks_upto((*old(self), *old(build), hidden), old(events)@, turn.num,
                        old(events)@.len() as int);
                    &&& final(events)@.len() == 0
                    &&& *final(self) == r.0
                    &&& *final(build) == r.1
                    &&& *final(menus) == (MenuState { build_menu: Some(r.2), ..*old(menus) })
                },
                None => {
                    &&& final(events)@ == old(events)@
                    &&& *final(self) == *old(self)
                    &&& *final(build) == *old(build)
                    &&& *final(menus) == *old(menus)
                },
            },
    {
        if !self.run {
            if menus.build_menu.is_some() {
                menus.build_menu = Some(true);
                self.run = true;
                self.centered_turn = -1;
            }
        } else {
            match menus.build_menu {
                Some(h) => {
                    let mut hidden = h;
                    let ghost start = (*self, *build, h);
                    let mut k: usize = 0;
                    while k < events.len()
                        invariant
                            0 <= k <= events.len(),
                            (*self, *build, hidden) == build_clicks_upto(start, events@, turn.num, k as int),
                        decreases events.len() - k,
                    {
                        let ev = events[k];
                        if ev == UiButton::Build {
                            hidden = !hidden;
                        } else {
                            match ev {
                                UiButton::Demolish => { build.mode = Some(TileType::Demolish); },
                                UiButton::Center => {
                                    if self.centered_turn < turn.num {
                                        build.mode = Some(TileType::Center);
                                        self.centered_turn = turn.num;
                                    }
                                },
                                UiButton::Barrack => { build.mode = Some(TileType::Barrack); },
                                UiButton::WoodBuilding => { build.mode = Some(TileType::WoodBuilding); },
                                UiButton::MetalBuilding => { build.mode = Some(TileType::MetalBuilding); },
                                UiButton::ScienceBuilding => { build.mode = Some(TileType::ScienceBuilding); },
                                _ => {},
                            }
                            hidden = true;
                        }
                        k = k + 1;
                    }
                    menus.build_menu = Some(hidden);
                    events.clear();
                },
                None => {},
            }
        }
    }
}

/// Only one city centre per turn: once a centre was chosen in this turn
/// (the recorded turn is not below it), further clicks cannot choose a
/// centre again, and choosing one always records the turn.
pub proof fn law_one_center_per_turn(st: (BuildSystem, Build, bool), events: Seq<UiButton>, turn: i32, n: int)
    requires
        0 <= n <= events.len(),
    ensures
        ({
            let r = build_clicks_upto(st, events, turn, n);
            &&& st.0.centered_turn >= turn && r.1.mode == Some(TileType::Center) ==> st.1.mode == Some(TileType::Center)
            &&& r.0.centered_turn >= st.0.centered_turn
            &&& r.0.centered_turn != st.0.centered_turn ==> r.0.centered_turn == turn
        }),
    decreases n,
{
    if n > 0 {
        law_one_center_per_turn(st, events, turn, n - 1);
    }
}

/// Within one run, at most one click chooses a centre: either none does and
/// the recorded turn is unchanged, or exactly one does, it was the first
/// centre of this turn, and the turn is recorded.
proof fn lemma_centres_in_run(st: (BuildSystem, Build, bool), events: Seq<UiButton>, turn: i32, n: int)
    requires
        0 <= n <= events.len(),
    ensures
        ({
            let r = build_clicks_upto(st, events, turn, n);
            let c = centre_count(st, events, turn, n);
            &&& r.0.run == st.0.run
            &&& (c == 0 && r.0.centered_turn == st.0.centered_turn)
                || (c == 1 && r.0.centered_turn == turn && st.0.centered_turn < turn)
        }),
    decreases n,
{
    if n > 0 {
        lemma_centres_in_run(st, events, turn, n - 1);
    }
}

/// At most one city centre per turn, across any sequence of runs of a
/// started build system in the same turn: in all, at most one click chooses
/// a centre, and none does when a centre was already chosen in this turn.
pub proof fn law_one_center_per_turn_over_runs(
    s: BuildSystem,
    calls: Seq<(Build, MenuState, Seq<UiButton>)>,
    turn: i32,
    k: int,
)
    requires
        s.run,
        0 <= k <= calls.len(),
    ensures
        runs_upto(s, calls, turn, k).1 <= 1,
        s.centered_turn >= turn ==> runs_upto(s, calls, turn, k).1 == 0,
        runs_upto(s, calls, turn, k).0.run,
        (runs_upto(s, calls, turn, k).1 == 0 && runs_upto(s, calls, turn, k).0.centered_turn == s.centered_turn)
            || (runs_upto(s, calls, turn, k).1 == 1 && runs_upto(s, calls, turn, k).0.centered_turn == turn
                && s.centered_turn < turn),
    decreases k,
{
    if k > 0 {
        law_one_center_per_turn_over_runs(s, calls, turn, k - 1);
        let prev = runs_upto(s, calls, turn, k - 1);
        let c = calls[k - 1];
        match c.1.build_menu {
            Some(h) => { lemma_centres_in_run((prev.0, c.0, h), c.2, turn, c.2.len() as int); },
            None => {},
        }
    }
}

/// Each build-menu button chooses the building of its own name and hides the
/// menu, in any state; the build button only shows or hides the menu.
pub proof fn law_build_buttons_choose_their_building(st: (BuildSystem, Build, bool), turn: i32)
    ensures
        build_click(st, UiButton::Demolish, turn) == (st.0, Build { mode: Some(TileType::Demolish) }, true),
        build_click(st, UiButton::Barrack, turn) == (st.0, Build { mode: Some(TileType::Barrack) }, true),
        build_click(st, UiButton::WoodBuilding, turn) == (st.0, Build { mode: Some(TileType::WoodBuilding) }, true),
        build_click(st, UiButton::MetalBuilding, turn) == (st.0, Build { mode: Some(TileType::MetalBuilding) }, true),
        build_click(st, UiButton::ScienceBuilding, turn)
            == (st.0, Build { mode: Some(TileType::ScienceBuilding) }, true),
        build_click(st, UiButton::Build, turn) == (st.0, st.1, !st.2),
        st.0.centered_turn < turn ==> build_click(st, UiButton::Center, turn)
            == (BuildSystem { centered_turn: turn, ..st.0 }, Build { mode: Some(TileType::Center) }, true),
        st.0.centered_turn >= turn ==> build_click(st, UiButton::Center, turn) == (st.0, st.1, true),
{
}

} // verus!

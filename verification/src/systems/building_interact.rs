use vstd::prelude::*;
use crate::components::tiles::{TilePos, TileType};
use crate::components::player::PlayersInfo;
use crate::components::builds::{Build, OutPos};
use crate::game::{BuildingEntity, MouseTilePos, Follower, OnUi, MenuState, UiButton};

verus! {

/// Opening a barrack's menu, queueing units in it and choosing where its
/// units appear.
#[derive(PartialEq, Eq, Structural, Copy, Clone, Debug)]
pub struct BuildingInteractSystem {
    pub first_run: bool,
    pub focused: bool,
    pub location_mode: bool,
    pub focused_ent: Option<u64>,
}

/// The state a click on barracks changes: menus, focus and focused building.
pub struct FocusState {
    pub menus: MenuState,
    pub focused: bool,
    pub focused_ent: Option<u64>,
    pub ok: bool,
}

/// A barrack of player `cur` under the mouse.
pub open spec fn own_barrack_at(b: BuildingEntity, mouse: TilePos, cur: i32) -> bool {
    &&& b.pos == mouse
    &&& b.building.playernum == cur
    &&& b.building.tile_type == TileType::Barrack
}

/// One step of a click on the buildings: on an own barrack under the mouse,
/// with both menus loaded, the barracks menu is shown (focusing the barrack)
/// when hidden and hidden (dropping the focus) when shown, the lower panel
/// doing the opposite. Showing the lower panel needs it hidden (`ok`).
pub open spec fn toggle_step(st: FocusState, b: BuildingEntity, mouse: TilePos, cur: i32) -> FocusState {
    if own_barrack_at(b, mouse, cur) && st.menus.barracks_menu is Some && st.menus.lower_panel is Some {
        if st.menus.barracks_menu == Some(true) {
            FocusState {
                menus: MenuState { barracks_menu: Some(false), lower_panel: Some(true), ..st.menus },
                focused: true,
                focused_ent: Some(b.ent),
                ok: st.ok,
            }
        } else {
            FocusState {
                menus: MenuState { barracks_menu: Some(true), lower_panel: Some(false), ..st.menus },
                focused: false,
                focused_ent: None,
                ok: st.ok && st.menus.lower_panel == Some(true),
            }
        }
    } else {
        st
    }
}

/// Clicking over the first `n` buildings.
pub open spec fn toggle_upto(st: FocusState, buildings: Seq<BuildingEntity>, n: int, mouse: TilePos, cur: i32) -> FocusState
    decreases n,
{
    if n <= 0 {
        st
    } else {
        toggle_step(toggle_upto(st, buildings, n - 1, mouse, cur), buildings[n - 1], mouse, cur)
    }
}

/// Some building is under the mouse.
pub open spec fn building_at(buildings: Seq<BuildingEntity>, mouse: TilePos) -> bool {
    exists|i: int| 0 <= i < buildings.len() && (#[trigger] buildings[i]).pos == mouse
}

/// Index `j` holds the first building with identifier `e`.
pub open spec fn first_building_ent(buildings: Seq<BuildingEntity>, e: u64, j: int) -> bool {
    &&& 0 <= j < buildings.len()
    &&& buildings[j].ent == e
    &&& forall|k: int| 0 <= k < j ==> (#[trigger] buildings[k]).ent != e
}

/// Some building has identifier `e`.
pub open spec fn has_building_ent(buildings: Seq<BuildingEntity>, e: u64) -> bool {
    exists|j: int| 0 <= j < buildings.len() && (#[trigger] buildings[j]).ent == e
}

/// The index of the first building with identifier `e`.
pub open spec fn building_index(buildings: Seq<BuildingEntity>, e: u64) -> int {
    choose|j: int| first_building_ent(buildings, e, j)
}

/// The focused building exists and has a unit stack.
pub open spec fn focused_stack(s: BuildingInteractSystem, buildings: Seq<BuildingEntity>) -> bool {
    &&& s.focused_ent matches Some(e) && has_building_ent(buildings, e)
    &&& buildings[building_index(buildings, s.focused_ent->0)].stack is Some
}

/// The unit type a unit button queues.
pub open spec fn button_unit(ev: UiButton) -> Option<TileType> {
    match ev {
        UiButton::Warrior => Some(TileType::Warrior),
        UiButton::Heavy => Some(TileType::Heavy),
        UiButton::Monk => Some(TileType::Monk),
        _ => None,
    }
}

/// Handling a button click does not panic: a unit button needs the focused
/// barrack's stack well formed, the cancel button needs it poppable.
pub open spec fn event_ok(s: BuildingInteractSystem, buildings: Seq<BuildingEntity>, ev: UiButton) -> bool {
    if button_unit(ev) is Some {
        focused_stack(s, buildings) && buildings[building_index(buildings, s.focused_ent->0)].stack->0@.wf()
    } else if ev == UiButton::Cancel {
        focused_stack(s, buildings) && buildings[building_index(buildings, s.focused_ent->0)].stack->0@.can_pop()
    } else {
        true
    }
}

/// The result of one button click: a unit button pushes its unit onto the
/// focused barrack's stack, the location button toggles location mode and
/// clears the follower, the cancel button pops the stack.
pub open spec fn event_step(
    st: (BuildingInteractSystem, Follower, Seq<BuildingEntity>),
    ev: UiButton,
) -> (BuildingInteractSystem, Follower, Seq<BuildingEntity>) {
    let (s, fol, bs) = st;
    if button_unit(ev) is Some {
        let bi = building_index(bs, s.focused_ent->0);
        let b = bs[bi];
        (s, fol, bs.update(bi, BuildingEntity { stack: Some(b.stack->0.pushed(button_unit(ev)->0)), ..b }))
    } else if ev == UiButton::Location {
        (BuildingInteractSystem { location_mode: !s.location_mode, ..s }, Follower { kind: TileType::Empty }, bs)
    } else if ev == UiButton::Cancel {
        let bi = building_index(bs, s.focused_ent->0);
        let b = bs[bi];
        (s, fol, bs.update(bi, BuildingEntity { stack: Some(b.stack->0.popped().0), ..b }))
    } else {
        st
    }
}

/// Handling the first `n` clicks.
pub open spec fn events_upto(
    st: (BuildingInteractSystem, Follower, Seq<BuildingEntity>),
    events: Seq<UiButton>,
    n: int,
) -> (BuildingInteractSystem, Follower, Seq<BuildingEntity>)
    decreases n,
{
    if n <= 0 {
        st
    } else {
        event_step(events_upto(st, events, n - 1), events[n - 1])
    }
}

/// None of the clicks panics.
pub open spec fn events_ok(
    st: (BuildingInteractSystem, Follower, Seq<BuildingEntity>),
    events: Seq<UiButton>,
) -> bool {
    forall|n: int| 0 <= n < events.len() ==> #[trigger] event_ok(events_upto(st, events, n).0, events_upto(st, events, n).2, events[n])
}

/// The mouse is within two tiles of `fp` in both directions.
pub open spec fn near_output(mouse: TilePos, fp: TilePos) -> bool {
    &&& fp.x - 2 <= mouse.x <= fp.x + 2
    &&& fp.y - 2 <= mouse.y <= fp.y + 2
}

/// The bounds `near_output` checks, evaluated left to right with early
/// exit, stay within `i32`.
pub open spec fn near_output_fits(mouse: TilePos, fp: TilePos) -> bool {
    &&& fp.x - 2 >= i32::MIN
    &&& mouse.x >= fp.x - 2 ==> fp.x + 2 <= i32::MAX
    &&& fp.x - 2 <= mouse.x <= fp.x + 2 ==> fp.y - 2 >= i32::MIN
    &&& fp.x - 2 <= mouse.x <= fp.x + 2 && mouse.y >= fp.y - 2 ==> fp.y + 2 <= i32::MAX
}

/// Everything but the button clicks. Outside location mode: on the first run
/// the barracks menu is hidden once it is loaded; a follower showing a move
/// target is cleared; then, off the interface, a left click outside demolish
/// mode with nothing focused toggles the menus of own barracks under the mouse
/// (see `toggle_step`), and a left click while focused but on no building
/// closes the barracks menu. In location mode: near the focused barrack the
/// follower shows a target and a left click sets the barrack's output there
/// and ends location mode; farther away the follower is cleared. The last
/// component is false where a menu would be shown that is not hidden.
pub open spec fn interact_phase(
    s: BuildingInteractSystem,
    fol: Follower,
    menus: MenuState,
    buildings: Seq<BuildingEntity>,
    mode: Option<TileType>,
    mouse: TilePos,
    down: bool,
    onui: bool,
    cur: i32,
) -> (BuildingInteractSystem, Follower, MenuState, Seq<BuildingEntity>, bool) {
    if !s.location_mode {
        let (s0, menus0) = if s.first_run && menus.barracks_menu is Some {
            (BuildingInteractSystem { first_run: false, ..s }, MenuState { barracks_menu: Some(true), ..menus })
        } else {
            (s, menus)
        };
        let (s1, fol1) = if fol.kind == TileType::Location && s0.focused_ent is Some {
            (BuildingInteractSystem { focused_ent: None, ..s0 }, Follower { kind: TileType::Empty })
        } else {
            (s0, fol)
        };
        if !onui && down && mode != Some(TileType::Demolish) && !s1.focused {
            let st = toggle_upto(
                FocusState { menus: menus0, focused: s1.focused, focused_ent: s1.focused_ent, ok: true },
                buildings,
                buildings.len() as int,
                mouse,
                cur,
            );
            (BuildingInteractSystem { focused: st.focused, focused_ent: st.focused_ent, ..s1 }, fol1, st.menus, buildings, st.ok)
        } else if !onui && down && s1.focused && menus0.barracks_menu is Some && menus0.lower_panel is Some
            && !building_at(buildings, mouse) {
            (
                BuildingInteractSystem { focused: false, ..s1 },
                fol1,
                MenuState { barracks_menu: Some(true), lower_panel: Some(false), ..menus0 },
                buildings,
                menus0.lower_panel == Some(true),
            )
        } else {
            (s1, fol1, menus0, buildings, true)
        }
    } else {
        let bi = building_index(buildings, s.focused_ent->0);
        let b = buildings[bi];
        if near_output(mouse, b.pos) {
            if down && s.focused {
                (
                    BuildingInteractSystem { location_mode: false, ..s },
                    Follower { kind: TileType::Location },
                    menus,
                    buildings.update(bi, BuildingEntity { outpos: Some(OutPos { pos: mouse }), ..b }),
                    true,
                )
            } else {
                (s, Follower { kind: TileType::Location }, menus, buildings, true)
            }
        } else {
            (s, Follower { kind: TileType::Empty }, menus, buildings, true)
        }
    }
}

/// Location mode does not panic: the focused building exists, its range
/// check fits in `i32`, and it has an output position when one is set.
pub open spec fn location_ok(s: BuildingInteractSystem, buildings: Seq<BuildingEntity>, mouse: TilePos, down: bool) -> bool {
    &&& s.focused_ent matches Some(e) && has_building_ent(buildings, e)
    &&& {
        let b = buildings[building_index(buildings, s.focused_ent->0)];
        &&& near_output_fits(mouse, b.pos)
        &&& near_output(mouse, b.pos) && down && s.focused ==> b.outpos is Some
    }
}

/// Toggles the barracks menu for every own barrack under the mouse; returns
/// false where a lower panel that is not hidden would have been shown.
fn toggle_barracks(
    menus: &mut MenuState,
    focused: &mut bool,
    focused_ent: &mut Option<u64>,
    buildings: &Vec<BuildingEntity>,
    mouse: TilePos,
    cur: i32,
) -> (ok: bool)
    ensures
        (FocusState { menus: *final(menus), focused: *final(focused), focused_ent: *final(focused_ent), ok })
            == toggle_upto(
                FocusState { menus: *old(menus), focused: *old(focused), focused_ent: *old(focused_ent), ok: true },
                buildings@,
                buildings.len() as int,
                mouse,
                cur,
            ),
{
    let ghost start = FocusState { menus: *menus, focused: *focused, focused_ent: *focused_ent, ok: true };
    let mut ok = true;
    let mut i: usize = 0;
    while i < buildings.len()
        invariant
            0 <= i <= buildings.len(),
            (FocusState { menus: *menus, focused: *focused, focused_ent: *focused_ent, ok })
                == toggle_upto(start, buildings@, i as int, mouse, cur),
        decreases buildings.len() - i,
    {
        let b = &buildings[i];
        if b.pos == mouse && b.building.playernum == cur && b.building.tile_type == TileType::Barrack {
            match (menus.barracks_menu, menus.lower_panel) {
                (Some(barracks_hidden), Some(lower_hidden)) => {
                    if barracks_hidden {
                        menus.barracks_menu = Some(false);
                        menus.lower_panel = Some(true);
                        *focused = true;
                        *focused_ent = Some(b.ent);
                    } else {
                        menus.barracks_menu = Some(true);
                        ok = ok && lower_hidden;
                        menus.lower_panel = Some(false);
                        *focused = false;
                        *focused_ent = None;
                    }
                },
                _ => {},
            }
        }
        i = i + 1;
    }
    ok
}

/// Whether some building is under the mouse.
fn any_building_at(buildings: &Vec<BuildingEntity>, mouse: TilePos) -> (r: bool)
    ensures
        r == building_at(buildings@, mouse),
{
    let mut i: usize = 0;
    while i < buildings.len()
        invariant
            0 <= i <= buildings.len(),
            forall|k: int| 0 <= k < i ==> (#[trigger] buildings@[k]).pos != mouse,
        decreases buildings.len() - i,
    {
        if buildings[i].pos == mouse {
            return true;
        }
        i = i + 1;
    }
    false
}

/// The index of the first building with identifier `e`.
pub fn find_building(buildings: &Vec<BuildingEntity>, e: u64) -> (r: Option<usize>)
    ensures
        r matches Some(j) ==> first_building_ent(buildings@, e, j as int) && j == building_index(buildings@, e),
        r is None ==> !has_building_ent(buildings@, e),
{
    let mut i: usize = 0;
    while i < buildings.len()
        invariant
            0 <= i <= buildings.len(),
            forall|k: int| 0 <= k < i ==> (#[trigger] buildings@[k]).ent != e,
        decreases buildings.len() - i,
    {
        if buildings[i].ent == e {
            proof {
                let jj = building_index(buildings@, e);
                assert(first_building_ent(buildings@, e, i as int));
                if jj < i {
                    assert(buildings@[jj].ent != e);
                } else if (i as int) < jj {
                    assert(buildings@[i as int].ent != e);
                }
            }
            return Some(i);
        }
        i = i + 1;
    }
    None
}

/// A copy of the buildings.
fn copy_buildings(buildings: &Vec<BuildingEntity>) -> (c: Vec<BuildingEntity>)
    ensures
        c@ == buildings@,
{
    let mut c: Vec<BuildingEntity> = Vec::new();
    let mut i: usize = 0;
    while i < buildings.len()
        invariant
            0 <= i <= buildings.len(),
            c@ == buildings@.take(i as int),
        decreases buildings.len() - i,
    {
        c.push(buildings[i]);
        proof {
            assert(c@ =~= buildings@.take(i + 1));
        }
        i = i + 1;
    }
    assert(c@ =~= buildings@);
    c
}

impl BuildingInteractSystem {
    /// A system on its first run, with nothing focused.
    pub fn new() -> (s: Self)
        ensures
            s == (BuildingInteractSystem { first_run: true, focused: false, location_mode: false, focused_ent: None }),
    {
        BuildingInteractSystem { first_run: true, focused: false, location_mode: false, focused_ent: None }
    }

    /// Everything but the button clicks (see `interact_phase`); returns its
    /// last component.
    fn phase(
        &mut self,
        buildings: &mut Vec<BuildingEntity>,
        menus: &mut MenuState,
        follower: &mut Follower,
        mode: Option<TileType>,
        mouse: TilePos,
        mouse_down: bool,
        onui: bool,
        cur: i32,
    ) -> (ok: bool)
        requires
            old(self).location_mode ==> location_ok(*old(self), old(buildings)@, mouse, mouse_down),
        ensures
            (*final(self), *final(follower), *final(menus), final(buildings)@, ok)
                == interact_phase(*old(self), *old(follower), *old(menus), old(buildings)@, mode, mouse, mouse_down, onui, cur),
    {
        if !self.location_mode {
            if self.first_run {
                if menus.barracks_menu.is_some() {
                    menus.barracks_menu = Some(true);
                    self.first_run = false;
                }
            }
            if follower.kind == TileType::Location && self.focused_ent.is_some() {
                self.focused_ent = None;
                follower.kind = TileType::Empty;
            }
            if !onui {
                let not_demolish = match mode {
                    Some(m) => m != TileType::Demolish,
                    None => true,
                };
                if mouse_down && not_demolish && !self.focused {
                    let mut focused = self.focused;
                    let mut focused_ent = self.focused_ent;
                    let ok = toggle_barracks(menus, &mut focused, &mut focused_ent, buildings, mouse, cur);
                    self.focused = focused;
                    self.focused_ent = focused_ent;
                    return ok;
                } else if mouse_down && self.focused {
                    let cfocus = any_building_at(buildings, mouse);
                    match (menus.barracks_menu, menus.lower_panel) {
                        (Some(_), Some(lower_hidden)) => {
                            if !cfocus {
                                menus.barracks_menu = Some(true);
                                menus.lower_panel = Some(false);
                                self.focused = false;
                                return lower_hidden;
                            }
                        },
                        _ => {},
                    }
                }
            }
            true
        } else {
            let bi = find_building(buildings, self.focused_ent.unwrap()).unwrap();
            let fp = buildings[bi].pos;
            if mouse.x >= fp.x - 2 && mouse.x <= fp.x + 2 && mouse.y >= fp.y - 2 && mouse.y <= fp.y + 2 {
                follower.kind = TileType::Location;
                if mouse_down && self.focused {
                    let mut b = buildings[bi];
                    let mut out = b.outpos.unwrap();
                    out.pos = mouse;
                    b.outpos = Some(out);
                    buildings.set(bi, b);
                    self.location_mode = false;
                }
            } else {
                follower.kind = TileType::Empty;
            }
            true
        }
    }

    /// Whether the click `ev` can be handled without panicking (see `event_ok`).
    fn check_event(&self, buildings: &Vec<BuildingEntity>, ev: UiButton) -> (r: bool)
        ensures
            r == event_ok(*self, buildings@, ev),
    {
        let unit_button = match ev {
            UiButton::Warrior | UiButton::Heavy | UiButton::Monk => true,
            _ => false,
        };
        if !unit_button && ev != UiButton::Cancel {
            return true;
        }
        let e = match self.focused_ent {
            Some(e) => e,
            None => { return false; },
        };
        let bi = match find_building(buildings, e) {
            Some(bi) => bi,
            None => { return false; },
        };
        match buildings[bi].stack {
            Some(st) => if unit_button { st.is_well_formed() } else { st.pop_in_bounds() },
            None => false,
        }
    }

    /// Handles one click (see `event_step`).
    fn apply_event(&mut self, follower: &mut Follower, buildings: &mut Vec<BuildingEntity>, ev: UiButton)
        requires
            event_ok(*old(self), old(buildings)@, ev),
        ensures
            (*final(self), *final(follower), final(buildings)@) == event_step((*old(self), *old(follower), old(buildings)@), ev),
    {
        match ev {
            UiButton::Warrior | UiButton::Heavy | UiButton::Monk => {
                let kind = match ev {
                    UiButton::Warrior => TileType::Warrior,
                    UiButton::Heavy => TileType::Heavy,
                    _ => TileType::Monk,
                };
                let bi = find_building(buildings, self.focused_ent.unwrap()).unwrap();
                let mut b = buildings[bi];
                let mut stack = b.stack.unwrap();
                stack.push(kind);
                b.stack = Some(stack);
                buildings.set(bi, b);
                assert(button_unit(ev) == Some(kind));
            },
            UiButton::Location => {
                self.location_mode = !self.location_mode;
                follower.kind = TileType::Empty;
            },
            UiButton::Cancel => {
                let bi = find_building(buildings, self.focused_ent.unwrap()).unwrap();
                let mut b = buildings[bi];
                let mut stack = b.stack.unwrap();
                let _popped = stack.pop();
                b.stack = Some(stack);
                buildings.set(bi, b);
            },
            _ => {},
        }
    }

    /// Whether every click can be handled without panicking (see `events_ok`).
    fn check_events(&self, follower: &Follower, buildings: &Vec<BuildingEntity>, events: &Vec<UiButton>) -> (r: bool)
        ensures
            r == events_ok((*self, *follower, buildings@), events@),
    {
        let ghost start = (*self, *follower, buildings@);
        let mut s = *self;
        let mut f = *follower;
        let mut bs = copy_buildings(buildings);
        let mut k: usize = 0;
        while k < events.len()
            invariant
                0 <= k <= events.len(),
                start == (*self, *follower, buildings@),
                (s, f, bs@) == events_upto(start, events@, k as int),
                forall|n: int| 0 <= n < k ==> #[trigger] event_ok(events_upto(start, events@, n).0,
                    events_upto(start, events@, n).2, events@[n]),
            decreases events.len() - k,
        {
            if !s.check_event(&bs, events[k]) {
                assert(!event_ok(events_upto(start, events@, k as int).0, events_upto(start, events@, k as int).2,
                    events@[k as int]));
                return false;
            }
            s.apply_event(&mut f, &mut bs, events[k]);
            k = k + 1;
        }
        true
    }

    /// Whether `run` may be called: location mode needs the focused building
    /// (see `location_ok`), no menu may be shown that is not hidden, and
    /// every click must be handled without panicking.
    pub fn can_run(
        &self,
        buildings: &Vec<BuildingEntity>,
        menus: &MenuState,
        follower: &Follower,
        build: &Build,
        playersinfo: &PlayersInfo,
        mouse_tile_pos: &MouseTilePos,
        mouse_down: bool,
        onui: &OnUi,
        events: &Vec<UiButton>,
    ) -> (r: bool)
        ensures
            r == ({
                let ph = interact_phase(*self, *follower, *menus, buildings@, build.mode,
                    mouse_tile_pos.pos, mouse_down, onui.case, playersinfo.current_player_num);
                &&& self.location_mode ==> location_ok(*self, buildings@, mouse_tile_pos.pos, mouse_down)
                &&& ph.4
                &&& events_ok((ph.0, ph.1, ph.3), events@)
            }),
    {
        if self.location_mode && !self.check_location(buildings, mouse_tile_pos.pos, mouse_down) {
            return false;
        }
        let mut s = *self;
        let mut m = *menus;
        let mut f = *follower;
        let mut bs = copy_buildings(buildings);
        let ok = s.phase(&mut bs, &mut m, &mut f, build.mode, mouse_tile_pos.pos, mouse_down, onui.case,
            playersinfo.current_player_num);
        ok && s.check_events(&f, &bs, events)
    }

    /// Whether location mode can run (see `location_ok`).
    fn check_location(&self, buildings: &Vec<BuildingEntity>, mouse: TilePos, mouse_down: bool) -> (r: bool)
        ensures
            r == location_ok(*self, buildings@, mouse, mouse_down),
    {
        let e = match self.focused_ent {
            Some(e) => e,
            None => { return false; },
        };
        let bi = match find_building(buildings, e) {
            Some(bi) => bi,
            None => { return false; },
        };
        let b = buildings[bi];
        let x = b.pos.x as i64;
        let y = b.pos.y as i64;
        let mx = mouse.x as i64;
        let my = mouse.y as i64;
        if x - 2 < -0x8000_0000 {
            return false;
        }
        if mx >= x - 2 && x + 2 > 0x7fff_ffff {
            return false;
        }
        let x_in = x - 2 <= mx && mx <= x + 2;
        if x_in && y - 2 < -0x8000_0000 {
            return false;
        }
        if x_in && my >= y - 2 && y + 2 > 0x7fff_ffff {
            return false;
        }
        let near = x_in && y - 2 <= my && my <= y + 2;
        if near && mouse_down && self.focused && b.outpos.is_none() {
            return false;
        }
        true
    }

    /// Handles one frame of building interaction (see `interact_phase`),
    /// then every pending button click in order (see `event_step`); the
    /// clicks are used up.
    pub fn run(
        &mut self,
        buildings: &mut Vec<BuildingEntity>,
        menus: &mut MenuState,
        follower: &mut Follower,
        build: &Build,
        playersinfo: &PlayersInfo,
        mouse_tile_pos: &MouseTilePos,
        mouse_down: bool,
        onui: &OnUi,
        events: &mut Vec<UiButton>,
    )
        requires
            old(self).location_mode ==> location_ok(*old(self), old(buildings)@, mouse_tile_pos.pos, mouse_down),
            ({
                let ph = interact_phase(*old(self), *old(follower), *old(menus), old(buildings)@, build.mode,
                    mouse_tile_pos.pos, mouse_down, onui.case, playersinfo.current_player_num);
                &&& ph.4
                &&& events_ok((ph.0, ph.1, ph.3), old(events)@)
            }),
        ensures
            ({
                let ph = interact_phase(*old(self), *old(follower), *old(menus), old(buildings)@, build.mode,
                    mouse_tile_pos.pos, mouse_down, onui.case, playersinfo.current_player_num);
                &&& *final(menus) == ph.2
                &&& (*final(self), *final(follower), final(buildings)@)
                    == events_upto((ph.0, ph.1, ph.3), old(events)@, old(events)@.len() as int)
            }),
            final(events)@.len() == 0,
    {
        let _ok = self.phase(buildings, menus, follower, build.mode, mouse_tile_pos.pos, mouse_down, onui.case,
            playersinfo.current_player_num);
        let ghost start = (*self, *follower, buildings@);
        let mut k: usize = 0;
        while k < events.len()
            invariant
                0 <= k <= events.len(),
                events_ok(start, events@),
                (*self, *follower, buildings@) == events_upto(start, events@, k as int),
            decreases events.len() - k,
        {
            assert(event_ok(events_upto(start, events@, k as int).0, events_upto(start, events@, k as int).2, events@[k as int]));
            self.apply_event(follower, buildings, events[k]);
            k = k + 1;
        }
        events.clear();
    }
}

proof fn lemma_toggle_focus(st: FocusState, buildings: Seq<BuildingEntity>, n: int, mouse: TilePos, cur: i32)
    requires
        0 <= n <= buildings.len(),
    ensures
        toggle_upto(st, buildings, n, mouse, cur).focused_ent matches Some(e) ==> st.focused_ent == Some(e)
            || exists|i: int| 0 <= i < n && (#[trigger] buildings[i]).ent == e && own_barrack_at(buildings[i], mouse, cur),
    decreases n,
{
    if n > 0 {
        lemma_toggle_focus(st, buildings, n - 1, mouse, cur);
    }
}

/// Only own barracks are focused: whenever a frame focuses a building it did
/// not focus before, that building is a barrack of the current player under
/// the mouse.
pub proof fn law_focuses_only_own_barracks(
    s: BuildingInteractSystem,
    fol: Follower,
    menus: MenuState,
    buildings: Seq<BuildingEntity>,
    mode: Option<TileType>,
    mouse: TilePos,
    down: bool,
    onui: bool,
    cur: i32,
)
    ensures
        ({
            let r = interact_phase(s, fol, menus, buildings, mode, mouse, down, onui, cur);
            r.0.focused_ent != s.focused_ent ==> (r.0.focused_ent matches Some(e) ==> exists|i: int|
                0 <= i < buildings.len() && (#[trigger] buildings[i]).ent == e && own_barrack_at(buildings[i], mouse, cur))
        }),
{
    if !s.location_mode {
        let (s0, menus0) = if s.first_run && menus.barracks_menu is Some {
            (BuildingInteractSystem { first_run: false, ..s }, MenuState { barracks_menu: Some(true), ..menus })
        } else {
            (s, menus)
        };
        let (s1, fol1) = if fol.kind == TileType::Location && s0.focused_ent is Some {
            (BuildingInteractSystem { focused_ent: None, ..s0 }, Follower { kind: TileType::Empty })
        } else {
            (s0, fol)
        };
        let st = FocusState { menus: menus0, focused: s1.focused, focused_ent: s1.focused_ent, ok: true };
        lemma_toggle_focus(st, buildings, buildings.len() as int, mouse, cur);
    }
}

/// Each unit button queues the unit type of its own name on the focused
/// barrack's stack, the cancel button pops that stack, and nothing else
/// about the buildings, the system or the follower changes.
pub proof fn law_unit_buttons_queue_their_unit(st: (BuildingInteractSystem, Follower, Seq<BuildingEntity>))
    ensures
        ({
            let bi = building_index(st.2, st.0.focused_ent->0);
            let b = st.2[bi];
            let queued = |t: TileType| (st.0, st.1, st.2.update(bi, BuildingEntity { stack: Some(b.stack->0.pushed(t)), ..b }));
            &&& event_step(st, UiButton::Warrior) == queued(TileType::Warrior)
            &&& event_step(st, UiButton::Heavy) == queued(TileType::Heavy)
            &&& event_step(st, UiButton::Monk) == queued(TileType::Monk)
            &&& event_step(st, UiButton::Cancel)
                == (st.0, st.1, st.2.update(bi, BuildingEntity { stack: Some(b.stack->0.popped().0), ..b }))
        }),
{
}

} // verus!



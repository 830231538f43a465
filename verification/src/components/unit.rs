use vstd::prelude::*;
use crate::components::tiles::TileType;

verus! {

/// A queue of units a building will produce, kept as a stack of eight slots.
#[derive(Copy, Clone, Debug)]
pub struct UnitStack {
    pub top: i8,
    pub arr: [Option<TileType>; 8],
    pub repeat: bool,
}

/// What a unit stack holds: the top index, the eight slots and the repeat flag.
pub struct UnitStackView {
    pub top: int,
    pub slots: Seq<Option<TileType>>,
    pub repeat: bool,
}

impl View for UnitStack {
    type V = UnitStackView;

    open spec fn view(&self) -> UnitStackView {
        UnitStackView { top: self.top as int, slots: self.arr@, repeat: self.repeat }
    }
}

impl UnitStackView {
    /// A new stack: empty, not repeating, every slot `None`.
    pub open spec fn is_fresh(self) -> bool {
        &&& self.top == 0
        &&& self.slots == Seq::new(8, |i: int| None::<TileType>)
        &&& !self.repeat
    }

    /// A stack whose top stays inside the slots.
    pub open spec fn wf(self) -> bool {
        &&& 0 <= self.top <= 8
        &&& self.slots.len() == 8
    }

    /// Popping does not index outside the slots.
    pub open spec fn can_pop(self) -> bool {
        &&& self.slots.len() == 8
        &&& self.top >= 1 ==> self.top <= (if self.repeat { 7int } else { 8int })
    }

    /// Peeking does not index outside the slots.
    pub open spec fn can_peek(self) -> bool {
        &&& self.slots.len() == 8
        &&& self.top < 8
    }

    /// The stack after a pop, and what the pop returns. A stack whose top is
    /// below one gives `None`; a repeating stack gives the slot at the top
    /// index and stays as it is; otherwise the top moves down one and the slot
    /// it now points at is returned.
    pub open spec fn pop_result(self) -> (UnitStackView, Option<TileType>) {
        if self.top < 1 {
            (self, None)
        } else if self.repeat {
            (self, self.slots[self.top])
        } else {
            (UnitStackView { top: self.top - 1, ..self }, self.slots[self.top - 1])
        }
    }

    /// What a peek returns: `None` below zero, else the slot at the top index.
    pub open spec fn peek_result(self) -> Option<TileType> {
        if self.top < 0 {
            None
        } else {
            self.slots[self.top]
        }
    }

    /// The stack after pushing `t`: a full stack (top at eight) is unchanged.
    pub open spec fn push_result(self, t: TileType) -> UnitStackView {
        if self.top == 8 {
            self
        } else {
            UnitStackView {
                top: self.top + 1,
                slots: self.slots.update(self.top, Some(t)),
                ..self
            }
        }
    }
}

impl UnitStack {
    /// The stack after pushing `t` (see `UnitStackView::push_result`).
    pub open spec fn pushed(self, t: TileType) -> UnitStack {
        if self.top == 8 {
            self
        } else {
            UnitStack {
                top: (self.top + 1) as i8,
                arr: vstd::array::spec_array_update(self.arr, self.top as int, Some(t)),
                repeat: self.repeat,
            }
        }
    }

    /// The stack after a pop, and what it returns (see `UnitStackView::pop_result`).
    pub open spec fn popped(self) -> (UnitStack, Option<TileType>) {
        if self.top < 1 {
            (self, None)
        } else if self.repeat {
            (self, self.arr@[self.top as int])
        } else {
            (UnitStack { top: (self.top - 1) as i8, ..self }, self.arr@[self.top - 1])
        }
    }

    /// `pushed` and `popped` act on the view as `push_result` and `pop_result` say.
    pub proof fn lemma_stack_ops(self, t: TileType)
        ensures
            self@.wf() ==> self.pushed(t)@ == self@.push_result(t),
            self@.can_pop() ==> self.popped().0@ == self@.pop_result().0 && self.popped().1 == self@.pop_result().1,
    {
        if self@.wf() && self.top != 8 {
            vstd::array::axiom_spec_array_update(self.arr, self.top as int, Some(t));
        }
    }

    /// Every unit stack has exactly eight slots.
    pub proof fn lemma_eight_slots(&self)
        ensures
            self@.slots.len() == 8,
    {
    }

    /// Whether the stack is well formed and can be popped.
    pub fn is_poppable(&self) -> (r: bool)
        ensures
            r == (self@.wf() && self@.can_pop()),
    {
        0 <= self.top && self.top <= 8 && !(self.repeat && self.top > 7)
    }

    /// Whether popping stays inside the slots.
    pub fn pop_in_bounds(&self) -> (r: bool)
        ensures
            r == self@.can_pop(),
    {
        proof {
            self.lemma_eight_slots();
        }
        !(self.top >= 1 && self.top > (if self.repeat { 7 } else { 8 }))
    }

    /// Whether the stack is well formed (its top inside the slots).
    pub fn is_well_formed(&self) -> (r: bool)
        ensures
            r == self@.wf(),
    {
        0 <= self.top && self.top <= 8
    }

    /// Whether peeking stays inside the slots.
    pub fn is_peekable(&self) -> (r: bool)
        ensures
            r == self@.can_peek(),
    {
        self.top < 8
    }

    /// An empty, non-repeating stack.
    pub fn new() -> (s: UnitStack)
        ensures
            s@.is_fresh(),
            s@.wf(),
    {
        let s = UnitStack { top: 0, arr: [None;8], repeat: false };
        assert(s@.slots =~= Seq::new(8, |i: int| None::<TileType>));
        s
    }

    /// Takes the unit type at the top of the stack (see `pop_result`).
    pub fn pop(&mut self) -> (r: Option<TileType>)
        requires
            old(self)@.can_pop(),
        ensures
            final(self)@ == old(self)@.pop_result().0,
            r == old(self)@.pop_result().1,
            (*final(self), r) == old(self).popped(),
    {
        if self.top < 1 {
            return None;
        } else {
            if self.repeat {
                return self.arr[self.top as usize];
            } else {
                self.top = self.top - 1;
                return self.arr[self.top as usize];
            }
        }
    }

    /// Reads the slot at the top index (see `peek_result`).
    pub fn peek(&mut self) -> (r: Option<TileType>)
        requires
            old(self)@.can_peek(),
        ensures
            *final(self) == *old(self),
            r == old(self)@.peek_result(),
    {
        if self.top < 0 {
            return None;
        } else {
            return self.arr[self.top as usize];
        }
    }

    /// Puts a unit type on the stack unless it is full.
    pub fn push(&mut self, tiletype: TileType)
        requires
            old(self)@.wf(),
        ensures
            final(self)@ == old(self)@.push_result(tiletype),
            final(self)@.wf(),
            *final(self) == old(self).pushed(tiletype),
    {
        if self.top != 8 {
            let ghost before = self.arr;
            self.arr[self.top as usize] = Some(tiletype);
            proof {
                vstd::array::axiom_spec_array_update(before, old(self).top as int, Some(tiletype));
                vstd::array::axiom_array_ext_equal(self.arr, vstd::array::spec_array_update(before, old(self).top as int, Some(tiletype)));
            }
            self.top = self.top + 1;
        }
    }
}

/// Pushing onto a non-repeating stack with room and then popping gives back
/// the pushed unit type and the stack's former top.
pub proof fn law_push_then_pop(s: UnitStackView, t: TileType)
    requires
        s.wf(),
        s.top < 8,
        !s.repeat,
    ensures
        s.push_result(t).can_pop(),
        s.push_result(t).pop_result().1 == Some(t),
        s.push_result(t).pop_result().0.top == s.top,
        s.push_result(t).pop_result().0.slots == s.slots.update(s.top, Some(t)),
{
}

/// Popping an empty stack gives nothing and leaves it unchanged.
pub proof fn law_pop_empty(s: UnitStackView)
    requires
        s.top < 1,
    ensures
        s.pop_result() == (s, None::<TileType>),
{
}

/// A well-formed stack stays well-formed through pushes and through pops of
/// a non-repeating stack.
pub proof fn law_stack_stays_wf(s: UnitStackView, t: TileType)
    requires
        s.wf(),
    ensures
        s.push_result(t).wf(),
        !s.repeat ==> s.can_pop() && s.pop_result().0.wf(),
{
}

/// Popping never takes the top below zero, and a pop that returns a unit
/// type moves the top down by exactly one (or keeps it, when repeating).
pub proof fn law_pop_never_below_zero(s: UnitStackView)
    requires
        s.top >= 0,
    ensures
        s.pop_result().0.top >= 0,
        s.pop_result().0.top == (if s.top >= 1 && !s.repeat { s.top - 1 } else { s.top }),
{
}

/// A unit on the map: its type and its owner.
#[derive(PartialEq, Eq, Structural, Copy, Clone, Debug)]
pub struct Unit {
    pub unit_type: TileType,
    pub playernum: i32,
}

/// Combat statistics of a unit, in fixed point: health and attack in tenths
/// of a point, chances in percent, speed in tiles.
#[derive(PartialEq, Eq, Structural, Copy, Clone, Debug)]
pub struct Stat {
    pub speed: i32,
    pub health: i32,
    pub attack: i32,
    pub resistance: u32,
    pub multi_hit_chance: u32,
    pub multi_hit_amount: u32,
    pub crit_chance: u32,
    pub exhausted: bool,
}

/// All-zero statistics.
pub open spec fn zero_stat() -> Stat {
    Stat {
        speed: 0,
        health: 0,
        attack: 0,
        resistance: 0,
        multi_hit_chance: 0,
        multi_hit_amount: 0,
        crit_chance: 0,
        exhausted: false,
    }
}

impl Default for Stat {
    fn default() -> (s: Stat)
        ensures
            s == zero_stat(),
    {
        Stat {
            speed: 0,
            health: 0,
            attack: 0,
            resistance: 0,
            multi_hit_chance: 0,
            multi_hit_amount: 0,
            crit_chance: 0,
            exhausted: false,
        }
    }
}

} // verus!

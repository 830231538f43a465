use vstd::prelude::*;

verus! {

/// A player and the resources they hold.
#[derive(PartialEq, Eq, Structural, Copy, Clone, Debug)]
pub struct Player {
    pub num: i8,
    pub wood: i32,
    pub metal: i32,
    pub faith: i32,
    pub science: i32,
}

/// Who is playing: how many players there are and whose turn it is.
#[derive(PartialEq, Eq, Structural, Copy, Clone, Debug)]
pub struct PlayersInfo {
    pub count: i32,
    pub current_player_num: i32,
}

/// The player after paying `wood` wood, when they hold that much.
pub open spec fn paid_wood(p: Player, wood: int) -> (Player, bool) {
    if p.wood >= wood {
        (Player { wood: (p.wood - wood) as i32, ..p }, true)
    } else {
        (p, false)
    }
}

/// The player after paying `metal` metal, when they hold that much.
pub open spec fn paid_metal(p: Player, metal: int) -> (Player, bool) {
    if p.metal >= metal {
        (Player { metal: (p.metal - metal) as i32, ..p }, true)
    } else {
        (p, false)
    }
}

/// The player after paying both costs at once, when they hold both.
pub open spec fn paid_both(p: Player, wood: int, metal: int) -> (Player, bool) {
    if p.wood >= wood && p.metal >= metal {
        (Player { wood: (p.wood - wood) as i32, metal: (p.metal - metal) as i32, ..p }, true)
    } else {
        (p, false)
    }
}

impl Player {
    /// The player numbered `num`, with no resources.
    pub open spec fn new_spec(num: i8) -> Player {
        Player { num, wood: 0, metal: 0, faith: 0, science: 0 }
    }

    /// A new player with the given number and no resources.
    pub fn new(num: i8) -> (p: Player)
        ensures
            p == Player::new_spec(num),
    {
        Player { num, wood: 0, metal: 0, faith: 0, science: 0 }
    }

    /// Pays `amount` wood if the player holds that much; returns whether it was paid.
    pub fn sub_wood(&mut self, amount: i32) -> (paid: bool)
        requires
            old(self).wood >= amount ==> old(self).wood - amount <= i32::MAX,
        ensures
            (*final(self), paid) == paid_wood(*old(self), amount as int),
    {
        if self.wood >= amount {
            self.wood = self.wood - amount;
            true
        } else {
            false
        }
    }

    /// Pays `amount` metal if the player holds that much; returns whether it was paid.
    pub fn sub_metal(&mut self, amount: i32) -> (paid: bool)
        requires
            old(self).metal >= amount ==> old(self).metal - amount <= i32::MAX,
        ensures
            (*final(self), paid) == paid_metal(*old(self), amount as int),
    {
        if self.metal >= amount {
            self.metal = self.metal - amount;
            true
        } else {
            false
        }
    }

    /// Pays `wood` wood and `metal` metal together if the player holds both;
    /// otherwise pays nothing. Returns whether it was paid.
    pub fn sub_both(&mut self, wood: i32, metal: i32) -> (paid: bool)
        requires
            old(self).wood >= wood && old(self).metal >= metal ==> {
                &&& old(self).wood - wood <= i32::MAX
                &&& old(self).metal - metal <= i32::MAX
            },
        ensures
            (*final(self), paid) == paid_both(*old(self), wood as int, metal as int),
    {
        if self.wood >= wood && self.metal >= metal {
            self.wood = self.wood - wood;
            self.metal = self.metal - metal;
            true
        } else {
            false
        }
    }
}

/// A payment is made exactly when the player can afford it, never leaves a
/// resource negative that was not negative before, and a refused payment
/// leaves the player as they were.
pub proof fn law_payment_never_overdraws(p: Player, wood: int, metal: int)
    requires
        p.wood - wood <= i32::MAX,
        p.metal - metal <= i32::MAX,
    ensures
        paid_both(p, wood, metal).1 <==> (p.wood >= wood && p.metal >= metal),
        paid_both(p, wood, metal).1 ==> paid_both(p, wood, metal).0.wood >= 0
            && paid_both(p, wood, metal).0.metal >= 0,
        !paid_both(p, wood, metal).1 ==> paid_both(p, wood, metal).0 == p,
        paid_wood(p, wood).1 ==> paid_wood(p, wood).0.wood >= 0,
        !paid_wood(p, wood).1 ==> paid_wood(p, wood).0 == p,
        paid_metal(p, metal).1 ==> paid_metal(p, metal).0.metal >= 0,
        !paid_metal(p, metal).1 ==> paid_metal(p, metal).0 == p,
{
}

} // verus!

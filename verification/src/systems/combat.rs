use vstd::prelude::*;
use crate::components::unit::Stat;
use crate::rng;

verus! {

/// The dice of one attack, each a percentage roll from 0 to 99: whether the
/// target resists, whether the hit is critical, and one roll per extra hit.
/// The last two are only rolled when the target does not resist; otherwise
/// they are zero and empty.
#[derive(PartialEq, Eq, Debug)]
pub struct AttackRolls {
    pub resist_roll: u32,
    pub crit_roll: u32,
    pub multi_rolls: Vec<u32>,
}

/// Half of `a`, rounded toward zero.
pub open spec fn half(a: int) -> int {
    if a >= 0 { a / 2 } else { -((-a) / 2) }
}

/// The damage of a critical hit: one and a half times the attack.
pub open spec fn crit_damage(attack: int) -> int {
    attack + half(attack)
}

/// How many of the extra-hit rolls land (fall below the chance `chance`).
pub open spec fn landed(rolls: Seq<u32>, chance: u32) -> int
    decreases rolls.len(),
{
    if rolls.len() == 0 {
        0
    } else {
        landed(rolls.drop_last(), chance) + (if rolls.last() < chance { 1int } else { 0int })
    }
}

/// The damage `att` deals to `tgt` with the given dice: nothing when the
/// resist roll is below the target's resistance; otherwise a normal or
/// critical hit (crit roll below the attacker's crit chance) plus one normal
/// hit for each extra-hit roll below the attacker's own multi-hit chance.
pub open spec fn attack_damage(att: Stat, tgt: Stat, rolls: AttackRolls) -> int {
    if rolls.resist_roll >= tgt.resistance {
        (if rolls.crit_roll < att.crit_chance { crit_damage(att.attack as int) } else { att.attack as int })
            + att.attack * landed(rolls.multi_rolls@, att.multi_hit_chance)
    } else {
        0
    }
}

/// The most damage `att` can deal in one attack, whatever the dice.
pub open spec fn max_damage(att: Stat) -> int {
    let a = if att.attack >= 0 { att.attack as int } else { -(att.attack as int) };
    a + a / 2 + a * att.multi_hit_amount
}

/// The target's health stays within `i32` whatever the dice.
pub open spec fn damage_fits(att: Stat, tgt: Stat) -> bool {
    &&& tgt.health - max_damage(att) >= i32::MIN
    &&& tgt.health + max_damage(att) <= i32::MAX
}

/// The dice are well formed for an attack by `att` on `tgt`.
pub open spec fn rolls_valid(att: Stat, tgt: Stat, rolls: AttackRolls) -> bool {
    &&& rolls.resist_roll < 100
    &&& if rolls.resist_roll >= tgt.resistance {
        &&& rolls.crit_roll < 100
        &&& rolls.multi_rolls@.len() == att.multi_hit_amount
        &&& forall|i: int| 0 <= i < rolls.multi_rolls@.len() ==> #[trigger] rolls.multi_rolls@[i] < 100
    } else {
        &&& rolls.crit_roll == 0
        &&& rolls.multi_rolls@.len() == 0
    }
}

/// Damage partway through an attack, `c` for the first hit and `l` extra
/// hits, never exceeds the most damage the attacker can deal.
proof fn lemma_partial_damage(att: Stat, crit: bool, l: int)
    requires
        0 <= l <= att.multi_hit_amount,
    ensures
        ({
            let c = if crit { crit_damage(att.attack as int) } else { att.attack as int };
            -max_damage(att) <= c + att.attack * l <= max_damage(att)
        }),
{
    let a = att.attack as int;
    let n = att.multi_hit_amount as int;
    if a >= 0 {
        assert(0 <= a * l <= a * n) by (nonlinear_arith)
            requires a >= 0, 0 <= l <= n;
    } else {
        assert(-((-a) * n) <= a * l <= 0) by (nonlinear_arith)
            requires a < 0, 0 <= l <= n;
    }
}

proof fn lemma_landed_bounds(rolls: Seq<u32>, chance: u32)
    ensures
        0 <= landed(rolls, chance) <= rolls.len(),
    decreases rolls.len(),
{
    if rolls.len() > 0 {
        lemma_landed_bounds(rolls.drop_last(), chance);
    }
}

/// An attack never heals: with a non-negative attack value the damage is
/// between zero and the most the attacker can deal, and a resisted attack
/// deals none.
pub proof fn law_damage_bounded(att: Stat, tgt: Stat, rolls: AttackRolls)
    requires
        att.attack >= 0,
        rolls.multi_rolls@.len() <= att.multi_hit_amount,
    ensures
        0 <= attack_damage(att, tgt, rolls) <= max_damage(att),
        rolls.resist_roll < tgt.resistance ==> attack_damage(att, tgt, rolls) == 0,
{
    lemma_landed_bounds(rolls.multi_rolls@, att.multi_hit_chance);
    let l = landed(rolls.multi_rolls@, att.multi_hit_chance);
    lemma_partial_damage(att, rolls.crit_roll < att.crit_chance, l);
    assert(att.attack * l >= 0) by (nonlinear_arith)
        requires att.attack >= 0, l >= 0;
}

/// Whether the target's health stays within `i32` whatever the dice (see `damage_fits`).
pub fn check_damage_fits(att: &Stat, tgt: &Stat) -> (r: bool)
    ensures
        r == damage_fits(*att, *tgt),
{
    let a: i128 = if att.attack >= 0 { att.attack as i128 } else { -(att.attack as i128) };
    let n: i128 = att.multi_hit_amount as i128;
    assert(0 <= a * n <= 0x8000_0000 * 0xffff_ffff) by (nonlinear_arith)
        requires 0 <= a <= 0x8000_0000, 0 <= n <= 0xffff_ffff;
    let md: i128 = a + a / 2 + a * n;
    (tgt.health as i128) - md >= -0x8000_0000 && (tgt.health as i128) + md <= 0x7fff_ffff
}

/// Rolls the dice of an attack by `att` on `tgt`.
pub fn roll_attack(att: &Stat, tgt: &Stat) -> (rolls: AttackRolls)
    ensures
        rolls_valid(*att, *tgt, rolls),
{
    let mut r = rng::thread_rng();
    let resist_roll = rng::gen_range(&mut r, 0, 100);
    if resist_roll >= tgt.resistance {
        let crit_roll = rng::gen_range(&mut r, 0, 100);
        let mut multi_rolls: Vec<u32> = Vec::new();
        let mut k: u32 = 0;
        while k < att.multi_hit_amount
            invariant
                k <= att.multi_hit_amount,
                multi_rolls@.len() == k,
                forall|i: int| 0 <= i < multi_rolls@.len() ==> #[trigger] multi_rolls@[i] < 100,
            decreases att.multi_hit_amount - k,
        {
            let roll = rng::gen_range(&mut r, 0, 100);
            multi_rolls.push(roll);
            k = k + 1;
        }
        AttackRolls { resist_roll, crit_roll, multi_rolls }
    } else {
        AttackRolls { resist_roll, crit_roll: 0, multi_rolls: Vec::new() }
    }
}

/// The target's health after an attack by `att` with the given dice.
pub fn resolve_attack(att: &Stat, tgt: &Stat, rolls: &AttackRolls) -> (health: i32)
    requires
        damage_fits(*att, *tgt),
        rolls.multi_rolls@.len() <= att.multi_hit_amount,
    ensures
        health == tgt.health - attack_damage(*att, *tgt, *rolls),
{
    let mut health = tgt.health;
    if rolls.resist_roll >= tgt.resistance {
        let a = att.attack;
        let crit = rolls.crit_roll < att.crit_chance;
        proof {
            lemma_partial_damage(*att, crit, 0);
        }
        if crit {
            health = health - (a + a / 2);
        } else {
            health = health - a;
        }
        let mut k: usize = 0;
        while k < rolls.multi_rolls.len()
            invariant
                0 <= k <= rolls.multi_rolls@.len(),
                rolls.multi_rolls@.len() <= att.multi_hit_amount,
                damage_fits(*att, *tgt),
                a == att.attack,
                crit == (rolls.crit_roll < att.crit_chance),
                rolls.resist_roll >= tgt.resistance,
                health == tgt.health - ((if crit { crit_damage(a as int) } else { a as int })
                    + a * landed(rolls.multi_rolls@.take(k as int), att.multi_hit_chance)),
            decreases rolls.multi_rolls@.len() - k,
        {
            let ghost before = rolls.multi_rolls@.take(k as int);
            let ghost after = rolls.multi_rolls@.take(k + 1);
            proof {
                lemma_landed_bounds(before, att.multi_hit_chance);
                assert(after.drop_last() =~= before);
                assert(after.last() == rolls.multi_rolls@[k as int]);
                assert(landed(after, att.multi_hit_chance) == landed(before, att.multi_hit_chance)
                    + (if rolls.multi_rolls@[k as int] < att.multi_hit_chance { 1int } else { 0int }));
                lemma_partial_damage(*att, crit, landed(after, att.multi_hit_chance));
                lemma_landed_bounds(after, att.multi_hit_chance);
                assert(a * landed(after, att.multi_hit_chance) == a * landed(before, att.multi_hit_chance)
                    + (if rolls.multi_rolls@[k as int] < att.multi_hit_chance { a as int } else { 0int })) by (nonlinear_arith)
                    requires landed(after, att.multi_hit_chance) == landed(before, att.multi_hit_chance)
                        + (if rolls.multi_rolls@[k as int] < att.multi_hit_chance { 1int } else { 0int });
            }
            if rolls.multi_rolls[k] < att.multi_hit_chance {
                health = health - a;
            }
            k = k + 1;
        }
        proof {
            assert(rolls.multi_rolls@.take(rolls.multi_rolls@.len() as int) =~= rolls.multi_rolls@);
        }
    }
    health
}

} // verus!

//! A small combat-resolution rules engine for two opposing characters.
//!
//! A [`Character`] is created from a [`FighterType`], which only fixes its
//! attack range. Damage flows from an attacker to a defender and is scaled
//! by the difference of their levels; healing is bounded above and has no
//! effect on the dead. Once a character's health has been driven to zero or
//! below by damage it is dead, and stays dead.

use vstd::prelude::*;

verus! {

/// The archetype chosen when a character is created. It determines the
/// character's attack range and has no identity afterwards: it is not
/// stored on the character.
pub enum FighterType {
    Melee,
    Ranged,
}

/// The attack range that an archetype grants at creation: 2 for melee
/// fighters, 20 for ranged fighters.
pub open spec fn archetype_range(fighter_type: FighterType) -> int {
    match fighter_type {
        FighterType::Melee => 2,
        FighterType::Ranged => 20,
    }
}

/// The damage that actually lands, after level-difference scaling.
///
/// `level_difference` is the attacker's level minus the defender's level.
/// An attacker five or more levels above the defender deals half again as
/// much damage; one five or more levels below deals half; in between the
/// amount is unchanged. Division truncates (the amount is non-negative).
pub open spec fn scaled_damage(level_difference: int, amount: int) -> int {
    if level_difference >= 5 {
        amount + amount / 2
    } else if level_difference <= -5 {
        amount / 2
    } else {
        amount
    }
}

/// The health that results from healing `health` by `amount`: the sum,
/// clamped above at 1000.
pub open spec fn healed_health(health: int, amount: int) -> int {
    if health + amount <= 1000 {
        health + amount
    } else {
        1000
    }
}

/// One combatant. `level` carries no engine-owned progression logic and may
/// be changed freely by the caller; `max_range` is fixed at creation and
/// consumed by no rule in this core (it is reserved for a targeting rule).
///
/// Health is clamped at 1000 from above by healing only; damage may drive
/// it arbitrarily far below zero, within the bounds of the machine integer.
pub struct Character {
    pub health: i32,
    pub level: i32,
    pub alive: bool,
    pub max_range: i32,
}

impl Character {
    /// A character that the engine's own operations have produced satisfies
    /// this: it is only dead once damage has driven its health to zero or
    /// below, and both [`Character::heal`] and [`Character::deal_damage`]
    /// preserve the condition.
    pub open spec fn dead_implies_drained(self) -> bool {
        !self.alive ==> self.health <= 0
    }

    /// A new character: full health, first level, alive, with the range its
    /// archetype grants.
    pub fn new(fighter_type: FighterType) -> (character: Character)
        ensures
            character.health == 1000,
            character.level == 1,
            character.alive,
            character.max_range == archetype_range(fighter_type),
            character.dead_implies_drained(),
    {
        let max_range: i32 = match fighter_type {
            FighterType::Melee => 2,
            FighterType::Ranged => 20,
        };
        Character { health: 1000, level: 1, alive: true, max_range }
    }

    /// Restore `health` points, never past 1000. A dead character is left
    /// entirely unchanged: healing cannot resurrect, nor move the health of
    /// the dead.
    pub fn heal(&mut self, health: i32)
        requires
            0 <= health,
        ensures
            old(self).alive ==> final(self).health == healed_health(
                old(self).health as int,
                health as int,
            ),
            old(self).alive ==> final(self).health <= 1000,
            !old(self).alive ==> *final(self) == *old(self),
            final(self).alive == old(self).alive,
            final(self).level == old(self).level,
            final(self).max_range == old(self).max_range,
            old(self).dead_implies_drained() ==> final(self).dead_implies_drained(),
    {
        if !self.alive {
            return;
        }
        let sum: i64 = (self.health as i64) + (health as i64);
        self.health = if sum < 1000 {
            sum as i32
        } else {
            1000
        };
    }

    /// Strike `defender` with a base `damage`, scaled by the level
    /// difference as [`scaled_damage`] says. The defender's health drops by
    /// the scaled amount, with no floor, and it is alive afterwards exactly
    /// when its health is still positive: a defender already at or below
    /// zero health stays dead, however small the hit.
    ///
    /// The attacker is never changed. That attacker and defender are
    /// distinct is guaranteed by the shape of the call itself: the
    /// exclusive borrow of the defender cannot alias `self`. `distance` is
    /// accepted but consumed by no rule in this core (it is reserved for a
    /// range check against `max_range`).
    pub fn deal_damage(&self, defender: &mut Character, damage: i32, distance: i32)
        requires
            0 <= damage,
            i32::MIN <= old(defender).health - scaled_damage(
                self.level - old(defender).level,
                damage as int,
            ),
        ensures
            final(defender).health == old(defender).health - scaled_damage(
                self.level - old(defender).level,
                damage as int,
            ),
            final(defender).alive == (final(defender).health > 0),
            final(defender).level == old(defender).level,
            final(defender).max_range == old(defender).max_range,
            old(defender).health <= 0 ==> !final(defender).alive,
            final(defender).dead_implies_drained(),
    {
        let level_difference: i64 = (self.level as i64) - (defender.level as i64);
        let base: u64 = damage as u64;
        let actual_damage: u64 = if level_difference >= 5 {
            base + base / 2
        } else if level_difference <= -5 {
            base / 2
        } else {
            base
        };
        let new_health: i64 = (defender.health as i64) - (actual_damage as i64);
        defender.health = new_health as i32;
        defender.alive = defender.health > 0;
    }
}

/// Scaling law for a dominant attacker: at a level advantage of five or
/// more, a non-negative amount becomes half again as much, truncating.
pub proof fn lemma_level_advantage_scaling(level_difference: int, amount: int)
    requires
        level_difference >= 5,
        0 <= amount,
    ensures
        scaled_damage(level_difference, amount) == amount + amount / 2,
{
}

/// Scaling law for an outmatched attacker: at a level disadvantage of five
/// or more, a non-negative amount is halved, truncating.
pub proof fn lemma_level_disadvantage_scaling(level_difference: int, amount: int)
    requires
        level_difference <= -5,
        0 <= amount,
    ensures
        scaled_damage(level_difference, amount) == amount / 2,
{
}

/// Inside the band of level differences strictly between -5 and 5, damage
/// is not modified at all.
pub proof fn lemma_no_scaling_band(level_difference: int, amount: int)
    requires
        -5 < level_difference < 5,
    ensures
        scaled_damage(level_difference, amount) == amount,
{
}

/// Scaled damage never turns a hit into a gift: a non-negative amount stays
/// non-negative through scaling, whatever the level difference. This is why
/// a dead defender can never be brought back by further damage.
pub proof fn lemma_scaled_damage_nonnegative(level_difference: int, amount: int)
    requires
        0 <= amount,
    ensures
        0 <= scaled_damage(level_difference, amount),
{
}

} // verus!

//! Outcome resolvers: damage, critical hits, escape chance, hit points.

use vstd::prelude::*;
use crate::constants::{
    AGILITY_ESCAPE_BONUS, BASE_DAMAGE_REDUCTION, BASE_ESCAPE_CHANCE, BASE_HP_MULTIPLIER,
    CRITICAL_MULTIPLIER, XP_PER_LEVEL_BASE,
};
use crate::state::Attributes;

verus! {

/// Damage of a hit: the attack less half the defense (rounded down), and
/// never below one.
pub open spec fn damage_of(attack: int, defense: int) -> int {
    if attack - defense / 2 >= 1 {
        attack - defense / 2
    } else {
        1
    }
}

/// Damage of a critical hit: twice the base damage, capped at the largest
/// 32-bit value.
pub open spec fn critical_damage_of(base_damage: int) -> int {
    if base_damage * 2 <= u32::MAX {
        base_damage * 2
    } else {
        u32::MAX as int
    }
}

/// Escape chance in basis points: 3000, plus 100 for each point by which the
/// fleeing side's agility exceeds the other's, the total then held within
/// 1000 and 8000.
pub open spec fn escape_chance_of(agility_self: int, agility_other: int) -> int {
    let bonus = if agility_self > agility_other {
        100 * (agility_self - agility_other)
    } else {
        0
    };
    let total = 3000 + bonus;
    if total < 1000 {
        1000
    } else if total > 8000 {
        8000
    } else {
        total
    }
}

/// Hit points that a vitality gives.
pub open spec fn hp_of(vitality: int) -> int {
    vitality * 10
}

/// Experience that the step from `level` to the next one costs.
pub open spec fn xp_required_of(level: int) -> int {
    1000 * (level + 1)
}

/// Calculate damage with defense reduction.
pub fn calculate_damage(attack: u16, defense: u16) -> (damage: u32)
    ensures
        damage == damage_of(attack as int, defense as int),
        1 <= damage <= 65535,
{
    let base_damage: u32 = attack as u32;
    let damage_reduction: u32 = (defense as u32) / (BASE_DAMAGE_REDUCTION as u32);
    let reduced: u32 = base_damage.saturating_sub(damage_reduction);
    if reduced >= 1 {
        reduced
    } else {
        1
    }
}

/// Calculate critical hit damage.
pub fn calculate_critical_damage(base_damage: u32) -> (damage: u32)
    ensures
        damage == critical_damage_of(base_damage as int),
{
    if base_damage <= u32::MAX / (CRITICAL_MULTIPLIER as u32) {
        base_damage * (CRITICAL_MULTIPLIER as u32)
    } else {
        u32::MAX
    }
}

/// Calculate escape chance based on agility difference.
pub fn calculate_escape_chance(hero_agility: u16, enemy_agility: u16) -> (chance: u16)
    ensures
        chance == escape_chance_of(hero_agility as int, enemy_agility as int),
        1000 <= chance <= 8000,
        hero_agility <= enemy_agility ==> chance == 3000,
{
    let agility_diff: u16 = if hero_agility >= enemy_agility {
        hero_agility - enemy_agility
    } else {
        0
    };
    // A bonus that does not fit in 16 bits is held at the largest value, and
    // so is the total: both are far over the cap.
    let bonus: u16 = if agility_diff <= u16::MAX / AGILITY_ESCAPE_BONUS {
        agility_diff * AGILITY_ESCAPE_BONUS
    } else {
        u16::MAX
    };
    let total_chance: u16 = BASE_ESCAPE_CHANCE.saturating_add(bonus);
    if total_chance < 1000 {
        1000
    } else if total_chance > 8000 {
        8000
    } else {
        total_chance
    }
}

/// Calculate HP from vitality.
pub fn calculate_hp(vitality: u16) -> (hp: u32)
    ensures
        hp == hp_of(vitality as int),
{
    let multiplier: u32 = BASE_HP_MULTIPLIER as u32;
    (vitality as u32) * multiplier
}

/// Calculate XP required for a specific level.
pub fn calculate_xp_required(level: u16) -> (xp: u32)
    ensures
        xp == xp_required_of(level as int),
{
    XP_PER_LEVEL_BASE * (level as u32 + 1)
}

/// Calculate effective attributes including equipment bonuses: the base
/// attributes, with the bonus added stat by stat where there is one.
pub fn calculate_effective_attributes(
    base: &Attributes,
    equipment_bonus: Option<&Attributes>,
) -> (effective: Attributes)
    ensures
        effective == match equipment_bonus {
            Some(bonus) => base.plus(*bonus),
            None => *base,
        },
{
    let mut effective = *base;
    if let Some(bonus) = equipment_bonus {
        effective.add(bonus);
    }
    effective
}

/// Calculate battle priority: the hero acts first when its agility is at
/// least the enemy's. A tie goes to the hero, by convention.
pub fn calculate_battle_priority(hero_agility: u16, enemy_agility: u16) -> (hero_first: bool)
    ensures
        hero_first == (hero_agility >= enemy_agility),
{
    hero_agility >= enemy_agility
}

/// A hit always costs at least one hit point.
pub proof fn lemma_damage_at_least_one(attack: int, defense: int)
    ensures
        damage_of(attack, defense) >= 1,
{
}

/// Without an agility advantage the escape chance is the base chance.
pub proof fn lemma_escape_chance_base(agility_self: int, agility_other: int)
    requires
        agility_self <= agility_other,
    ensures
        escape_chance_of(agility_self, agility_other) == 3000,
{
}

/// The escape chance lies between 10% and 80% whatever the agilities are.
pub proof fn lemma_escape_chance_bounded(agility_self: int, agility_other: int)
    ensures
        1000 <= escape_chance_of(agility_self, agility_other) <= 8000,
{
}

} // verus!

//! Enemy templates: the read-only description of an opponent.

use vstd::prelude::*;
use crate::constants::{AI_AGGRESSIVE, AI_BALANCED, AI_DEFENSIVE, BASE_HP_MULTIPLIER};
use crate::state::Attributes;
use crate::utils::math::hp_of;
use crate::utils::text::{name_string, utf8_lossy, without_trailing_nul};

verus! {

/// An opponent as its author described it.
///
/// The behaviour flags are a bit mask. Its three values overlap: balanced
/// (3) has the bits of both aggressive (1) and defensive (2).
#[derive(Clone, Copy, Debug, PartialEq, Eq)]
pub struct EnemyTemplate {
    pub id: u32,
    pub name: [u8; 32],
    pub level: u16,
    pub base_attributes: Attributes,
    pub ai_flags: u8,
    pub xp_reward: u32,
    pub created_at: i64,
    pub bump: u8,
}

impl EnemyTemplate {
    /// The enemy's hit points at the start of a battle.
    pub fn calculate_hp(&self) -> (hp: u32)
        ensures
            hp == hp_of(self.base_attributes.vitality as int),
    {
        let multiplier: u32 = BASE_HP_MULTIPLIER as u32;
        (self.base_attributes.vitality as u32) * multiplier
    }

    pub fn get_name_string(&self) -> (text: String)
        ensures
            text@ == without_trailing_nul(utf8_lossy(self.name@)),
    {
        name_string(&self.name)
    }

    pub fn is_aggressive(&self) -> (flag: bool)
        ensures
            flag == (self.ai_flags & AI_AGGRESSIVE != 0),
    {
        self.ai_flags & AI_AGGRESSIVE != 0
    }

    pub fn is_defensive(&self) -> (flag: bool)
        ensures
            flag == (self.ai_flags & AI_DEFENSIVE != 0),
    {
        self.ai_flags & AI_DEFENSIVE != 0
    }

    pub fn is_balanced(&self) -> (flag: bool)
        ensures
            flag == (self.ai_flags & AI_BALANCED != 0),
    {
        self.ai_flags & AI_BALANCED != 0
    }
}

} // verus!

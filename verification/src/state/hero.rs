//! Heroes: level, experience, attributes and equipment.

use vstd::prelude::*;
use anchor_lang::prelude::Pubkey;
use crate::constants::{
    ATTRIBUTE_POINTS_PER_LEVEL, BASE_HP_MULTIPLIER, ITEM_TYPE_ACCESSORY, ITEM_TYPE_ARMOR,
    ITEM_TYPE_WEAPON, MAX_LEVEL, XP_PER_LEVEL_BASE,
};
use crate::errors::RpgError;
use crate::state::Attributes;
use crate::utils::math::{hp_of, xp_required_of};

verus! {

/// A hero of a player.
#[derive(Clone, Copy, Debug, PartialEq, Eq)]
pub struct Hero {
    pub owner: Pubkey,
    pub player: Pubkey,
    pub index: u8,
    pub level: u16,
    pub xp: u32,
    pub base_attributes: Attributes,
    pub equipped_weapon: Option<Pubkey>,
    pub equipped_armor: Option<Pubkey>,
    pub equipped_accessory: Option<Pubkey>,
    pub total_battles: u32,
    pub total_victories: u32,
    pub created_at: i64,
    pub bump: u8,
}

/// A 32-bit counter after `amount` more: it stops at the largest 32-bit
/// value and never wraps.
pub open spec fn count_after(count: u32, amount: int) -> u32 {
    if count + amount > u32::MAX {
        u32::MAX
    } else {
        (count + amount) as u32
    }
}

impl Hero {
    /// The hero is below the highest level and has the experience that the
    /// next level costs.
    pub open spec fn level_up_due(&self) -> bool {
        self.level < MAX_LEVEL && self.xp >= xp_required_of(self.level as int)
    }

    /// The hero one level up, the price of the level taken off its
    /// experience.
    pub open spec fn leveled_up(self) -> Hero {
        Hero {
            xp: (self.xp - xp_required_of(self.level as int)) as u32,
            level: (self.level + 1) as u16,
            ..self
        }
    }

    /// The hero with `amount` more experience.
    pub open spec fn with_xp(self, amount: u32) -> Hero {
        Hero { xp: count_after(self.xp, amount as int), ..self }
    }

    /// The hero with one more battle counted, and one more victory if it
    /// was one.
    pub open spec fn with_battle_counted(self, victory: bool) -> Hero {
        Hero {
            total_battles: count_after(self.total_battles, 1),
            total_victories: if victory {
                count_after(self.total_victories, 1)
            } else {
                self.total_victories
            },
            ..self
        }
    }

    pub fn xp_required_for_next_level(&self) -> (xp: u32)
        ensures
            xp == xp_required_of(self.level as int),
    {
        XP_PER_LEVEL_BASE * (self.level as u32 + 1)
    }

    pub fn can_level_up(&self) -> (can: bool)
        ensures
            can == self.level_up_due(),
    {
        self.level < MAX_LEVEL && self.xp >= self.xp_required_for_next_level()
    }

    /// Raises the hero by one level and takes the price of the level off
    /// its experience. Returns the attribute points to hand out. A hero
    /// that cannot level up is left as it is.
    pub fn level_up(&mut self) -> (points: Result<u16, RpgError>)
        ensures
            old(self).level_up_due() ==> points == Ok::<u16, RpgError>(ATTRIBUTE_POINTS_PER_LEVEL)
                && *final(self) == old(self).leveled_up(),
            !old(self).level_up_due() ==> points == Err::<u16, RpgError>(
                RpgError::InsufficientXp,
            ) && *final(self) == *old(self),
    {
        if !self.can_level_up() {
            return Err(RpgError::InsufficientXp);
        }
        self.xp = self.xp - self.xp_required_for_next_level();
        self.level = self.level + 1;
        Ok(ATTRIBUTE_POINTS_PER_LEVEL)
    }

    pub fn add_xp(&mut self, amount: u32)
        ensures
            *final(self) == old(self).with_xp(amount),
    {
        self.xp = self.xp.saturating_add(amount);
    }

    /// The hero's hit points at the start of a battle.
    pub fn calculate_hp(&self) -> (hp: u32)
        ensures
            hp == hp_of(self.base_attributes.vitality as int),
    {
        let multiplier: u32 = BASE_HP_MULTIPLIER as u32;
        (self.base_attributes.vitality as u32) * multiplier
    }

    /// The attributes with which the hero fights: its base attributes.
    /// Equipment adds nothing to them.
    pub fn calculate_total_attributes(&self) -> (total: Attributes)
        ensures
            total == self.base_attributes,
    {
        self.base_attributes
    }

    /// Counts one battle, and one victory if it was one.
    pub fn add_battle_stats(&mut self, victory: bool)
        ensures
            *final(self) == old(self).with_battle_counted(victory),
    {
        self.total_battles = self.total_battles.saturating_add(1);
        if victory {
            self.total_victories = self.total_victories.saturating_add(1);
        }
    }

    /// Puts an item into the slot of its type, in place of what was there.
    /// An unknown type is rejected and the hero left as it is.
    pub fn equip_item(&mut self, item_type: u8, item_key: Pubkey) -> (done: Result<(), RpgError>)
        ensures
            item_type == ITEM_TYPE_WEAPON ==> done.is_ok() && *final(self) == (Hero {
                equipped_weapon: Some(item_key),
                ..*old(self)
            }),
            item_type == ITEM_TYPE_ARMOR ==> done.is_ok() && *final(self) == (Hero {
                equipped_armor: Some(item_key),
                ..*old(self)
            }),
            item_type == ITEM_TYPE_ACCESSORY ==> done.is_ok() && *final(self) == (Hero {
                equipped_accessory: Some(item_key),
                ..*old(self)
            }),
            item_type > ITEM_TYPE_ACCESSORY ==> done == Err::<(), RpgError>(
                RpgError::WrongItemType,
            ) && *final(self) == *old(self),
    {
        if item_type == ITEM_TYPE_WEAPON {
            self.equipped_weapon = Some(item_key);
        } else if item_type == ITEM_TYPE_ARMOR {
            self.equipped_armor = Some(item_key);
        } else if item_type == ITEM_TYPE_ACCESSORY {
            self.equipped_accessory = Some(item_key);
        } else {
            return Err(RpgError::WrongItemType);
        }
        Ok(())
    }

    /// Empties the slot of the given type and returns what was in it. An
    /// unknown type is rejected and the hero left as it is.
    pub fn unequip_item(&mut self, item_type: u8) -> (removed: Result<Option<Pubkey>, RpgError>)
        ensures
            item_type == ITEM_TYPE_WEAPON ==> removed == Ok::<Option<Pubkey>, RpgError>(
                old(self).equipped_weapon,
            ) && *final(self) == (Hero { equipped_weapon: None, ..*old(self) }),
            item_type == ITEM_TYPE_ARMOR ==> removed == Ok::<Option<Pubkey>, RpgError>(
                old(self).equipped_armor,
            ) && *final(self) == (Hero { equipped_armor: None, ..*old(self) }),
            item_type == ITEM_TYPE_ACCESSORY ==> removed == Ok::<Option<Pubkey>, RpgError>(
                old(self).equipped_accessory,
            ) && *final(self) == (Hero { equipped_accessory: None, ..*old(self) }),
            item_type > ITEM_TYPE_ACCESSORY ==> removed == Err::<Option<Pubkey>, RpgError>(
                RpgError::WrongItemType,
            ) && *final(self) == *old(self),
    {
        if item_type == ITEM_TYPE_WEAPON {
            let removed = self.equipped_weapon;
            self.equipped_weapon = None;
            Ok(removed)
        } else if item_type == ITEM_TYPE_ARMOR {
            let removed = self.equipped_armor;
            self.equipped_armor = None;
            Ok(removed)
        } else if item_type == ITEM_TYPE_ACCESSORY {
            let removed = self.equipped_accessory;
            self.equipped_accessory = None;
            Ok(removed)
        } else {
            Err(RpgError::WrongItemType)
        }
    }
}

} // verus!

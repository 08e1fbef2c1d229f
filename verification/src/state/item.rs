//! Items of equipment.

use vstd::prelude::*;
use anchor_lang::prelude::Pubkey;
use crate::constants::{ITEM_TYPE_ACCESSORY, ITEM_TYPE_ARMOR, ITEM_TYPE_WEAPON};
use crate::state::Attributes;
use crate::utils::text::{name_string, utf8_lossy, without_trailing_nul};

verus! {

/// A piece of equipment that belongs to a hero.
#[derive(Clone, Copy, Debug, PartialEq, Eq)]
pub struct Item {
    pub hero: Pubkey,
    pub item_type: u8,
    pub rarity: u8,
    pub name: [u8; 32],
    pub bonus_attributes: Attributes,
    pub created_at: i64,
    pub bump: u8,
}

impl Item {
    pub fn get_name_string(&self) -> (text: String)
        ensures
            text@ == without_trailing_nul(utf8_lossy(self.name@)),
    {
        name_string(&self.name)
    }

    pub fn is_weapon(&self) -> (weapon: bool)
        ensures
            weapon == (self.item_type == ITEM_TYPE_WEAPON),
    {
        self.item_type == ITEM_TYPE_WEAPON
    }

    pub fn is_armor(&self) -> (armor: bool)
        ensures
            armor == (self.item_type == ITEM_TYPE_ARMOR),
    {
        self.item_type == ITEM_TYPE_ARMOR
    }

    pub fn is_accessory(&self) -> (accessory: bool)
        ensures
            accessory == (self.item_type == ITEM_TYPE_ACCESSORY),
    {
        self.item_type == ITEM_TYPE_ACCESSORY
    }
}

} // verus!

//! The records that the rules read and change.

use vstd::prelude::*;
use crate::constants::BASE_ATTRIBUTE_POINTS;

pub mod battle;
pub mod enemy_template;
pub mod hero;
pub mod item;
pub mod player;
pub mod roll_session;
pub mod treasury;

pub use battle::Battle;
pub use enemy_template::EnemyTemplate;
pub use hero::Hero;
pub use item::Item;
pub use player::Player;
pub use roll_session::RollSession;
pub use treasury::{RevenueType, Treasury};

verus! {

/// `Pubkey` of `anchor_lang`, the address of an account: an opaque reference
/// to a player, a hero, a session or a template. It is declared so that the
/// records can carry it. The rules never look inside, and nothing is
/// claimed of what it holds.
#[verifier::external_type_specification]
#[verifier::external_body]
pub struct ExPubkey(anchor_lang::prelude::Pubkey);

/// The eight stats of a hero or an enemy.
#[derive(Clone, Copy, Debug, PartialEq, Eq, Structural)]
pub struct Attributes {
    /// Physical damage.
    pub strength: u16,
    /// Attack speed, dodge.
    pub dexterity: u16,
    /// Hit points, defense.
    pub vitality: u16,
    /// Magic damage.
    pub intelligence: u16,
    /// Magic defense, mana.
    pub wisdom: u16,
    /// Evasion chance.
    pub agility: u16,
    /// Critical hit chance.
    pub precision: u16,
    /// Loot quality, rare drops.
    pub luck: u16,
}

/// The sum of two stats, capped at the largest 16-bit value.
pub open spec fn saturating_sum(a: u16, b: u16) -> u16 {
    if a + b > u16::MAX {
        u16::MAX
    } else {
        (a + b) as u16
    }
}

impl Attributes {
    /// The attributes with every stat at `value`.
    pub open spec fn uniform(value: u16) -> Attributes {
        Attributes {
            strength: value,
            dexterity: value,
            vitality: value,
            intelligence: value,
            wisdom: value,
            agility: value,
            precision: value,
            luck: value,
        }
    }

    /// Stat by stat, the capped sum of `self` and `other`.
    pub open spec fn plus(self, other: Attributes) -> Attributes {
        Attributes {
            strength: saturating_sum(self.strength, other.strength),
            dexterity: saturating_sum(self.dexterity, other.dexterity),
            vitality: saturating_sum(self.vitality, other.vitality),
            intelligence: saturating_sum(self.intelligence, other.intelligence),
            wisdom: saturating_sum(self.wisdom, other.wisdom),
            agility: saturating_sum(self.agility, other.agility),
            precision: saturating_sum(self.precision, other.precision),
            luck: saturating_sum(self.luck, other.luck),
        }
    }

    /// The sum of the eight stats.
    pub open spec fn sum(self) -> int {
        self.strength + self.dexterity + self.vitality + self.intelligence + self.wisdom
            + self.agility + self.precision + self.luck
    }

    /// The attributes of a fresh hero: every stat at the base value.
    pub fn new_base() -> (attrs: Attributes)
        ensures
            attrs == Attributes::uniform(BASE_ATTRIBUTE_POINTS),
    {
        Attributes {
            strength: BASE_ATTRIBUTE_POINTS,
            dexterity: BASE_ATTRIBUTE_POINTS,
            vitality: BASE_ATTRIBUTE_POINTS,
            intelligence: BASE_ATTRIBUTE_POINTS,
            wisdom: BASE_ATTRIBUTE_POINTS,
            agility: BASE_ATTRIBUTE_POINTS,
            precision: BASE_ATTRIBUTE_POINTS,
            luck: BASE_ATTRIBUTE_POINTS,
        }
    }

    /// Adds `other` to `self`, stat by stat; a stat that would pass the
    /// largest 16-bit value stays there.
    pub fn add(&mut self, other: &Attributes)
        ensures
            *final(self) == old(self).plus(*other),
    {
        self.strength = self.strength.saturating_add(other.strength);
        self.dexterity = self.dexterity.saturating_add(other.dexterity);
        self.vitality = self.vitality.saturating_add(other.vitality);
        self.intelligence = self.intelligence.saturating_add(other.intelligence);
        self.wisdom = self.wisdom.saturating_add(other.wisdom);
        self.agility = self.agility.saturating_add(other.agility);
        self.precision = self.precision.saturating_add(other.precision);
        self.luck = self.luck.saturating_add(other.luck);
    }

    /// The sum of the eight stats.
    pub fn total(&self) -> (total: u32)
        ensures
            total == self.sum(),
    {
        self.strength as u32 + self.dexterity as u32 + self.vitality as u32
            + self.intelligence as u32 + self.wisdom as u32 + self.agility as u32
            + self.precision as u32 + self.luck as u32
    }
}

impl Default for Attributes {
    fn default() -> (attrs: Attributes)
        ensures
            attrs == Attributes::uniform(0),
    {
        Attributes {
            strength: 0,
            dexterity: 0,
            vitality: 0,
            intelligence: 0,
            wisdom: 0,
            agility: 0,
            precision: 0,
            luck: 0,
        }
    }
}

} // verus!

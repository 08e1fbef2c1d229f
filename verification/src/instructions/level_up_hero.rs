//! The level-up of a hero.

use vstd::prelude::*;
use anchor_lang::prelude::Pubkey;
use crate::constants::ATTRIBUTE_POINTS_PER_LEVEL;
use crate::errors::RpgError;
use crate::state::Attributes;
use crate::state::hero::Hero;
use crate::utils::validation::validate_attribute_distribution;

verus! {

/// The points that a level-up adds to each stat.
#[derive(Clone, Copy, Debug, PartialEq, Eq, Structural)]
pub struct AttributeIncrease {
    pub strength: u16,
    pub dexterity: u16,
    pub vitality: u16,
    pub intelligence: u16,
    pub wisdom: u16,
    pub agility: u16,
    pub precision: u16,
    pub luck: u16,
}

/// What a level-up reports.
#[derive(Clone, Copy, Debug, PartialEq, Eq)]
pub struct HeroLeveledUp {
    pub player: Pubkey,
    pub hero: Pubkey,
    pub new_level: u16,
    pub attributes_added: AttributeIncrease,
}

impl AttributeIncrease {
    /// The increase as attributes.
    pub open spec fn attributes(self) -> Attributes {
        Attributes {
            strength: self.strength,
            dexterity: self.dexterity,
            vitality: self.vitality,
            intelligence: self.intelligence,
            wisdom: self.wisdom,
            agility: self.agility,
            precision: self.precision,
            luck: self.luck,
        }
    }
}

/// Why a level-up is rejected, or `None` where it is made: the hero has to
/// be due for it, and the points spent have to be exactly the points that
/// a level gives.
pub open spec fn level_up_rejection(hero: Hero, increase: AttributeIncrease) -> Option<RpgError> {
    if !hero.level_up_due() {
        Some(RpgError::InsufficientXp)
    } else if increase.attributes().sum() != ATTRIBUTE_POINTS_PER_LEVEL {
        Some(RpgError::InvalidAttributeDistribution)
    } else {
        None
    }
}

/// Raises `hero` by one level and adds the chosen points to its stats.
///
/// A level-up that is rejected leaves the hero as it was.
pub fn level_up_hero(
    player_key: Pubkey,
    hero_key: Pubkey,
    hero: &mut Hero,
    strength: u16,
    dexterity: u16,
    vitality: u16,
    intelligence: u16,
    wisdom: u16,
    agility: u16,
    precision: u16,
    luck: u16,
) -> (leveled: Result<HeroLeveledUp, RpgError>)
    ensures
        ({
            let increase = AttributeIncrease {
                strength,
                dexterity,
                vitality,
                intelligence,
                wisdom,
                agility,
                precision,
                luck,
            };
            match level_up_rejection(*old(hero), increase) {
                Some(error) => leveled == Err::<HeroLeveledUp, RpgError>(error) && *final(hero)
                    == *old(hero),
                None => leveled == Ok::<HeroLeveledUp, RpgError>(
                    HeroLeveledUp {
                        player: player_key,
                        hero: hero_key,
                        new_level: (old(hero).level + 1) as u16,
                        attributes_added: increase,
                    },
                ) && *final(hero) == (Hero {
                    base_attributes: old(hero).base_attributes.plus(increase.attributes()),
                    ..old(hero).leveled_up()
                }),
            }
        }),
{
    if !hero.can_level_up() {
        return Err(RpgError::InsufficientXp);
    }
    match validate_attribute_distribution(
        strength,
        dexterity,
        vitality,
        intelligence,
        wisdom,
        agility,
        precision,
        luck,
        ATTRIBUTE_POINTS_PER_LEVEL,
    ) {
        Err(error) => {
            return Err(error);
        },
        Ok(()) => {},
    }
    match hero.level_up() {
        Err(error) => {
            return Err(error);
        },
        Ok(_) => {},
    }
    let added = Attributes {
        strength,
        dexterity,
        vitality,
        intelligence,
        wisdom,
        agility,
        precision,
        luck,
    };
    hero.base_attributes.add(&added);

    Ok(
        HeroLeveledUp {
            player: player_key,
            hero: hero_key,
            new_level: hero.level,
            attributes_added: AttributeIncrease {
                strength,
                dexterity,
                vitality,
                intelligence,
                wisdom,
                agility,
                precision,
                luck,
            },
        },
    )
}

} // verus!

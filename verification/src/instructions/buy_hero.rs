//! The purchase of a hero.

use vstd::prelude::*;
use anchor_lang::prelude::Pubkey;
use crate::constants::{BASE_ATTRIBUTE_POINTS, HERO_PURCHASE_COST, MAX_HEROES_PER_PLAYER};
use crate::errors::RpgError;
use crate::state::Attributes;
use crate::state::hero::Hero;
use crate::state::player::Player;
use crate::state::treasury::{RevenueType, Treasury};
use crate::utils::validation::validate_sufficient_funds;

verus! {

/// What a purchase reports.
#[derive(Clone, Copy, Debug, PartialEq, Eq)]
pub struct HeroPurchased {
    pub player: Pubkey,
    pub hero: Pubkey,
    pub hero_index: u8,
    pub cost: u64,
    pub timestamp: i64,
}

/// Why a purchase is rejected, or `None` where it is made: the player has
/// to have room for a hero, the payer the price of one, and the index has
/// to be the next one of the player.
pub open spec fn purchase_rejection(player: Player, hero_index: u8, lamports: u64) -> Option<
    RpgError,
> {
    if player.hero_count >= MAX_HEROES_PER_PLAYER {
        Some(RpgError::MaxHeroesReached)
    } else if lamports < HERO_PURCHASE_COST {
        Some(RpgError::InsufficientFunds)
    } else if hero_index != player.hero_count {
        Some(RpgError::HeroIndexOutOfBounds)
    } else {
        None
    }
}

/// Buys a hero for `player`: a hero of level 1 with no experience, the
/// base attributes and no equipment.
///
/// `lamports` is what the payer holds. A purchase that is rejected changes
/// nothing. Otherwise the price is booked with the treasury and the
/// player, and the new hero is returned with what is reported of it.
pub fn buy_hero(
    authority: Pubkey,
    player_key: Pubkey,
    hero_key: Pubkey,
    player: &mut Player,
    treasury: &mut Treasury,
    hero_index: u8,
    lamports: u64,
    unix_timestamp: i64,
    bump: u8,
) -> (purchased: Result<(Hero, HeroPurchased), RpgError>)
    ensures
        match purchase_rejection(*old(player), hero_index, lamports) {
            Some(error) => purchased == Err::<(Hero, HeroPurchased), RpgError>(error)
                && *final(player) == *old(player) && *final(treasury) == *old(treasury),
            None => purchased == Ok::<(Hero, HeroPurchased), RpgError>(
                (
                    Hero {
                        owner: authority,
                        player: player_key,
                        index: hero_index,
                        level: 1,
                        xp: 0,
                        base_attributes: Attributes::uniform(BASE_ATTRIBUTE_POINTS),
                        equipped_weapon: None,
                        equipped_armor: None,
                        equipped_accessory: None,
                        total_battles: 0,
                        total_victories: 0,
                        created_at: unix_timestamp,
                        bump,
                    },
                    HeroPurchased {
                        player: player_key,
                        hero: hero_key,
                        hero_index,
                        cost: HERO_PURCHASE_COST,
                        timestamp: unix_timestamp,
                    },
                ),
            ) && *final(player) == old(player).with_hero_added().with_sol_spent(HERO_PURCHASE_COST)
                && *final(treasury) == old(treasury).with_revenue(
                HERO_PURCHASE_COST,
                RevenueType::Hero,
            ),
        },
{
    if !player.can_add_hero() {
        return Err(RpgError::MaxHeroesReached);
    }
    match validate_sufficient_funds(lamports, HERO_PURCHASE_COST) {
        Err(error) => {
            return Err(error);
        },
        Ok(()) => {},
    }
    if hero_index != player.hero_count {
        return Err(RpgError::HeroIndexOutOfBounds);
    }
    let hero = Hero {
        owner: authority,
        player: player_key,
        index: hero_index,
        level: 1,
        xp: 0,
        base_attributes: Attributes::new_base(),
        equipped_weapon: None,
        equipped_armor: None,
        equipped_accessory: None,
        total_battles: 0,
        total_victories: 0,
        created_at: unix_timestamp,
        bump,
    };

    player.add_hero();
    player.add_sol_spent(HERO_PURCHASE_COST);
    treasury.add_revenue(HERO_PURCHASE_COST, RevenueType::Hero);

    let event = HeroPurchased {
        player: player_key,
        hero: hero_key,
        hero_index,
        cost: HERO_PURCHASE_COST,
        timestamp: unix_timestamp,
    };
    Ok((hero, event))
}

} // verus!

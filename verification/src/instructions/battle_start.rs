//! The commit of a battle.

use vstd::prelude::*;
use anchor_lang::prelude::Pubkey;
use crate::constants::{BATTLE_ENTRY_COST, BATTLE_STATE_ACTIVE};
use crate::errors::RpgError;
use crate::state::battle::{zero_seed, Battle};
use crate::state::enemy_template::EnemyTemplate;
use crate::state::hero::Hero;
use crate::state::player::Player;
use crate::state::treasury::{RevenueType, Treasury};
use crate::utils::math::hp_of;
use crate::utils::validation::validate_sufficient_funds;

verus! {

/// What the start of a battle reports.
#[derive(Clone, Copy, Debug, PartialEq, Eq)]
pub struct BattleStarted {
    pub player: Pubkey,
    pub hero: Pubkey,
    pub enemy_template: Pubkey,
    pub battle: Pubkey,
    pub hero_hp: u32,
    pub enemy_hp: u32,
    pub slot: u64,
}

/// The battle of `hero` against `enemy_template` as it is committed at
/// `slot`: both sides at full hit points, no turn taken, no seed bound.
pub open spec fn fresh_battle(
    hero_key: Pubkey,
    enemy_template_key: Pubkey,
    hero: Hero,
    enemy_template: EnemyTemplate,
    nonce: u64,
    slot: u64,
    unix_timestamp: i64,
    bump: u8,
    battle: Battle,
) -> bool {
    &&& battle.hero == hero_key
    &&& battle.enemy_template == enemy_template_key
    &&& battle.hero_hp == hp_of(hero.base_attributes.vitality as int)
    &&& battle.enemy_hp == hp_of(enemy_template.base_attributes.vitality as int)
    &&& battle.hero_max_hp == battle.hero_hp
    &&& battle.enemy_max_hp == battle.enemy_hp
    &&& battle.rng_seed@ == zero_seed()
    &&& battle.turn == 0
    &&& battle.state == BATTLE_STATE_ACTIVE
    &&& battle.nonce == nonce
    &&& battle.commit_slot == slot
    &&& battle.created_at == unix_timestamp
    &&& battle.bump == bump
}

/// Commits a battle of `hero` against `enemy_template` at `slot`.
///
/// `lamports` is what the payer holds. With less than the entry cost the
/// battle is refused and nothing changes. Otherwise the entry cost is
/// booked with the treasury and the player, and the fresh battle is
/// returned with what is reported of it.
pub fn battle_start(
    player_key: Pubkey,
    hero_key: Pubkey,
    enemy_template_key: Pubkey,
    battle_key: Pubkey,
    player: &mut Player,
    hero: &Hero,
    enemy_template: &EnemyTemplate,
    treasury: &mut Treasury,
    nonce: u64,
    lamports: u64,
    slot: u64,
    unix_timestamp: i64,
    bump: u8,
) -> (started: Result<(Battle, BattleStarted), RpgError>)
    ensures
        lamports < BATTLE_ENTRY_COST ==> started.is_err() && started.unwrap_err()
            == RpgError::InsufficientFunds && *final(player) == *old(player) && *final(treasury)
            == *old(treasury),
        lamports >= BATTLE_ENTRY_COST ==> started.is_ok() && fresh_battle(
            hero_key,
            enemy_template_key,
            *hero,
            *enemy_template,
            nonce,
            slot,
            unix_timestamp,
            bump,
            started.unwrap().0,
        ) && started.unwrap().0.well_formed() && started.unwrap().1 == (BattleStarted {
            player: player_key,
            hero: hero_key,
            enemy_template: enemy_template_key,
            battle: battle_key,
            hero_hp: started.unwrap().0.hero_hp,
            enemy_hp: started.unwrap().0.enemy_hp,
            slot,
        }) && *final(player) == old(player).with_sol_spent(BATTLE_ENTRY_COST) && *final(treasury)
            == old(treasury).with_revenue(BATTLE_ENTRY_COST, RevenueType::Battle),
{
    match validate_sufficient_funds(lamports, BATTLE_ENTRY_COST) {
        Err(error) => {
            return Err(error);
        },
        Ok(()) => {},
    }
    let hero_max_hp: u32 = hero.calculate_hp();
    let enemy_max_hp: u32 = enemy_template.calculate_hp();
    let rng_seed: [u8; 32] = [0u8; 32];
    assert(rng_seed@ =~= zero_seed());

    let battle = Battle {
        hero: hero_key,
        enemy_template: enemy_template_key,
        hero_hp: hero_max_hp,
        enemy_hp: enemy_max_hp,
        hero_max_hp,
        enemy_max_hp,
        rng_seed,
        turn: 0,
        state: BATTLE_STATE_ACTIVE,
        nonce,
        commit_slot: slot,
        created_at: unix_timestamp,
        bump,
    };

    treasury.add_revenue(BATTLE_ENTRY_COST, RevenueType::Battle);
    player.add_sol_spent(BATTLE_ENTRY_COST);

    let event = BattleStarted {
        player: player_key,
        hero: hero_key,
        enemy_template: enemy_template_key,
        battle: battle_key,
        hero_hp: hero_max_hp,
        enemy_hp: enemy_max_hp,
        slot,
    };
    Ok((battle, event))
}

} // verus!

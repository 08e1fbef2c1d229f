//! The commit of a reward roll.

use vstd::prelude::*;
use anchor_lang::prelude::Pubkey;
use crate::constants::{ROLL_COST, ROLL_STATE_PENDING};
use crate::errors::RpgError;
use crate::state::player::Player;
use crate::state::roll_session::RollSession;
use crate::state::treasury::{RevenueType, Treasury};
use crate::utils::validation::validate_sufficient_funds;

verus! {

/// Commits a reward roll of a hero at `slot`.
///
/// `lamports` is what the payer holds. With less than the cost of a roll
/// the roll is refused and nothing changes. Otherwise the cost is booked
/// with the treasury and the player, and the pending session is returned:
/// it has no reward yet.
pub fn roll_start(
    player_key: Pubkey,
    hero_key: Pubkey,
    player: &mut Player,
    treasury: &mut Treasury,
    nonce: u64,
    lamports: u64,
    slot: u64,
    unix_timestamp: i64,
    bump: u8,
) -> (started: Result<RollSession, RpgError>)
    ensures
        lamports < ROLL_COST ==> started == Err::<RollSession, RpgError>(
            RpgError::InsufficientFunds,
        ) && *final(player) == *old(player) && *final(treasury) == *old(treasury),
        lamports >= ROLL_COST ==> started == Ok::<RollSession, RpgError>(
            RollSession {
                hero: hero_key,
                player: player_key,
                nonce,
                commit_slot: slot,
                state: ROLL_STATE_PENDING,
                reward_rarity: None,
                reward_xp: None,
                created_at: unix_timestamp,
                bump,
            },
        ) && started.unwrap().well_formed() && *final(player) == old(player).with_sol_spent(
            ROLL_COST,
        ) && *final(treasury) == old(treasury).with_revenue(ROLL_COST, RevenueType::Roll),
{
    match validate_sufficient_funds(lamports, ROLL_COST) {
        Err(error) => {
            return Err(error);
        },
        Ok(()) => {},
    }
    let roll_session = RollSession {
        hero: hero_key,
        player: player_key,
        nonce,
        commit_slot: slot,
        state: ROLL_STATE_PENDING,
        reward_rarity: None,
        reward_xp: None,
        created_at: unix_timestamp,
        bump,
    };
    treasury.add_revenue(ROLL_COST, RevenueType::Roll);
    player.add_sol_spent(ROLL_COST);
    Ok(roll_session)
}

} // verus!

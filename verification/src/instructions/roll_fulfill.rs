//! The reveal of a reward roll.

use vstd::prelude::*;
use anchor_lang::prelude::Pubkey;
use crate::constants::{RARITY_MYTHIC, ROLL_REWARDS, ROLL_STATE_PENDING};
use crate::errors::RpgError;
use crate::state::hero::Hero;
use crate::state::player::Player;
use crate::state::roll_session::RollSession;
use crate::utils::rng::{determine_roll_rarity, rarity_of_scaled, rarity_scale, rng_u32_of};
use crate::utils::slot_hashes::{
    is_slot_hashes_key, reveal_rejection, reveal_seed, slot_hash_of, slot_hashes_address,
};
use crate::utils::validation::reveal_slot_of;

verus! {

/// What a fulfilled roll reports.
#[derive(Clone, Copy, Debug, PartialEq, Eq)]
pub struct RollCompleted {
    pub player: Pubkey,
    pub hero: Pubkey,
    pub rarity: u8,
    pub xp_reward: u32,
    pub slot: u64,
}

/// The experience that a rarity tier grants.
pub open spec fn roll_reward_of(rarity: u8) -> u32 {
    if rarity == 0 {
        100
    } else if rarity == 1 {
        200
    } else if rarity == 2 {
        500
    } else if rarity == 3 {
        1000
    } else if rarity == 4 {
        2000
    } else {
        5000
    }
}

/// The rarity that a seed gives to a roll: the tier of its first draw.
pub open spec fn roll_rarity_of(seed: Seq<u8>) -> u8 {
    rarity_of_scaled(rarity_scale(rng_u32_of(seed, 0)))
}

/// Why a roll cannot be fulfilled, or `None` where it is.
///
/// A session that is no longer pending is never fulfilled again. A
/// pending one is fulfilled once its entropy can be bound.
pub open spec fn fulfill_rejection(
    roll_session: RollSession,
    current_slot: u64,
    table_is_sysvar: bool,
    data: Seq<u8>,
) -> Option<RpgError> {
    if roll_session.state != ROLL_STATE_PENDING {
        Some(RpgError::RollAlreadyCompleted)
    } else {
        reveal_rejection(roll_session.commit_slot as int, current_slot as int, table_is_sysvar, data)
    }
}

/// What a call to fulfill a roll does: the hero, the player and the
/// session on both sides of it, and what it returns.
///
/// A rejected call is reported with its error and changes nothing. A
/// fulfilled roll has the rarity that the hash of its reveal slot gives;
/// the reward of that rarity goes to the hero, into the session, and onto
/// the player's totals as a victory.
pub open spec fn fulfill_outcome(
    before: (Player, Hero, RollSession),
    after: (Player, Hero, RollSession),
    completed: Result<RollCompleted, RpgError>,
    player_key: Pubkey,
    hero_key: Pubkey,
    current_slot: u64,
    table_is_sysvar: bool,
    data: Seq<u8>,
) -> bool {
    match fulfill_rejection(before.2, current_slot, table_is_sysvar, data) {
        Some(error) => completed == Err::<RollCompleted, RpgError>(error) && after == before,
        None => {
            let seed = slot_hash_of(data, reveal_slot_of(before.2.commit_slot as int));
            let rarity = roll_rarity_of(seed);
            let xp = roll_reward_of(rarity);
            &&& completed == Ok::<RollCompleted, RpgError>(
                RollCompleted {
                    player: player_key,
                    hero: hero_key,
                    rarity,
                    xp_reward: xp,
                    slot: current_slot,
                },
            )
            &&& after.0 == before.0.with_battle_counted(true, xp as u64)
            &&& after.1 == before.1.with_xp(xp)
            &&& after.2 == before.2.completed(rarity, xp)
        },
    }
}

/// The experience that a rarity tier grants.
pub fn roll_reward(rarity: u8) -> (xp: u32)
    requires
        rarity <= RARITY_MYTHIC,
    ensures
        xp == roll_reward_of(rarity),
{
    ROLL_REWARDS[rarity as usize]
}

/// Fulfills a pending roll at `current_slot`: binds the entropy of its
/// reveal slot and grants the reward that it gives.
///
/// `table_is_sysvar` says whether the account that `slot_hashes_data` was
/// read from is the slot hashes sysvar.
pub fn resolve_roll(
    player_key: Pubkey,
    hero_key: Pubkey,
    player: &mut Player,
    hero: &mut Hero,
    roll_session: &mut RollSession,
    current_slot: u64,
    table_is_sysvar: bool,
    slot_hashes_data: &[u8],
) -> (completed: Result<RollCompleted, RpgError>)
    ensures
        fulfill_outcome(
            (*old(player), *old(hero), *old(roll_session)),
            (*final(player), *final(hero), *final(roll_session)),
            completed,
            player_key,
            hero_key,
            current_slot,
            table_is_sysvar,
            slot_hashes_data@,
        ),
        completed.is_ok() ==> final(roll_session).well_formed(),
{
    if !roll_session.is_pending() {
        return Err(RpgError::RollAlreadyCompleted);
    }
    let seed: [u8; 32] = match reveal_seed(
        roll_session.commit_slot,
        current_slot,
        table_is_sysvar,
        slot_hashes_data,
    ) {
        Err(error) => {
            return Err(error);
        },
        Ok(seed) => seed,
    };
    let rarity: u8 = determine_roll_rarity(&seed, 0);
    let xp_reward: u32 = roll_reward(rarity);

    hero.add_xp(xp_reward);
    roll_session.complete_roll(rarity, xp_reward);
    player.add_battle_stats(true, xp_reward as u64);

    Ok(RollCompleted { player: player_key, hero: hero_key, rarity, xp_reward, slot: current_slot })
}

/// Fulfills a pending roll at `current_slot`, reading the entropy from the
/// account with the address `slot_hashes_key` and the contents
/// `slot_hashes_data`.
pub fn roll_fulfill(
    player_key: Pubkey,
    hero_key: Pubkey,
    player: &mut Player,
    hero: &mut Hero,
    roll_session: &mut RollSession,
    current_slot: u64,
    slot_hashes_key: &Pubkey,
    slot_hashes_data: &[u8],
) -> (completed: Result<RollCompleted, RpgError>)
    ensures
        fulfill_outcome(
            (*old(player), *old(hero), *old(roll_session)),
            (*final(player), *final(hero), *final(roll_session)),
            completed,
            player_key,
            hero_key,
            current_slot,
            slot_hashes_address(*slot_hashes_key),
            slot_hashes_data@,
        ),
        completed.is_ok() ==> final(roll_session).well_formed(),
{
    let table_is_sysvar = is_slot_hashes_key(slot_hashes_key);
    resolve_roll(
        player_key,
        hero_key,
        player,
        hero,
        roll_session,
        current_slot,
        table_is_sysvar,
        slot_hashes_data,
    )
}

/// A roll is not fulfilled before the minimum delay has passed: the call
/// for a pending session is rejected as not ready yet.
pub proof fn lemma_fulfill_too_early(
    roll_session: RollSession,
    current_slot: u64,
    table_is_sysvar: bool,
    data: Seq<u8>,
)
    requires
        roll_session.state == ROLL_STATE_PENDING,
        current_slot < roll_session.commit_slot + 2,
    ensures
        fulfill_rejection(roll_session, current_slot, table_is_sysvar, data) == Some(
            RpgError::RandomnessNotResolved,
        ),
{
}

/// A roll is fulfilled once: whatever a fulfilled session is asked again,
/// the call is rejected.
pub proof fn lemma_fulfilled_once(
    roll_session: RollSession,
    rarity: u8,
    xp: u32,
    current_slot: u64,
    table_is_sysvar: bool,
    data: Seq<u8>,
)
    ensures
        fulfill_rejection(roll_session.completed(rarity, xp), current_slot, table_is_sysvar, data)
            == Some(RpgError::RollAlreadyCompleted),
{
}

} // verus!

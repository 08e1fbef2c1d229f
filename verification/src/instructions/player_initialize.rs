//! The creation of a player's profile.

use vstd::prelude::*;
use anchor_lang::prelude::Pubkey;
use crate::state::player::Player;

verus! {

/// What the creation of a profile reports.
#[derive(Clone, Copy, Debug, PartialEq, Eq)]
pub struct PlayerInitialized {
    pub player: Pubkey,
    pub authority: Pubkey,
    pub timestamp: i64,
}

/// Creates the profile of a player: no heroes, and every total at zero.
pub fn player_initialize(
    player_key: Pubkey,
    authority: Pubkey,
    unix_timestamp: i64,
    bump: u8,
) -> (initialized: (Player, PlayerInitialized))
    ensures
        initialized.0 == (Player {
            authority,
            hero_count: 0,
            total_battles: 0,
            total_victories: 0,
            total_xp_earned: 0,
            total_sol_spent: 0,
            created_at: unix_timestamp,
            bump,
        }),
        initialized.1 == (PlayerInitialized {
            player: player_key,
            authority,
            timestamp: unix_timestamp,
        }),
{
    let player = Player {
        authority,
        hero_count: 0,
        total_battles: 0,
        total_victories: 0,
        total_xp_earned: 0,
        total_sol_spent: 0,
        created_at: unix_timestamp,
        bump,
    };
    let event = PlayerInitialized { player: player_key, authority, timestamp: unix_timestamp };
    (player, event)
}

} // verus!

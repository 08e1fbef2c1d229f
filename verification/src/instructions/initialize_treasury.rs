//! The creation of the treasury.

use vstd::prelude::*;
use anchor_lang::prelude::Pubkey;
use crate::state::treasury::Treasury;

verus! {

/// What the creation of the treasury reports.
#[derive(Clone, Copy, Debug, PartialEq, Eq)]
pub struct TreasuryInitialized {
    pub treasury: Pubkey,
    pub authority: Pubkey,
    pub timestamp: i64,
}

/// Creates the treasury with empty books.
pub fn initialize_treasury(
    treasury_key: Pubkey,
    authority: Pubkey,
    unix_timestamp: i64,
    bump: u8,
) -> (initialized: (Treasury, TreasuryInitialized))
    ensures
        initialized.0 == (Treasury {
            authority,
            total_collected: 0,
            total_battles: 0,
            total_rolls: 0,
            total_heroes_created: 0,
            created_at: unix_timestamp,
            bump,
        }),
        initialized.1 == (TreasuryInitialized {
            treasury: treasury_key,
            authority,
            timestamp: unix_timestamp,
        }),
{
    let treasury = Treasury {
        authority,
        total_collected: 0,
        total_battles: 0,
        total_rolls: 0,
        total_heroes_created: 0,
        created_at: unix_timestamp,
        bump,
    };
    let event = TreasuryInitialized { treasury: treasury_key, authority, timestamp: unix_timestamp };
    (treasury, event)
}

} // verus!

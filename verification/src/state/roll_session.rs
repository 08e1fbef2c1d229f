//! The record of one reward roll.

use vstd::prelude::*;
use anchor_lang::prelude::Pubkey;
use crate::constants::{ROLL_STATE_COMPLETED, ROLL_STATE_PENDING};

verus! {

/// One reward roll of a hero: a commit-reveal session that is pending from
/// its commit until it is fulfilled, and carries its reward from then on.
#[derive(Debug, PartialEq, Eq)]
pub struct RollSession {
    pub hero: Pubkey,
    pub player: Pubkey,
    pub nonce: u64,
    pub commit_slot: u64,
    pub state: u8,
    pub reward_rarity: Option<u8>,
    pub reward_xp: Option<u32>,
    pub created_at: i64,
    pub bump: u8,
}

impl RollSession {
    /// A pending session has no reward; a completed one has both its rarity
    /// and its experience.
    pub open spec fn well_formed(&self) -> bool {
        &&& self.state == ROLL_STATE_PENDING ==> self.reward_rarity.is_none()
                && self.reward_xp.is_none()
        &&& self.state == ROLL_STATE_COMPLETED ==> self.reward_rarity.is_some()
                && self.reward_xp.is_some()
    }

    /// The session completed with its reward.
    pub open spec fn completed(self, rarity: u8, xp: u32) -> RollSession {
        RollSession {
            state: ROLL_STATE_COMPLETED,
            reward_rarity: Some(rarity),
            reward_xp: Some(xp),
            ..self
        }
    }

    pub fn is_pending(&self) -> (pending: bool)
        ensures
            pending == (self.state == ROLL_STATE_PENDING),
    {
        self.state == ROLL_STATE_PENDING
    }

    pub fn is_completed(&self) -> (completed: bool)
        ensures
            completed == (self.state == ROLL_STATE_COMPLETED),
    {
        self.state == ROLL_STATE_COMPLETED
    }

    /// Completes the session with its reward: state, rarity and experience
    /// are set together.
    pub fn complete_roll(&mut self, rarity: u8, xp: u32)
        ensures
            *final(self) == old(self).completed(rarity, xp),
            final(self).well_formed(),
    {
        self.state = ROLL_STATE_COMPLETED;
        self.reward_rarity = Some(rarity);
        self.reward_xp = Some(xp);
    }
}

} // verus!

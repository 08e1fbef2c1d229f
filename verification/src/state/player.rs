//! The profile of a player.

use vstd::prelude::*;
use anchor_lang::prelude::Pubkey;
use crate::constants::MAX_HEROES_PER_PLAYER;

verus! {

/// A player's profile and running totals.
#[derive(Clone, Copy, Debug, PartialEq, Eq)]
pub struct Player {
    pub authority: Pubkey,
    pub hero_count: u8,
    pub total_battles: u64,
    pub total_victories: u64,
    pub total_xp_earned: u64,
    pub total_sol_spent: u64,
    pub created_at: i64,
    pub bump: u8,
}

/// A running total after `amount` more: it stops at the largest 64-bit
/// value and never wraps.
pub open spec fn total_after(total: u64, amount: int) -> u64 {
    if total + amount > u64::MAX {
        u64::MAX
    } else {
        (total + amount) as u64
    }
}

impl Player {
    /// The player with one more hero. The count stays at 255 once it is
    /// there.
    pub open spec fn with_hero_added(self) -> Player {
        Player {
            hero_count: if self.hero_count == u8::MAX {
                u8::MAX
            } else {
                (self.hero_count + 1) as u8
            },
            ..self
        }
    }

    /// The player with one more battle counted, one more victory if it was
    /// one, and the experience gained.
    pub open spec fn with_battle_counted(self, victory: bool, xp_gained: u64) -> Player {
        Player {
            total_battles: total_after(self.total_battles, 1),
            total_victories: if victory {
                total_after(self.total_victories, 1)
            } else {
                self.total_victories
            },
            total_xp_earned: total_after(self.total_xp_earned, xp_gained as int),
            ..self
        }
    }

    /// The player with `amount` more spent.
    pub open spec fn with_sol_spent(self, amount: u64) -> Player {
        Player { total_sol_spent: total_after(self.total_sol_spent, amount as int), ..self }
    }

    pub fn can_add_hero(&self) -> (can: bool)
        ensures
            can == (self.hero_count < MAX_HEROES_PER_PLAYER),
    {
        self.hero_count < MAX_HEROES_PER_PLAYER
    }

    pub fn add_hero(&mut self)
        ensures
            *final(self) == old(self).with_hero_added(),
    {
        self.hero_count = self.hero_count.saturating_add(1);
    }

    /// Counts one battle, one victory if it was one, and the experience
    /// gained.
    pub fn add_battle_stats(&mut self, victory: bool, xp_gained: u64)
        ensures
            *final(self) == old(self).with_battle_counted(victory, xp_gained),
    {
        self.total_battles = self.total_battles.saturating_add(1);
        if victory {
            self.total_victories = self.total_victories.saturating_add(1);
        }
        self.total_xp_earned = self.total_xp_earned.saturating_add(xp_gained);
    }

    pub fn add_sol_spent(&mut self, amount: u64)
        ensures
            *final(self) == old(self).with_sol_spent(amount),
    {
        self.total_sol_spent = self.total_sol_spent.saturating_add(amount);
    }
}

} // verus!

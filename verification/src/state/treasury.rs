//! The treasury's books.

use vstd::prelude::*;
use anchor_lang::prelude::Pubkey;
use crate::state::player::total_after;

verus! {

/// What the treasury has collected, and from how many sales of each kind.
#[derive(Clone, Copy, Debug, PartialEq, Eq)]
pub struct Treasury {
    pub authority: Pubkey,
    pub total_collected: u64,
    pub total_battles: u64,
    pub total_rolls: u64,
    pub total_heroes_created: u64,
    pub created_at: i64,
    pub bump: u8,
}

/// What a payment was made for.
#[derive(Clone, Copy, Debug, PartialEq, Eq, Structural)]
pub enum RevenueType {
    Battle,
    Roll,
    Hero,
}

impl Treasury {
    /// The books after a payment of `amount` for a sale of the given kind.
    pub open spec fn with_revenue(self, amount: u64, revenue_type: RevenueType) -> Treasury {
        Treasury {
            total_collected: total_after(self.total_collected, amount as int),
            total_battles: if revenue_type == RevenueType::Battle {
                total_after(self.total_battles, 1)
            } else {
                self.total_battles
            },
            total_rolls: if revenue_type == RevenueType::Roll {
                total_after(self.total_rolls, 1)
            } else {
                self.total_rolls
            },
            total_heroes_created: if revenue_type == RevenueType::Hero {
                total_after(self.total_heroes_created, 1)
            } else {
                self.total_heroes_created
            },
            ..self
        }
    }

    /// Books `amount` and counts one sale of the given kind.
    pub fn add_revenue(&mut self, amount: u64, revenue_type: RevenueType)
        ensures
            *final(self) == old(self).with_revenue(amount, revenue_type),
    {
        self.total_collected = self.total_collected.saturating_add(amount);
        match revenue_type {
            RevenueType::Battle => {
                self.total_battles = self.total_battles.saturating_add(1);
            },
            RevenueType::Roll => {
                self.total_rolls = self.total_rolls.saturating_add(1);
            },
            RevenueType::Hero => {
                self.total_heroes_created = self.total_heroes_created.saturating_add(1);
            },
        }
    }
}

} // verus!
